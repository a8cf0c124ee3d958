//! Errors of the Ethereum API client, and the sizes of BLS12-381 values.

use vstd::prelude::*;
use vstd::string::StringExecFns;
use crate::service::ErrorKind;

verus! {

/// The number of bytes in a BLS12-381 public key.
pub const BLS_PUBLIC_KEY_BYTES_LEN: usize = 48;

/// The number of bytes in a BLS12-381 secret key.
pub const BLS_SECRET_KEY_BYTES_LEN: usize = 32;

/// The number of bytes in a BLS12-381 signature.
pub const BLS_SIGNATURE_BYTES_LEN: usize = 96;

/// How a call of the Ethereum API client can fail.
#[derive(Debug)]
pub enum EthClientError {
    /// The provider failed; with what its transport said.
    ProviderError(String),
    /// A value did not parse; with the value and what the parser said.
    ParseError(String, String),
    /// There is no block of this number.
    BlockNotFound(u64),
}

/// The character of a decimal digit.
pub open spec fn digit(d: nat) -> char {
    (0x30 + d) as u8 as char
}

/// The decimal numeral of a number, without leading zeros.
pub open spec fn decimal(n: nat) -> Seq<char>
    decreases n,
{
    if n < 10 {
        seq![digit(n)]
    } else {
        decimal(n / 10).push(digit(n % 10))
    }
}

fn digit_text(d: u64) -> (r: &'static str)
    requires
        d < 10,
    ensures
        r@ == seq![digit(d as nat)],
{
    proof {
        reveal_strlit("0");
        reveal_strlit("1");
        reveal_strlit("2");
        reveal_strlit("3");
        reveal_strlit("4");
        reveal_strlit("5");
        reveal_strlit("6");
        reveal_strlit("7");
        reveal_strlit("8");
        reveal_strlit("9");
    }
    let r = if d == 0 {
        "0"
    } else if d == 1 {
        "1"
    } else if d == 2 {
        "2"
    } else if d == 3 {
        "3"
    } else if d == 4 {
        "4"
    } else if d == 5 {
        "5"
    } else if d == 6 {
        "6"
    } else if d == 7 {
        "7"
    } else if d == 8 {
        "8"
    } else {
        "9"
    };
    r
}

/// Writes a number in decimal.
pub fn decimal_text(n: u64) -> (r: String)
    ensures
        r@ == decimal(n as nat),
    decreases n,
{
    if n < 10 {
        String::from_str(digit_text(n))
    } else {
        let mut out = decimal_text(n / 10);
        out.append(digit_text(n % 10));
        out
    }
}

/// The message of each error.
pub open spec fn eth_message(e: EthClientError) -> Seq<char> {
    match e {
        EthClientError::ProviderError(text) => "provider error: "@ + text@,
        EthClientError::ParseError(value, text) => "parse error trying to parse "@ + value@ + ", "@
            + text@,
        EthClientError::BlockNotFound(number) => "block not found for block number "@ + decimal(
            number as nat,
        ),
    }
}

/// The kind of each error.
pub open spec fn eth_kind(e: EthClientError) -> ErrorKind {
    match e {
        EthClientError::ProviderError(_) => ErrorKind::Transport,
        EthClientError::ParseError(_, _) => ErrorKind::Parse,
        EthClientError::BlockNotFound(_) => ErrorKind::Domain,
    }
}

impl EthClientError {
    pub fn kind(&self) -> (r: ErrorKind)
        ensures
            r == eth_kind(*self),
    {
        match self {
            EthClientError::ProviderError(_) => ErrorKind::Transport,
            EthClientError::ParseError(_, _) => ErrorKind::Parse,
            EthClientError::BlockNotFound(_) => ErrorKind::Domain,
        }
    }

    pub fn message(&self) -> (r: String)
        ensures
            r@ == eth_message(*self),
    {
        match self {
            EthClientError::ProviderError(text) => {
                let mut out = String::from_str("provider error: ");
                out.append(text.as_str());
                out
            },
            EthClientError::ParseError(value, text) => {
                let mut out = String::from_str("parse error trying to parse ");
                out.append(value.as_str());
                out.append(", ");
                out.append(text.as_str());
                out
            },
            EthClientError::BlockNotFound(number) => {
                let mut out = String::from_str("block not found for block number ");
                let numeral = decimal_text(*number);
                out.append(numeral.as_str());
                out
            },
        }
    }
}

} // verus!
