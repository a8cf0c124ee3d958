//! Choice of the proving circuit for one request.

use vstd::prelude::*;
use crate::height::Height;

verus! {

/// The circuits the prover offers.
///
/// `Misbehaviour` is never the outcome of [`select_program`]: it is asked for
/// directly when two conflicting headers for one height have been seen.
#[derive(Clone, Copy, Debug, PartialEq, Eq, Structural, Hash)]
pub enum ProofProgram {
    UpdateClient,
    Membership,
    UpdateClientAndMembership,
    Misbehaviour,
}

/// Why no circuit was chosen.
#[derive(Clone, Copy, Debug, PartialEq, Eq, Structural)]
pub enum SelectError {
    /// The request needs neither a header update nor a membership proof.
    NothingToProve,
}

/// The selection table.
pub open spec fn selected(needs_update: bool, needs_membership: bool) -> Result<
    ProofProgram,
    SelectError,
> {
    if needs_update && needs_membership {
        Ok(ProofProgram::UpdateClientAndMembership)
    } else if needs_update {
        Ok(ProofProgram::UpdateClient)
    } else if needs_membership {
        Ok(ProofProgram::Membership)
    } else {
        Err(SelectError::NothingToProve)
    }
}

/// A header update is needed exactly when the destination's trusted height
/// lies strictly before the source height that the request requires.
pub open spec fn update_needed(trusted: Height, required: Height) -> bool {
    trusted.precedes(required)
}

pub fn needs_header_update(trusted: &Height, required: &Height) -> (r: bool)
    ensures
        r == update_needed(*trusted, *required),
{
    trusted.lt(required)
}

/// Chooses the circuit from the two bits of the request.
pub fn select_program(needs_update: bool, needs_membership: bool) -> (r: Result<
    ProofProgram,
    SelectError,
>)
    ensures
        r == selected(needs_update, needs_membership),
{
    if needs_update {
        if needs_membership {
            Ok(ProofProgram::UpdateClientAndMembership)
        } else {
            Ok(ProofProgram::UpdateClient)
        }
    } else if needs_membership {
        Ok(ProofProgram::Membership)
    } else {
        Err(SelectError::NothingToProve)
    }
}

/// Chooses the circuit for a request that must be proved at `required`
/// against a destination that trusts `trusted`, with `path_count` key paths.
pub fn select_for_request(trusted: &Height, required: &Height, path_count: usize) -> (r: Result<
    ProofProgram,
    SelectError,
>)
    ensures
        r == selected(update_needed(*trusted, *required), path_count > 0),
{
    select_program(needs_header_update(trusted, required), path_count > 0)
}

impl ProofProgram {
    /// The circuit proves a header update.
    pub open spec fn updates_client(self) -> bool {
        self == ProofProgram::UpdateClient || self == ProofProgram::UpdateClientAndMembership
    }

    /// The circuit proves membership of key-value pairs.
    pub open spec fn proves_membership(self) -> bool {
        self == ProofProgram::Membership || self == ProofProgram::UpdateClientAndMembership
    }

    pub fn includes_update(&self) -> (r: bool)
        ensures
            r == self.updates_client(),
    {
        match self {
            ProofProgram::UpdateClient => true,
            ProofProgram::UpdateClientAndMembership => true,
            _ => false,
        }
    }

    pub fn includes_membership(&self) -> (r: bool)
        ensures
            r == self.proves_membership(),
    {
        match self {
            ProofProgram::Membership => true,
            ProofProgram::UpdateClientAndMembership => true,
            _ => false,
        }
    }
}

/// The table is total: every combination of the two bits has one outcome,
/// the four outcomes are the four rows, and a request that needs nothing is
/// the only one refused.
pub proof fn selection_table_total(needs_update: bool, needs_membership: bool)
    ensures
        selected(false, false) == Err::<ProofProgram, SelectError>(SelectError::NothingToProve),
        selected(false, true) == Ok::<ProofProgram, SelectError>(ProofProgram::Membership),
        selected(true, false) == Ok::<ProofProgram, SelectError>(ProofProgram::UpdateClient),
        selected(true, true) == Ok::<ProofProgram, SelectError>(
            ProofProgram::UpdateClientAndMembership,
        ),
        selected(needs_update, needs_membership) is Err <==> !needs_update && !needs_membership,
        selected(needs_update, needs_membership) matches Ok(p) ==> p != ProofProgram::Misbehaviour
            && p.updates_client() == needs_update && p.proves_membership() == needs_membership,
{
}

} // verus!
