//! Byte strings: comparison, copying, splitting.

use vstd::prelude::*;
use vstd::slice::slice_to_vec;

verus! {

/// The contents of a list of byte strings.
pub open spec fn segments(list: Seq<Vec<u8>>) -> Seq<Seq<u8>> {
    Seq::new(list.len(), |i: int| list[i]@)
}

/// The contents of a list of lists of byte strings.
pub open spec fn segment_lists(lists: Seq<Vec<Vec<u8>>>) -> Seq<Seq<Seq<u8>>> {
    Seq::new(lists.len(), |i: int| segments(lists[i]@))
}

/// Tests two byte strings for equality.
pub fn bytes_eq(a: &[u8], b: &[u8]) -> (r: bool)
    ensures
        r == (a@ == b@),
{
    if a.len() != b.len() {
        return false;
    }
    let mut i: usize = 0;
    while i < a.len()
        invariant
            a@.len() == b@.len(),
            i <= a@.len(),
            forall|j: int| 0 <= j < i ==> a@[j] == b@[j],
        decreases a@.len() - i,
    {
        if a[i] != b[i] {
            return false;
        }
        i += 1;
    }
    assert(a@ =~= b@);
    true
}

/// Tests two 32-byte values for equality.
pub fn bytes32_eq(a: &[u8; 32], b: &[u8; 32]) -> (r: bool)
    ensures
        r == (*a == *b),
{
    broadcast use vstd::array::group_array_axioms;

    let mut i: usize = 0;
    while i < 32
        invariant
            i <= 32,
            forall|j: int| 0 <= j < i ==> a[j] == b[j],
        decreases 32 - i,
    {
        if a[i] != b[i] {
            return false;
        }
        i += 1;
    }
    assert(*a =~= *b);
    true
}

/// Copies a byte string.
pub fn copy_bytes(a: &[u8]) -> (r: Vec<u8>)
    ensures
        r@ == a@,
{
    slice_to_vec(a)
}

/// Copies a list of byte strings.
pub fn copy_segments(list: &Vec<Vec<u8>>) -> (r: Vec<Vec<u8>>)
    ensures
        segments(r@) == segments(list@),
{
    let mut out: Vec<Vec<u8>> = Vec::new();
    let mut i: usize = 0;
    while i < list.len()
        invariant
            i <= list.len(),
            out.len() == i,
            forall|j: int| 0 <= j < i ==> out@[j]@ == list@[j]@,
        decreases list.len() - i,
    {
        out.push(copy_bytes(list[i].as_slice()));
        i += 1;
    }
    out
}

/// Tests two lists of byte strings for equality.
pub fn segments_eq(a: &Vec<Vec<u8>>, b: &Vec<Vec<u8>>) -> (r: bool)
    ensures
        r == (segments(a@) == segments(b@)),
{
    if a.len() != b.len() {
        assert(segments(a@).len() != segments(b@).len());
        return false;
    }
    let mut i: usize = 0;
    while i < a.len()
        invariant
            a.len() == b.len(),
            i <= a.len(),
            forall|j: int| 0 <= j < i ==> a@[j]@ == b@[j]@,
        decreases a.len() - i,
    {
        if !bytes_eq(a[i].as_slice(), b[i].as_slice()) {
            assert(segments(a@)[i as int] == a@[i as int]@);
            return false;
        }
        i += 1;
    }
    assert(segments(a@) =~= segments(b@));
    true
}

/// Appends a byte string to a buffer.
pub fn append_bytes(dst: &mut Vec<u8>, src: &[u8])
    ensures
        final(dst)@ == old(dst)@ + src@,
{
    let mut tail = slice_to_vec(src);
    dst.append(&mut tail);
}

/// The eight bytes of `n`, most significant first.
pub open spec fn be_bytes(n: u64) -> Seq<u8> {
    Seq::new(8, |i: int| ((n >> (((7 - i) * 8) as u64)) & 0xff) as u8)
}

/// The eight bytes of `n`, most significant first.
pub fn u64_be_bytes(n: u64) -> (r: Vec<u8>)
    ensures
        r@ == be_bytes(n),
{
    let mut out: Vec<u8> = Vec::new();
    let mut i: usize = 0;
    while i < 8
        invariant
            i <= 8,
            out.len() == i,
            forall|j: int| 0 <= j < i ==> out@[j] == be_bytes(n)[j],
        decreases 8 - i,
    {
        let shift: u64 = ((7 - i) * 8) as u64;
        let low: u64 = (n >> shift) & 0xff;
        assert(low <= 0xff) by (bit_vector)
            requires
                low == (n >> shift) & 0xff,
        ;
        out.push(low as u8);
        i += 1;
    }
    out
}

/// The pieces of `s` between occurrences of `sep`. Reading from the left, a
/// separator opens a new, empty piece and any other byte extends the last
/// piece; so there is always one piece more than there are separators.
pub open spec fn split_on(s: Seq<u8>, sep: u8) -> Seq<Seq<u8>>
    decreases s.len(),
{
    if s.len() == 0 {
        seq![Seq::<u8>::empty()]
    } else {
        let before = split_on(s.drop_last(), sep);
        if s.last() == sep {
            before.push(Seq::<u8>::empty())
        } else {
            before.drop_last().push(before.last().push(s.last()))
        }
    }
}

/// The number of occurrences of `sep` in `s`.
pub open spec fn count_of(s: Seq<u8>, sep: u8) -> nat
    decreases s.len(),
{
    if s.len() == 0 {
        0
    } else {
        count_of(s.drop_last(), sep) + if s.last() == sep {
            1nat
        } else {
            0nat
        }
    }
}

/// A split has one piece more than there are separators, and no piece holds
/// the separator.
pub proof fn split_on_shape(s: Seq<u8>, sep: u8)
    ensures
        split_on(s, sep).len() == count_of(s, sep) + 1,
        forall|i: int, j: int|
            0 <= i < split_on(s, sep).len() && 0 <= j < split_on(s, sep)[i].len()
                ==> #[trigger] split_on(s, sep)[i][j] != sep,
    decreases s.len(),
{
    if s.len() > 0 {
        split_on_shape(s.drop_last(), sep);
    }
}

/// Splits a byte string at every occurrence of `sep`.
pub fn split_bytes(s: &[u8], sep: u8) -> (r: Vec<Vec<u8>>)
    ensures
        segments(r@) == split_on(s@, sep),
{
    let mut done: Vec<Vec<u8>> = Vec::new();
    let mut current: Vec<u8> = Vec::new();
    let mut i: usize = 0;
    while i < s.len()
        invariant
            i <= s@.len(),
            segments(done@).push(current@) == split_on(s@.take(i as int), sep),
        decreases s@.len() - i,
    {
        let b = s[i];
        assert(s@.take(i + 1).drop_last() =~= s@.take(i as int));
        if b == sep {
            done.push(current);
            current = Vec::new();
        } else {
            current.push(b);
        }
        i += 1;
    }
    assert(s@.take(s@.len() as int) =~= s@);
    done.push(current);
    done
}

} // verus!
