//! Searching and comparing byte strings.
//!
//! Asset paths arrive as raw bytes, so every rule of the overlay is phrased
//! over `Seq<u8>`; the text patterns they are compared with are ASCII
//! literals taken by their UTF-8 encoding.

use vstd::prelude::*;
use vstd::string::*;

verus! {

/// `needle` stands in `hay` starting at index `at`.
pub open spec fn occurs_at(hay: Seq<u8>, needle: Seq<u8>, at: int) -> bool {
    &&& 0 <= at
    &&& at + needle.len() <= hay.len()
    &&& hay.subrange(at, at + needle.len()) == needle
}

/// `hay` begins with `needle`.
pub open spec fn is_prefix(hay: Seq<u8>, needle: Seq<u8>) -> bool {
    occurs_at(hay, needle, 0)
}

/// `hay` ends with `needle`.
pub open spec fn is_suffix(hay: Seq<u8>, needle: Seq<u8>) -> bool {
    occurs_at(hay, needle, hay.len() - needle.len())
}

/// `needle` stands somewhere in `hay`.
pub open spec fn contains_seq(hay: Seq<u8>, needle: Seq<u8>) -> bool {
    exists|at: int| occurs_at(hay, needle, at)
}

/// `hay` contains the bytes of `text`.
pub open spec fn mentions(hay: Seq<u8>, text: &str) -> bool {
    contains_seq(hay, text.spec_bytes())
}

/// `hay` begins with the bytes of `text`.
pub open spec fn begins_with(hay: Seq<u8>, text: &str) -> bool {
    is_prefix(hay, text.spec_bytes())
}

/// `hay` ends with the bytes of `text`.
pub open spec fn finishes_with(hay: Seq<u8>, text: &str) -> bool {
    is_suffix(hay, text.spec_bytes())
}

/// Tells whether `needle` stands in `hay` at index `at`.
pub fn matches_at(hay: &[u8], needle: &[u8], at: usize) -> (r: bool)
    ensures
        r == occurs_at(hay@, needle@, at as int),
{
    if at > hay.len() || needle.len() > hay.len() - at {
        return false;
    }
    let mut i: usize = 0;
    while i < needle.len()
        invariant
            at + needle.len() <= hay.len(),
            i <= needle.len(),
            forall|j: int| 0 <= j < i ==> hay@[at + j] == needle@[j],
        decreases needle.len() - i,
    {
        if hay[at + i] != needle[i] {
            assert(hay@.subrange(at as int, at + needle@.len())[i as int] == hay@[at + i]);
            return false;
        }
        i += 1;
    }
    assert(hay@.subrange(at as int, at + needle@.len()) =~= needle@);
    true
}

/// Tells whether `hay` begins with `needle`.
pub fn starts_with(hay: &[u8], needle: &[u8]) -> (r: bool)
    ensures
        r == is_prefix(hay@, needle@),
{
    matches_at(hay, needle, 0)
}

/// Tells whether `hay` ends with `needle`.
pub fn ends_with(hay: &[u8], needle: &[u8]) -> (r: bool)
    ensures
        r == is_suffix(hay@, needle@),
{
    if needle.len() > hay.len() {
        return false;
    }
    matches_at(hay, needle, hay.len() - needle.len())
}

/// Tells whether `needle` stands somewhere in `hay`.
pub fn contains(hay: &[u8], needle: &[u8]) -> (r: bool)
    ensures
        r == contains_seq(hay@, needle@),
{
    if needle.len() > hay.len() {
        return false;
    }
    let last: usize = hay.len() - needle.len();
    let mut at: usize = 0;
    loop
        invariant
            last == hay.len() - needle.len(),
            at <= last,
            forall|k: int| 0 <= k < at ==> !occurs_at(hay@, needle@, k),
        decreases last - at,
    {
        if matches_at(hay, needle, at) {
            return true;
        }
        if at == last {
            return false;
        }
        at += 1;
    }
}

/// Tells whether the two byte strings are the same.
pub fn equal(left: &[u8], right: &[u8]) -> (r: bool)
    ensures
        r == (left@ == right@),
{
    if left.len() != right.len() {
        return false;
    }
    let same: bool = matches_at(left, right, 0);
    assert(left@.subrange(0, left@.len() as int) =~= left@);
    same
}

/// Copies a byte string into a vector of its own.
pub fn to_vec(bytes: &[u8]) -> (r: Vec<u8>)
    ensures
        r@ == bytes@,
{
    let mut out: Vec<u8> = Vec::with_capacity(bytes.len());
    let mut i: usize = 0;
    while i < bytes.len()
        invariant
            i <= bytes.len(),
            out@ == bytes@.subrange(0, i as int),
        decreases bytes.len() - i,
    {
        out.push(bytes[i]);
        assert(out@ =~= bytes@.subrange(0, i + 1));
        i += 1;
    }
    assert(bytes@.subrange(0, bytes@.len() as int) =~= bytes@);
    out
}

/// Joins two byte strings into a vector.
pub fn join(left: &[u8], right: &[u8]) -> (r: Vec<u8>)
    ensures
        r@ == left@ + right@,
{
    let mut out: Vec<u8> = to_vec(left);
    let mut i: usize = 0;
    while i < right.len()
        invariant
            i <= right.len(),
            out@ == left@ + right@.subrange(0, i as int),
        decreases right.len() - i,
    {
        out.push(right[i]);
        assert(out@ =~= left@ + right@.subrange(0, i + 1));
        i += 1;
    }
    assert(right@.subrange(0, right@.len() as int) =~= right@);
    out
}

} // verus!
