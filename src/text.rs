//! Text as the two representations hold it: owned, or as a view of a range of
//! the backing buffer.

use vstd::prelude::*;
use vstd::slice::slice_subrange;
use vstd::utf8::{decode_utf8, encode_utf8_decode_utf8, valid_utf8};

verus! {

/// Text borrowed from the backing buffer: the bytes from `start` up to `end`.
#[derive(Clone, Copy, Debug, PartialEq, Eq)]
pub struct TextView {
    pub start: usize,
    pub end: usize,
}

impl TextView {
    /// Whether the view lies within `buf` and its bytes are UTF-8.
    pub open spec fn valid(self, buf: Seq<u8>) -> bool {
        self.start <= self.end <= buf.len() && valid_utf8(buf.subrange(self.start as int, self.end as int))
    }

    /// The characters of the view in `buf`.
    pub open spec fn text(self, buf: Seq<u8>) -> Seq<char> {
        decode_utf8(buf.subrange(self.start as int, self.end as int))
    }

    /// The text of the view in `buf`, or `None` where the view does not lie
    /// within `buf` or its bytes are not UTF-8.
    pub fn read<'a>(&self, buf: &'a [u8]) -> (r: Option<&'a str>)
        ensures
            r is Some <==> self.valid(buf@),
            r is Some ==> r->0@ == self.text(buf@),
    {
        if self.start <= self.end && self.end <= buf.len() {
            utf8_str(slice_subrange(buf, self.start, self.end))
        } else {
            None
        }
    }
}

/// Relies on std::str::from_utf8: it accepts exactly the slices that are
/// valid UTF-8, and then returns a string slice over those same bytes.
#[verifier::external_body]
fn utf8_str(b: &[u8]) -> (r: Option<&str>)
    ensures
        r is Some <==> valid_utf8(b@),
        r is Some ==> r->0@ == decode_utf8(b@),
{
    std::str::from_utf8(b).ok()
}

/// Whether the byte strings `a` and `b` are equal.
fn same_bytes(a: &[u8], b: &[u8]) -> (r: bool)
    ensures
        r == (a@ == b@),
{
    if a.len() != b.len() {
        return false;
    }
    let mut i: usize = 0;
    while i < a.len()
        invariant
            0 <= i <= a@.len(),
            a@.len() == b@.len(),
            forall|k: int| 0 <= k < i ==> a@[k] == b@[k],
        decreases a.len() - i,
    {
        if a[i] != b[i] {
            return false;
        }
        i += 1;
    }
    assert(a@ =~= b@);
    true
}

/// Whether the texts `a` and `b` are equal.
pub fn same_text(a: &str, b: &str) -> (r: bool)
    ensures
        r == (a@ == b@),
{
    let r = same_bytes(a.as_bytes(), b.as_bytes());
    proof {
        encode_utf8_decode_utf8(a@);
        encode_utf8_decode_utf8(b@);
    }
    r
}

/// An owned copy of `s`.
pub fn owned(s: &str) -> (r: String)
    ensures
        r@ == s@,
{
    s.to_owned()
}

} // verus!
