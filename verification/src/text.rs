//! Small helpers on text: views of optional strings, comparison and
//! character-wise rewriting.

use vstd::prelude::*;

verus! {

/// The characters of an optional string.
pub open spec fn opt_text(o: Option<String>) -> Option<Seq<char>> {
    match o {
        Some(s) => Some(s@),
        None => None,
    }
}

/// `String::push` of the standard library: appends one character to the
/// end of the string and leaves the rest as it was.
#[verifier::external_body]
pub(crate) fn push_char(s: &mut String, c: char)
    ensures
        final(s)@ == old(s)@.push(c),
{
    s.push(c);
}

/// Whether two pieces of text hold the same characters. Texts of equal
/// length are compared byte by byte to the end, wherever they first
/// differ, so that the time taken tells nothing of where that is.
pub fn same_text(a: &str, b: &str) -> (eq: bool)
    ensures
        eq == (a@ == b@),
{
    let left = a.as_bytes();
    let right = b.as_bytes();
    proof {
        vstd::utf8::encode_utf8_decode_utf8(a@);
        vstd::utf8::encode_utf8_decode_utf8(b@);
    }
    let n: usize = left.len();
    if n != right.len() {
        return false;
    }
    let mut difference: u8 = 0;
    let mut i: usize = 0;
    assert(left@.subrange(0, 0) =~= right@.subrange(0, 0));
    while i < n
        invariant
            n == left@.len(),
            n == right@.len(),
            i <= n,
            difference == 0 <==> left@.subrange(0, i as int) == right@.subrange(0, i as int),
        decreases n - i,
    {
        let x: u8 = left[i];
        let y: u8 = right[i];
        let ghost before = difference;
        difference = difference | (x ^ y);
        assert(difference == 0 <==> (before == 0 && x == y)) by (bit_vector)
            requires
                difference == before | (x ^ y),
        ;
        proof {
            let l0 = left@.subrange(0, i as int);
            let r0 = right@.subrange(0, i as int);
            let l1 = left@.subrange(0, i + 1);
            let r1 = right@.subrange(0, i + 1);
            assert(l1 =~= l0.push(x));
            assert(r1 =~= r0.push(y));
            if l1 == r1 {
                assert(l1.drop_last() =~= l0);
                assert(r1.drop_last() =~= r0);
                assert(l1.last() == x && r1.last() == y);
            }
        }
        i = i + 1;
    }
    assert(left@.subrange(0, n as int) =~= left@);
    assert(right@.subrange(0, n as int) =~= right@);
    difference == 0
}

/// A copy of an optional string.
pub fn clone_opt_text(o: &Option<String>) -> (r: Option<String>)
    ensures
        r == *o,
{
    match o {
        Some(s) => Some(s.clone()),
        None => None,
    }
}

} // verus!
