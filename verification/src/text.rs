use vstd::prelude::*;
use vstd::utf8::{decode_utf8, encode_utf8, valid_utf8};

verus! {

/// Byte-for-byte equality of two slices.
pub fn bytes_eq(a: &[u8], b: &[u8]) -> (r: bool)
    ensures
        r == (a@ == b@),
{
    if a.len() != b.len() {
        return false;
    }
    let n = a.len();
    let mut i: usize = 0;
    while i < n
        invariant
            i <= n,
            n == a@.len() == b@.len(),
            forall|j: int| 0 <= j < i ==> a@[j] == b@[j],
        decreases n - i,
    {
        if a[i] != b[i] {
            return false;
        }
        i = i + 1;
    }
    proof {
        assert(a@ =~= b@);
    }
    true
}

/// Equality of two text slices, decided on their UTF-8 bytes.
pub fn str_eq(a: &str, b: &str) -> (r: bool)
    ensures
        r == (a@ == b@),
{
    let r = bytes_eq(a.as_bytes(), b.as_bytes());
    proof {
        broadcast use vstd::utf8::encode_utf8_decode_utf8;

        if encode_utf8(a@) == encode_utf8(b@) {
            assert(decode_utf8(encode_utf8(a@)) == decode_utf8(encode_utf8(b@)));
        }
    }
    r
}

/// Relies on core::str::from_utf8 and str::to_owned: succeeds exactly on
/// valid UTF-8 and decodes the bytes to text.
#[verifier::external_body]
pub fn utf8_text(bytes: &Vec<u8>) -> (r: Option<String>)
    ensures
        r is Some <==> valid_utf8(bytes@),
        r matches Some(s) ==> s@ == decode_utf8(bytes@),
{
    match core::str::from_utf8(bytes.as_slice()) {
        Ok(s) => Some(s.to_owned()),
        Err(_) => None,
    }
}

/// The bytes with every leading quote byte removed.
pub open spec fn spec_strip_leading_quotes(b: Seq<u8>) -> Seq<u8>
    decreases b.len(),
{
    if b.len() > 0 && b[0] == 34 {
        spec_strip_leading_quotes(b.drop_first())
    } else {
        b
    }
}

/// The bytes with every trailing quote byte removed.
pub open spec fn spec_strip_trailing_quotes(b: Seq<u8>) -> Seq<u8>
    decreases b.len(),
{
    if b.len() > 0 && b.last() == 34 {
        spec_strip_trailing_quotes(b.drop_last())
    } else {
        b
    }
}

/// The bytes with the surrounding quote bytes removed from both ends.
pub open spec fn spec_strip_quotes(b: Seq<u8>) -> Seq<u8> {
    spec_strip_trailing_quotes(spec_strip_leading_quotes(b))
}

/// Removes the surrounding quote bytes from both ends of `bytes`.
pub fn strip_quotes(bytes: &Vec<u8>) -> (r: Vec<u8>)
    ensures
        r@ == spec_strip_quotes(bytes@),
{
    let n = bytes.len();
    proof {
        assert(bytes@.skip(0) =~= bytes@);
    }
    let mut lo: usize = 0;
    while lo < n && bytes[lo] == 34
        invariant
            lo <= n,
            n == bytes@.len(),
            spec_strip_leading_quotes(bytes@) == spec_strip_leading_quotes(
                bytes@.skip(lo as int),
            ),
        decreases n - lo,
    {
        proof {
            assert(bytes@.skip(lo as int).drop_first() =~= bytes@.skip(lo as int + 1));
        }
        lo = lo + 1;
    }
    let ghost mid: Seq<u8> = bytes@.skip(lo as int);
    proof {
        assert(spec_strip_leading_quotes(bytes@) == mid);
    }
    let mut hi: usize = n;
    proof {
        assert(mid.take((n - lo) as int) =~= mid);
    }
    while hi > lo && bytes[hi - 1] == 34
        invariant
            lo <= hi <= n,
            n == bytes@.len(),
            mid == bytes@.skip(lo as int),
            spec_strip_trailing_quotes(mid) == spec_strip_trailing_quotes(
                mid.take((hi - lo) as int),
            ),
        decreases hi,
    {
        proof {
            assert(mid.take((hi - lo) as int).last() == bytes@[hi - 1]);
            assert(mid.take((hi - lo) as int).drop_last() =~= mid.take((hi - 1 - lo) as int));
        }
        hi = hi - 1;
    }
    proof {
        if hi == lo {
            assert(mid.take(0) =~= Seq::<u8>::empty());
        } else {
            assert(mid.take((hi - lo) as int).last() == bytes@[hi - 1]);
        }
    }
    let mut out: Vec<u8> = Vec::new();
    let mut i: usize = lo;
    while i < hi
        invariant
            lo <= i <= hi <= n,
            n == bytes@.len(),
            out@ == bytes@.subrange(lo as int, i as int),
        decreases hi - i,
    {
        out.push(bytes[i]);
        i = i + 1;
        proof {
            assert(out@ =~= bytes@.subrange(lo as int, i as int));
        }
    }
    proof {
        assert(out@ =~= mid.take((hi - lo) as int));
    }
    out
}

} // verus!
