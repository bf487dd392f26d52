use vstd::prelude::*;
use vstd::utf8::encode_utf8;

verus! {

/// A byte an account id may contain: a lowercase letter, a digit, or one of
/// the separators `-`, `_`, `.`.
pub open spec fn spec_account_byte_ok(c: u8) -> bool {
    (97 <= c <= 122) || (48 <= c <= 57) || c == 45 || c == 95 || c == 46
}

/// A separator byte: `-`, `_` or `.`.
pub open spec fn spec_separator_byte(c: u8) -> bool {
    c == 45 || c == 95 || c == 46
}

/// The account-id rule of the target chain over the id's UTF-8 bytes: 2 to
/// 64 bytes, all from the allowed set, with no separator at either end and
/// no two separators adjacent.
pub open spec fn spec_valid_account_bytes(b: Seq<u8>) -> bool {
    &&& 2 <= b.len() <= 64
    &&& forall|i: int| 0 <= i < b.len() ==> spec_account_byte_ok(#[trigger] b[i])
    &&& !spec_separator_byte(b[0])
    &&& !spec_separator_byte(b[b.len() - 1])
    &&& forall|i: int|
        0 <= i < b.len() - 1 ==> !(spec_separator_byte(#[trigger] b[i]) && spec_separator_byte(
            b[i + 1],
        ))
}

/// A valid account id as text.
pub open spec fn spec_valid_account_id(s: Seq<char>) -> bool {
    spec_valid_account_bytes(encode_utf8(s))
}

/// Decides whether `s` is a valid account id of the target chain.
pub fn validate_account_id(s: &str) -> (r: bool)
    ensures
        r == spec_valid_account_id(s@),
{
    let b = s.as_bytes();
    let n = b.len();
    if n < 2 || n > 64 {
        return false;
    }
    let mut prev_sep = true;
    let mut i: usize = 0;
    while i < n
        invariant
            i <= n,
            2 <= n <= 64,
            n == b@.len(),
            b@ == encode_utf8(s@),
            forall|j: int| 0 <= j < i ==> spec_account_byte_ok(#[trigger] b@[j]),
            forall|j: int|
                0 <= j < i - 1 ==> !(spec_separator_byte(#[trigger] b@[j]) && spec_separator_byte(
                    b@[j + 1],
                )),
            prev_sep == if i == 0 {
                true
            } else {
                spec_separator_byte(b@[i - 1])
            },
            i > 0 ==> !spec_separator_byte(b@[0]),
        decreases n - i,
    {
        let c = b[i];
        let char_ok = (97 <= c && c <= 122) || (48 <= c && c <= 57) || c == 45 || c == 95 || c
            == 46;
        if !char_ok {
            return false;
        }
        let cur_sep = c == 45 || c == 95 || c == 46;
        if cur_sep && prev_sep {
            return false;
        }
        prev_sep = cur_sep;
        i = i + 1;
    }
    if prev_sep {
        return false;
    }
    true
}

} // verus!
