use vstd::prelude::*;
use vstd::utf8::encode_utf8;
use crate::error::NearError;
use crate::types::{
    FunctionCallActionView, SignedTransactionView, UnsignedTransaction, UnsignedTransactionView,
};

verus! {

/// The canonical tag of a function-call action inside the action list.
pub const FUNCTION_CALL_TAG: u8 = 2;

/// Little-endian byte image of a `u32`, as the wire schema fixes it.
pub open spec fn spec_u32_le(x: u32) -> Seq<u8> {
    Seq::new(4, |i: int| ((x >> ((8 * i) as u32)) & 0xff) as u8)
}

/// Little-endian byte image of a `u64`.
pub open spec fn spec_u64_le(x: u64) -> Seq<u8> {
    Seq::new(8, |i: int| ((x >> ((8 * i) as u64)) & 0xff) as u8)
}

/// Little-endian byte image of a `u128`.
pub open spec fn spec_u128_le(x: u128) -> Seq<u8> {
    Seq::new(16, |i: int| ((x >> ((8 * i) as u128)) & 0xff) as u8)
}

/// A byte string under the wire schema: a `u32` length prefix, then the bytes.
pub open spec fn spec_len_prefixed(b: Seq<u8>) -> Seq<u8>
    recommends
        b.len() <= u32::MAX,
{
    spec_u32_le(b.len() as u32) + b
}

/// Canonical image of one function-call action: its tag, the method name and
/// argument bytes as length-prefixed strings, then gas and deposit.
pub open spec fn spec_encode_action(a: FunctionCallActionView) -> Seq<u8> {
    seq![FUNCTION_CALL_TAG] + spec_len_prefixed(encode_utf8(a.method_name)) + spec_len_prefixed(
        a.args,
    ) + spec_u64_le(a.gas) + spec_u128_le(a.deposit)
}

/// Canonical image of an action list body, in list order.
pub open spec fn spec_encode_actions(s: Seq<FunctionCallActionView>) -> Seq<u8>
    decreases s.len(),
{
    if s.len() == 0 {
        Seq::empty()
    } else {
        spec_encode_actions(s.drop_last()) + spec_encode_action(s.last())
    }
}

/// A public key in its canonical tagged byte form: a scheme tag followed by
/// exactly the key bytes that scheme prescribes.
pub open spec fn spec_pk_well_formed(pk: Seq<u8>) -> bool {
    ||| (pk.len() == 33 && pk[0] == 0)
    ||| (pk.len() == 65 && pk[0] == 1)
    ||| (pk.len() == 1953 && pk[0] == 2)
}

/// An action whose variable-length fields fit their `u32` length prefixes.
pub open spec fn spec_action_encodable(a: FunctionCallActionView) -> bool {
    encode_utf8(a.method_name).len() <= u32::MAX && a.args.len() <= u32::MAX
}

/// A transaction the canonical encoder accepts: every variable-length field
/// fits its length prefix, the public key is in canonical tagged form, and
/// the block hash is exactly 32 bytes.
pub open spec fn spec_tx_encodable(t: UnsignedTransactionView) -> bool {
    &&& encode_utf8(t.signer_id).len() <= u32::MAX
    &&& encode_utf8(t.receiver_id).len() <= u32::MAX
    &&& spec_pk_well_formed(t.public_key)
    &&& t.block_hash.len() == 32
    &&& t.actions.len() <= u32::MAX
    &&& forall|i: int| 0 <= i < t.actions.len() ==> spec_action_encodable(#[trigger] t.actions[i])
}

/// The canonical encoding of a transaction. Field order is fixed by the
/// schema; the encoding is a function of the field values alone, so two
/// logically identical transactions have byte-identical encodings.
pub open spec fn spec_encode_tx(t: UnsignedTransactionView) -> Seq<u8> {
    spec_len_prefixed(encode_utf8(t.signer_id)) + t.public_key + spec_u64_le(t.nonce)
        + spec_len_prefixed(encode_utf8(t.receiver_id)) + t.block_hash + spec_u32_le(
        t.actions.len() as u32,
    ) + spec_encode_actions(t.actions)
}

/// The canonical encoding of a signed transaction: the transaction's
/// encoding followed by the signature in its canonical tagged byte form.
pub open spec fn spec_encode_signed_tx(s: SignedTransactionView) -> Seq<u8> {
    spec_encode_tx(s.transaction) + s.signature
}

/// The encoding is deterministic: it depends on the field values alone, not
/// on how or in which order the transaction was put together.
pub proof fn lemma_encode_deterministic(a: UnsignedTransactionView, b: UnsignedTransactionView)
    requires
        a == b,
    ensures
        spec_encode_tx(a) == spec_encode_tx(b),
{
}

/// Appends the four little-endian bytes of `x`.
pub fn push_u32_le(out: &mut Vec<u8>, x: u32)
    ensures
        final(out)@ == old(out)@ + spec_u32_le(x),
{
    let mut i: u32 = 0;
    while i < 4
        invariant
            i <= 4,
            out@ == old(out)@ + spec_u32_le(x).take(i as int),
        decreases 4 - i,
    {
        out.push(((x >> (8 * i)) & 0xff) as u8);
        i = i + 1;
        proof {
            assert(out@ =~= old(out)@ + spec_u32_le(x).take(i as int));
        }
    }
    proof {
        assert(out@ =~= old(out)@ + spec_u32_le(x));
    }
}

/// Appends the eight little-endian bytes of `x`.
pub fn push_u64_le(out: &mut Vec<u8>, x: u64)
    ensures
        final(out)@ == old(out)@ + spec_u64_le(x),
{
    let mut i: u64 = 0;
    while i < 8
        invariant
            i <= 8,
            out@ == old(out)@ + spec_u64_le(x).take(i as int),
        decreases 8 - i,
    {
        out.push(((x >> (8 * i)) & 0xff) as u8);
        i = i + 1;
        proof {
            assert(out@ =~= old(out)@ + spec_u64_le(x).take(i as int));
        }
    }
    proof {
        assert(out@ =~= old(out)@ + spec_u64_le(x));
    }
}

/// Appends the sixteen little-endian bytes of `x`.
pub fn push_u128_le(out: &mut Vec<u8>, x: u128)
    ensures
        final(out)@ == old(out)@ + spec_u128_le(x),
{
    let mut i: u128 = 0;
    while i < 16
        invariant
            i <= 16,
            out@ == old(out)@ + spec_u128_le(x).take(i as int),
        decreases 16 - i,
    {
        out.push(((x >> (8 * i)) & 0xff) as u8);
        i = i + 1;
        proof {
            assert(out@ =~= old(out)@ + spec_u128_le(x).take(i as int));
        }
    }
    proof {
        assert(out@ =~= old(out)@ + spec_u128_le(x));
    }
}

/// Appends a copy of `b`.
pub fn push_bytes(out: &mut Vec<u8>, b: &Vec<u8>)
    ensures
        final(out)@ == old(out)@ + b@,
{
    let mut i: usize = 0;
    while i < b.len()
        invariant
            i <= b.len(),
            out@ == old(out)@ + b@.take(i as int),
        decreases b.len() - i,
    {
        out.push(b[i]);
        i = i + 1;
        proof {
            assert(out@ =~= old(out)@ + b@.take(i as int));
        }
    }
    proof {
        assert(out@ =~= old(out)@ + b@);
    }
}

/// Appends `b` as a length-prefixed byte string.
pub fn push_len_prefixed(out: &mut Vec<u8>, b: &Vec<u8>)
    requires
        b@.len() <= u32::MAX,
    ensures
        final(out)@ == old(out)@ + spec_len_prefixed(b@),
{
    push_u32_le(out, b.len() as u32);
    push_bytes(out, b);
}

/// Extending an action list by one extends its encoding by that action's.
proof fn lemma_actions_snoc(s: Seq<FunctionCallActionView>, i: int)
    requires
        0 <= i < s.len(),
    ensures
        spec_encode_actions(s.take(i + 1)) == spec_encode_actions(s.take(i)) + spec_encode_action(
            s[i],
        ),
{
    assert(s.take(i + 1).drop_last() =~= s.take(i));
    assert(s.take(i + 1).last() == s[i]);
}

/// Produces the canonical encoding of `t`, or reports exactly why `t` has
/// none: a variable-length field that overflows its length prefix, a public
/// key that is not in canonical tagged form, or a block hash that is not 32
/// bytes.
pub fn encode_transaction(t: &UnsignedTransaction) -> (r: Result<Vec<u8>, NearError>)
    ensures
        r is Ok <==> spec_tx_encodable(t@),
        r matches Ok(bytes) ==> bytes@ == spec_encode_tx(t@),
        r matches Err(e) ==> e is EncodingError,
{
    let signer = t.signer_id.as_str().as_bytes_vec();
    if signer.len() > u32::MAX as usize {
        return Err(NearError::EncodingError(String::from_str("signer id overflows its length prefix")));
    }
    let receiver = t.receiver_id.as_str().as_bytes_vec();
    if receiver.len() > u32::MAX as usize {
        return Err(NearError::EncodingError(String::from_str("receiver id overflows its length prefix")));
    }
    let pk_ok = (t.public_key.len() == 33 && t.public_key[0] == 0) || (t.public_key.len() == 65
        && t.public_key[0] == 1) || (t.public_key.len() == 1953 && t.public_key[0] == 2);
    if !pk_ok {
        return Err(NearError::EncodingError(String::from_str("public key is not in canonical tagged form")));
    }
    if t.block_hash.len() != 32 {
        return Err(NearError::EncodingError(String::from_str("block hash is not 32 bytes")));
    }
    if t.actions.len() > u32::MAX as usize {
        return Err(NearError::EncodingError(String::from_str("action list overflows its length prefix")));
    }
    let mut out: Vec<u8> = Vec::new();
    push_len_prefixed(&mut out, &signer);
    push_bytes(&mut out, &t.public_key);
    push_u64_le(&mut out, t.nonce);
    push_len_prefixed(&mut out, &receiver);
    push_bytes(&mut out, &t.block_hash);
    push_u32_le(&mut out, t.actions.len() as u32);
    let ghost head: Seq<u8> = out@;
    let mut i: usize = 0;
    while i < t.actions.len()
        invariant
            i <= t.actions.len(),
            out@ == head + spec_encode_actions(t@.actions.take(i as int)),
            forall|j: int| 0 <= j < i ==> spec_action_encodable(#[trigger] t@.actions[j]),
            t@.actions == t.actions@.map_values(|a: crate::types::FunctionCallAction| a@),
        decreases t.actions.len() - i,
    {
        let a = &t.actions[i];
        let name = a.method_name.as_str().as_bytes_vec();
        if name.len() > u32::MAX as usize {
            return Err(NearError::EncodingError(String::from_str("method name overflows its length prefix")));
        }
        if a.args.len() > u32::MAX as usize {
            return Err(NearError::EncodingError(String::from_str("arguments overflow their length prefix")));
        }
        out.push(FUNCTION_CALL_TAG);
        push_len_prefixed(&mut out, &name);
        push_len_prefixed(&mut out, &a.args);
        push_u64_le(&mut out, a.gas);
        push_u128_le(&mut out, a.deposit);
        proof {
            lemma_actions_snoc(t@.actions, i as int);
            assert(out@ =~= head + spec_encode_actions(t@.actions.take(i + 1)));
        }
        i = i + 1;
    }
    proof {
        assert(t@.actions.take(t.actions@.len() as int) =~= t@.actions);
        assert(out@ =~= spec_encode_tx(t@));
    }
    Ok(out)
}

} // verus!
