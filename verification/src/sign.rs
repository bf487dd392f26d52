use vstd::prelude::*;
use crate::crypto::{
    check_signing_key, sha256, sign_digest, spec_parsed_public_key, spec_sha256, spec_signable,
    spec_verify,
};
use crate::encode::{encode_transaction, spec_encode_tx, spec_tx_encodable};
use crate::error::NearError;
use crate::types::{SignedTransaction, SignedTransactionView, UnsignedTransaction, UnsignedTransactionView};

verus! {

/// The digest a signature must cover: the SHA-256 hash of the transaction's
/// canonical encoding.
pub open spec fn spec_tx_digest(t: UnsignedTransactionView) -> Seq<u8> {
    spec_sha256(spec_encode_tx(t))
}

/// A submittable signed transaction: the signature verifies over the hash of
/// the transaction's canonical encoding, against the transaction's own
/// public key.
pub open spec fn spec_signature_valid(s: SignedTransactionView) -> bool {
    spec_verify(s.signature, spec_tx_digest(s.transaction), s.transaction.public_key)
}

/// Signs the hash of the canonical encoding of `t`. Fails with
/// `InvalidKeyMaterial` exactly when the key material does not parse into a
/// consistent signing key, and with `EncodingError` exactly when `t` has no
/// canonical encoding; otherwise the produced signature verifies over `t`'s
/// digest against the key's public key. The key material is used for this
/// one signature and not retained.
pub fn try_sign_transaction(t: UnsignedTransaction, key_material: &str) -> (r: Result<
    SignedTransaction,
    NearError,
>)
    ensures
        r is Ok <==> (spec_signable(key_material@) && spec_tx_encodable(t@)),
        r matches Ok(st) ==> ({
            &&& st.transaction == t
            &&& spec_verify(
                st.signature@,
                spec_tx_digest(t@),
                spec_parsed_public_key(key_material@).unwrap(),
            )
        }),
        r matches Err(e) ==> (e is InvalidKeyMaterial <==> !spec_signable(key_material@)),
        r matches Err(e) ==> (e is InvalidKeyMaterial || e is EncodingError),
{
    if !check_signing_key(key_material) {
        return Err(NearError::InvalidKeyMaterial(String::from_str(
            "the private key does not parse into a consistent signing key",
        )));
    }
    match encode_transaction(&t) {
        Err(e) => Err(e),
        Ok(encoded) => {
            let digest = sha256(&encoded);
            let signature = sign_digest(key_material, &digest);
            Ok(SignedTransaction { transaction: t, signature })
        },
    }
}

} // verus!
