use vstd::prelude::*;
use std::str::FromStr;
use crate::encode::spec_pk_well_formed;

verus! {

/// The SHA-256 digest of a byte sequence: a function of the bytes alone.
pub uninterp spec fn spec_sha256(data: Seq<u8>) -> Seq<u8>;

/// The public key, in its canonical tagged byte form, that belongs to the
/// given textual signing-key material; `None` when the material does not
/// parse as a signing key.
pub uninterp spec fn spec_parsed_public_key(key_material: Seq<char>) -> Option<Seq<u8>>;

/// Whether the textual signing-key material parses into a key that signing
/// accepts: for an ed25519 key the secret and public halves must also be
/// consistent with each other.
pub uninterp spec fn spec_signable(key_material: Seq<char>) -> bool;

/// Whether a signature, in its canonical tagged byte form, verifies over the
/// given message against a public key in its canonical tagged byte form.
pub uninterp spec fn spec_verify(signature: Seq<u8>, message: Seq<u8>, public_key: Seq<u8>) -> bool;

/// Relies on near_primitives::hash::hash: the SHA-256 digest of the bytes,
/// 32 bytes long, a function of the input bytes alone.
#[verifier::external_body]
pub(crate) fn sha256(data: &Vec<u8>) -> (r: Vec<u8>)
    ensures
        r@ == spec_sha256(data@),
        r@.len() == 32,
{
    near_primitives::hash::hash(data.as_slice()).0.to_vec()
}

/// Relies on near_crypto::SecretKey::from_str and
/// ed25519_dalek::SigningKey::from_keypair_bytes: decides whether the key
/// material parses into a key that signing accepts, which for an ed25519 key
/// also requires its secret and public halves to be consistent. Key material
/// that signing accepts always has a parsed public key.
#[verifier::external_body]
pub(crate) fn check_signing_key(key_material: &str) -> (r: bool)
    ensures
        r == spec_signable(key_material@),
        r ==> spec_parsed_public_key(key_material@) is Some,
{
    match near_crypto::SecretKey::from_str(key_material) {
        Err(_) => false,
        Ok(sk) => match &sk {
            near_crypto::SecretKey::ED25519(k) => ed25519_dalek::SigningKey::from_keypair_bytes(
                &k.0,
            ).is_ok(),
            _ => true,
        },
    }
}

/// Relies on near_crypto::SecretKey::{from_str, public_key} and the borsh
/// form of near_crypto::PublicKey: parsing succeeds exactly when the key
/// material has the textual key format, and the derived public key is in
/// canonical tagged form (a scheme tag, then that scheme's key bytes).
#[verifier::external_body]
pub(crate) fn derive_public_key(key_material: &str) -> (r: Option<Vec<u8>>)
    ensures
        r is Some <==> spec_parsed_public_key(key_material@) is Some,
        r matches Some(pk) ==> pk@ == spec_parsed_public_key(key_material@).unwrap()
            && spec_pk_well_formed(pk@),
        r is None ==> !spec_signable(key_material@),
{
    match near_crypto::SecretKey::from_str(key_material) {
        Ok(sk) => Some(near_primitives::borsh::to_vec(&sk.public_key()).unwrap()),
        Err(_) => None,
    }
}

/// Relies on near_crypto::SecretKey::{from_str, sign} and
/// near_crypto::Signature::verify: a signature produced over a 32-byte
/// message verifies against the signer's public key. The precondition keeps
/// out key material on which near_crypto's signing would abort; the key
/// material is dropped when the call returns.
#[verifier::external_body]
pub(crate) fn sign_digest(key_material: &str, message: &Vec<u8>) -> (r: Vec<u8>)
    requires
        spec_signable(key_material@),
        message@.len() == 32,
    ensures
        spec_verify(r@, message@, spec_parsed_public_key(key_material@).unwrap()),
{
    let sk = near_crypto::SecretKey::from_str(key_material).unwrap();
    let sig = sk.sign(message.as_slice());
    near_primitives::borsh::to_vec(&sig).unwrap()
}

} // verus!
