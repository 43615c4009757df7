//! The calls into outside cryptography and text decoding that the library
//! relies on: signature verification, hashing and UTF-8 validation.
//!
//! Each function here is trusted: Verus believes its contract without
//! reading its body. The contracts name the results of the outside
//! functions and claim nothing else of them.

use vstd::prelude::*;

verus! {

/// Whether `signature` is a valid Ed25519 signature of `message` under the
/// public key `public`, as `sp_core::ed25519::Pair::verify` decides it.
pub uninterp spec fn ed25519_signature_valid(
    signature: [u8; 64],
    message: Seq<u8>,
    public: [u8; 32],
) -> bool;

/// Whether `signature` is a valid Sr25519 (Schnorrkel, "substrate" signing
/// context) signature of `message` under the public key `public`, as
/// `sp_core::sr25519::Pair::verify` decides it.
pub uninterp spec fn sr25519_signature_valid(
    signature: [u8; 64],
    message: Seq<u8>,
    public: [u8; 32],
) -> bool;

/// The BLAKE2b-256 digest of `data`, as `sp_runtime::traits::BlakeTwo256`
/// computes it.
pub uninterp spec fn blake2_256_digest(data: Seq<u8>) -> [u8; 32];

/// Verifies an Ed25519 signature with `sp_core::ed25519::Pair::verify`.
///
/// Trusted: the result is claimed to be the named verdict
/// `ed25519_signature_valid` of exactly these signature, message and key
/// bytes; that verdict depends on the arguments alone (the function
/// parses both byte strings and checks the signature, returning `false`
/// where either does not parse). Nothing more is claimed of it.
#[verifier::external_body]
pub(crate) fn ed25519_verify(signature: &[u8; 64], message: &[u8], public: &[u8; 32]) -> (valid: bool)
    ensures
        valid == ed25519_signature_valid(*signature, message@, *public),
{
    let sig = sp_core::ed25519::Signature::from_raw(*signature);
    let key = sp_core::ed25519::Public::from_raw(*public);
    <sp_core::ed25519::Pair as sp_core::Pair>::verify(&sig, message, &key)
}

/// Verifies an Sr25519 signature with `sp_core::sr25519::Pair::verify`.
///
/// Trusted: the result is claimed to be the named verdict
/// `sr25519_signature_valid` of exactly these signature, message and key
/// bytes, which depends on the arguments alone. Nothing more is claimed
/// of it.
#[verifier::external_body]
pub(crate) fn sr25519_verify(signature: &[u8; 64], message: &[u8], public: &[u8; 32]) -> (valid: bool)
    ensures
        valid == sr25519_signature_valid(*signature, message@, *public),
{
    let sig = sp_core::sr25519::Signature::from_raw(*signature);
    let key = sp_core::sr25519::Public::from_raw(*public);
    <sp_core::sr25519::Pair as sp_core::Pair>::verify(&sig, message, &key)
}

/// Hashes `data` with `sp_runtime::traits::BlakeTwo256`.
///
/// Trusted: the 32-byte result is claimed to be the named digest
/// `blake2_256_digest` of exactly the bytes of `data`. Nothing is claimed
/// of the digest itself (in particular, no injectivity).
#[verifier::external_body]
pub(crate) fn blake2_256(data: &[u8]) -> (digest: [u8; 32])
    ensures
        digest == blake2_256_digest(data@),
{
    <sp_runtime::traits::BlakeTwo256 as sp_runtime::traits::Hash>::hash(data).0
}

/// Whether `bytes` is valid UTF-8, decided by `core::str::from_utf8`.
///
/// Trusted: `from_utf8` is documented to succeed exactly on valid UTF-8;
/// the contract states that as vstd's model `valid_utf8` of UTF-8.
#[verifier::external_body]
pub(crate) fn is_utf8(bytes: &[u8]) -> (valid: bool)
    ensures
        valid == vstd::utf8::valid_utf8(bytes@),
{
    core::str::from_utf8(bytes).is_ok()
}

} // verus!
