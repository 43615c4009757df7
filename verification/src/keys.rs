//! The keys a DID controls, the signatures it produces, and the
//! identifiers under which keys are stored.

use vstd::prelude::*;
use crate::crypto::{ed25519_signature_valid, sr25519_signature_valid, blake2_256_digest,
    ed25519_verify, sr25519_verify, blake2_256};
use crate::encoding::push_bytes32;
use crate::errors::{KeyError, SignatureError};

verus! {

/// The identifier of a DID key: the BLAKE2b-256 hash of the key's encoding.
pub type KeyId = [u8; 32];

/// Types of verification keys a DID can control.
#[derive(Clone, Copy, Debug, PartialEq, Eq, PartialOrd, Ord)]
pub enum DidVerificationKey {
    /// An Ed25519 public key.
    Ed25519([u8; 32]),
    /// A Sr25519 public key.
    Sr25519([u8; 32]),
}

/// Types of encryption keys a DID can control.
#[derive(Clone, Copy, Debug, PartialEq, Eq, PartialOrd, Ord)]
pub enum DidEncryptionKey {
    /// An X25519 public key.
    X25519([u8; 32]),
}

/// A general public key under the control of the DID.
#[derive(Clone, Copy, Debug, PartialEq, Eq, PartialOrd, Ord)]
pub enum DidPublicKey {
    /// A verification key, used to generate and verify signatures.
    PublicVerificationKey(DidVerificationKey),
    /// An encryption key, used to encrypt and decrypt payloads.
    PublicEncryptionKey(DidEncryptionKey),
}

/// Verification methods a verification key can fulfil, according to the
/// DID specification.
#[derive(Clone, Copy, Debug, PartialEq, Eq, Structural)]
pub enum DidVerificationKeyRelationship {
    /// Key used to authenticate all the DID operations.
    Authentication,
    /// Key used to write and revoke delegations on chain.
    CapabilityDelegation,
    /// Not used for now.
    CapabilityInvocation,
    /// Key used to write and revoke attestations on chain.
    AssertionMethod,
}

/// Types of signatures supported by the registry.
#[derive(Clone, Copy, Debug, PartialEq, Eq)]
pub enum DidSignature {
    /// An Ed25519 signature.
    Ed25519([u8; 64]),
    /// A Sr25519 signature.
    Sr25519([u8; 64]),
}

/// The string description of a DID public key, following the DID
/// specification's verification method types.
pub trait DidPublicKeyDescription {
    fn get_did_key_description(&self) -> &'static str;
}

/// The outcome of checking `signature` over `payload` with `key`: an error
/// when the signature scheme does not match the key's, else whether the
/// signature is valid.
pub open spec fn signature_check(
    key: DidVerificationKey,
    payload: Seq<u8>,
    signature: DidSignature,
) -> Result<bool, SignatureError> {
    match (key, signature) {
        (DidVerificationKey::Ed25519(pk), DidSignature::Ed25519(sig)) => Ok(
            ed25519_signature_valid(sig, payload, pk),
        ),
        (DidVerificationKey::Sr25519(pk), DidSignature::Sr25519(sig)) => Ok(
            sr25519_signature_valid(sig, payload, pk),
        ),
        _ => Err(SignatureError::InvalidSignatureFormat),
    }
}

/// The SCALE encoding of a verification key: its variant index, then the
/// key bytes.
pub open spec fn encode_verification_key(key: DidVerificationKey) -> Seq<u8> {
    match key {
        DidVerificationKey::Ed25519(pk) => seq![0u8] + pk@,
        DidVerificationKey::Sr25519(pk) => seq![1u8] + pk@,
    }
}

/// The SCALE encoding of an encryption key.
pub open spec fn encode_encryption_key(key: DidEncryptionKey) -> Seq<u8> {
    match key {
        DidEncryptionKey::X25519(pk) => seq![0u8] + pk@,
    }
}

/// The SCALE encoding of a public key.
pub open spec fn encode_public_key(key: DidPublicKey) -> Seq<u8> {
    match key {
        DidPublicKey::PublicVerificationKey(k) => seq![0u8] + encode_verification_key(k),
        DidPublicKey::PublicEncryptionKey(k) => seq![1u8] + encode_encryption_key(k),
    }
}

/// The identifier of a key: the hash of its encoding.
pub open spec fn key_id_of(key: DidPublicKey) -> KeyId {
    blake2_256_digest(encode_public_key(key))
}

/// The verification key as a general public key.
pub open spec fn verification_public_key(key: DidVerificationKey) -> DidPublicKey {
    DidPublicKey::PublicVerificationKey(key)
}

/// The encryption key as a general public key.
pub open spec fn encryption_public_key(key: DidEncryptionKey) -> DidPublicKey {
    DidPublicKey::PublicEncryptionKey(key)
}

/// The bytes of a byte vector as a 32-byte array, when it has that length.
pub open spec fn as_array32(v: Seq<u8>) -> [u8; 32] {
    choose|a: [u8; 32]| a@ == v
}

/// The bytes of a byte vector as a 64-byte array, when it has that length.
pub open spec fn as_array64(v: Seq<u8>) -> [u8; 64] {
    choose|a: [u8; 64]| a@ == v
}

fn copy_to_array32(v: &Vec<u8>) -> (a: [u8; 32])
    requires
        v@.len() == 32,
    ensures
        a@ == v@,
        a == as_array32(v@),
{
    let mut a = [0u8; 32];
    let mut i: usize = 0;
    while i < 32
        invariant
            i <= 32,
            v@.len() == 32,
            forall|j: int| 0 <= j < i ==> a@[j] == v@[j],
        decreases 32 - i,
    {
        a[i] = v[i];
        i = i + 1;
    }
    assert(a@ =~= v@);
    proof {
        let c = as_array32(v@);
        assert(c@ == v@);
        assert(c =~= a);
    }
    a
}

fn copy_to_array64(v: &Vec<u8>) -> (a: [u8; 64])
    requires
        v@.len() == 64,
    ensures
        a@ == v@,
        a == as_array64(v@),
{
    let mut a = [0u8; 64];
    let mut i: usize = 0;
    while i < 64
        invariant
            i <= 64,
            v@.len() == 64,
            forall|j: int| 0 <= j < i ==> a@[j] == v@[j],
        decreases 64 - i,
    {
        a[i] = v[i];
        i = i + 1;
    }
    assert(a@ =~= v@);
    proof {
        let c = as_array64(v@);
        assert(c@ == v@);
        assert(c =~= a);
    }
    a
}

impl DidVerificationKey {
    /// Verify a DID signature using one of the DID keys: an error when the
    /// signature is of another scheme than the key, else whether it is a
    /// valid signature of `payload` under the key.
    pub fn verify_signature(&self, payload: &[u8], signature: &DidSignature) -> (r: Result<
        bool,
        SignatureError,
    >)
        ensures
            r == signature_check(*self, payload@, *signature),
    {
        match self {
            DidVerificationKey::Ed25519(public_key) => {
                if let DidSignature::Ed25519(sig) = signature {
                    Ok(ed25519_verify(sig, payload, public_key))
                } else {
                    Err(SignatureError::InvalidSignatureFormat)
                }
            },
            DidVerificationKey::Sr25519(public_key) => {
                if let DidSignature::Sr25519(sig) = signature {
                    Ok(sr25519_verify(sig, payload, public_key))
                } else {
                    Err(SignatureError::InvalidSignatureFormat)
                }
            },
        }
    }

    /// Appends the SCALE encoding of the key.
    pub fn encode_to(&self, out: &mut Vec<u8>)
        ensures
            final(out)@ == old(out)@ + encode_verification_key(*self),
    {
        match self {
            DidVerificationKey::Ed25519(pk) => {
                out.push(0u8);
                push_bytes32(out, pk);
            },
            DidVerificationKey::Sr25519(pk) => {
                out.push(1u8);
                push_bytes32(out, pk);
            },
        }
        assert(out@ =~= old(out)@ + encode_verification_key(*self));
    }

    /// Decodes a verification key from its raw bytes: 32 bytes make an
    /// Ed25519 key (an Sr25519 key has the same length and is never
    /// chosen), anything else is refused.
    pub fn from_raw_bytes(value: Vec<u8>) -> (r: Result<DidVerificationKey, KeyError>)
        ensures
            value@.len() == 32 ==> r == Ok::<DidVerificationKey, KeyError>(
                DidVerificationKey::Ed25519(as_array32(value@)),
            ),
            value@.len() != 32 ==> r == Err::<DidVerificationKey, KeyError>(
                KeyError::InvalidVerificationKeyFormat,
            ),
    {
        if value.len() == 32 {
            Ok(DidVerificationKey::Ed25519(copy_to_array32(&value)))
        } else {
            Err(KeyError::InvalidVerificationKeyFormat)
        }
    }
}

impl DidPublicKeyDescription for DidVerificationKey {
    fn get_did_key_description(&self) -> (d: &'static str)
        ensures
            self is Ed25519 ==> d@ == "Ed25519VerificationKey2018"@,
            self is Sr25519 ==> d@ == "Sr25519VerificationKey2020"@,
    {
        match self {
            DidVerificationKey::Ed25519(_) => "Ed25519VerificationKey2018",
            DidVerificationKey::Sr25519(_) => "Sr25519VerificationKey2020",
        }
    }
}

impl DidEncryptionKey {
    /// Appends the SCALE encoding of the key.
    pub fn encode_to(&self, out: &mut Vec<u8>)
        ensures
            final(out)@ == old(out)@ + encode_encryption_key(*self),
    {
        match self {
            DidEncryptionKey::X25519(pk) => {
                out.push(0u8);
                push_bytes32(out, pk);
            },
        }
        assert(out@ =~= old(out)@ + encode_encryption_key(*self));
    }
}

impl DidPublicKeyDescription for DidEncryptionKey {
    fn get_did_key_description(&self) -> (d: &'static str)
        ensures
            d@ == "X25519KeyAgreementKey2019"@,
    {
        "X25519KeyAgreementKey2019"
    }
}

impl DidPublicKey {
    /// Appends the SCALE encoding of the key.
    pub fn encode_to(&self, out: &mut Vec<u8>)
        ensures
            final(out)@ == old(out)@ + encode_public_key(*self),
    {
        match self {
            DidPublicKey::PublicVerificationKey(k) => {
                out.push(0u8);
                k.encode_to(out);
            },
            DidPublicKey::PublicEncryptionKey(k) => {
                out.push(1u8);
                k.encode_to(out);
            },
        }
        assert(out@ =~= old(out)@ + encode_public_key(*self));
    }

    /// The SCALE encoding of the key.
    pub fn encode(&self) -> (v: Vec<u8>)
        ensures
            v@ == encode_public_key(*self),
    {
        let mut v = Vec::new();
        self.encode_to(&mut v);
        assert(v@ =~= encode_public_key(*self));
        v
    }
}

impl From<DidVerificationKey> for DidPublicKey {
    fn from(verification_key: DidVerificationKey) -> (k: Self)
        ensures
            k == verification_public_key(verification_key),
    {
        DidPublicKey::PublicVerificationKey(verification_key)
    }
}

impl From<DidEncryptionKey> for DidPublicKey {
    fn from(encryption_key: DidEncryptionKey) -> (k: Self)
        ensures
            k == encryption_public_key(encryption_key),
    {
        DidPublicKey::PublicEncryptionKey(encryption_key)
    }
}

impl vstd::std_specs::convert::FromSpecImpl<DidVerificationKey> for DidPublicKey {
    open spec fn obeys_from_spec() -> bool {
        true
    }

    open spec fn from_spec(v: DidVerificationKey) -> Self {
        verification_public_key(v)
    }
}

impl vstd::std_specs::convert::FromSpecImpl<DidEncryptionKey> for DidPublicKey {
    open spec fn obeys_from_spec() -> bool {
        true
    }

    open spec fn from_spec(v: DidEncryptionKey) -> Self {
        encryption_public_key(v)
    }
}

/// Computes the identifier of a key: the BLAKE2b-256 hash of its encoding.
pub fn calculate_key_id(key: &DidPublicKey) -> (id: KeyId)
    ensures
        id == key_id_of(*key),
{
    let encoded = key.encode();
    blake2_256(encoded.as_slice())
}

impl DidSignature {
    /// Decodes a signature from its raw bytes: 64 bytes make an Ed25519
    /// signature (an Sr25519 signature has the same length and is never
    /// chosen), anything else is refused.
    pub fn from_raw_bytes(encoded_signature: Vec<u8>) -> (r: Result<DidSignature, SignatureError>)
        ensures
            encoded_signature@.len() == 64 ==> r == Ok::<DidSignature, SignatureError>(
                DidSignature::Ed25519(as_array64(encoded_signature@)),
            ),
            encoded_signature@.len() != 64 ==> r == Err::<DidSignature, SignatureError>(
                SignatureError::InvalidSignatureFormat,
            ),
    {
        if encoded_signature.len() == 64 {
            Ok(DidSignature::Ed25519(copy_to_array64(&encoded_signature)))
        } else {
            Err(SignatureError::InvalidSignatureFormat)
        }
    }

    /// Whether the signature is a valid signature of `msg` by `signer`; a
    /// signature of another scheme than the signer's key is not valid.
    pub fn verify(&self, msg: &[u8], signer: &DidVerificationKey) -> (valid: bool)
        ensures
            valid == (signature_check(*signer, msg@, *self) == Ok::<bool, SignatureError>(true)),
    {
        match signer.verify_signature(msg, self) {
            Ok(b) => b,
            Err(_) => false,
        }
    }
}

impl TryFrom<Vec<u8>> for DidVerificationKey {
    type Error = KeyError;

    /// See [DidVerificationKey::from_raw_bytes].
    fn try_from(value: Vec<u8>) -> (r: Result<Self, KeyError>) {
        DidVerificationKey::from_raw_bytes(value)
    }
}

impl vstd::std_specs::convert::TryFromSpecImpl<Vec<u8>> for DidVerificationKey {
    open spec fn obeys_try_from_spec() -> bool {
        true
    }

    open spec fn try_from_spec(v: Vec<u8>) -> Result<Self, KeyError> {
        if v@.len() == 32 {
            Ok(DidVerificationKey::Ed25519(as_array32(v@)))
        } else {
            Err(KeyError::InvalidVerificationKeyFormat)
        }
    }
}

impl TryFrom<Vec<u8>> for DidSignature {
    type Error = SignatureError;

    /// See [DidSignature::from_raw_bytes].
    fn try_from(encoded_signature: Vec<u8>) -> (r: Result<Self, SignatureError>) {
        DidSignature::from_raw_bytes(encoded_signature)
    }
}

impl vstd::std_specs::convert::TryFromSpecImpl<Vec<u8>> for DidSignature {
    open spec fn obeys_try_from_spec() -> bool {
        true
    }

    open spec fn try_from_spec(v: Vec<u8>) -> Result<Self, SignatureError> {
        if v@.len() == 64 {
            Ok(DidSignature::Ed25519(as_array64(v@)))
        } else {
            Err(SignatureError::InvalidSignatureFormat)
        }
    }
}

} // verus!
