//! Decentralized identifiers (DIDs) on chain: a registry that creates,
//! updates and deletes DIDs, and authorizes calls on their behalf, after
//! checking each operation's nonce and its signature with the right DID
//! key; the keys a DID controls and the roles they play; and the validation
//! of the endpoint URLs a DID publishes.
//!
//! Modules:
//! - `bytes`, `key_set`: 32-byte strings, and sets and maps ordered by them;
//! - `encoding`: the SCALE encoding of the values operations are made of;
//! - `crypto`: the trusted calls into signature verification, hashing and
//!   UTF-8 validation;
//! - `keys`, `url`, `errors`: keys and signatures, endpoint URLs, errors;
//! - `details`: the details of one DID and the operations on them;
//! - `operations`: the operations a DID subject signs;
//! - `pallet`: the registry of DIDs;
//! - `laws`: properties that span operations;
//! - `weights`: the weights of the delegation operations.

pub mod bytes;
pub mod crypto;
pub mod details;
pub mod encoding;
pub mod errors;
pub mod key_set;
pub mod keys;
pub mod laws;
pub mod operations;
pub mod pallet;
pub mod url;
pub mod weights;

pub use details::{BlockNumber, DidDetails, DidPublicKeyDetails, DidState};
pub use errors::{DidError, KeyError, SignatureError, StorageError, UrlError};
pub use key_set::{DidEncryptionKeySet, KeyIdSet, KeyMap};
pub use keys::{
    calculate_key_id, DidEncryptionKey, DidPublicKey, DidPublicKeyDescription, DidSignature,
    DidVerificationKey, DidVerificationKeyRelationship, KeyId,
};
pub use operations::{
    DeriveDidCallAuthorizationVerificationKeyRelationship, DidAuthorizedCallOperation,
    DidAuthorizedCallOperationWithVerificationRelationship, DidCreationOperation,
    DidDeletionOperation, DidIdentifier, DidOperation, DidUpdateOperation,
    DidVerificationKeyUpdateAction,
};
pub use pallet::{AccountIdentifier, Error, Event, Pallet};
pub use url::{FtpUrl, HttpUrl, IpfsUrl, Url};
pub use weights::{RuntimeDbWeight, SubstrateWeight, Weight, WeightInfo};
