//! The operations a DID subject signs: creation, update, deletion and the
//! authorization of other calls, with their SCALE encodings, which are the
//! payloads the signatures cover.

use vstd::prelude::*;
use crate::encoding::{encode_u64, push_u64, push_bytes32, push_slice};
use crate::key_set::{KeyIdSet, DidEncryptionKeySet, encode_key_id_set, encode_encryption_key_set};
use crate::keys::{DidVerificationKey, DidVerificationKeyRelationship, encode_verification_key};
use crate::url::{Url, UrlView, url_bytes, encode_url, optional_url_view};

verus! {

/// Type for a DID subject identifier.
pub type DidIdentifier = [u8; 32];

/// An operation that requires DID authentication.
pub trait DidOperation {
    /// The type of the verification key to be used to validate the
    /// operation.
    spec fn relationship_of(&self) -> DidVerificationKeyRelationship;

    /// The DID identifier of the subject.
    spec fn did_of(&self) -> DidIdentifier;

    /// The operation tx counter, used to protect against replay attacks.
    spec fn tx_counter_of(&self) -> u64;

    /// The operation can be encoded: its collections are well formed and
    /// their lengths fit the compact length encoding.
    spec fn encodable(&self) -> bool;

    /// The encoding of the operation, which signatures cover.
    spec fn encoding(&self) -> Seq<u8>;

    /// The type of the verification key to be used to validate the
    /// operation.
    fn get_verification_key_relationship(&self) -> (r: DidVerificationKeyRelationship)
        ensures
            r == self.relationship_of(),
    ;

    /// The DID identifier of the subject.
    fn get_did(&self) -> (did: &DidIdentifier)
        ensures
            *did == self.did_of(),
    ;

    /// The operation tx counter, used to protect against replay attacks.
    fn get_tx_counter(&self) -> (c: u64)
        ensures
            c == self.tx_counter_of(),
    ;

    /// The encoding of the operation.
    fn encode(&self) -> (bytes: Vec<u8>)
        requires
            self.encodable(),
        ensures
            bytes@ == self.encoding(),
    ;
}

/// Trait for extrinsic DID-based authorization: it tells which DID key
/// verifies the signature over a wrapped call; `None` means the call does
/// not support DID-based authorization.
pub trait DeriveDidCallAuthorizationVerificationKeyRelationship {
    /// The type of the verification key the call asks for, if it supports
    /// DID-based authorization.
    spec fn derived_relationship(&self) -> Option<DidVerificationKeyRelationship>;

    /// The type of the verification key to be used to validate the
    /// wrapped extrinsic.
    fn derive_verification_key_relationship(&self) -> (r: Option<DidVerificationKeyRelationship>)
        ensures
            r == self.derived_relationship(),
    ;
}

/// The SCALE encoding of an optional verification key.
pub open spec fn encode_optional_key(key: Option<DidVerificationKey>) -> Seq<u8> {
    match key {
        Some(k) => seq![1u8] + encode_verification_key(k),
        None => seq![0u8],
    }
}

/// The SCALE encoding of an optional URL.
pub open spec fn encode_optional_url(url: Option<UrlView>) -> Seq<u8> {
    match url {
        Some(u) => seq![1u8] + encode_url(u),
        None => seq![0u8],
    }
}

/// An optional URL whose bytes fit the compact length encoding.
pub open spec fn url_encodable(url: Option<Url>) -> bool {
    url matches Some(u) ==> url_bytes(u@).len() <= u32::MAX
}

fn encode_optional_key_to(key: &Option<DidVerificationKey>, out: &mut Vec<u8>)
    ensures
        final(out)@ == old(out)@ + encode_optional_key(*key),
{
    match key {
        Some(k) => {
            out.push(1u8);
            k.encode_to(out);
        },
        None => {
            out.push(0u8);
        },
    }
    assert(out@ =~= old(out)@ + encode_optional_key(*key));
}

fn encode_optional_url_to(url: &Option<Url>, out: &mut Vec<u8>)
    requires
        url_encodable(*url),
    ensures
        final(out)@ == old(out)@ + encode_optional_url(optional_url_view(*url)),
{
    match url {
        Some(u) => {
            out.push(1u8);
            u.encode_to(out);
        },
        None => {
            out.push(0u8);
        },
    }
    assert(out@ =~= old(out)@ + encode_optional_url(optional_url_view(*url)));
}

/// A copy of an optional URL.
pub fn duplicate_optional_url(url: &Option<Url>) -> (copy: Option<Url>)
    ensures
        optional_url_view(copy) == optional_url_view(*url),
{
    match url {
        Some(u) => Some(u.duplicate()),
        None => None,
    }
}

/// An operation to create a new DID.
#[derive(Clone, Debug, PartialEq)]
pub struct DidCreationOperation {
    /// The DID identifier. It has to be unique.
    pub did: DidIdentifier,
    /// The new authentication key.
    pub new_authentication_key: DidVerificationKey,
    /// The new key agreement keys.
    pub new_key_agreement_keys: DidEncryptionKeySet,
    /// The new attestation key, if any.
    pub new_attestation_key: Option<DidVerificationKey>,
    /// The new delegation key, if any.
    pub new_delegation_key: Option<DidVerificationKey>,
    /// The URL containing the DID endpoints description, if any.
    pub new_endpoint_url: Option<Url>,
}

/// The SCALE encoding of a creation operation.
pub open spec fn encode_creation_operation(op: DidCreationOperation) -> Seq<u8> {
    op.did@ + encode_verification_key(op.new_authentication_key) + encode_encryption_key_set(
        op.new_key_agreement_keys.elements(),
    ) + encode_optional_key(op.new_attestation_key) + encode_optional_key(op.new_delegation_key)
        + encode_optional_url(optional_url_view(op.new_endpoint_url))
}

impl DidOperation for DidCreationOperation {
    open spec fn relationship_of(&self) -> DidVerificationKeyRelationship {
        DidVerificationKeyRelationship::Authentication
    }

    open spec fn did_of(&self) -> DidIdentifier {
        self.did
    }

    open spec fn tx_counter_of(&self) -> u64 {
        0
    }

    open spec fn encodable(&self) -> bool {
        &&& self.new_key_agreement_keys.wf()
        &&& self.new_key_agreement_keys.elements().len() <= u32::MAX
        &&& url_encodable(self.new_endpoint_url)
    }

    open spec fn encoding(&self) -> Seq<u8> {
        encode_creation_operation(*self)
    }

    fn get_verification_key_relationship(&self) -> (r: DidVerificationKeyRelationship) {
        DidVerificationKeyRelationship::Authentication
    }

    fn get_did(&self) -> (did: &DidIdentifier) {
        &self.did
    }

    /// Irrelevant for creation operations.
    fn get_tx_counter(&self) -> (c: u64) {
        0u64
    }

    fn encode(&self) -> (bytes: Vec<u8>) {
        let mut out = Vec::new();
        push_bytes32(&mut out, &self.did);
        self.new_authentication_key.encode_to(&mut out);
        self.new_key_agreement_keys.encode_to(&mut out);
        encode_optional_key_to(&self.new_attestation_key, &mut out);
        encode_optional_key_to(&self.new_delegation_key, &mut out);
        encode_optional_url_to(&self.new_endpoint_url, &mut out);
        assert(out@ =~= encode_creation_operation(*self));
        out
    }
}

/// Possible actions on a DID verification key within a
/// [DidUpdateOperation].
#[derive(Clone, Copy, Debug, PartialEq, Eq, PartialOrd, Ord)]
pub enum DidVerificationKeyUpdateAction {
    /// Do not change the verification key.
    Ignore,
    /// Change the verification key to the new one provided.
    Change(DidVerificationKey),
    /// Delete the verification key.
    Delete,
}

impl Default for DidVerificationKeyUpdateAction {
    /// The ignore action.
    fn default() -> (a: Self)
        ensures
            a == DidVerificationKeyUpdateAction::Ignore,
    {
        DidVerificationKeyUpdateAction::Ignore
    }
}

/// The SCALE encoding of a key update action.
pub open spec fn encode_update_action(action: DidVerificationKeyUpdateAction) -> Seq<u8> {
    match action {
        DidVerificationKeyUpdateAction::Ignore => seq![0u8],
        DidVerificationKeyUpdateAction::Change(k) => seq![1u8] + encode_verification_key(k),
        DidVerificationKeyUpdateAction::Delete => seq![2u8],
    }
}

fn encode_update_action_to(action: &DidVerificationKeyUpdateAction, out: &mut Vec<u8>)
    ensures
        final(out)@ == old(out)@ + encode_update_action(*action),
{
    match action {
        DidVerificationKeyUpdateAction::Ignore => {
            out.push(0u8);
        },
        DidVerificationKeyUpdateAction::Change(k) => {
            out.push(1u8);
            k.encode_to(out);
        },
        DidVerificationKeyUpdateAction::Delete => {
            out.push(2u8);
        },
    }
    assert(out@ =~= old(out)@ + encode_update_action(*action));
}

/// An operation to update a DID.
#[derive(Clone, Debug, PartialEq)]
pub struct DidUpdateOperation {
    /// The DID identifier.
    pub did: DidIdentifier,
    /// The new authentication key, if any.
    pub new_authentication_key: Option<DidVerificationKey>,
    /// A new set of key agreement keys to add to the ones already stored.
    pub new_key_agreement_keys: DidEncryptionKeySet,
    /// The attestation key update action.
    pub attestation_key_update: DidVerificationKeyUpdateAction,
    /// The delegation key update action.
    pub delegation_key_update: DidVerificationKeyUpdateAction,
    /// The set of old public keys to remove, given their identifiers. The
    /// current authentication, attestation and delegation keys cannot be
    /// removed this way.
    pub public_keys_to_remove: KeyIdSet,
    /// The new endpoint URL, if any.
    pub new_endpoint_url: Option<Url>,
    /// The DID tx counter.
    pub tx_counter: u64,
}

/// The SCALE encoding of an update operation.
pub open spec fn encode_update_operation(op: DidUpdateOperation) -> Seq<u8> {
    op.did@ + encode_optional_key(op.new_authentication_key) + encode_encryption_key_set(
        op.new_key_agreement_keys.elements(),
    ) + encode_update_action(op.attestation_key_update) + encode_update_action(
        op.delegation_key_update,
    ) + encode_key_id_set(op.public_keys_to_remove.elements()) + encode_optional_url(
        optional_url_view(op.new_endpoint_url),
    ) + encode_u64(op.tx_counter)
}

impl DidOperation for DidUpdateOperation {
    open spec fn relationship_of(&self) -> DidVerificationKeyRelationship {
        DidVerificationKeyRelationship::Authentication
    }

    open spec fn did_of(&self) -> DidIdentifier {
        self.did
    }

    open spec fn tx_counter_of(&self) -> u64 {
        self.tx_counter
    }

    open spec fn encodable(&self) -> bool {
        &&& self.new_key_agreement_keys.wf()
        &&& self.new_key_agreement_keys.elements().len() <= u32::MAX
        &&& self.public_keys_to_remove.wf()
        &&& self.public_keys_to_remove.elements().len() <= u32::MAX
        &&& url_encodable(self.new_endpoint_url)
    }

    open spec fn encoding(&self) -> Seq<u8> {
        encode_update_operation(*self)
    }

    fn get_verification_key_relationship(&self) -> (r: DidVerificationKeyRelationship) {
        DidVerificationKeyRelationship::Authentication
    }

    fn get_did(&self) -> (did: &DidIdentifier) {
        &self.did
    }

    fn get_tx_counter(&self) -> (c: u64) {
        self.tx_counter
    }

    fn encode(&self) -> (bytes: Vec<u8>) {
        let mut out = Vec::new();
        push_bytes32(&mut out, &self.did);
        encode_optional_key_to(&self.new_authentication_key, &mut out);
        self.new_key_agreement_keys.encode_to(&mut out);
        encode_update_action_to(&self.attestation_key_update, &mut out);
        encode_update_action_to(&self.delegation_key_update, &mut out);
        self.public_keys_to_remove.encode_to(&mut out);
        encode_optional_url_to(&self.new_endpoint_url, &mut out);
        push_u64(&mut out, self.tx_counter);
        assert(out@ =~= encode_update_operation(*self));
        out
    }
}

/// An operation to delete a DID.
#[derive(Clone, Copy, Debug, PartialEq, Eq)]
pub struct DidDeletionOperation {
    /// The DID identifier.
    pub did: DidIdentifier,
    /// The DID tx counter.
    pub tx_counter: u64,
}

impl DidOperation for DidDeletionOperation {
    open spec fn relationship_of(&self) -> DidVerificationKeyRelationship {
        DidVerificationKeyRelationship::Authentication
    }

    open spec fn did_of(&self) -> DidIdentifier {
        self.did
    }

    open spec fn tx_counter_of(&self) -> u64 {
        self.tx_counter
    }

    open spec fn encodable(&self) -> bool {
        true
    }

    open spec fn encoding(&self) -> Seq<u8> {
        self.did@ + encode_u64(self.tx_counter)
    }

    fn get_verification_key_relationship(&self) -> (r: DidVerificationKeyRelationship) {
        DidVerificationKeyRelationship::Authentication
    }

    fn get_did(&self) -> (did: &DidIdentifier) {
        &self.did
    }

    fn get_tx_counter(&self) -> (c: u64) {
        self.tx_counter
    }

    fn encode(&self) -> (bytes: Vec<u8>) {
        let mut out = Vec::new();
        push_bytes32(&mut out, &self.did);
        push_u64(&mut out, self.tx_counter);
        out
    }
}

/// A DID operation that wraps another extrinsic call, allowing it to have a
/// DID origin and perform DID-based authorization upon its invocation.
#[derive(Clone, Debug, PartialEq)]
pub struct DidAuthorizedCallOperation {
    /// The DID identifier.
    pub did: DidIdentifier,
    /// The DID tx counter.
    pub tx_counter: u64,
    /// The SCALE encoding of the extrinsic call to authorize with the DID.
    pub call: Vec<u8>,
}

/// The SCALE encoding of an authorized call operation: the DID, the counter,
/// then the encoded call.
pub open spec fn encode_call_operation(op: DidAuthorizedCallOperation) -> Seq<u8> {
    op.did@ + encode_u64(op.tx_counter) + op.call@
}

impl DidAuthorizedCallOperation {
    /// Appends the SCALE encoding of the operation.
    pub fn encode_to(&self, out: &mut Vec<u8>)
        ensures
            final(out)@ == old(out)@ + encode_call_operation(*self),
    {
        push_bytes32(out, &self.did);
        push_u64(out, self.tx_counter);
        push_slice(out, self.call.as_slice());
        assert(out@ =~= old(out)@ + encode_call_operation(*self));
    }
}

/// Wrapper around a [DidAuthorizedCallOperation] with the type of DID key to
/// use for authorization. It encodes as the wrapped operation.
#[derive(Clone, Debug, PartialEq)]
pub struct DidAuthorizedCallOperationWithVerificationRelationship {
    /// The wrapped [DidAuthorizedCallOperation].
    pub operation: DidAuthorizedCallOperation,
    /// The type of DID key to use for authorization.
    pub verification_key_relationship: DidVerificationKeyRelationship,
}

impl DidOperation for DidAuthorizedCallOperationWithVerificationRelationship {
    open spec fn relationship_of(&self) -> DidVerificationKeyRelationship {
        self.verification_key_relationship
    }

    open spec fn did_of(&self) -> DidIdentifier {
        self.operation.did
    }

    open spec fn tx_counter_of(&self) -> u64 {
        self.operation.tx_counter
    }

    open spec fn encodable(&self) -> bool {
        true
    }

    open spec fn encoding(&self) -> Seq<u8> {
        encode_call_operation(self.operation)
    }

    fn get_verification_key_relationship(&self) -> (r: DidVerificationKeyRelationship) {
        self.verification_key_relationship
    }

    fn get_did(&self) -> (did: &DidIdentifier) {
        &self.operation.did
    }

    fn get_tx_counter(&self) -> (c: u64) {
        self.operation.tx_counter
    }

    fn encode(&self) -> (bytes: Vec<u8>) {
        let mut out = Vec::new();
        self.operation.encode_to(&mut out);
        assert(out@ =~= encode_call_operation(self.operation));
        out
    }
}

impl core::ops::Deref for DidAuthorizedCallOperationWithVerificationRelationship {
    type Target = DidAuthorizedCallOperation;

    fn deref(&self) -> (op: &DidAuthorizedCallOperation)
        ensures
            *op == self.operation,
    {
        &self.operation
    }
}

} // verus!
