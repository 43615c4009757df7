//! The DID registry: the DIDs stored on chain and the operations that
//! create, update and delete them, or authorize other calls on their
//! behalf, each after checking the operation's nonce and signature.

use vstd::prelude::*;
use crate::details::{DidDetails, DidState, BlockNumber, created_state, updated_state};
use crate::errors::{DidError, StorageError, SignatureError, UrlError};
use crate::key_set::KeyMap;
use crate::keys::{DidSignature, DidVerificationKeyRelationship, signature_check};
use crate::operations::{DidIdentifier, DidOperation, DidCreationOperation, DidUpdateOperation,
    DidDeletionOperation, DidAuthorizedCallOperation,
    DidAuthorizedCallOperationWithVerificationRelationship,
    DeriveDidCallAuthorizationVerificationKeyRelationship, encode_call_operation};

verus! {

/// Type for an account identifier, the submitter of a transaction.
pub type AccountIdentifier = [u8; 32];

/// What a successful DID operation reports.
#[derive(Clone, Copy, Debug, PartialEq, Eq)]
pub enum Event {
    /// A new DID has been created.
    /// \\[transaction signer, DID identifier\\]
    DidCreated(AccountIdentifier, DidIdentifier),
    /// A DID has been updated.
    /// \\[transaction signer, DID identifier\\]
    DidUpdated(AccountIdentifier, DidIdentifier),
    /// A DID has been deleted.
    /// \\[transaction signer, DID identifier\\]
    DidDeleted(AccountIdentifier, DidIdentifier),
}

/// The errors a DID operation reports.
#[derive(Clone, Copy, Debug, PartialEq, Eq, Structural)]
pub enum Error {
    /// The DID operation signature is not in the format the verification
    /// key expects.
    InvalidSignatureFormat,
    /// The DID operation signature is invalid for the payload and the
    /// verification key provided.
    InvalidSignature,
    /// The DID with the given identifier is already present on chain.
    DidAlreadyPresent,
    /// No DID with the given identifier is present on chain.
    DidNotPresent,
    /// One or more verification keys referenced are not stored in the set
    /// of verification keys.
    VerificationKeyNotPresent,
    /// The DID operation nonce is not equal to the current DID nonce + 1.
    InvalidNonce,
    /// The URL specified is not ASCII-encoded.
    InvalidUrlEncoding,
    /// The URL specified is not properly formatted.
    InvalidUrlScheme,
    /// The maximum supported value for the DID tx counter has been reached.
    /// No more operations with the DID are allowed.
    MaxTxCounterValue,
    /// The user tries to delete a verification key that is currently being
    /// used as an authentication, delegation, or attestation key, and this
    /// is not allowed.
    CurrentlyActiveKey,
    /// The called extrinsic does not support DID authorization.
    UnsupportedDidAuthorizationCall,
    /// An error that is not supposed to take place, yet it happened.
    InternalError,
}

/// The registry error that reports a storage error.
pub open spec fn error_of_storage(e: StorageError) -> Error {
    match e {
        StorageError::DidNotPresent => Error::DidNotPresent,
        StorageError::DidAlreadyPresent => Error::DidAlreadyPresent,
        StorageError::DidKeyNotPresent(_) => Error::VerificationKeyNotPresent,
        StorageError::VerificationKeyNotPresent => Error::VerificationKeyNotPresent,
        StorageError::MaxTxCounterValue => Error::MaxTxCounterValue,
        StorageError::CurrentlyActiveKey => Error::CurrentlyActiveKey,
    }
}

/// The registry error that reports a signature error.
pub open spec fn error_of_signature(e: SignatureError) -> Error {
    match e {
        SignatureError::InvalidSignature => Error::InvalidSignature,
        SignatureError::InvalidSignatureFormat => Error::InvalidSignatureFormat,
        SignatureError::InvalidNonce => Error::InvalidNonce,
    }
}

/// The registry error that reports a URL error.
pub open spec fn error_of_url(e: UrlError) -> Error {
    match e {
        UrlError::InvalidUrlEncoding => Error::InvalidUrlEncoding,
        UrlError::InvalidUrlScheme => Error::InvalidUrlScheme,
    }
}

/// The registry error that reports a DID error.
pub open spec fn error_of(e: DidError) -> Error {
    match e {
        DidError::StorageError(s) => error_of_storage(s),
        DidError::SignatureError(s) => error_of_signature(s),
        DidError::UrlError(u) => error_of_url(u),
        DidError::InternalError => Error::InternalError,
    }
}

impl From<StorageError> for Error {
    fn from(error: StorageError) -> (e: Self)
        ensures
            e == error_of_storage(error),
    {
        match error {
            StorageError::DidNotPresent => Error::DidNotPresent,
            StorageError::DidAlreadyPresent => Error::DidAlreadyPresent,
            StorageError::DidKeyNotPresent(_) => Error::VerificationKeyNotPresent,
            StorageError::VerificationKeyNotPresent => Error::VerificationKeyNotPresent,
            StorageError::MaxTxCounterValue => Error::MaxTxCounterValue,
            StorageError::CurrentlyActiveKey => Error::CurrentlyActiveKey,
        }
    }
}

impl vstd::std_specs::convert::FromSpecImpl<StorageError> for Error {
    open spec fn obeys_from_spec() -> bool {
        true
    }

    open spec fn from_spec(v: StorageError) -> Self {
        error_of_storage(v)
    }
}

impl From<SignatureError> for Error {
    fn from(error: SignatureError) -> (e: Self)
        ensures
            e == error_of_signature(error),
    {
        match error {
            SignatureError::InvalidSignature => Error::InvalidSignature,
            SignatureError::InvalidSignatureFormat => Error::InvalidSignatureFormat,
            SignatureError::InvalidNonce => Error::InvalidNonce,
        }
    }
}

impl vstd::std_specs::convert::FromSpecImpl<SignatureError> for Error {
    open spec fn obeys_from_spec() -> bool {
        true
    }

    open spec fn from_spec(v: SignatureError) -> Self {
        error_of_signature(v)
    }
}

impl From<UrlError> for Error {
    fn from(error: UrlError) -> (e: Self)
        ensures
            e == error_of_url(error),
    {
        match error {
            UrlError::InvalidUrlEncoding => Error::InvalidUrlEncoding,
            UrlError::InvalidUrlScheme => Error::InvalidUrlScheme,
        }
    }
}

impl vstd::std_specs::convert::FromSpecImpl<UrlError> for Error {
    open spec fn obeys_from_spec() -> bool {
        true
    }

    open spec fn from_spec(v: UrlError) -> Self {
        error_of_url(v)
    }
}

impl From<DidError> for Error {
    fn from(error: DidError) -> (e: Self)
        ensures
            e == error_of(error),
    {
        match error {
            DidError::StorageError(storage_error) => Self::from(storage_error),
            DidError::SignatureError(operation_error) => Self::from(operation_error),
            DidError::UrlError(url_error) => Self::from(url_error),
            DidError::InternalError => Self::InternalError,
        }
    }
}

impl vstd::std_specs::convert::FromSpecImpl<DidError> for Error {
    open spec fn obeys_from_spec() -> bool {
        true
    }

    open spec fn from_spec(v: DidError) -> Self {
        error_of(v)
    }
}

/// The outcome of checking a payload signature with the DID key of type
/// `key_type`: the key must be set, the signature must be of the key's
/// scheme, and it must be valid.
pub open spec fn payload_check(
    details: DidState,
    payload: Seq<u8>,
    signature: DidSignature,
    key_type: DidVerificationKeyRelationship,
) -> Result<(), DidError> {
    match details.verification_key_for(key_type) {
        None => Err(DidError::StorageError(StorageError::DidKeyNotPresent(key_type))),
        Some(key) => match signature_check(key, payload, signature) {
            Err(_) => Err(DidError::SignatureError(SignatureError::InvalidSignatureFormat)),
            Ok(false) => Err(DidError::SignatureError(SignatureError::InvalidSignature)),
            Ok(true) => Ok(()),
        },
    }
}

/// The outcome of checking an operation's nonce: the DID's counter must be
/// below its maximum, and the operation's counter must be the next value.
pub open spec fn counter_check(details: DidState, tx_counter: u64) -> Result<(), DidError> {
    if details.last_tx_counter == u64::MAX {
        Err(DidError::StorageError(StorageError::MaxTxCounterValue))
    } else if tx_counter != details.last_tx_counter + 1 {
        Err(DidError::SignatureError(SignatureError::InvalidNonce))
    } else {
        Ok(())
    }
}

/// The outcome of checking an operation: its nonce, then its signature.
pub open spec fn operation_check(
    details: DidState,
    tx_counter: u64,
    key_type: DidVerificationKeyRelationship,
    payload: Seq<u8>,
    signature: DidSignature,
) -> Result<(), DidError> {
    match counter_check(details, tx_counter) {
        Err(e) => Err(e),
        Ok(()) => payload_check(details, payload, signature, key_type),
    }
}

/// The outcome, and the registry after it, of creating a DID.
pub open spec fn create_outcome(
    registry: Map<DidIdentifier, DidState>,
    sender: AccountIdentifier,
    operation: DidCreationOperation,
    signature: DidSignature,
    block_number: BlockNumber,
) -> (Result<Event, Error>, Map<DidIdentifier, DidState>) {
    if registry.contains_key(operation.did) {
        (Err(Error::DidAlreadyPresent), registry)
    } else {
        let details = created_state(operation, block_number);
        match payload_check(
            details,
            operation.encoding(),
            signature,
            DidVerificationKeyRelationship::Authentication,
        ) {
            Err(e) => (Err(error_of(e)), registry),
            Ok(()) => (
                Ok(Event::DidCreated(sender, operation.did)),
                registry.insert(operation.did, details),
            ),
        }
    }
}

/// The outcome, and the registry after it, of updating a DID.
pub open spec fn update_outcome(
    registry: Map<DidIdentifier, DidState>,
    sender: AccountIdentifier,
    operation: DidUpdateOperation,
    signature: DidSignature,
    block_number: BlockNumber,
) -> (Result<Event, Error>, Map<DidIdentifier, DidState>) {
    if !registry.contains_key(operation.did) {
        (Err(Error::DidNotPresent), registry)
    } else {
        let details = registry[operation.did];
        match operation_check(
            details,
            operation.tx_counter,
            DidVerificationKeyRelationship::Authentication,
            operation.encoding(),
            signature,
        ) {
            Err(e) => (Err(error_of(e)), registry),
            Ok(()) => match updated_state(details, operation, block_number) {
                Err(e) => (Err(error_of(e)), registry),
                Ok(new_details) => (
                    Ok(Event::DidUpdated(sender, operation.did)),
                    registry.insert(operation.did, new_details),
                ),
            },
        }
    }
}

/// The outcome, and the registry after it, of deleting a DID.
pub open spec fn delete_outcome(
    registry: Map<DidIdentifier, DidState>,
    sender: AccountIdentifier,
    operation: DidDeletionOperation,
    signature: DidSignature,
) -> (Result<Event, Error>, Map<DidIdentifier, DidState>) {
    if !registry.contains_key(operation.did) {
        (Err(Error::DidNotPresent), registry)
    } else {
        match operation_check(
            registry[operation.did],
            operation.tx_counter,
            DidVerificationKeyRelationship::Authentication,
            operation.encoding(),
            signature,
        ) {
            Err(e) => (Err(error_of(e)), registry),
            Ok(()) => (Ok(Event::DidDeleted(sender, operation.did)), registry.remove(operation.did)),
        }
    }
}

/// The outcome, and the registry after it, of checking an operation of the
/// DID `did` and, when it is valid, increasing the DID's counter.
pub open spec fn nonce_outcome(
    registry: Map<DidIdentifier, DidState>,
    did: DidIdentifier,
    tx_counter: u64,
    key_type: DidVerificationKeyRelationship,
    payload: Seq<u8>,
    signature: DidSignature,
) -> (Result<(), DidError>, Map<DidIdentifier, DidState>) {
    if !registry.contains_key(did) {
        (Err(DidError::StorageError(StorageError::DidNotPresent)), registry)
    } else {
        let details = registry[did];
        match operation_check(details, tx_counter, key_type, payload, signature) {
            Err(e) => (Err(e), registry),
            Ok(()) => (
                Ok(()),
                registry.insert(did, details.with_tx_counter((details.last_tx_counter + 1) as u64)),
            ),
        }
    }
}

/// The outcome, and the registry after it, of authorizing a call on behalf
/// of a DID, given the key type the call asks for (none when it does not
/// support DID authorization). On success the call is to be dispatched with
/// the DID as its origin.
pub open spec fn call_outcome(
    registry: Map<DidIdentifier, DidState>,
    operation: DidAuthorizedCallOperation,
    key_type: Option<DidVerificationKeyRelationship>,
    signature: DidSignature,
) -> (Result<DidIdentifier, Error>, Map<DidIdentifier, DidState>) {
    match key_type {
        None => (Err(Error::UnsupportedDidAuthorizationCall), registry),
        Some(k) => {
            let (r, after) = nonce_outcome(
                registry,
                operation.did,
                operation.tx_counter,
                k,
                encode_call_operation(operation),
                signature,
            );
            match r {
                Ok(()) => (Ok(operation.did), after),
                Err(e) => (Err(error_of(e)), after),
            }
        },
    }
}

/// The DID registry: the DIDs stored on chain, by identifier.
#[derive(Clone, Debug, PartialEq)]
pub struct Pallet {
    did: KeyMap<DidDetails>,
}

/// The abstract contents of a map of DID details.
pub open spec fn registry_view(m: Map<DidIdentifier, DidDetails>) -> Map<DidIdentifier, DidState> {
    m.map_values(|d: DidDetails| d@)
}

proof fn lemma_registry_view_insert(m: Map<DidIdentifier, DidDetails>, k: DidIdentifier, d: DidDetails)
    ensures
        registry_view(m.insert(k, d)) == registry_view(m).insert(k, d@),
{
    assert(registry_view(m.insert(k, d)) =~= registry_view(m).insert(k, d@));
}

proof fn lemma_registry_view_remove(m: Map<DidIdentifier, DidDetails>, k: DidIdentifier)
    ensures
        registry_view(m.remove(k)) == registry_view(m).remove(k),
{
    assert(registry_view(m.remove(k)) =~= registry_view(m).remove(k));
}

impl Pallet {
    /// The DIDs stored, by identifier.
    pub closed spec fn view(&self) -> Map<DidIdentifier, DidState> {
        registry_view(self.did@)
    }

    /// Well-formedness: the storage map is ordered and every stored DID's
    /// details are well formed.
    pub closed spec fn wf(&self) -> bool {
        &&& self.did.wf()
        &&& forall|id: DidIdentifier| #[trigger] self.did@.contains_key(id) ==> self.did@[id].wf()
    }

    /// A well-formed registry holds well-formed details.
    pub proof fn lemma_wf(&self)
        requires
            self.wf(),
        ensures
            forall|id: DidIdentifier| #[trigger] self@.contains_key(id) ==> self@[id].well_formed(),
    {
        assert forall|id: DidIdentifier| #[trigger] self@.contains_key(id) implies self@[id].well_formed() by {
            assert(self.did@.contains_key(id));
            assert(self@[id] == self.did@[id]@);
            self.did@[id].lemma_wf();
        }
    }

    /// A registry with no DIDs.
    pub fn new() -> (p: Self)
        ensures
            p.wf(),
            p@ == Map::<DidIdentifier, DidState>::empty(),
    {
        let p = Pallet { did: KeyMap::new() };
        assert(p@ =~= Map::<DidIdentifier, DidState>::empty());
        p
    }

    /// The details stored for `did`, if any.
    pub fn get_did(&self, did: &DidIdentifier) -> (d: Option<&DidDetails>)
        requires
            self.wf(),
        ensures
            d.is_some() == self@.contains_key(*did),
            d matches Some(details) ==> details.wf() && details@ == self@[*did],
    {
        let r = self.did.get(did);
        proof {
            if r.is_some() {
                assert(self.did@.contains_key(*did));
            }
        }
        r
    }

    /// Stores `details` under `did`, replacing whatever was stored there.
    pub fn insert_did(&mut self, did: DidIdentifier, details: DidDetails)
        requires
            old(self).wf(),
            details.wf(),
        ensures
            final(self).wf(),
            final(self)@ == old(self)@.insert(did, details@),
    {
        let ghost dv = details@;
        let ghost m = self.did@;
        self.did.insert(did, details);
        proof {
            lemma_registry_view_insert(m, did, self.did@[did]);
            assert forall|id: DidIdentifier| #[trigger] self.did@.contains_key(id) implies self.did@[id].wf() by {
                if id != did {
                    assert(m.contains_key(id));
                }
            }
        }
    }

    /// Removes whatever is stored under `did`.
    fn remove_did(&mut self, did: &DidIdentifier)
        requires
            old(self).wf(),
        ensures
            final(self).wf(),
            final(self)@ == old(self)@.remove(*did),
    {
        let ghost m = self.did@;
        self.did.remove(did);
        proof {
            lemma_registry_view_remove(m, *did);
            assert forall|id: DidIdentifier| #[trigger] self.did@.contains_key(id) implies self.did@[id].wf() by {
                assert(m.contains_key(id));
            }
        }
    }

    /// Verify a payload signature using the DID key of type `key_type`.
    pub fn verify_payload_signature_with_did_key_type(
        payload: &[u8],
        signature: &DidSignature,
        did_details: &DidDetails,
        key_type: DidVerificationKeyRelationship,
    ) -> (r: Result<(), DidError>)
        requires
            did_details.wf(),
        ensures
            r == payload_check(did_details@, payload@, *signature, key_type),
    {
        // Retrieve the needed verification key from the DID details, or
        // generate an error if there is no key of the type required.
        let verification_key = match did_details.get_verification_key_for_key_type(key_type) {
            Some(k) => k,
            None => {
                return Err(DidError::StorageError(StorageError::DidKeyNotPresent(key_type)));
            },
        };
        // Verify that the signature matches the expected format, otherwise
        // generate an error.
        let is_signature_valid = match verification_key.verify_signature(payload, signature) {
            Ok(b) => b,
            Err(_) => {
                return Err(DidError::SignatureError(SignatureError::InvalidSignatureFormat));
            },
        };
        if !is_signature_valid {
            return Err(DidError::SignatureError(SignatureError::InvalidSignature));
        }
        Ok(())
    }

    /// Verify the validity of a DID operation nonce: it must equal the
    /// stored counter + 1, and the stored counter must be below its maximum
    /// value, since counters do not wrap around.
    fn verify_operation_counter_for_did<O: DidOperation>(
        operation: &O,
        did_details: &DidDetails,
    ) -> (r: Result<(), DidError>)
        ensures
            r == counter_check(did_details@, operation.tx_counter_of()),
    {
        // Verify that the DID has not reached the maximum tx counter value.
        if did_details.get_tx_counter_value() == u64::MAX {
            return Err(DidError::StorageError(StorageError::MaxTxCounterValue));
        }
        // Verify that the operation counter is equal to the stored one + 1.
        let expected_nonce_value = match did_details.get_tx_counter_value().checked_add(1) {
            Some(v) => v,
            None => {
                return Err(DidError::InternalError);
            },
        };
        if operation.get_tx_counter() != expected_nonce_value {
            return Err(DidError::SignatureError(SignatureError::InvalidNonce));
        }
        Ok(())
    }

    /// Verifies the validity of a DID operation: its nonce, then its
    /// signature with the DID key the operation asks for.
    fn verify_operation_validity_for_did<O: DidOperation>(
        operation: &O,
        signature: &DidSignature,
        did_details: &DidDetails,
    ) -> (r: Result<(), DidError>)
        requires
            operation.encodable(),
            did_details.wf(),
        ensures
            r == operation_check(
                did_details@,
                operation.tx_counter_of(),
                operation.relationship_of(),
                operation.encoding(),
                *signature,
            ),
    {
        match Self::verify_operation_counter_for_did(operation, did_details) {
            Ok(()) => {},
            Err(e) => {
                return Err(e);
            },
        }
        let payload = operation.encode();
        Self::verify_payload_signature_with_did_key_type(
            payload.as_slice(),
            signature,
            did_details,
            operation.get_verification_key_relationship(),
        )
    }

    /// Verify the validity (i.e., nonce and signature) of a DID operation
    /// and, if valid, update the DID's counter to the operation's.
    pub fn verify_operation_validity_and_increase_did_nonce<O: DidOperation>(
        &mut self,
        operation: &O,
        signature: &DidSignature,
    ) -> (r: Result<(), DidError>)
        requires
            old(self).wf(),
            operation.encodable(),
        ensures
            final(self).wf(),
            (r, final(self)@) == nonce_outcome(
                old(self)@,
                operation.did_of(),
                operation.tx_counter_of(),
                operation.relationship_of(),
                operation.encoding(),
                *signature,
            ),
    {
        let did = operation.get_did();
        let mut did_details = match self.get_did(did) {
            Some(d) => d.duplicate(),
            None => {
                return Err(DidError::StorageError(StorageError::DidNotPresent));
            },
        };
        match Self::verify_operation_validity_for_did(operation, signature, &did_details) {
            Ok(()) => {},
            Err(e) => {
                return Err(e);
            },
        }
        // Update tx counter in DID details and save to storage.
        match did_details.increase_tx_counter() {
            Ok(()) => {},
            Err(e) => {
                return Err(DidError::StorageError(e));
            },
        }
        self.insert_did(*did, did_details);
        Ok(())
    }

    /// Stores a new DID on chain, after verifying the signature of the
    /// creation operation with the authentication key it provides.
    ///
    /// * sender: the account submitting the transaction (which can be
    ///   different from the DID subject)
    /// * operation: the creation operation, with the details of the new DID
    /// * signature: the signature over the encoded operation, made with the
    ///   operation's authentication key
    /// * block_number: the current block, at which the keys are set
    pub fn submit_did_create_operation(
        &mut self,
        sender: AccountIdentifier,
        operation: &DidCreationOperation,
        signature: &DidSignature,
        block_number: BlockNumber,
    ) -> (r: Result<Event, Error>)
        requires
            old(self).wf(),
            operation.encodable(),
        ensures
            final(self).wf(),
            (r, final(self)@) == create_outcome(
                old(self)@,
                sender,
                *operation,
                *signature,
                block_number,
            ),
    {
        // There has to be no other DID with the same identifier already
        // saved on chain.
        if self.get_did(&operation.did).is_some() {
            return Err(Error::DidAlreadyPresent);
        }
        let did_entry = DidDetails::from_creation_operation(operation, block_number);
        let payload = operation.encode();
        match Self::verify_payload_signature_with_did_key_type(
            payload.as_slice(),
            signature,
            &did_entry,
            operation.get_verification_key_relationship(),
        ) {
            Ok(()) => {},
            Err(e) => {
                return Err(Error::from(e));
            },
        }
        let did_identifier = operation.did;
        self.insert_did(did_identifier, did_entry);
        Ok(Event::DidCreated(sender, did_identifier))
    }

    /// Updates the information associated with a DID on chain, after
    /// verifying the operation's nonce and its signature, which must be made
    /// with the DID's current authentication key, even when the operation
    /// replaces that key.
    pub fn submit_did_update_operation(
        &mut self,
        sender: AccountIdentifier,
        operation: &DidUpdateOperation,
        signature: &DidSignature,
        block_number: BlockNumber,
    ) -> (r: Result<Event, Error>)
        requires
            old(self).wf(),
            operation.encodable(),
        ensures
            final(self).wf(),
            (r, final(self)@) == update_outcome(
                old(self)@,
                sender,
                *operation,
                *signature,
                block_number,
            ),
    {
        let did_identifier = operation.did;
        let did_details = match self.get_did(&did_identifier) {
            Some(d) => d.duplicate(),
            None => {
                return Err(Error::DidNotPresent);
            },
        };
        // Verify the signature and the nonce of the update operation.
        match Self::verify_operation_validity_for_did(operation, signature, &did_details) {
            Ok(()) => {},
            Err(e) => {
                return Err(Error::from(e));
            },
        }
        // Generate the new details by applying the changes in the update
        // operation to the old ones.
        let new_did_details = match DidDetails::try_from_update(did_details, operation, block_number) {
            Ok(d) => d,
            Err(e) => {
                return Err(Error::from(e));
            },
        };
        self.insert_did(did_identifier, new_did_details);
        Ok(Event::DidUpdated(sender, did_identifier))
    }

    /// Deletes all the information associated with a DID on chain, after
    /// verifying the operation's nonce and its signature with the DID's
    /// authentication key.
    pub fn submit_did_delete_operation(
        &mut self,
        sender: AccountIdentifier,
        operation: &DidDeletionOperation,
        signature: &DidSignature,
    ) -> (r: Result<Event, Error>)
        requires
            old(self).wf(),
        ensures
            final(self).wf(),
            (r, final(self)@) == delete_outcome(old(self)@, sender, *operation, *signature),
    {
        let did_identifier = operation.did;
        match self.get_did(&did_identifier) {
            Some(did_details) => {
                // Verify the signature and the nonce of the delete operation.
                match Self::verify_operation_validity_for_did(operation, signature, did_details) {
                    Ok(()) => {},
                    Err(e) => {
                        return Err(Error::from(e));
                    },
                }
            },
            None => {
                return Err(Error::DidNotPresent);
            },
        }
        self.remove_did(&did_identifier);
        Ok(Event::DidDeleted(sender, did_identifier))
    }

    /// Authorizes the execution of a call on behalf of a DID, given the DID
    /// key type that the call requires (`None` for a call that does not
    /// support DID authorization): the operation's nonce and signature are
    /// verified and the DID's counter increased. On success the call is to
    /// be dispatched with the returned DID as its origin.
    pub fn authorize_did_call(
        &mut self,
        did_call: &DidAuthorizedCallOperation,
        verification_key_relationship: Option<DidVerificationKeyRelationship>,
        signature: &DidSignature,
    ) -> (r: Result<DidIdentifier, Error>)
        requires
            old(self).wf(),
        ensures
            final(self).wf(),
            (r, final(self)@) == call_outcome(
                old(self)@,
                *did_call,
                verification_key_relationship,
                *signature,
            ),
    {
        let did_identifier = did_call.did;
        let verification_key_relationship = match verification_key_relationship {
            Some(k) => k,
            None => {
                return Err(Error::UnsupportedDidAuthorizationCall);
            },
        };
        // Wrap the operation in the expected structure, specifying the key
        // retrieved.
        let wrapped_operation = DidAuthorizedCallOperationWithVerificationRelationship {
            operation: DidAuthorizedCallOperation {
                did: did_call.did,
                tx_counter: did_call.tx_counter,
                call: copy_call(&did_call.call),
            },
            verification_key_relationship,
        };
        assert(wrapped_operation.encoding() == encode_call_operation(*did_call));
        // Verify the operation signature and increase the nonce if
        // successful.
        match self.verify_operation_validity_and_increase_did_nonce(&wrapped_operation, signature) {
            Ok(()) => Ok(did_identifier),
            Err(e) => Err(Error::from(e)),
        }
    }

    /// Submits the execution of a call that supports DID-based
    /// authorization: the key type it requires is derived from the call,
    /// then the operation is authorized as [Pallet::authorize_did_call]
    /// says. On success the call is to be dispatched with the returned DID
    /// as its origin.
    pub fn submit_did_call<C: DeriveDidCallAuthorizationVerificationKeyRelationship>(
        &mut self,
        call: &C,
        did_call: &DidAuthorizedCallOperation,
        signature: &DidSignature,
    ) -> (r: Result<DidIdentifier, Error>)
        requires
            old(self).wf(),
        ensures
            final(self).wf(),
            (r, final(self)@) == call_outcome(
                old(self)@,
                *did_call,
                call.derived_relationship(),
                *signature,
            ),
    {
        // Compute the right DID verification key to use to verify the
        // operation signature.
        let verification_key_relationship = call.derive_verification_key_relationship();
        self.authorize_did_call(did_call, verification_key_relationship, signature)
    }
}

fn copy_call(call: &Vec<u8>) -> (copy: Vec<u8>)
    ensures
        copy@ == call@,
{
    let mut copy = Vec::new();
    crate::encoding::push_slice(&mut copy, call.as_slice());
    assert(copy@ =~= call@);
    copy
}

} // verus!
