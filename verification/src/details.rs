//! The details a DID holds on chain: its keys, the roles they play, its
//! endpoint URL and its transaction counter, with the operations that
//! change them.

use vstd::prelude::*;
use crate::bytes::bytes32_eq;
use crate::errors::StorageError;
use crate::key_set::{KeyIdSet, KeyMap, DidEncryptionKeySet};
use crate::keys::{KeyId, DidPublicKey, DidVerificationKey, DidEncryptionKey,
    DidVerificationKeyRelationship, key_id_of, calculate_key_id};
use crate::url::{Url, UrlView, optional_url_view};
use crate::errors::DidError;
use crate::operations::{DidCreationOperation, DidUpdateOperation, DidVerificationKeyUpdateAction,
    duplicate_optional_url};

verus! {

/// Type for a block number.
pub type BlockNumber = u64;

/// Details of a public key: the key value and the block number at which
/// it was set.
#[derive(Clone, Copy, Debug, PartialEq, Eq)]
pub struct DidPublicKeyDetails {
    /// A public key the DID controls.
    pub key: DidPublicKey,
    /// The block number in which the key was added to the DID.
    pub block_number: BlockNumber,
}

/// The abstract content of a DID's details.
#[verifier::ext_equal]
pub ghost struct DidState {
    /// The ID of the authentication key.
    pub authentication_key: KeyId,
    /// The IDs of the key agreement keys.
    pub key_agreement_keys: Set<KeyId>,
    /// The ID of the delegation key, if any.
    pub delegation_key: Option<KeyId>,
    /// The ID of the attestation key, if any.
    pub attestation_key: Option<KeyId>,
    /// All the public keys the DID controls, by ID.
    pub public_keys: Map<KeyId, DidPublicKeyDetails>,
    /// The endpoint URL, if any.
    pub endpoint_url: Option<UrlView>,
    /// The last transaction counter used.
    pub last_tx_counter: u64,
}

/// The details of a newly stored key.
pub open spec fn key_details(key: DidPublicKey, block_number: BlockNumber) -> DidPublicKeyDetails {
    DidPublicKeyDetails { key, block_number }
}

impl DidState {
    /// `id` is the authentication, attestation or delegation key.
    pub open spec fn is_active_key(self, id: KeyId) -> bool {
        ||| self.authentication_key == id
        ||| self.attestation_key == Some(id)
        ||| self.delegation_key == Some(id)
    }

    /// `id` is referenced by one of the key roles: authentication, key
    /// agreement, attestation or delegation.
    pub open spec fn key_in_use(self, id: KeyId) -> bool {
        self.is_active_key(id) || self.key_agreement_keys.contains(id)
    }

    /// The invariant of DID details: every stored key is stored under its
    /// own identifier, and every key that plays a role is stored.
    pub open spec fn well_formed(self) -> bool {
        &&& self.public_keys.dom().finite()
        &&& self.key_agreement_keys.finite()
        &&& forall|id: KeyId| #[trigger]
            self.public_keys.contains_key(id) ==> key_id_of(self.public_keys[id].key) == id
        &&& forall|id: KeyId| #[trigger] self.key_in_use(id) ==> self.public_keys.contains_key(id)
    }

    /// The details of a new DID with only an authentication key.
    pub open spec fn initial(authentication_key: DidVerificationKey, block_number: BlockNumber) -> DidState {
        let key = DidPublicKey::PublicVerificationKey(authentication_key);
        DidState {
            authentication_key: key_id_of(key),
            key_agreement_keys: Set::empty(),
            delegation_key: None,
            attestation_key: None,
            public_keys: Map::empty().insert(key_id_of(key), key_details(key, block_number)),
            endpoint_url: None,
            last_tx_counter: 0,
        }
    }

    /// Stores `key` under its identifier, replacing what was stored there.
    pub open spec fn store_key(self, key: DidPublicKey, block_number: BlockNumber) -> DidState {
        DidState {
            public_keys: self.public_keys.insert(key_id_of(key), key_details(key, block_number)),
            ..self
        }
    }

    /// Removes the key `id` from the stored keys unless a role references it.
    pub open spec fn remove_key_if_unused(self, id: KeyId) -> DidState {
        if self.key_in_use(id) {
            self
        } else {
            DidState { public_keys: self.public_keys.remove(id), ..self }
        }
    }

    /// Replaces the authentication key; the old one is removed unless still
    /// in use, the new one is stored.
    pub open spec fn with_authentication_key(
        self,
        key: DidVerificationKey,
        block_number: BlockNumber,
    ) -> DidState {
        let new_key = DidPublicKey::PublicVerificationKey(key);
        DidState { authentication_key: key_id_of(new_key), ..self }.remove_key_if_unused(
            self.authentication_key,
        ).store_key(new_key, block_number)
    }

    /// Adds the key agreement keys, in order, to the stored keys and to the
    /// key agreement keys.
    pub open spec fn with_key_agreement_keys(
        self,
        keys: Seq<DidEncryptionKey>,
        block_number: BlockNumber,
    ) -> DidState
        decreases keys.len(),
    {
        if keys.len() == 0 {
            self
        } else {
            let before = self.with_key_agreement_keys(keys.drop_last(), block_number);
            let key = DidPublicKey::PublicEncryptionKey(keys.last());
            let stored = before.store_key(key, block_number);
            DidState {
                key_agreement_keys: stored.key_agreement_keys.insert(key_id_of(key)),
                ..stored
            }
        }
    }

    /// Sets the attestation key and stores it; the previous attestation key
    /// stays stored.
    pub open spec fn with_attestation_key(
        self,
        key: DidVerificationKey,
        block_number: BlockNumber,
    ) -> DidState {
        let new_key = DidPublicKey::PublicVerificationKey(key);
        DidState { attestation_key: Some(key_id_of(new_key)), ..self }.store_key(
            new_key,
            block_number,
        )
    }

    /// Unsets the attestation key, removing it unless still in use.
    pub open spec fn without_attestation_key(self) -> DidState {
        match self.attestation_key {
            Some(old_id) => DidState { attestation_key: None, ..self }.remove_key_if_unused(old_id),
            None => self,
        }
    }

    /// Sets the delegation key; the previous one is removed unless still in
    /// use, the new one is stored.
    pub open spec fn with_delegation_key(
        self,
        key: DidVerificationKey,
        block_number: BlockNumber,
    ) -> DidState {
        let new_key = DidPublicKey::PublicVerificationKey(key);
        let set = DidState { delegation_key: Some(key_id_of(new_key)), ..self };
        let cleaned = match self.delegation_key {
            Some(old_id) => set.remove_key_if_unused(old_id),
            None => set,
        };
        cleaned.store_key(new_key, block_number)
    }

    /// Unsets the delegation key, removing it unless still in use.
    pub open spec fn without_delegation_key(self) -> DidState {
        match self.delegation_key {
            Some(old_id) => DidState { delegation_key: None, ..self }.remove_key_if_unused(old_id),
            None => self,
        }
    }

    /// The error, if any, of removing the keys `ids` in order: the first key
    /// that is an active (authentication, attestation or delegation) key or
    /// that is not stored decides it.
    pub open spec fn removal_error(self, ids: Seq<KeyId>) -> Option<StorageError>
        decreases ids.len(),
    {
        if ids.len() == 0 {
            None
        } else if self.is_active_key(ids[0]) {
            Some(StorageError::CurrentlyActiveKey)
        } else if !self.public_keys.contains_key(ids[0]) {
            Some(StorageError::VerificationKeyNotPresent)
        } else {
            self.removal_error(ids.drop_first())
        }
    }

    /// How many of the keys `ids`, taken in order, pass the checks of
    /// [DidState::removal_error] before the first that fails (all of them
    /// when none fails).
    pub open spec fn removable_prefix_len(self, ids: Seq<KeyId>) -> nat
        decreases ids.len(),
    {
        if ids.len() == 0 {
            0
        } else if self.is_active_key(ids[0]) || !self.public_keys.contains_key(ids[0]) {
            0
        } else {
            1 + self.removable_prefix_len(ids.drop_first())
        }
    }

    /// Removes the keys `ids` from the stored keys and from the key
    /// agreement keys.
    pub open spec fn without_public_keys(self, ids: Set<KeyId>) -> DidState {
        DidState {
            public_keys: self.public_keys.remove_keys(ids),
            key_agreement_keys: self.key_agreement_keys.difference(ids),
            ..self
        }
    }

    /// The same details with another endpoint URL.
    pub open spec fn with_endpoint_url(self, url: Option<UrlView>) -> DidState {
        DidState { endpoint_url: url, ..self }
    }

    /// The same details with another transaction counter.
    pub open spec fn with_tx_counter(self, counter: u64) -> DidState {
        DidState { last_tx_counter: counter, ..self }
    }

    /// The verification key that plays the role `key_type`, if the role is
    /// set and a verification key is stored under its identifier.
    pub open spec fn verification_key_for(self, key_type: DidVerificationKeyRelationship) -> Option<
        DidVerificationKey,
    > {
        let id = match key_type {
            DidVerificationKeyRelationship::AssertionMethod => self.attestation_key,
            DidVerificationKeyRelationship::Authentication => Some(self.authentication_key),
            DidVerificationKeyRelationship::CapabilityDelegation => self.delegation_key,
            DidVerificationKeyRelationship::CapabilityInvocation => None,
        };
        match id {
            Some(id) => if self.public_keys.contains_key(id) {
                match self.public_keys[id].key {
                    DidPublicKey::PublicVerificationKey(k) => Some(k),
                    DidPublicKey::PublicEncryptionKey(_) => None,
                }
            } else {
                None
            },
            None => None,
        }
    }
}


/// A new DID's details are well formed.
pub proof fn lemma_initial_well_formed(key: DidVerificationKey, block_number: BlockNumber)
    ensures
        DidState::initial(key, block_number).well_formed(),
{
    let s = DidState::initial(key, block_number);
    assert(s.key_agreement_keys =~= Set::<KeyId>::empty());
    assert forall|id: KeyId| #[trigger] s.key_in_use(id) implies s.public_keys.contains_key(id) by {
        assert(!s.key_agreement_keys.contains(id));
    }
}

/// Storing a key under its identifier keeps the details well formed.
pub proof fn lemma_store_key_well_formed(s: DidState, key: DidPublicKey, block_number: BlockNumber)
    requires
        s.well_formed(),
    ensures
        s.store_key(key, block_number).well_formed(),
{
    let t = s.store_key(key, block_number);
    assert(t.public_keys.dom() == s.public_keys.dom().insert(key_id_of(key)));
    assert(t.public_keys.dom().finite());
    assert forall|id: KeyId| #[trigger] t.public_keys.contains_key(id) implies key_id_of(
        t.public_keys[id].key,
    ) == id by {
        if id != key_id_of(key) {
            assert(s.public_keys.contains_key(id));
        }
    }
    assert forall|id: KeyId| #[trigger] t.key_in_use(id) implies t.public_keys.contains_key(id) by {
        assert(s.key_in_use(id));
    }
}

/// Removing a key that no role uses keeps the details well formed.
pub proof fn lemma_remove_key_if_unused_well_formed(s: DidState, id: KeyId)
    requires
        s.well_formed(),
    ensures
        s.remove_key_if_unused(id).well_formed(),
{
    let t = s.remove_key_if_unused(id);
    if !s.key_in_use(id) {
        assert(t.public_keys.dom() == s.public_keys.dom().remove(id));
        assert forall|x: KeyId| #[trigger] t.public_keys.contains_key(x) implies key_id_of(
            t.public_keys[x].key,
        ) == x by {
            assert(s.public_keys.contains_key(x));
        }
        assert forall|x: KeyId| #[trigger] t.key_in_use(x) implies t.public_keys.contains_key(x) by {
            assert(s.key_in_use(x));
        }
    }
}

/// Replacing the authentication key keeps the details well formed.
pub proof fn lemma_with_authentication_key_well_formed(
    s: DidState,
    key: DidVerificationKey,
    block_number: BlockNumber,
)
    requires
        s.well_formed(),
    ensures
        s.with_authentication_key(key, block_number).well_formed(),
{
    let new_key = DidPublicKey::PublicVerificationKey(key);
    let t = DidState { authentication_key: key_id_of(new_key), ..s };
    let u = t.remove_key_if_unused(s.authentication_key);
    let v = u.store_key(new_key, block_number);
    assert forall|id: KeyId| #[trigger] v.key_in_use(id) implies v.public_keys.contains_key(id) by {
        if id != key_id_of(new_key) {
            assert(s.key_in_use(id));
        }
    }
}

/// Adding key agreement keys keeps the details well formed.
pub proof fn lemma_with_key_agreement_keys_well_formed(
    s: DidState,
    keys: Seq<DidEncryptionKey>,
    block_number: BlockNumber,
)
    requires
        s.well_formed(),
    ensures
        s.with_key_agreement_keys(keys, block_number).well_formed(),
        s.with_key_agreement_keys(keys, block_number).authentication_key == s.authentication_key,
        s.with_key_agreement_keys(keys, block_number).attestation_key == s.attestation_key,
        s.with_key_agreement_keys(keys, block_number).delegation_key == s.delegation_key,
        s.with_key_agreement_keys(keys, block_number).endpoint_url == s.endpoint_url,
        s.with_key_agreement_keys(keys, block_number).last_tx_counter == s.last_tx_counter,
    decreases keys.len(),
{
    if keys.len() > 0 {
        lemma_with_key_agreement_keys_well_formed(s, keys.drop_last(), block_number);
        let before = s.with_key_agreement_keys(keys.drop_last(), block_number);
        let key = DidPublicKey::PublicEncryptionKey(keys.last());
        let stored = before.store_key(key, block_number);
        let after = s.with_key_agreement_keys(keys, block_number);
        assert forall|id: KeyId| #[trigger] after.key_in_use(id) implies after.public_keys.contains_key(
            id,
        ) by {
            if id != key_id_of(key) {
                assert(before.key_in_use(id));
            }
        }
    }
}

/// Setting the attestation key keeps the details well formed.
pub proof fn lemma_with_attestation_key_well_formed(
    s: DidState,
    key: DidVerificationKey,
    block_number: BlockNumber,
)
    requires
        s.well_formed(),
    ensures
        s.with_attestation_key(key, block_number).well_formed(),
{
    let v = s.with_attestation_key(key, block_number);
    assert forall|id: KeyId| #[trigger] v.key_in_use(id) implies v.public_keys.contains_key(id) by {
        if id != key_id_of(DidPublicKey::PublicVerificationKey(key)) {
            assert(s.key_in_use(id));
        }
    }
}

/// Unsetting the attestation key keeps the details well formed.
pub proof fn lemma_without_attestation_key_well_formed(s: DidState)
    requires
        s.well_formed(),
    ensures
        s.without_attestation_key().well_formed(),
{
    if let Some(old_id) = s.attestation_key {
        let t = DidState { attestation_key: None, ..s };
        assert forall|id: KeyId| #[trigger] t.key_in_use(id) implies t.public_keys.contains_key(id) by {
            assert(s.key_in_use(id));
        }
        assert(t.well_formed());
        lemma_remove_key_if_unused_well_formed(t, old_id);
    }
}

/// Setting the delegation key keeps the details well formed.
pub proof fn lemma_with_delegation_key_well_formed(
    s: DidState,
    key: DidVerificationKey,
    block_number: BlockNumber,
)
    requires
        s.well_formed(),
    ensures
        s.with_delegation_key(key, block_number).well_formed(),
{
    let v = s.with_delegation_key(key, block_number);
    assert forall|id: KeyId| #[trigger] v.key_in_use(id) implies v.public_keys.contains_key(id) by {
        if id != key_id_of(DidPublicKey::PublicVerificationKey(key)) {
            assert(s.key_in_use(id));
        }
    }
}

/// Unsetting the delegation key keeps the details well formed.
pub proof fn lemma_without_delegation_key_well_formed(s: DidState)
    requires
        s.well_formed(),
    ensures
        s.without_delegation_key().well_formed(),
{
    if let Some(old_id) = s.delegation_key {
        let t = DidState { delegation_key: None, ..s };
        assert forall|id: KeyId| #[trigger] t.key_in_use(id) implies t.public_keys.contains_key(id) by {
            assert(s.key_in_use(id));
        }
        assert(t.well_formed());
        lemma_remove_key_if_unused_well_formed(t, old_id);
    }
}

/// Removing public keys, when no error arises, keeps the details well
/// formed: no active key is among the removed ones, and the removed key
/// agreement keys leave their role with them.
pub proof fn lemma_without_public_keys_well_formed(s: DidState, ids: Seq<KeyId>)
    requires
        s.well_formed(),
        s.removal_error(ids) is None,
    ensures
        s.without_public_keys(ids.to_set()).well_formed(),
        forall|i: int| 0 <= i < ids.len() ==> !s.is_active_key(#[trigger] ids[i]),
        forall|i: int| 0 <= i < ids.len() ==> s.public_keys.contains_key(#[trigger] ids[i]),
{
    lemma_removal_ok(s, ids);
    let t = s.without_public_keys(ids.to_set());
    assert(t.public_keys.dom() =~= s.public_keys.dom().difference(ids.to_set()));
    assert forall|x: KeyId| #[trigger] t.public_keys.contains_key(x) implies key_id_of(
        t.public_keys[x].key,
    ) == x by {
        assert(s.public_keys.contains_key(x));
    }
    assert forall|id: KeyId| #[trigger] t.key_in_use(id) implies t.public_keys.contains_key(id) by {
        assert(s.key_in_use(id));
        if ids.to_set().contains(id) {
            let i = choose|i: int| 0 <= i < ids.len() && ids[i] == id;
            assert(!s.is_active_key(ids[i]));
        }
    }
}

/// When removing `ids` raises no error, none of them is active and all of
/// them are stored.
pub proof fn lemma_removal_ok(s: DidState, ids: Seq<KeyId>)
    requires
        s.removal_error(ids) is None,
    ensures
        forall|i: int| 0 <= i < ids.len() ==> !s.is_active_key(#[trigger] ids[i]),
        forall|i: int| 0 <= i < ids.len() ==> s.public_keys.contains_key(#[trigger] ids[i]),
    decreases ids.len(),
{
    if ids.len() > 0 {
        lemma_removal_ok(s, ids.drop_first());
        assert forall|i: int| 0 <= i < ids.len() implies !s.is_active_key(#[trigger] ids[i])
            && s.public_keys.contains_key(ids[i]) by {
            if i > 0 {
                assert(ids.drop_first()[i - 1] == ids[i]);
            }
        }
    }
}


/// Whether an optional key identifier is `Some(id)`.
fn is_some_key(opt: &Option<KeyId>, id: &KeyId) -> (b: bool)
    ensures
        b == (*opt == Some(*id)),
{
    match opt {
        Some(k) => bytes32_eq(k, id),
        None => false,
    }
}

/// The details associated to a DID identity.
#[derive(Clone, Debug, PartialEq)]
pub struct DidDetails {
    /// The ID of the authentication key, used to authenticate DID-related
    /// operations.
    authentication_key: KeyId,
    /// The set of the key agreement key IDs, which can be used to encrypt
    /// data addressed to the DID subject.
    key_agreement_keys: KeyIdSet,
    /// The ID of the delegation key, used to verify the signatures of the
    /// delegations created by the DID subject.
    delegation_key: Option<KeyId>,
    /// The ID of the attestation key, used to verify the signatures of the
    /// attestations created by the DID subject.
    attestation_key: Option<KeyId>,
    /// All the public keys the DID controls, by ID, with the block number
    /// at which each was set. Besides the keys currently playing a role, it
    /// holds the old attestation keys that have been rotated, which can
    /// still verify previously issued attestations.
    public_keys: KeyMap<DidPublicKeyDetails>,
    /// The URL pointing to the service endpoints the DID subject publicly
    /// exposes.
    pub endpoint_url: Option<Url>,
    /// The counter used to avoid replay attacks, which is checked and
    /// updated upon each DID operation.
    pub last_tx_counter: u64,
}

impl DidDetails {
    /// The abstract content of the details.
    pub closed spec fn view(&self) -> DidState {
        DidState {
            authentication_key: self.authentication_key,
            key_agreement_keys: self.key_agreement_keys@,
            delegation_key: self.delegation_key,
            attestation_key: self.attestation_key,
            public_keys: self.public_keys@,
            endpoint_url: optional_url_view(self.endpoint_url),
            last_tx_counter: self.last_tx_counter,
        }
    }

    /// Well-formedness: the collections are ordered and the abstract
    /// details are well formed.
    pub closed spec fn wf(&self) -> bool {
        &&& self.key_agreement_keys.wf()
        &&& self.public_keys.wf()
        &&& self@.well_formed()
    }

    /// Well-formed details have well-formed abstract content.
    pub proof fn lemma_wf(&self)
        requires
            self.wf(),
        ensures
            self@.well_formed(),
    {
    }

    /// Creates a new instance of DID details with the minimum information,
    /// i.e., an authentication key and the block creation time. The tx
    /// counter is set to 0.
    pub fn new(authentication_key: DidVerificationKey, block_number: BlockNumber) -> (d: Self)
        ensures
            d.wf(),
            d@ == DidState::initial(authentication_key, block_number),
    {
        let key = DidPublicKey::PublicVerificationKey(authentication_key);
        let authentication_key_id = calculate_key_id(&key);
        let mut public_keys = KeyMap::new();
        public_keys.insert(authentication_key_id, DidPublicKeyDetails { key, block_number });
        let d = DidDetails {
            authentication_key: authentication_key_id,
            key_agreement_keys: KeyIdSet::new(),
            attestation_key: None,
            delegation_key: None,
            endpoint_url: None,
            public_keys,
            last_tx_counter: 0u64,
        };
        proof {
            lemma_initial_well_formed(authentication_key, block_number);
        }
        assert(d@ =~= DidState::initial(authentication_key, block_number));
        d
    }

    /// Stores `key` under its identifier.
    fn store_key(&mut self, key: DidPublicKey, block_number: BlockNumber)
        requires
            old(self).wf(),
        ensures
            final(self).wf(),
            final(self)@ == old(self)@.store_key(key, block_number),
    {
        let id = calculate_key_id(&key);
        self.public_keys.insert(id, DidPublicKeyDetails { key, block_number });
        proof {
            lemma_store_key_well_formed(old(self)@, key, block_number);
        }
        assert(self@ =~= old(self)@.store_key(key, block_number));
    }

    /// Removes a key from the stored keys if none of the roles, i.e.,
    /// authentication, key agreement, attestation or delegation, references
    /// it.
    fn remove_key_if_unused(&mut self, key_id: &KeyId)
        requires
            old(self).key_agreement_keys.wf(),
            old(self).public_keys.wf(),
            old(self)@.well_formed(),
        ensures
            final(self).wf(),
            final(self)@ == old(self)@.remove_key_if_unused(*key_id),
    {
        if !bytes32_eq(&self.authentication_key, key_id) && !is_some_key(&self.attestation_key, key_id)
            && !is_some_key(&self.delegation_key, key_id) && !self.key_agreement_keys.contains(key_id) {
            self.public_keys.remove(key_id);
        }
        proof {
            lemma_remove_key_if_unused_well_formed(old(self)@, *key_id);
        }
        assert(self@ =~= old(self)@.remove_key_if_unused(*key_id));
    }

    /// Update the DID authentication key.
    ///
    /// The old key is deleted from the set of public keys if it is not used
    /// in any other part of the DID. The new key is added to the set of
    /// public keys.
    pub fn update_authentication_key(
        &mut self,
        new_authentication_key: DidVerificationKey,
        block_number: BlockNumber,
    )
        requires
            old(self).wf(),
        ensures
            final(self).wf(),
            final(self)@ == old(self)@.with_authentication_key(new_authentication_key, block_number),
    {
        let old_authentication_key_id = self.authentication_key;
        let new_key = DidPublicKey::PublicVerificationKey(new_authentication_key);
        let new_authentication_key_id = calculate_key_id(&new_key);
        let ghost before = self@;
        proof {
            lemma_store_key_well_formed(before, new_key, block_number);
        }
        // Store the new key first, so that the key in use is always stored.
        self.store_key(new_key, block_number);
        self.authentication_key = new_authentication_key_id;
        proof {
            let t = DidState { authentication_key: new_authentication_key_id, ..before };
            assert forall|id: KeyId| #[trigger] self@.key_in_use(id) implies self@.public_keys.contains_key(id) by {
                if id != new_authentication_key_id {
                    assert(before.key_in_use(id));
                }
            }
        }
        // Remove the old key, if not used anymore.
        self.remove_key_if_unused(&old_authentication_key_id);
        proof {
            let t = DidState { authentication_key: new_authentication_key_id, ..before };
            let mid = t.remove_key_if_unused(old_authentication_key_id);
            assert(self@ =~= mid.store_key(new_key, block_number)) by {
                if !t.key_in_use(old_authentication_key_id) {
                    assert(old_authentication_key_id != new_authentication_key_id);
                }
            }
            lemma_with_authentication_key_well_formed(before, new_authentication_key, block_number);
        }
    }

    /// Add new key agreement keys to the DID.
    ///
    /// The new keys are added to the set of public keys.
    pub fn add_key_agreement_keys(
        &mut self,
        new_key_agreement_keys: &DidEncryptionKeySet,
        block_number: BlockNumber,
    )
        requires
            old(self).wf(),
            new_key_agreement_keys.wf(),
        ensures
            final(self).wf(),
            final(self)@ == old(self)@.with_key_agreement_keys(
                new_key_agreement_keys.elements(),
                block_number,
            ),
    {
        let n = new_key_agreement_keys.len();
        let ghost keys = new_key_agreement_keys.elements();
        let mut i: usize = 0;
        while i < n
            invariant
                i <= n == keys.len(),
                keys == new_key_agreement_keys.elements(),
                old(self).wf(),
                new_key_agreement_keys.wf(),
                self.wf(),
                self@ == old(self)@.with_key_agreement_keys(keys.take(i as int), block_number),
            decreases n - i,
        {
            let new_key_agreement_key = new_key_agreement_keys.get(i);
            let key = DidPublicKey::PublicEncryptionKey(new_key_agreement_key);
            let new_key_agreement_id = calculate_key_id(&key);
            let ghost before = self@;
            self.store_key(key, block_number);
            self.key_agreement_keys.insert(new_key_agreement_id);
            proof {
                assert(keys.take(i + 1).drop_last() =~= keys.take(i as int));
                lemma_with_key_agreement_keys_well_formed(old(self)@, keys.take(i + 1), block_number);
                assert(self@ =~= old(self)@.with_key_agreement_keys(keys.take(i + 1), block_number));
            }
            i = i + 1;
        }
        assert(keys.take(n as int) =~= keys);
    }

    /// Update the DID attestation key.
    ///
    /// The old key is not removed from the set of public keys, hence it can
    /// still be used to verify past attestations. The new key is added to
    /// the set of public keys.
    pub fn update_attestation_key(
        &mut self,
        new_attestation_key: DidVerificationKey,
        block_number: BlockNumber,
    )
        requires
            old(self).wf(),
        ensures
            final(self).wf(),
            final(self)@ == old(self)@.with_attestation_key(new_attestation_key, block_number),
    {
        let new_key = DidPublicKey::PublicVerificationKey(new_attestation_key);
        let new_attestation_key_id = calculate_key_id(&new_key);
        let ghost before = self@;
        self.store_key(new_key, block_number);
        self.attestation_key = Some(new_attestation_key_id);
        proof {
            lemma_with_attestation_key_well_formed(before, new_attestation_key, block_number);
        }
        assert(self@ =~= before.with_attestation_key(new_attestation_key, block_number));
    }

    /// Delete the DID attestation key.
    ///
    /// Once deleted, it cannot be used to write new attestations anymore.
    /// The key is also removed from the set of public keys if it not used
    /// anywhere else in the DID.
    pub fn delete_attestation_key(&mut self)
        requires
            old(self).wf(),
        ensures
            final(self).wf(),
            final(self)@ == old(self)@.without_attestation_key(),
    {
        if let Some(old_attestation_key_id) = self.attestation_key {
            let ghost before = self@;
            self.attestation_key = None;
            proof {
                let t = DidState { attestation_key: None, ..before };
                assert(self@ =~= t);
                assert forall|id: KeyId| #[trigger] t.key_in_use(id) implies t.public_keys.contains_key(id) by {
                    assert(before.key_in_use(id));
                }
            }
            self.remove_key_if_unused(&old_attestation_key_id);
        }
    }

    /// Update the DID delegation key.
    ///
    /// The old key is deleted from the set of public keys if it is not used
    /// in any other part of the DID. The new key is added to the set of
    /// public keys.
    pub fn update_delegation_key(
        &mut self,
        new_delegation_key: DidVerificationKey,
        block_number: BlockNumber,
    )
        requires
            old(self).wf(),
        ensures
            final(self).wf(),
            final(self)@ == old(self)@.with_delegation_key(new_delegation_key, block_number),
    {
        let old_delegation_key_id = self.delegation_key;
        let new_key = DidPublicKey::PublicVerificationKey(new_delegation_key);
        let new_delegation_key_id = calculate_key_id(&new_key);
        let ghost before = self@;
        self.store_key(new_key, block_number);
        self.delegation_key = Some(new_delegation_key_id);
        let ghost mid = self@;
        proof {
            assert forall|id: KeyId| #[trigger] mid.key_in_use(id) implies mid.public_keys.contains_key(id) by {
                if id != new_delegation_key_id {
                    assert(before.key_in_use(id));
                }
            }
        }
        if let Some(old_delegation_key) = old_delegation_key_id {
            self.remove_key_if_unused(&old_delegation_key);
        }
        proof {
            let t = DidState { delegation_key: Some(new_delegation_key_id), ..before };
            match old_delegation_key_id {
                Some(o) => {
                    assert(self@ =~= t.remove_key_if_unused(o).store_key(new_key, block_number)) by {
                        if !t.key_in_use(o) {
                            assert(o != new_delegation_key_id);
                        }
                    }
                },
                None => {
                    assert(self@ =~= t.store_key(new_key, block_number));
                },
            }
            lemma_with_delegation_key_well_formed(before, new_delegation_key, block_number);
        }
    }

    /// Delete the DID delegation key.
    ///
    /// It cannot be used to write new delegations anymore. The key is also
    /// removed from the set of public keys if it not used anywhere else in
    /// the DID.
    pub fn delete_delegation_key(&mut self)
        requires
            old(self).wf(),
        ensures
            final(self).wf(),
            final(self)@ == old(self)@.without_delegation_key(),
    {
        if let Some(old_delegation_key_id) = self.delegation_key {
            let ghost before = self@;
            self.delegation_key = None;
            proof {
                let t = DidState { delegation_key: None, ..before };
                assert(self@ =~= t);
                assert forall|id: KeyId| #[trigger] t.key_in_use(id) implies t.public_keys.contains_key(id) by {
                    assert(before.key_in_use(id));
                }
            }
            self.remove_key_if_unused(&old_delegation_key_id);
        }
    }
}


/// Setting the transaction counter keeps the details well formed.
pub proof fn lemma_with_tx_counter_well_formed(s: DidState, counter: u64)
    requires
        s.well_formed(),
    ensures
        s.with_tx_counter(counter).well_formed(),
{
    let t = s.with_tx_counter(counter);
    assert forall|id: KeyId| #[trigger] t.key_in_use(id) implies t.public_keys.contains_key(id) by {
        assert(s.key_in_use(id));
    }
}

/// Setting the endpoint URL keeps the details well formed.
pub proof fn lemma_with_endpoint_url_well_formed(s: DidState, url: Option<UrlView>)
    requires
        s.well_formed(),
    ensures
        s.with_endpoint_url(url).well_formed(),
{
    let t = s.with_endpoint_url(url);
    assert forall|id: KeyId| #[trigger] t.key_in_use(id) implies t.public_keys.contains_key(id) by {
        assert(s.key_in_use(id));
    }
}

/// The outcome of removing the keys `ids` in order.
pub open spec fn removal_result(s: DidState, ids: Seq<KeyId>) -> Result<(), StorageError> {
    match s.removal_error(ids) {
        None => Ok(()),
        Some(e) => Err(e),
    }
}

/// Keys that pass the removal checks do not decide its outcome: the
/// outcome is that of the keys after them.
proof fn lemma_removal_error_skip(s: DidState, ids: Seq<KeyId>, i: int)
    requires
        0 <= i <= ids.len(),
        forall|j: int|
            0 <= j < i ==> !s.is_active_key(#[trigger] ids[j]) && s.public_keys.contains_key(ids[j]),
    ensures
        s.removal_error(ids) == s.removal_error(ids.skip(i)),
        s.removable_prefix_len(ids) == i + s.removable_prefix_len(ids.skip(i)),
    decreases i,
{
    if i == 0 {
        assert(ids.skip(0) =~= ids);
    } else {
        let rest = ids.drop_first();
        assert forall|j: int| 0 <= j < i - 1 implies !s.is_active_key(#[trigger] rest[j])
            && s.public_keys.contains_key(rest[j]) by {
            assert(rest[j] == ids[j + 1]);
        }
        lemma_removal_error_skip(s, rest, i - 1);
        assert(rest.skip(i - 1) =~= ids.skip(i));
        assert(!s.is_active_key(ids[0]) && s.public_keys.contains_key(ids[0]));
    }
}

impl DidDetails {
    /// Deletes public keys from the stored keys, and from the key agreement
    /// keys where they are among them, in increasing order of identifier.
    ///
    /// Each key must not be a currently active (authentication, attestation
    /// or delegation) key, else `CurrentlyActiveKey`, and must be stored,
    /// else `VerificationKeyNotPresent`; the first key in order that fails
    /// a check decides the error, and the keys before it stay removed.
    pub fn remove_public_keys(&mut self, key_ids: &KeyIdSet) -> (r: Result<(), StorageError>)
        requires
            old(self).wf(),
            key_ids.wf(),
        ensures
            final(self).wf(),
            r == removal_result(old(self)@, key_ids.elements()),
            r is Ok ==> final(self)@ == old(self)@.without_public_keys(key_ids@),
            final(self)@ == old(self)@.without_public_keys(
                key_ids.elements().take(
                    old(self)@.removable_prefix_len(key_ids.elements()) as int,
                ).to_set(),
            ),
    {
        let ghost ids = key_ids.elements();
        let n = key_ids.len();
        proof {
            key_ids.lemma_elements();
        }
        let mut i: usize = 0;
        while i < n
            invariant
                i <= n == ids.len(),
                ids == key_ids.elements(),
                ids.no_duplicates(),
                old(self).wf(),
                self.wf(),
                self@ == old(self)@.without_public_keys(ids.take(i as int).to_set()),
                forall|j: int|
                    0 <= j < i ==> !old(self)@.is_active_key(#[trigger] ids[j])
                        && old(self)@.public_keys.contains_key(ids[j]),
            decreases n - i,
        {
            let key_id = key_ids.get(i);
            proof {
                lemma_removal_error_skip(old(self)@, ids, i as int);
                assert(ids.skip(i as int)[0] == ids[i as int]);
                assert(ids.skip(i as int).drop_first() =~= ids.skip(i + 1));
                assert(!ids.take(i as int).to_set().contains(*key_id)) by {
                    if ids.take(i as int).to_set().contains(*key_id) {
                        let j = choose|j: int| 0 <= j < i && ids.take(i as int)[j] == *key_id;
                        assert(ids[j] == ids[i as int]);
                    }
                }
            }
            if bytes32_eq(&self.authentication_key, key_id) || is_some_key(&self.attestation_key, key_id)
                || is_some_key(&self.delegation_key, key_id) {
                return Err(StorageError::CurrentlyActiveKey);
            }
            let ghost before = self@;
            let removed = self.public_keys.remove(key_id);
            if removed.is_none() {
                assert(self@ =~= before);
                return Err(StorageError::VerificationKeyNotPresent);
            }
            self.key_agreement_keys.remove(key_id);
            proof {
                let prefix = ids.take(i + 1).to_set();
                assert(ids.take(i + 1) =~= ids.take(i as int).push(*key_id));
                ids.take(i as int).lemma_push_to_set_commute(*key_id);
                assert(prefix =~= ids.take(i as int).to_set().insert(*key_id));
                assert(self@ =~= old(self)@.without_public_keys(prefix));
                assert forall|x: KeyId| #[trigger] self@.public_keys.contains_key(x) implies key_id_of(
                    self@.public_keys[x].key,
                ) == x by {
                    assert(before.public_keys.contains_key(x));
                }
                assert forall|x: KeyId| #[trigger] self@.key_in_use(x) implies self@.public_keys.contains_key(x) by {
                    assert(before.key_in_use(x));
                }
            }
            i = i + 1;
        }
        proof {
            lemma_removal_error_skip(old(self)@, ids, n as int);
            assert(ids.skip(n as int) =~= Seq::<KeyId>::empty());
            assert(ids.take(n as int) =~= ids);
        }
        Ok(())
    }

    /// The ID of the authentication key.
    pub fn get_authentication_key_id(&self) -> (id: KeyId)
        ensures
            id == self@.authentication_key,
    {
        self.authentication_key
    }

    /// The IDs of the key agreement keys.
    pub fn get_key_agreement_keys_ids(&self) -> (ids: &KeyIdSet)
        ensures
            ids@ == self@.key_agreement_keys,
            self.wf() ==> ids.wf(),
    {
        &self.key_agreement_keys
    }

    /// The ID of the attestation key, if any.
    pub fn get_attestation_key_id(&self) -> (id: &Option<KeyId>)
        ensures
            *id == self@.attestation_key,
    {
        &self.attestation_key
    }

    /// The ID of the delegation key, if any.
    pub fn get_delegation_key_id(&self) -> (id: &Option<KeyId>)
        ensures
            *id == self@.delegation_key,
    {
        &self.delegation_key
    }

    /// All the public keys the DID controls, by ID.
    pub fn get_public_keys(&self) -> (keys: &KeyMap<DidPublicKeyDetails>)
        ensures
            keys@ == self@.public_keys,
            self.wf() ==> keys.wf(),
    {
        &self.public_keys
    }

    /// The verification key that plays the role `key_type`: none for the
    /// capability invocation role, for a role that is not set, or where
    /// what is stored under the role's key ID is not a verification key.
    pub fn get_verification_key_for_key_type(
        &self,
        key_type: DidVerificationKeyRelationship,
    ) -> (key: Option<&DidVerificationKey>)
        requires
            self.wf(),
        ensures
            key.is_some() == self@.verification_key_for(key_type).is_some(),
            key matches Some(k) ==> self@.verification_key_for(key_type) == Some(*k),
    {
        let key_id = match key_type {
            DidVerificationKeyRelationship::AssertionMethod => self.attestation_key,
            DidVerificationKeyRelationship::Authentication => Some(self.authentication_key),
            DidVerificationKeyRelationship::CapabilityDelegation => self.delegation_key,
            _ => None,
        };
        let key_id = match key_id {
            Some(id) => id,
            None => return None,
        };
        let key_details = match self.public_keys.get(&key_id) {
            Some(d) => d,
            None => return None,
        };
        if let DidPublicKey::PublicVerificationKey(key) = &key_details.key {
            Some(key)
        } else {
            None
        }
    }

    /// Increase the tx counter of the DID; fails, leaving it unchanged, when
    /// it is at its maximum value.
    pub fn increase_tx_counter(&mut self) -> (r: Result<(), StorageError>)
        requires
            old(self).wf(),
        ensures
            final(self).wf(),
            old(self)@.last_tx_counter < u64::MAX ==> r == Ok::<(), StorageError>(())
                && final(self)@ == old(self)@.with_tx_counter((old(self)@.last_tx_counter + 1) as u64),
            old(self)@.last_tx_counter == u64::MAX ==> r == Err::<(), StorageError>(
                StorageError::MaxTxCounterValue,
            ) && final(self)@ == old(self)@,
    {
        if self.last_tx_counter == u64::MAX {
            return Err(StorageError::MaxTxCounterValue);
        }
        self.last_tx_counter = self.last_tx_counter + 1;
        assert(self@ =~= old(self)@.with_tx_counter((old(self)@.last_tx_counter + 1) as u64));
        proof {
            lemma_with_tx_counter_well_formed(old(self)@, (old(self)@.last_tx_counter + 1) as u64);
        }
        Ok(())
    }

    /// Returns the last used tx counter for the DID.
    pub fn get_tx_counter_value(&self) -> (c: u64)
        ensures
            c == self@.last_tx_counter,
    {
        self.last_tx_counter
    }

    /// Set the DID tx counter to an arbitrary value.
    pub fn set_tx_counter(&mut self, value: u64)
        requires
            old(self).wf(),
        ensures
            final(self).wf(),
            final(self)@ == old(self)@.with_tx_counter(value),
    {
        self.last_tx_counter = value;
        assert(self@ =~= old(self)@.with_tx_counter(value));
        proof {
            lemma_with_tx_counter_well_formed(old(self)@, value);
        }
    }
}


/// The details of a DID created by `op` at block `block_number`: the
/// authentication key, then the key agreement keys, the attestation key and
/// the delegation key, each stored at that block, and the endpoint URL; the
/// tx counter is 0.
pub open spec fn created_state(op: DidCreationOperation, block_number: BlockNumber) -> DidState {
    let s0 = DidState::initial(op.new_authentication_key, block_number).with_key_agreement_keys(
        op.new_key_agreement_keys.elements(),
        block_number,
    );
    let s1 = match op.new_attestation_key {
        Some(k) => s0.with_attestation_key(k, block_number),
        None => s0,
    };
    let s2 = match op.new_delegation_key {
        Some(k) => s1.with_delegation_key(k, block_number),
        None => s1,
    };
    s2.with_endpoint_url(optional_url_view(op.new_endpoint_url))
}

/// Applies a key update action.
pub open spec fn apply_attestation_action(
    s: DidState,
    action: DidVerificationKeyUpdateAction,
    block_number: BlockNumber,
) -> DidState {
    match action {
        DidVerificationKeyUpdateAction::Delete => s.without_attestation_key(),
        DidVerificationKeyUpdateAction::Change(k) => s.with_attestation_key(k, block_number),
        DidVerificationKeyUpdateAction::Ignore => s,
    }
}

/// Applies a key update action to the delegation key.
pub open spec fn apply_delegation_action(
    s: DidState,
    action: DidVerificationKeyUpdateAction,
    block_number: BlockNumber,
) -> DidState {
    match action {
        DidVerificationKeyUpdateAction::Delete => s.without_delegation_key(),
        DidVerificationKeyUpdateAction::Change(k) => s.with_delegation_key(k, block_number),
        DidVerificationKeyUpdateAction::Ignore => s,
    }
}

/// The details that applying the update `op` at block `block_number` to
/// `s` gives: the listed public keys are removed (failing as
/// [DidState::removal_error] says), then the authentication key is
/// replaced if a new one is given, the new key agreement keys are added,
/// the attestation and delegation actions are applied, the endpoint URL is
/// replaced if a new one is given, and the tx counter becomes the
/// operation's.
pub open spec fn updated_state(
    s: DidState,
    op: DidUpdateOperation,
    block_number: BlockNumber,
) -> Result<DidState, DidError> {
    match s.removal_error(op.public_keys_to_remove.elements()) {
        Some(e) => Err(DidError::StorageError(e)),
        None => {
            let s1 = s.without_public_keys(op.public_keys_to_remove@);
            let s2 = match op.new_authentication_key {
                Some(k) => s1.with_authentication_key(k, block_number),
                None => s1,
            };
            let s3 = s2.with_key_agreement_keys(op.new_key_agreement_keys.elements(), block_number);
            let s4 = apply_attestation_action(s3, op.attestation_key_update, block_number);
            let s5 = apply_delegation_action(s4, op.delegation_key_update, block_number);
            let s6 = match op.new_endpoint_url {
                Some(u) => s5.with_endpoint_url(Some(u@)),
                None => s5,
            };
            Ok(s6.with_tx_counter(op.tx_counter))
        },
    }
}

/// A created DID's details are well formed.
pub proof fn lemma_created_state_well_formed(op: DidCreationOperation, block_number: BlockNumber)
    ensures
        created_state(op, block_number).well_formed(),
{
    lemma_initial_well_formed(op.new_authentication_key, block_number);
    let s0 = DidState::initial(op.new_authentication_key, block_number).with_key_agreement_keys(
        op.new_key_agreement_keys.elements(),
        block_number,
    );
    lemma_with_key_agreement_keys_well_formed(
        DidState::initial(op.new_authentication_key, block_number),
        op.new_key_agreement_keys.elements(),
        block_number,
    );
    let s1 = match op.new_attestation_key {
        Some(k) => s0.with_attestation_key(k, block_number),
        None => s0,
    };
    if let Some(k) = op.new_attestation_key {
        lemma_with_attestation_key_well_formed(s0, k, block_number);
    }
    let s2 = match op.new_delegation_key {
        Some(k) => s1.with_delegation_key(k, block_number),
        None => s1,
    };
    if let Some(k) = op.new_delegation_key {
        lemma_with_delegation_key_well_formed(s1, k, block_number);
    }
    lemma_with_endpoint_url_well_formed(s2, optional_url_view(op.new_endpoint_url));
}

/// Applying an update to well-formed details, when it succeeds, gives
/// well-formed details.
pub proof fn lemma_updated_state_well_formed(
    s: DidState,
    op: DidUpdateOperation,
    block_number: BlockNumber,
)
    requires
        s.well_formed(),
        op.public_keys_to_remove.wf(),
    ensures
        updated_state(s, op, block_number) matches Ok(t) ==> t.well_formed(),
{
    let ids = op.public_keys_to_remove.elements();
    if s.removal_error(ids) is None {
        lemma_without_public_keys_well_formed(s, ids);
        let s1 = s.without_public_keys(op.public_keys_to_remove@);
        let s2 = match op.new_authentication_key {
            Some(k) => s1.with_authentication_key(k, block_number),
            None => s1,
        };
        if let Some(k) = op.new_authentication_key {
            lemma_with_authentication_key_well_formed(s1, k, block_number);
        }
        let s3 = s2.with_key_agreement_keys(op.new_key_agreement_keys.elements(), block_number);
        lemma_with_key_agreement_keys_well_formed(s2, op.new_key_agreement_keys.elements(), block_number);
        let s4 = apply_attestation_action(s3, op.attestation_key_update, block_number);
        match op.attestation_key_update {
            DidVerificationKeyUpdateAction::Delete => lemma_without_attestation_key_well_formed(s3),
            DidVerificationKeyUpdateAction::Change(k) => lemma_with_attestation_key_well_formed(s3, k, block_number),
            DidVerificationKeyUpdateAction::Ignore => {},
        }
        let s5 = apply_delegation_action(s4, op.delegation_key_update, block_number);
        match op.delegation_key_update {
            DidVerificationKeyUpdateAction::Delete => lemma_without_delegation_key_well_formed(s4),
            DidVerificationKeyUpdateAction::Change(k) => lemma_with_delegation_key_well_formed(s4, k, block_number),
            DidVerificationKeyUpdateAction::Ignore => {},
        }
        let s6 = match op.new_endpoint_url {
            Some(u) => s5.with_endpoint_url(Some(u@)),
            None => s5,
        };
        if let Some(u) = op.new_endpoint_url {
            lemma_with_endpoint_url_well_formed(s5, Some(u@));
        }
        lemma_with_tx_counter_well_formed(s6, op.tx_counter);
    }
}

impl DidDetails {
    /// A copy of the details.
    pub fn duplicate(&self) -> (d: DidDetails)
        requires
            self.wf(),
        ensures
            d.wf(),
            d@ == self@,
    {
        let d = DidDetails {
            authentication_key: self.authentication_key,
            key_agreement_keys: self.key_agreement_keys.duplicate(),
            delegation_key: self.delegation_key,
            attestation_key: self.attestation_key,
            public_keys: self.public_keys.duplicate(),
            endpoint_url: duplicate_optional_url(&self.endpoint_url),
            last_tx_counter: self.last_tx_counter,
        };
        assert(d@ =~= self@);
        d
    }

    /// Sets the endpoint URL.
    fn set_endpoint_url(&mut self, url: Option<Url>)
        requires
            old(self).wf(),
        ensures
            final(self).wf(),
            final(self)@ == old(self)@.with_endpoint_url(optional_url_view(url)),
    {
        let ghost u = optional_url_view(url);
        self.endpoint_url = url;
        assert(self@ =~= old(self)@.with_endpoint_url(u));
        proof {
            lemma_with_endpoint_url_well_formed(old(self)@, u);
        }
    }

    /// The details of a new DID created by the operation `op` at block
    /// `block_number`.
    pub fn from_creation_operation(op: &DidCreationOperation, block_number: BlockNumber) -> (d: Self)
        requires
            op.new_key_agreement_keys.wf(),
        ensures
            d.wf(),
            d@ == created_state(*op, block_number),
    {
        // Creates a new DID with the given authentication key.
        let mut new_did_details = DidDetails::new(op.new_authentication_key, block_number);
        new_did_details.add_key_agreement_keys(&op.new_key_agreement_keys, block_number);
        if let Some(attestation_key) = op.new_attestation_key {
            new_did_details.update_attestation_key(attestation_key, block_number);
        }
        if let Some(delegation_key) = op.new_delegation_key {
            new_did_details.update_delegation_key(delegation_key, block_number);
        }
        new_did_details.set_endpoint_url(duplicate_optional_url(&op.new_endpoint_url));
        new_did_details
    }

    /// Generates new DID details from these ones by applying the changes of
    /// the update operation `op` at block `block_number`.
    ///
    /// The operation fails if it instructs to delete a key that is an active
    /// key or that is not stored. It does not check the operation's
    /// signature nor its nonce.
    pub fn try_from_update(
        old_details: DidDetails,
        op: &DidUpdateOperation,
        block_number: BlockNumber,
    ) -> (r: Result<DidDetails, DidError>)
        requires
            old_details.wf(),
            op.new_key_agreement_keys.wf(),
            op.public_keys_to_remove.wf(),
        ensures
            r is Ok == updated_state(old_details@, *op, block_number) is Ok,
            r matches Ok(d) ==> d.wf() && updated_state(old_details@, *op, block_number) == Ok::<
                DidState,
                DidError,
            >(d@),
            r matches Err(e) ==> updated_state(old_details@, *op, block_number) == Err::<
                DidState,
                DidError,
            >(e),
    {
        let mut new_details = old_details;
        // Remove specified public keys.
        match new_details.remove_public_keys(&op.public_keys_to_remove) {
            Ok(()) => {},
            Err(e) => {
                return Err(DidError::StorageError(e));
            },
        }
        // Update the authentication key, if needed.
        if let Some(new_authentication_key) = op.new_authentication_key {
            new_details.update_authentication_key(new_authentication_key, block_number);
        }
        // Add any new key agreement keys.
        new_details.add_key_agreement_keys(&op.new_key_agreement_keys, block_number);
        // Update/remove the attestation key, if needed.
        match op.attestation_key_update {
            DidVerificationKeyUpdateAction::Delete => {
                new_details.delete_attestation_key();
            },
            DidVerificationKeyUpdateAction::Change(new_attestation_key) => {
                new_details.update_attestation_key(new_attestation_key, block_number);
            },
            DidVerificationKeyUpdateAction::Ignore => {},
        }
        // Update/remove the delegation key, if needed.
        match op.delegation_key_update {
            DidVerificationKeyUpdateAction::Delete => {
                new_details.delete_delegation_key();
            },
            DidVerificationKeyUpdateAction::Change(new_delegation_key) => {
                new_details.update_delegation_key(new_delegation_key, block_number);
            },
            DidVerificationKeyUpdateAction::Ignore => {},
        }
        // Update URL, if needed.
        if let Some(new_endpoint_url) = &op.new_endpoint_url {
            new_details.set_endpoint_url(Some(new_endpoint_url.duplicate()));
        }
        // Update DID counter.
        new_details.set_tx_counter(op.tx_counter);
        Ok(new_details)
    }
}

} // verus!
