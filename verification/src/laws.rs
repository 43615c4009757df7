//! Properties of the registry that span several operations or calls.

use vstd::prelude::*;
use crate::details::{DidState, BlockNumber, updated_state, created_state};
use crate::errors::{DidError, StorageError, SignatureError};
use crate::keys::{DidSignature, DidVerificationKey, DidVerificationKeyRelationship, DidPublicKey,
    KeyId, key_id_of, signature_check};
use crate::details::DidPublicKeyDetails;
use crate::operations::{DidIdentifier, DidOperation, DidCreationOperation, DidUpdateOperation,
    DidDeletionOperation, DidAuthorizedCallOperation, DidVerificationKeyUpdateAction,
    encode_update_action, encode_call_operation};
use crate::keys::{DidEncryptionKey, encode_verification_key};
use crate::url::{UrlView, optional_url_view, is_url_char, is_base_58_char, http_url_check,
    ftp_url_check, ipfs_url_check, http_scheme, https_scheme, ftp_scheme, ftps_scheme, ipfs_scheme};
use crate::pallet::{AccountIdentifier, Error, Event, create_outcome, update_outcome,
    delete_outcome, nonce_outcome, call_outcome, counter_check, payload_check};

verus! {

/// An operation whose nonce was accepted cannot be accepted again: once it
/// has been checked and the DID's counter increased, the same operation is
/// refused, whatever signature comes with it.
pub proof fn lemma_nonce_not_replayable(
    registry: Map<DidIdentifier, DidState>,
    did: DidIdentifier,
    tx_counter: u64,
    key_type: DidVerificationKeyRelationship,
    payload: Seq<u8>,
    signature: DidSignature,
    replay_signature: DidSignature,
)
    requires
        nonce_outcome(registry, did, tx_counter, key_type, payload, signature).0 is Ok,
    ensures
        ({
            let after = nonce_outcome(registry, did, tx_counter, key_type, payload, signature).1;
            let replay = nonce_outcome(after, did, tx_counter, key_type, payload, replay_signature);
            &&& replay.1 == after
            &&& replay.0 == Err::<(), DidError>(DidError::SignatureError(SignatureError::InvalidNonce))
                || replay.0 == Err::<(), DidError>(
                DidError::StorageError(StorageError::MaxTxCounterValue),
            )
        }),
{
    let after = nonce_outcome(registry, did, tx_counter, key_type, payload, signature).1;
    assert(after[did].last_tx_counter == tx_counter);
}

/// A successful check of an operation raises the DID's counter by exactly
/// one, to the operation's counter, and changes nothing else in the
/// registry.
pub proof fn lemma_nonce_advances_by_one(
    registry: Map<DidIdentifier, DidState>,
    did: DidIdentifier,
    tx_counter: u64,
    key_type: DidVerificationKeyRelationship,
    payload: Seq<u8>,
    signature: DidSignature,
)
    requires
        nonce_outcome(registry, did, tx_counter, key_type, payload, signature).0 is Ok,
    ensures
        ({
            let after = nonce_outcome(registry, did, tx_counter, key_type, payload, signature).1;
            &&& registry.contains_key(did)
            &&& after.contains_key(did)
            &&& after[did].last_tx_counter == registry[did].last_tx_counter + 1
            &&& after[did].last_tx_counter == tx_counter
            &&& after[did] == registry[did].with_tx_counter(tx_counter)
            &&& after.remove(did) == registry.remove(did)
        }),
{
    let after = nonce_outcome(registry, did, tx_counter, key_type, payload, signature).1;
    assert(after.remove(did) =~= registry.remove(did));
}

/// A successful update sets the DID's counter to the operation's counter,
/// one more than before, so the same update cannot be applied twice.
pub proof fn lemma_update_not_replayable(
    registry: Map<DidIdentifier, DidState>,
    sender: AccountIdentifier,
    operation: DidUpdateOperation,
    signature: DidSignature,
    block_number: BlockNumber,
    replay_sender: AccountIdentifier,
    replay_signature: DidSignature,
    replay_block_number: BlockNumber,
)
    requires
        update_outcome(registry, sender, operation, signature, block_number).0 is Ok,
    ensures
        ({
            let after = update_outcome(registry, sender, operation, signature, block_number).1;
            let replay = update_outcome(
                after,
                replay_sender,
                operation,
                replay_signature,
                replay_block_number,
            );
            &&& after[operation.did].last_tx_counter == registry[operation.did].last_tx_counter + 1
            &&& replay.1 == after
            &&& replay.0 == Err::<Event, Error>(Error::InvalidNonce) || replay.0 == Err::<
                Event,
                Error,
            >(Error::MaxTxCounterValue)
        }),
{
    let details = registry[operation.did];
    let after = update_outcome(registry, sender, operation, signature, block_number).1;
    let new_details = updated_state(details, operation, block_number)->Ok_0;
    assert(new_details.last_tx_counter == operation.tx_counter);
    assert(after[operation.did] == new_details);
}

/// A refused operation leaves the registry unchanged: creation, update,
/// deletion, nonce checks and call authorization all change nothing when
/// they fail.
pub proof fn lemma_refused_operations_change_nothing(
    registry: Map<DidIdentifier, DidState>,
    sender: AccountIdentifier,
    creation: DidCreationOperation,
    update: DidUpdateOperation,
    deletion: DidDeletionOperation,
    call: DidAuthorizedCallOperation,
    key_type: Option<DidVerificationKeyRelationship>,
    signature: DidSignature,
    block_number: BlockNumber,
)
    ensures
        create_outcome(registry, sender, creation, signature, block_number).0 is Err ==> create_outcome(
            registry,
            sender,
            creation,
            signature,
            block_number,
        ).1 == registry,
        update_outcome(registry, sender, update, signature, block_number).0 is Err ==> update_outcome(
            registry,
            sender,
            update,
            signature,
            block_number,
        ).1 == registry,
        delete_outcome(registry, sender, deletion, signature).0 is Err ==> delete_outcome(
            registry,
            sender,
            deletion,
            signature,
        ).1 == registry,
        call_outcome(registry, call, key_type, signature).0 is Err ==> call_outcome(
            registry,
            call,
            key_type,
            signature,
        ).1 == registry,
{
}

/// Only the DID an operation names is touched: every other DID keeps its
/// details through creation, update, deletion and call authorization.
pub proof fn lemma_other_dids_untouched(
    registry: Map<DidIdentifier, DidState>,
    sender: AccountIdentifier,
    creation: DidCreationOperation,
    update: DidUpdateOperation,
    deletion: DidDeletionOperation,
    call: DidAuthorizedCallOperation,
    key_type: Option<DidVerificationKeyRelationship>,
    signature: DidSignature,
    block_number: BlockNumber,
)
    ensures
        create_outcome(registry, sender, creation, signature, block_number).1.remove(creation.did)
            == registry.remove(creation.did),
        update_outcome(registry, sender, update, signature, block_number).1.remove(update.did)
            == registry.remove(update.did),
        delete_outcome(registry, sender, deletion, signature).1.remove(deletion.did)
            == registry.remove(deletion.did),
        call_outcome(registry, call, key_type, signature).1.remove(call.did) == registry.remove(
            call.did,
        ),
{
    assert(create_outcome(registry, sender, creation, signature, block_number).1.remove(creation.did)
        =~= registry.remove(creation.did));
    assert(update_outcome(registry, sender, update, signature, block_number).1.remove(update.did)
        =~= registry.remove(update.did));
    assert(delete_outcome(registry, sender, deletion, signature).1.remove(deletion.did)
        =~= registry.remove(deletion.did));
    assert(call_outcome(registry, call, key_type, signature).1.remove(call.did) =~= registry.remove(
        call.did,
    ));
}

/// A successful creation stores the new DID with the details the operation
/// describes, its counter at 0, and a signature that is valid for the
/// authentication key of those details over the encoded operation.
pub proof fn lemma_creation_authenticated(
    registry: Map<DidIdentifier, DidState>,
    sender: AccountIdentifier,
    operation: DidCreationOperation,
    signature: DidSignature,
    block_number: BlockNumber,
)
    requires
        create_outcome(registry, sender, operation, signature, block_number).0 is Ok,
    ensures
        ({
            let after = create_outcome(registry, sender, operation, signature, block_number).1;
            let details = created_state(operation, block_number);
            &&& !registry.contains_key(operation.did)
            &&& after == registry.insert(operation.did, details)
            &&& details.last_tx_counter == 0
            &&& details.authentication_key == key_id_of(
                DidPublicKey::PublicVerificationKey(operation.new_authentication_key),
            )
            &&& details.verification_key_for(DidVerificationKeyRelationship::Authentication) matches Some(
                k,
            ) && signature_check(k, operation.encoding(), signature) == Ok::<bool, SignatureError>(
                true,
            )
        }),
{
    crate::details::lemma_initial_well_formed(operation.new_authentication_key, block_number);
    crate::details::lemma_with_key_agreement_keys_well_formed(
        DidState::initial(operation.new_authentication_key, block_number),
        operation.new_key_agreement_keys.elements(),
        block_number,
    );
}

/// A successful update was signed with the authentication key the DID had
/// before the update, over the encoded operation, and carried the next
/// counter value.
pub proof fn lemma_update_authenticated_by_current_key(
    registry: Map<DidIdentifier, DidState>,
    sender: AccountIdentifier,
    operation: DidUpdateOperation,
    signature: DidSignature,
    block_number: BlockNumber,
)
    requires
        update_outcome(registry, sender, operation, signature, block_number).0 is Ok,
    ensures
        ({
            let before = registry[operation.did];
            &&& registry.contains_key(operation.did)
            &&& operation.tx_counter == before.last_tx_counter + 1
            &&& before.verification_key_for(DidVerificationKeyRelationship::Authentication) matches Some(
                k,
            ) && signature_check(k, operation.encoding(), signature) == Ok::<bool, SignatureError>(
                true,
            )
        }),
{
}

/// After a successful deletion the DID is gone, and the same identifier can
/// be created again: a creation for it is no longer refused as already
/// present.
pub proof fn lemma_deleted_did_can_be_recreated(
    registry: Map<DidIdentifier, DidState>,
    sender: AccountIdentifier,
    operation: DidDeletionOperation,
    signature: DidSignature,
    creation: DidCreationOperation,
    creation_signature: DidSignature,
    block_number: BlockNumber,
)
    requires
        delete_outcome(registry, sender, operation, signature).0 is Ok,
        creation.did == operation.did,
    ensures
        ({
            let after = delete_outcome(registry, sender, operation, signature).1;
            &&& !after.contains_key(operation.did)
            &&& create_outcome(after, sender, creation, creation_signature, block_number).0
                != Err::<Event, Error>(Error::DidAlreadyPresent)
        }),
{
}

/// Rotating the attestation key keeps the previous attestation key stored,
/// so that past attestations can still be verified with it.
pub proof fn lemma_rotated_attestation_key_kept(
    details: DidState,
    key: DidVerificationKey,
    block_number: BlockNumber,
)
    requires
        details.well_formed(),
        details.attestation_key is Some,
    ensures
        ({
            let old_id = details.attestation_key->Some_0;
            let after = details.with_attestation_key(key, block_number);
            &&& after.public_keys.contains_key(old_id)
            &&& old_id != key_id_of(DidPublicKey::PublicVerificationKey(key)) ==> after.public_keys[old_id]
                == details.public_keys[old_id]
        }),
{
    let old_id = details.attestation_key->Some_0;
    assert(details.key_in_use(old_id));
}

/// Removing public keys never removes a key that is in use as
/// authentication, attestation or delegation key: when the removal
/// succeeds, those keys are all still stored and unchanged.
pub proof fn lemma_active_keys_survive_removal(details: DidState, ids: Seq<KeyId>, id: KeyId)
    requires
        details.well_formed(),
        details.removal_error(ids) is None,
        details.is_active_key(id),
    ensures
        details.without_public_keys(ids.to_set()).public_keys.contains_key(id),
        details.without_public_keys(ids.to_set()).public_keys[id] == details.public_keys[id],
{
    crate::details::lemma_removal_ok(details, ids);
    assert(details.key_in_use(id));
    if ids.to_set().contains(id) {
        let i = choose|i: int| 0 <= i < ids.len() && ids[i] == id;
        assert(!details.is_active_key(ids[i]));
    }
}

/// Replacing the authentication key makes the new key the authentication
/// key, stored at the given block, and removes the old one from the stored
/// keys unless another role (attestation, delegation or key agreement)
/// still uses it.
pub proof fn lemma_replaced_authentication_key_removed_unless_used(
    details: DidState,
    key: DidVerificationKey,
    block_number: BlockNumber,
)
    requires
        details.well_formed(),
    ensures
        ({
            let old_id = details.authentication_key;
            let new_key = DidPublicKey::PublicVerificationKey(key);
            let new_id = key_id_of(new_key);
            let after = details.with_authentication_key(key, block_number);
            &&& after.authentication_key == new_id
            &&& after.public_keys.contains_key(new_id)
            &&& after.public_keys[new_id] == (DidPublicKeyDetails { key: new_key, block_number })
            &&& old_id != new_id ==> (after.public_keys.contains_key(old_id) <==> (
            details.attestation_key == Some(old_id) || details.delegation_key == Some(old_id)
                || details.key_agreement_keys.contains(old_id)))
        }),
{
    let old_id = details.authentication_key;
    let new_key = DidPublicKey::PublicVerificationKey(key);
    let new_id = key_id_of(new_key);
    let t = DidState { authentication_key: new_id, ..details };
    assert(details.key_in_use(old_id));
    assert(details.public_keys.contains_key(old_id));
    if old_id != new_id {
        assert(t.key_in_use(old_id) <==> (details.attestation_key == Some(old_id)
            || details.delegation_key == Some(old_id) || details.key_agreement_keys.contains(old_id)));
    }
}

/// Replacing the delegation key makes the new key the delegation key,
/// stored at the given block, and removes the previous delegation key from
/// the stored keys unless another role still uses it.
pub proof fn lemma_replaced_delegation_key_removed_unless_used(
    details: DidState,
    key: DidVerificationKey,
    block_number: BlockNumber,
)
    requires
        details.well_formed(),
        details.delegation_key is Some,
    ensures
        ({
            let old_id = details.delegation_key->Some_0;
            let new_key = DidPublicKey::PublicVerificationKey(key);
            let new_id = key_id_of(new_key);
            let after = details.with_delegation_key(key, block_number);
            &&& after.delegation_key == Some(new_id)
            &&& after.public_keys.contains_key(new_id)
            &&& after.public_keys[new_id] == (DidPublicKeyDetails { key: new_key, block_number })
            &&& old_id != new_id ==> (after.public_keys.contains_key(old_id) <==> (
            details.authentication_key == old_id || details.attestation_key == Some(old_id)
                || details.key_agreement_keys.contains(old_id)))
        }),
{
    let old_id = details.delegation_key->Some_0;
    let new_key = DidPublicKey::PublicVerificationKey(key);
    let new_id = key_id_of(new_key);
    let t = DidState { delegation_key: Some(new_id), ..details };
    assert(details.key_in_use(old_id));
    assert(details.public_keys.contains_key(old_id));
    if old_id != new_id {
        assert(t.key_in_use(old_id) <==> (details.authentication_key == old_id
            || details.attestation_key == Some(old_id) || details.key_agreement_keys.contains(old_id)));
    }
}

/// Deleting the attestation or the delegation key unsets it and removes it
/// from the stored keys unless another role still uses it; everything else
/// stays as it was.
pub proof fn lemma_deleted_key_removed_unless_used(details: DidState)
    requires
        details.well_formed(),
    ensures
        ({
            let after = details.without_attestation_key();
            &&& after.attestation_key is None
            &&& details.attestation_key matches Some(old_id) ==> (after.public_keys.contains_key(
                old_id,
            ) <==> (details.authentication_key == old_id || details.delegation_key == Some(old_id)
                || details.key_agreement_keys.contains(old_id)))
            &&& forall|id: KeyId|
                details.attestation_key != Some(id) ==> #[trigger] after.public_keys.contains_key(id)
                    == details.public_keys.contains_key(id)
        }),
        ({
            let after = details.without_delegation_key();
            &&& after.delegation_key is None
            &&& details.delegation_key matches Some(old_id) ==> (after.public_keys.contains_key(
                old_id,
            ) <==> (details.authentication_key == old_id || details.attestation_key == Some(old_id)
                || details.key_agreement_keys.contains(old_id)))
            &&& forall|id: KeyId|
                details.delegation_key != Some(id) ==> #[trigger] after.public_keys.contains_key(id)
                    == details.public_keys.contains_key(id)
        }),
{
    if let Some(old_id) = details.attestation_key {
        let t = DidState { attestation_key: None, ..details };
        assert(details.key_in_use(old_id));
        assert(details.public_keys.contains_key(old_id));
        assert(t.key_in_use(old_id) <==> (details.authentication_key == old_id
            || details.delegation_key == Some(old_id) || details.key_agreement_keys.contains(old_id)));
    }
    if let Some(old_id) = details.delegation_key {
        let t = DidState { delegation_key: None, ..details };
        assert(details.key_in_use(old_id));
        assert(details.public_keys.contains_key(old_id));
        assert(t.key_in_use(old_id) <==> (details.authentication_key == old_id
            || details.attestation_key == Some(old_id) || details.key_agreement_keys.contains(old_id)));
    }
}

/// A successful update leaves every key that a role uses stored: the
/// authentication key, the attestation and delegation keys when set, and
/// every key agreement key.
pub proof fn lemma_update_keeps_role_keys_stored(
    details: DidState,
    operation: DidUpdateOperation,
    block_number: BlockNumber,
)
    requires
        details.well_formed(),
        operation.public_keys_to_remove.wf(),
    ensures
        updated_state(details, operation, block_number) matches Ok(after) ==> {
            &&& after.public_keys.contains_key(after.authentication_key)
            &&& after.attestation_key matches Some(id) ==> after.public_keys.contains_key(id)
            &&& after.delegation_key matches Some(id) ==> after.public_keys.contains_key(id)
            &&& forall|id: KeyId| #[trigger]
                after.key_agreement_keys.contains(id) ==> after.public_keys.contains_key(id)
        },
{
    crate::details::lemma_updated_state_well_formed(details, operation, block_number);
    if let Ok(after) = updated_state(details, operation, block_number) {
        assert(after.key_in_use(after.authentication_key));
        if let Some(id) = after.attestation_key {
            assert(after.key_in_use(id));
        }
        if let Some(id) = after.delegation_key {
            assert(after.key_in_use(id));
        }
        assert forall|id: KeyId| #[trigger] after.key_agreement_keys.contains(id) implies after.public_keys.contains_key(id) by {
            assert(after.key_in_use(id));
        }
    }
}

/// Adding key agreement keys changes no role but the key agreement one,
/// neither the endpoint URL nor the counter, keeps every stored key stored,
/// and stores each new key at the given block.
proof fn lemma_key_agreement_frame(s: DidState, keys: Seq<DidEncryptionKey>, block_number: BlockNumber)
    ensures
        ({
            let t = s.with_key_agreement_keys(keys, block_number);
            &&& t.authentication_key == s.authentication_key
            &&& t.attestation_key == s.attestation_key
            &&& t.delegation_key == s.delegation_key
            &&& t.endpoint_url == s.endpoint_url
            &&& t.last_tx_counter == s.last_tx_counter
            &&& forall|id: KeyId| #[trigger]
                s.public_keys.contains_key(id) ==> t.public_keys.contains_key(id)
            &&& (forall|id: KeyId| #[trigger]
                s.public_keys.contains_key(id) ==> s.public_keys[id].block_number == block_number)
                ==> (forall|id: KeyId| #[trigger]
                t.public_keys.contains_key(id) ==> t.public_keys[id].block_number == block_number)
        }),
    decreases keys.len(),
{
    if keys.len() > 0 {
        lemma_key_agreement_frame(s, keys.drop_last(), block_number);
    }
}

/// A successful update sets the endpoint URL to the one the operation
/// carries, or keeps the previous one when it carries none, and sets the
/// DID's counter to the operation's.
pub proof fn lemma_update_sets_endpoint_url(
    registry: Map<DidIdentifier, DidState>,
    sender: AccountIdentifier,
    operation: DidUpdateOperation,
    signature: DidSignature,
    block_number: BlockNumber,
)
    ensures
        update_outcome(registry, sender, operation, signature, block_number).0 is Ok ==> {
            let after = update_outcome(registry, sender, operation, signature, block_number).1;
            &&& after.contains_key(operation.did)
            &&& after[operation.did].endpoint_url == match operation.new_endpoint_url {
                Some(u) => Some(u@),
                None => registry[operation.did].endpoint_url,
            }
            &&& after[operation.did].last_tx_counter == operation.tx_counter
        },
        updated_state(registry[operation.did], operation, block_number) matches Ok(t) ==> {
            &&& t.endpoint_url == match operation.new_endpoint_url {
                Some(u) => Some(u@),
                None => registry[operation.did].endpoint_url,
            }
            &&& t.last_tx_counter == operation.tx_counter
        },
{
    let s = registry[operation.did];
    let s1 = s.without_public_keys(operation.public_keys_to_remove@);
    let s2 = match operation.new_authentication_key {
        Some(k) => s1.with_authentication_key(k, block_number),
        None => s1,
    };
    lemma_key_agreement_frame(s2, operation.new_key_agreement_keys.elements(), block_number);
}

/// A DID created at block `block_number` stores every key at that block:
/// its authentication key, under the key's identifier, and all the other
/// keys of the operation. A new DID starts with counter 0 and the endpoint
/// URL of the operation.
pub proof fn lemma_created_keys_stored_at_block(
    registry: Map<DidIdentifier, DidState>,
    sender: AccountIdentifier,
    operation: DidCreationOperation,
    signature: DidSignature,
    block_number: BlockNumber,
    key: DidVerificationKey,
)
    ensures
        DidState::initial(key, block_number).public_keys == map![
            key_id_of(DidPublicKey::PublicVerificationKey(key)) => DidPublicKeyDetails {
                key: DidPublicKey::PublicVerificationKey(key),
                block_number,
            }
        ],
        ({
            let c = created_state(operation, block_number);
            let auth_id = key_id_of(
                DidPublicKey::PublicVerificationKey(operation.new_authentication_key),
            );
            &&& c.authentication_key == auth_id
            &&& c.public_keys.contains_key(auth_id)
            &&& forall|id: KeyId| #[trigger]
                c.public_keys.contains_key(id) ==> c.public_keys[id].block_number == block_number
            &&& c.last_tx_counter == 0
            &&& c.endpoint_url == optional_url_view(operation.new_endpoint_url)
        }),
        create_outcome(registry, sender, operation, signature, block_number).0 is Ok ==> {
            let after = create_outcome(registry, sender, operation, signature, block_number).1;
            forall|id: KeyId| #[trigger]
                after[operation.did].public_keys.contains_key(id)
                    ==> after[operation.did].public_keys[id].block_number == block_number
        },
{
    let i = DidState::initial(key, block_number);
    assert(i.public_keys =~= map![
        key_id_of(DidPublicKey::PublicVerificationKey(key)) => DidPublicKeyDetails {
            key: DidPublicKey::PublicVerificationKey(key),
            block_number,
        }
    ]);
    let s = DidState::initial(operation.new_authentication_key, block_number);
    let auth_id = key_id_of(DidPublicKey::PublicVerificationKey(operation.new_authentication_key));
    assert(s.public_keys.contains_key(auth_id));
    assert forall|id: KeyId| #[trigger] s.public_keys.contains_key(id) implies s.public_keys[id].block_number
        == block_number by {
        assert(id == auth_id);
    }
    lemma_key_agreement_frame(s, operation.new_key_agreement_keys.elements(), block_number);
    let s0 = s.with_key_agreement_keys(operation.new_key_agreement_keys.elements(), block_number);
    assert(s0.public_keys.contains_key(auth_id));
    let s1 = match operation.new_attestation_key {
        Some(k) => s0.with_attestation_key(k, block_number),
        None => s0,
    };
    assert(s1.public_keys.contains_key(auth_id));
    assert(s1.delegation_key is None);
    assert forall|id: KeyId| #[trigger] s1.public_keys.contains_key(id) implies s1.public_keys[id].block_number
        == block_number by {
        if s0.public_keys.contains_key(id) {
        }
    }
    let s2 = match operation.new_delegation_key {
        Some(k) => s1.with_delegation_key(k, block_number),
        None => s1,
    };
    assert(s2.public_keys.contains_key(auth_id));
    assert forall|id: KeyId| #[trigger] s2.public_keys.contains_key(id) implies s2.public_keys[id].block_number
        == block_number by {
        if s1.public_keys.contains_key(id) {
        }
    }
    assert(created_state(operation, block_number) == s2.with_endpoint_url(
        optional_url_view(operation.new_endpoint_url),
    ));
}

/// The key a call authorization is checked with is the DID's key for the
/// role the call asks for: the authentication key, the attestation key for
/// assertions, the delegation key for delegations, and none for
/// invocations. An authorization succeeds exactly when the DID is stored,
/// its counter can still grow, the operation carries the next counter, and
/// the signature over the encoded operation is valid for that key; the DID
/// then carries the operation's counter.
pub proof fn lemma_call_checked_with_role_key(
    registry: Map<DidIdentifier, DidState>,
    operation: DidAuthorizedCallOperation,
    key_type: DidVerificationKeyRelationship,
    signature: DidSignature,
)
    ensures
        ({
            let d = registry[operation.did];
            let role_id = match key_type {
                DidVerificationKeyRelationship::Authentication => Some(d.authentication_key),
                DidVerificationKeyRelationship::AssertionMethod => d.attestation_key,
                DidVerificationKeyRelationship::CapabilityDelegation => d.delegation_key,
                DidVerificationKeyRelationship::CapabilityInvocation => None::<KeyId>,
            };
            let signed_with_role_key = match role_id {
                Some(id) => d.public_keys.contains_key(id) && match d.public_keys[id].key {
                    DidPublicKey::PublicVerificationKey(k) => signature_check(
                        k,
                        encode_call_operation(operation),
                        signature,
                    ) == Ok::<bool, SignatureError>(true),
                    DidPublicKey::PublicEncryptionKey(_) => false,
                },
                None => false,
            };
            let outcome = call_outcome(registry, operation, Some(key_type), signature);
            &&& outcome.0 is Ok <==> (registry.contains_key(operation.did) && d.last_tx_counter
                < u64::MAX && operation.tx_counter == d.last_tx_counter + 1 && signed_with_role_key)
            &&& outcome.0 is Ok ==> outcome.0 == Ok::<DidIdentifier, Error>(operation.did)
                && outcome.1.contains_key(operation.did)
                && outcome.1[operation.did].last_tx_counter == operation.tx_counter
        }),
{
}

/// The encoding of a key update action starts with the action's index
/// (0 to ignore, 1 to change, 2 to delete), and distinct actions have
/// distinct encodings.
pub proof fn lemma_update_action_encoding_injective(
    a: DidVerificationKeyUpdateAction,
    b: DidVerificationKeyUpdateAction,
)
    ensures
        encode_update_action(a).len() >= 1,
        encode_update_action(a)[0] == match a {
            DidVerificationKeyUpdateAction::Ignore => 0u8,
            DidVerificationKeyUpdateAction::Change(_) => 1u8,
            DidVerificationKeyUpdateAction::Delete => 2u8,
        },
        encode_update_action(a) == encode_update_action(b) ==> a == b,
{
    if encode_update_action(a) == encode_update_action(b) {
        let ea = encode_update_action(a);
        let eb = encode_update_action(b);
        assert(ea[0] == eb[0]);
        if let DidVerificationKeyUpdateAction::Change(ka) = a {
            if let DidVerificationKeyUpdateAction::Change(kb) = b {
                assert(ea.skip(1) =~= encode_verification_key(ka));
                assert(eb.skip(1) =~= encode_verification_key(kb));
                let va = encode_verification_key(ka);
                let vb = encode_verification_key(kb);
                assert(va[0] == vb[0]);
                match (ka, kb) {
                    (DidVerificationKey::Ed25519(x), DidVerificationKey::Ed25519(y)) => {
                        assert(va.skip(1) =~= x@);
                        assert(vb.skip(1) =~= y@);
                        assert(x =~= y);
                    },
                    (DidVerificationKey::Sr25519(x), DidVerificationKey::Sr25519(y)) => {
                        assert(va.skip(1) =~= x@);
                        assert(vb.skip(1) =~= y@);
                        assert(x =~= y);
                    },
                    _ => {},
                }
            }
        }
    }
}

/// An ASCII letter or digit.
pub open spec fn is_alphanumeric(c: u8) -> bool {
    0x30 <= c <= 0x39 || 0x41 <= c <= 0x5a || 0x61 <= c <= 0x7a
}

/// Bytes below 0x80 only form valid UTF-8.
proof fn lemma_ascii_valid_utf8(v: Seq<u8>)
    requires
        forall|i: int| 0 <= i < v.len() ==> #[trigger] v[i] < 0x80,
    ensures
        vstd::utf8::valid_utf8(v),
{
    assert(vstd::utf8::valid_utf8(v.subrange(0, 0))) by {
        assert(v.subrange(0, 0).len() == 0);
    }
    vstd::utf8::partial_valid_utf8_extend_ascii_block(v, 0, v.len() as int);
    assert(v.subrange(0, v.len() as int) =~= v);
}

/// Every ASCII letter and digit is an allowed URL character; no allowed
/// character lies outside printable ASCII, and the characters `<`, `>`,
/// `"`, `\`, `^`, `` ` ``, `{`, `|`, `}` are not allowed. Hence an HTTP(S)
/// or FTP(S) scheme followed by letters and digits is a valid URL, and so
/// is the IPFS scheme followed by letters and digits other than `0`, `O`,
/// `I` and `l` (a base58 identifier).
pub proof fn lemma_alphanumeric_urls_valid(c: u8, rest: Seq<u8>)
    ensures
        is_alphanumeric(c) ==> is_url_char(c),
        is_url_char(c) ==> 0x21 <= c <= 0x7e,
        c == 0x3c || c == 0x3e || c == 0x22 || c == 0x5c || c == 0x5e || c == 0x60 || c == 0x7b
            || c == 0x7c || c == 0x7d ==> !is_url_char(c),
        is_base_58_char(c) <==> (is_alphanumeric(c) && c != 0x30 && c != 0x4f && c != 0x49 && c
            != 0x6c),
        (forall|i: int| 0 <= i < rest.len() ==> is_alphanumeric(#[trigger] rest[i])) ==> {
            &&& http_url_check(http_scheme() + rest) is Ok
            &&& http_url_check(https_scheme() + rest) is Ok
            &&& ftp_url_check(ftp_scheme() + rest) is Ok
            &&& ftp_url_check(ftps_scheme() + rest) is Ok
        },
        (forall|i: int| 0 <= i < rest.len() ==> is_base_58_char(#[trigger] rest[i]))
            ==> ipfs_url_check(ipfs_scheme() + rest) is Ok,
{
    if forall|i: int| 0 <= i < rest.len() ==> is_alphanumeric(#[trigger] rest[i]) {
        let schemes = seq![http_scheme(), https_scheme(), ftp_scheme(), ftps_scheme()];
        assert forall|j: int| 0 <= j < 4 implies ({
            let v = #[trigger] schemes[j] + rest;
            &&& forall|i: int| 0 <= i < v.len() ==> #[trigger] v[i] < 0x80
            &&& forall|i: int| 0 <= i < v.len() ==> is_url_char(#[trigger] v[i])
            &&& v.take(schemes[j].len() as int) == schemes[j]
        }) by {
            let sc = schemes[j];
            let v = sc + rest;
            assert forall|i: int| 0 <= i < v.len() implies is_url_char(#[trigger] v[i]) && v[i] < 0x80 by {
                if i >= sc.len() {
                    assert(v[i] == rest[i - sc.len()]);
                }
            }
            assert(v.take(sc.len() as int) =~= sc);
        }
        let v0 = schemes[0] + rest;
        let v1 = schemes[1] + rest;
        let v2 = schemes[2] + rest;
        let v3 = schemes[3] + rest;
        lemma_ascii_valid_utf8(v0);
        lemma_ascii_valid_utf8(v1);
        lemma_ascii_valid_utf8(v2);
        lemma_ascii_valid_utf8(v3);
    }
    if forall|i: int| 0 <= i < rest.len() ==> is_base_58_char(#[trigger] rest[i]) {
        let v = ipfs_scheme() + rest;
        assert forall|i: int| 0 <= i < v.len() implies #[trigger] v[i] < 0x80 by {
            if i >= 7 {
                assert(v[i] == rest[i - 7]);
            }
        }
        lemma_ascii_valid_utf8(v);
        assert(v.take(7) =~= ipfs_scheme());
        assert(v.skip(7) =~= rest);
    }
}

} // verus!
