use did::{
    calculate_key_id, DeriveDidCallAuthorizationVerificationKeyRelationship,
    DidAuthorizedCallOperation, DidAuthorizedCallOperationWithVerificationRelationship,
    DidCreationOperation, DidDeletionOperation, DidDetails,
    DidEncryptionKey, DidEncryptionKeySet, DidError, DidOperation, DidPublicKey, DidSignature,
    DidUpdateOperation, DidVerificationKey, DidVerificationKeyRelationship,
    DidVerificationKeyUpdateAction, Error, HttpUrl, KeyId, KeyIdSet, Pallet, SignatureError,
    StorageError, Url,
};
use parity_scale_codec::Encode;
use sp_core::{ed25519, sr25519, Pair};
use sp_runtime::traits::BlakeTwo256;

type TestDidIdentifier = [u8; 32];
type TestBlockNumber = u64;

const DEFAULT_ACCOUNT: [u8; 32] = [0u8; 32];
const ALICE_DID: TestDidIdentifier = [1u8; 32];
const BOB_DID: TestDidIdentifier = [2u8; 32];
const DEFAULT_AUTH_SEED: [u8; 32] = [4u8; 32];
const ALTERNATIVE_AUTH_SEED: [u8; 32] = [40u8; 32];
const DEFAULT_ENC_SEED: [u8; 32] = [5u8; 32];
const ALTERNATIVE_ENC_SEED: [u8; 32] = [50u8; 32];
const DEFAULT_ATT_SEED: [u8; 32] = [6u8; 32];
const ALTERNATIVE_ATT_SEED: [u8; 32] = [60u8; 32];
const DEFAULT_DEL_SEED: [u8; 32] = [7u8; 32];
const ALTERNATIVE_DEL_SEED: [u8; 32] = [70u8; 32];

fn get_ed25519_authentication_key(default: bool) -> ed25519::Pair {
    if default {
        ed25519::Pair::from_seed(&DEFAULT_AUTH_SEED)
    } else {
        ed25519::Pair::from_seed(&ALTERNATIVE_AUTH_SEED)
    }
}

fn get_sr25519_authentication_key(default: bool) -> sr25519::Pair {
    if default {
        sr25519::Pair::from_seed(&DEFAULT_AUTH_SEED)
    } else {
        sr25519::Pair::from_seed(&ALTERNATIVE_AUTH_SEED)
    }
}

fn get_x25519_encryption_key(default: bool) -> DidEncryptionKey {
    if default {
        DidEncryptionKey::X25519(DEFAULT_ENC_SEED)
    } else {
        DidEncryptionKey::X25519(ALTERNATIVE_ENC_SEED)
    }
}

fn get_ed25519_attestation_key(default: bool) -> ed25519::Pair {
    if default {
        ed25519::Pair::from_seed(&DEFAULT_ATT_SEED)
    } else {
        ed25519::Pair::from_seed(&ALTERNATIVE_ATT_SEED)
    }
}

fn get_sr25519_attestation_key(default: bool) -> sr25519::Pair {
    if default {
        sr25519::Pair::from_seed(&DEFAULT_ATT_SEED)
    } else {
        sr25519::Pair::from_seed(&ALTERNATIVE_ATT_SEED)
    }
}

fn get_ed25519_delegation_key(default: bool) -> ed25519::Pair {
    if default {
        ed25519::Pair::from_seed(&DEFAULT_DEL_SEED)
    } else {
        ed25519::Pair::from_seed(&ALTERNATIVE_DEL_SEED)
    }
}

fn get_sr25519_delegation_key(default: bool) -> sr25519::Pair {
    if default {
        sr25519::Pair::from_seed(&DEFAULT_DEL_SEED)
    } else {
        sr25519::Pair::from_seed(&ALTERNATIVE_DEL_SEED)
    }
}

fn ed_key(pair: &ed25519::Pair) -> DidVerificationKey {
    DidVerificationKey::Ed25519(pair.public().0)
}

fn sr_key(pair: &sr25519::Pair) -> DidVerificationKey {
    DidVerificationKey::Sr25519(pair.public().0)
}

fn ed_sign(pair: &ed25519::Pair, payload: &[u8]) -> DidSignature {
    DidSignature::Ed25519(pair.sign(payload).0)
}

fn sr_sign(pair: &sr25519::Pair, payload: &[u8]) -> DidSignature {
    DidSignature::Sr25519(pair.sign(payload).0)
}

/// The identifier of a key, computed with the codec and the hash function
/// directly.
fn generate_key_id(key: &DidPublicKey) -> KeyId {
    let encoded = match key {
        DidPublicKey::PublicVerificationKey(DidVerificationKey::Ed25519(k)) => (0u8, 0u8, *k).encode(),
        DidPublicKey::PublicVerificationKey(DidVerificationKey::Sr25519(k)) => (0u8, 1u8, *k).encode(),
        DidPublicKey::PublicEncryptionKey(DidEncryptionKey::X25519(k)) => (1u8, 0u8, *k).encode(),
    };
    <BlakeTwo256 as sp_runtime::traits::Hash>::hash(&encoded).0
}

fn verification(key: DidVerificationKey) -> DidPublicKey {
    DidPublicKey::PublicVerificationKey(key)
}

fn encryption(key: DidEncryptionKey) -> DidPublicKey {
    DidPublicKey::PublicEncryptionKey(key)
}

fn encryption_key_set(keys: &[DidEncryptionKey]) -> DidEncryptionKeySet {
    let mut set = DidEncryptionKeySet::new();
    for k in keys {
        set.insert(*k);
    }
    set
}

fn key_id_set(ids: &[KeyId]) -> KeyIdSet {
    let mut set = KeyIdSet::new();
    for id in ids {
        set.insert(*id);
    }
    set
}

// A creation operation that would successfully write the new DID on chain.
fn generate_base_did_creation_operation(
    did: TestDidIdentifier,
    new_authentication_key: DidVerificationKey,
) -> DidCreationOperation {
    DidCreationOperation {
        did,
        new_authentication_key,
        new_key_agreement_keys: DidEncryptionKeySet::new(),
        new_attestation_key: None,
        new_delegation_key: None,
        new_endpoint_url: None,
    }
}

// An update operation that does not update any information for the DID.
fn generate_base_did_update_operation(did: TestDidIdentifier) -> DidUpdateOperation {
    DidUpdateOperation {
        did,
        new_authentication_key: None,
        new_key_agreement_keys: DidEncryptionKeySet::new(),
        attestation_key_update: DidVerificationKeyUpdateAction::default(),
        delegation_key_update: DidVerificationKeyUpdateAction::default(),
        public_keys_to_remove: KeyIdSet::new(),
        new_endpoint_url: None,
        tx_counter: 1,
    }
}

fn generate_base_did_delete_operation(did: TestDidIdentifier) -> DidDeletionOperation {
    DidDeletionOperation { did, tx_counter: 1 }
}

// DID details with the given authentication key.
fn generate_base_did_details(authentication_key: DidVerificationKey) -> DidDetails {
    DidDetails::new(authentication_key, 0)
}

fn build(dids: Vec<(TestDidIdentifier, DidDetails)>) -> Pallet {
    let mut pallet = Pallet::new();
    for (id, details) in dids {
        pallet.insert_did(id, details);
    }
    pallet
}

// A test operation that can require any DID verification key type: a call
// operation wrapped with the key relationship to check it against.
fn test_operation(
    did: TestDidIdentifier,
    verification_key_type: DidVerificationKeyRelationship,
    tx_counter: u64,
) -> DidAuthorizedCallOperationWithVerificationRelationship {
    DidAuthorizedCallOperationWithVerificationRelationship {
        operation: DidAuthorizedCallOperation { did, tx_counter, call: vec![] },
        verification_key_relationship: verification_key_type,
    }
}

// A test call that requires a given DID key type.
struct TestCall {
    verification_key_type: DidVerificationKeyRelationship,
    fail: bool,
}

impl DeriveDidCallAuthorizationVerificationKeyRelationship for TestCall {
    fn derived_relationship(&self) -> Option<DidVerificationKeyRelationship> {
        Some(self.verification_key_type)
    }

    fn derive_verification_key_relationship(&self) -> Option<DidVerificationKeyRelationship> {
        Some(self.verification_key_type)
    }
}

fn generate_test_did_call(
    verification_key_type: DidVerificationKeyRelationship,
    did: TestDidIdentifier,
    fail: bool,
) -> (TestCall, DidAuthorizedCallOperation) {
    let call = TestCall { verification_key_type, fail };
    let encoded_call = vec![if call.fail { 1u8 } else { 0u8 }];
    (call, DidAuthorizedCallOperation { did, tx_counter: 1, call: encoded_call })
}

fn call_payload(op: &DidAuthorizedCallOperation) -> Vec<u8> {
    let mut payload = (op.did, op.tx_counter).encode();
    payload.extend_from_slice(&op.call);
    payload
}

fn new_url() -> Url {
    Url::from(
        HttpUrl::try_from("https://new_kilt.io".as_bytes())
            .expect("https://new_kilt.io should not be considered an invalid HTTP URL."),
    )
}

// submit_did_create_operation

#[test]
fn check_successful_simple_ed25519_creation() {
    let auth_key = get_ed25519_authentication_key(true);
    let operation = generate_base_did_creation_operation(ALICE_DID, ed_key(&auth_key));
    let signature = ed_sign(&auth_key, &operation.encode());

    let mut pallet = build(vec![]);
    assert!(pallet.submit_did_create_operation(DEFAULT_ACCOUNT, &operation, &signature, 0).is_ok());

    let stored_did = pallet.get_did(&ALICE_DID).expect("ALICE_DID should be present on chain.");
    assert_eq!(
        stored_did.get_authentication_key_id(),
        generate_key_id(&verification(operation.new_authentication_key))
    );
    assert_eq!(stored_did.get_key_agreement_keys_ids().len(), 0);
    assert_eq!(stored_did.get_delegation_key_id(), &None);
    assert_eq!(stored_did.get_attestation_key_id(), &None);
    assert_eq!(stored_did.get_public_keys().len(), 1);
    assert!(stored_did
        .get_public_keys()
        .contains_key(&generate_key_id(&verification(operation.new_authentication_key))));
    assert_eq!(stored_did.endpoint_url, None);
    assert_eq!(stored_did.last_tx_counter, 0u64);
}

#[test]
fn check_successful_simple_sr25519_creation() {
    let auth_key = get_sr25519_authentication_key(true);
    let operation = generate_base_did_creation_operation(ALICE_DID, sr_key(&auth_key));
    let signature = sr_sign(&auth_key, &operation.encode());

    let mut pallet = build(vec![]);
    assert!(pallet.submit_did_create_operation(DEFAULT_ACCOUNT, &operation, &signature, 0).is_ok());

    let stored_did = pallet.get_did(&ALICE_DID).expect("ALICE_DID should be present on chain.");
    assert_eq!(
        stored_did.get_authentication_key_id(),
        generate_key_id(&verification(operation.new_authentication_key))
    );
    assert_eq!(stored_did.get_key_agreement_keys_ids().len(), 0);
    assert_eq!(stored_did.get_delegation_key_id(), &None);
    assert_eq!(stored_did.get_attestation_key_id(), &None);
    assert_eq!(stored_did.get_public_keys().len(), 1);
    assert!(stored_did
        .get_public_keys()
        .contains_key(&generate_key_id(&verification(operation.new_authentication_key))));
    assert_eq!(stored_did.endpoint_url, None);
    assert_eq!(stored_did.last_tx_counter, 0u64);
}

#[test]
fn check_successful_complete_creation() {
    let auth_key = get_sr25519_authentication_key(true);
    let enc_keys = vec![get_x25519_encryption_key(true), get_x25519_encryption_key(false)];
    let del_key = get_sr25519_delegation_key(true);
    let att_key = get_ed25519_attestation_key(true);
    let mut operation = generate_base_did_creation_operation(ALICE_DID, sr_key(&auth_key));
    operation.new_key_agreement_keys = encryption_key_set(&enc_keys);
    operation.new_attestation_key = Some(ed_key(&att_key));
    operation.new_delegation_key = Some(sr_key(&del_key));
    operation.new_endpoint_url = Some(new_url());

    let signature = sr_sign(&auth_key, &operation.encode());

    let mut pallet = build(vec![]);
    assert!(pallet.submit_did_create_operation(DEFAULT_ACCOUNT, &operation, &signature, 0).is_ok());

    let stored_did = pallet.get_did(&ALICE_DID).expect("ALICE_DID should be present on chain.");
    assert_eq!(
        stored_did.get_authentication_key_id(),
        generate_key_id(&verification(operation.new_authentication_key))
    );
    assert_eq!(stored_did.get_key_agreement_keys_ids().len(), 2);
    for key in enc_keys.iter().copied() {
        assert!(stored_did.get_key_agreement_keys_ids().contains(&generate_key_id(&encryption(key))))
    }
    assert_eq!(
        stored_did.get_delegation_key_id(),
        &Some(generate_key_id(&verification(operation.new_delegation_key.unwrap())))
    );
    assert_eq!(
        stored_did.get_attestation_key_id(),
        &Some(generate_key_id(&verification(operation.new_attestation_key.unwrap())))
    );
    // Authentication key + 2 * Encryption key + Delegation key + Attestation key = 5
    assert_eq!(stored_did.get_public_keys().len(), 5);
    assert!(stored_did
        .get_public_keys()
        .contains_key(&generate_key_id(&verification(operation.new_authentication_key))));
    assert!(stored_did.get_public_keys().contains_key(&generate_key_id(&encryption(enc_keys[0]))));
    assert!(stored_did.get_public_keys().contains_key(&generate_key_id(&encryption(enc_keys[1]))));
    assert!(stored_did
        .get_public_keys()
        .contains_key(&generate_key_id(&verification(operation.new_attestation_key.unwrap()))));
    assert!(stored_did
        .get_public_keys()
        .contains_key(&generate_key_id(&verification(operation.new_delegation_key.unwrap()))));
    assert_eq!(stored_did.endpoint_url, Some(new_url()));
}

#[test]
fn check_duplicate_did_creation() {
    let auth_key = get_sr25519_authentication_key(true);
    let mock_did = generate_base_did_details(sr_key(&auth_key));
    let operation = generate_base_did_creation_operation(ALICE_DID, sr_key(&auth_key));
    let signature = sr_sign(&auth_key, &operation.encode());

    let mut pallet = build(vec![(ALICE_DID, mock_did)]);
    let before = pallet.clone();
    assert_eq!(
        pallet.submit_did_create_operation(DEFAULT_ACCOUNT, &operation, &signature, 0),
        Err(Error::DidAlreadyPresent)
    );
    assert_eq!(pallet, before);
}

#[test]
fn check_invalid_signature_format_did_creation() {
    let auth_key = get_sr25519_authentication_key(true);
    // Using an Ed25519 key where an Sr25519 is expected
    let invalid_key = get_ed25519_authentication_key(true);
    // DID creation contains auth_key, but signature is generated using invalid_key
    let operation = generate_base_did_creation_operation(ALICE_DID, sr_key(&auth_key));
    let signature = ed_sign(&invalid_key, &operation.encode());

    let mut pallet = build(vec![]);
    let before = pallet.clone();
    assert_eq!(
        pallet.submit_did_create_operation(DEFAULT_ACCOUNT, &operation, &signature, 0),
        Err(Error::InvalidSignatureFormat)
    );
    assert_eq!(pallet, before);
}

#[test]
fn check_invalid_signature_did_creation() {
    let auth_key = get_sr25519_authentication_key(true);
    let alternative_key = get_sr25519_authentication_key(false);
    let operation = generate_base_did_creation_operation(ALICE_DID, sr_key(&auth_key));
    let signature = sr_sign(&alternative_key, &operation.encode());

    let mut pallet = build(vec![]);
    let before = pallet.clone();
    assert_eq!(
        pallet.submit_did_create_operation(DEFAULT_ACCOUNT, &operation, &signature, 0),
        Err(Error::InvalidSignature)
    );
    assert_eq!(pallet, before);
}

// submit_did_update_operation

#[test]
fn check_successful_complete_update() {
    let old_auth_key = get_ed25519_authentication_key(true);
    let new_auth_key = get_ed25519_authentication_key(false);
    let old_enc_key = get_x25519_encryption_key(true);
    let new_enc_key = get_x25519_encryption_key(false);
    let old_att_key = get_ed25519_attestation_key(true);
    let new_att_key = get_ed25519_attestation_key(false);
    let new_del_key = get_sr25519_delegation_key(true);

    let mut old_did_details = generate_base_did_details(ed_key(&old_auth_key));
    old_did_details.add_key_agreement_keys(&encryption_key_set(&[old_enc_key]), 0u64);
    old_did_details.update_attestation_key(ed_key(&old_att_key), 0u64);

    // Update all keys, URL endpoint and tx counter. The old key agreement key is removed.
    let mut operation = generate_base_did_update_operation(ALICE_DID);
    operation.new_authentication_key = Some(ed_key(&new_auth_key));
    operation.new_key_agreement_keys = encryption_key_set(&[new_enc_key]);
    operation.attestation_key_update = DidVerificationKeyUpdateAction::Change(ed_key(&new_att_key));
    operation.delegation_key_update = DidVerificationKeyUpdateAction::Change(sr_key(&new_del_key));
    operation.public_keys_to_remove = key_id_set(&[generate_key_id(&encryption(old_enc_key))]);
    operation.new_endpoint_url = Some(new_url());
    operation.tx_counter = old_did_details.last_tx_counter + 1u64;

    // Generate signature using the old authentication key
    let signature = ed_sign(&old_auth_key, &operation.encode());

    let mut pallet = build(vec![(ALICE_DID, old_did_details.clone())]);
    let new_block_number: TestBlockNumber = 1;
    assert!(pallet
        .submit_did_update_operation(DEFAULT_ACCOUNT, &operation, &signature, new_block_number)
        .is_ok());

    let new_did_details = pallet.get_did(&ALICE_DID).expect("ALICE_DID should be present on chain.");
    assert_eq!(
        new_did_details.get_authentication_key_id(),
        generate_key_id(&verification(operation.new_authentication_key.unwrap()))
    );
    // Old one deleted, new one added -> Total keys = 1
    assert_eq!(new_did_details.get_key_agreement_keys_ids().len(), 1);
    assert_eq!(new_did_details.get_key_agreement_keys_ids().get(0), &generate_key_id(&encryption(new_enc_key)));
    assert_eq!(
        new_did_details.get_attestation_key_id(),
        &Some(generate_key_id(&verification(ed_key(&new_att_key))))
    );
    assert_eq!(
        new_did_details.get_delegation_key_id(),
        &Some(generate_key_id(&verification(sr_key(&new_del_key))))
    );

    // Total is +1 for the new auth key, -1 for the old auth key (replaced), +1 for
    // the new key agreement key, -1 for the old key agreement key (deleted), +1 for
    // the old attestation key, +1 for the new attestation key, +1 for the new
    // delegation key = 5
    let public_keys = new_did_details.get_public_keys();
    assert_eq!(public_keys.len(), 5);
    // Check for new authentication key
    assert!(public_keys.contains_key(&generate_key_id(&verification(ed_key(&new_att_key)))));
    // Check for new key agreement key
    assert!(public_keys.contains_key(&generate_key_id(&encryption(new_enc_key))));
    // Check for old attestation key
    assert!(public_keys.contains_key(&generate_key_id(&verification(ed_key(&old_att_key)))));
    // Check for new attestation key
    assert!(public_keys.contains_key(&generate_key_id(&verification(ed_key(&new_att_key)))));
    // Check for new delegation key
    assert!(public_keys.contains_key(&generate_key_id(&verification(sr_key(&new_del_key)))));
    assert_eq!(new_did_details.last_tx_counter, old_did_details.last_tx_counter + 1u64);
}

#[test]
fn check_successful_keys_deletion_update() {
    let auth_key = get_ed25519_authentication_key(true);
    let att_key = get_ed25519_attestation_key(true);
    let del_key = get_sr25519_delegation_key(true);

    let mut old_did_details = generate_base_did_details(ed_key(&auth_key));
    old_did_details.update_attestation_key(ed_key(&att_key), 0u64);
    old_did_details.update_delegation_key(sr_key(&del_key), 0u64);

    // Remove both attestation and delegation key
    let mut operation = generate_base_did_update_operation(ALICE_DID);
    operation.attestation_key_update = DidVerificationKeyUpdateAction::Delete;
    operation.delegation_key_update = DidVerificationKeyUpdateAction::Delete;
    operation.tx_counter = old_did_details.last_tx_counter + 1u64;

    let signature = ed_sign(&auth_key, &operation.encode());

    let mut pallet = build(vec![(ALICE_DID, old_did_details.clone())]);
    let new_block_number: TestBlockNumber = 1;
    assert!(pallet
        .submit_did_update_operation(DEFAULT_ACCOUNT, &operation, &signature, new_block_number)
        .is_ok());

    // Auth key and key agreement key unchanged
    let new_did_details = pallet.get_did(&ALICE_DID).expect("ALICE_DID should be present on chain.");
    assert_eq!(
        new_did_details.get_authentication_key_id(),
        old_did_details.get_authentication_key_id()
    );
    assert_eq!(
        new_did_details.get_key_agreement_keys_ids(),
        old_did_details.get_key_agreement_keys_ids()
    );
    assert_eq!(new_did_details.get_attestation_key_id(), &None);
    assert_eq!(new_did_details.get_delegation_key_id(), &None);

    // Public keys should now contain only the authentication key
    let stored_public_keys = new_did_details.get_public_keys();
    assert_eq!(stored_public_keys.len(), 1);
    assert!(stored_public_keys.contains_key(&generate_key_id(&verification(ed_key(&auth_key)))));
    assert_eq!(new_did_details.last_tx_counter, old_did_details.last_tx_counter + 1u64);
}

#[test]
fn check_successful_keys_overwrite_update() {
    let auth_key = get_ed25519_authentication_key(true);
    // Same as the authentication key -> leads to two keys having the same ID
    let new_att_key = auth_key.clone();

    let old_did_details = generate_base_did_details(ed_key(&auth_key));

    let mut operation = generate_base_did_update_operation(ALICE_DID);
    operation.attestation_key_update = DidVerificationKeyUpdateAction::Change(ed_key(&new_att_key));

    let signature = ed_sign(&auth_key, &operation.encode());

    let mut pallet = build(vec![(ALICE_DID, old_did_details.clone())]);
    let new_block_number: TestBlockNumber = 1;
    assert!(pallet
        .submit_did_update_operation(DEFAULT_ACCOUNT, &operation, &signature, new_block_number)
        .is_ok());

    // Auth key unchanged
    let new_did_details = pallet.get_did(&ALICE_DID).expect("ALICE_DID should be present on chain.");
    assert_eq!(
        new_did_details.get_authentication_key_id(),
        old_did_details.get_authentication_key_id()
    );
    // New attestation key and authentication key should now have the same ID
    assert_eq!(
        new_did_details.get_attestation_key_id(),
        &Some(old_did_details.get_authentication_key_id())
    );

    // As the two keys have the same ID, public keys still contain only one element
    let stored_public_keys = new_did_details.get_public_keys();
    assert_eq!(stored_public_keys.len(), 1);
    assert!(stored_public_keys.contains_key(&generate_key_id(&verification(ed_key(&auth_key)))));
    assert!(stored_public_keys.contains_key(&generate_key_id(&verification(ed_key(&new_att_key)))));
    // The block number should be the updated to the latest one, even if the ID was
    // also present before.
    let stored_key_details = stored_public_keys
        .get(&old_did_details.get_authentication_key_id())
        .expect("There should be a key with the given ID stored on chain.");
    assert_eq!(stored_key_details.block_number, new_block_number);
    assert_eq!(new_did_details.last_tx_counter, old_did_details.last_tx_counter + 1u64);
}

#[test]
fn check_successful_keys_multiuse_update() {
    let auth_key = get_ed25519_authentication_key(true);
    // Same as the authentication key -> leads to two keys having the same ID
    let old_att_key = auth_key.clone();

    let mut old_did_details = generate_base_did_details(ed_key(&auth_key));
    old_did_details.update_attestation_key(ed_key(&old_att_key), 0u64);

    // Remove attestation key
    let mut operation = generate_base_did_update_operation(ALICE_DID);
    operation.attestation_key_update = DidVerificationKeyUpdateAction::Delete;

    let signature = ed_sign(&auth_key, &operation.encode());

    let mut pallet = build(vec![(ALICE_DID, old_did_details.clone())]);
    let new_block_number: TestBlockNumber = 1;
    assert!(pallet
        .submit_did_update_operation(DEFAULT_ACCOUNT, &operation, &signature, new_block_number)
        .is_ok());

    // Auth key unchanged
    let new_did_details = pallet.get_did(&ALICE_DID).expect("ALICE_DID should be present on chain.");
    assert_eq!(
        new_did_details.get_authentication_key_id(),
        old_did_details.get_authentication_key_id()
    );
    // Attestation key should now be set to None
    assert_eq!(new_did_details.get_attestation_key_id(), &None);

    // As the two keys have the same ID, public keys still contain only one element
    let stored_public_keys = new_did_details.get_public_keys();
    assert_eq!(stored_public_keys.len(), 1);
    assert!(stored_public_keys.contains_key(&generate_key_id(&verification(ed_key(&auth_key)))));
}

fn assert_update_refused(
    mock_did: DidDetails,
    stored_as: TestDidIdentifier,
    operation: &DidUpdateOperation,
    signature: &DidSignature,
    expected: Error,
) {
    let mut pallet = build(vec![(stored_as, mock_did)]);
    let before = pallet.clone();
    assert_eq!(
        pallet.submit_did_update_operation(DEFAULT_ACCOUNT, operation, signature, 1),
        Err(expected)
    );
    assert_eq!(pallet, before);
}

#[test]
fn check_did_not_present_update() {
    let auth_key = get_ed25519_authentication_key(true);
    let mock_did = generate_base_did_details(ed_key(&auth_key));
    let operation = generate_base_did_update_operation(BOB_DID);
    let signature = ed_sign(&auth_key, &operation.encode());
    assert_update_refused(mock_did, ALICE_DID, &operation, &signature, Error::DidNotPresent);
}

#[test]
fn check_did_max_counter_update() {
    let auth_key = get_ed25519_authentication_key(true);
    let mut mock_did = generate_base_did_details(ed_key(&auth_key));
    mock_did.last_tx_counter = u64::MAX;
    let operation = generate_base_did_update_operation(ALICE_DID);
    let signature = ed_sign(&auth_key, &operation.encode());
    assert_update_refused(mock_did, ALICE_DID, &operation, &signature, Error::MaxTxCounterValue);
}

#[test]
fn check_smaller_tx_counter_did_update() {
    let auth_key = get_sr25519_authentication_key(true);
    let mut mock_did = generate_base_did_details(sr_key(&auth_key));
    mock_did.last_tx_counter = 1;
    let mut operation = generate_base_did_update_operation(ALICE_DID);
    operation.tx_counter = mock_did.last_tx_counter - 1;
    let signature = sr_sign(&auth_key, &operation.encode());
    assert_update_refused(mock_did, ALICE_DID, &operation, &signature, Error::InvalidNonce);
}

#[test]
fn check_equal_tx_counter_did_update() {
    let auth_key = get_sr25519_authentication_key(true);
    let mock_did = generate_base_did_details(sr_key(&auth_key));
    let mut operation = generate_base_did_update_operation(ALICE_DID);
    operation.tx_counter = mock_did.last_tx_counter;
    let signature = sr_sign(&auth_key, &operation.encode());
    assert_update_refused(mock_did, ALICE_DID, &operation, &signature, Error::InvalidNonce);
}

#[test]
fn check_too_large_tx_counter_did_update() {
    let auth_key = get_sr25519_authentication_key(true);
    let mock_did = generate_base_did_details(sr_key(&auth_key));
    let mut operation = generate_base_did_update_operation(ALICE_DID);
    operation.tx_counter = mock_did.last_tx_counter + 2;
    let signature = sr_sign(&auth_key, &operation.encode());
    assert_update_refused(mock_did, ALICE_DID, &operation, &signature, Error::InvalidNonce);
}

#[test]
fn check_invalid_signature_format_did_update() {
    let auth_key = get_ed25519_authentication_key(true);
    // Using an Sr25519 key where an Ed25519 is expected
    let invalid_key = get_sr25519_authentication_key(true);
    // DID update contains auth_key, but signature is generated using invalid_key
    let mock_did = generate_base_did_details(ed_key(&auth_key));
    let operation = generate_base_did_update_operation(ALICE_DID);
    let signature = sr_sign(&invalid_key, &operation.encode());
    assert_update_refused(mock_did, ALICE_DID, &operation, &signature, Error::InvalidSignatureFormat);
}

#[test]
fn check_invalid_signature_did_update() {
    let auth_key = get_sr25519_authentication_key(true);
    // Using an Sr25519 key as expected, but from a different seed (default = false)
    let alternative_key = get_sr25519_authentication_key(false);
    let mock_did = generate_base_did_details(sr_key(&auth_key));
    let operation = generate_base_did_update_operation(ALICE_DID);
    let signature = sr_sign(&alternative_key, &operation.encode());
    assert_update_refused(mock_did, ALICE_DID, &operation, &signature, Error::InvalidSignature);
}

#[test]
fn check_currently_active_authentication_key_update() {
    let auth_key = get_ed25519_authentication_key(true);
    let old_did_details = generate_base_did_details(ed_key(&auth_key));
    let mut operation = generate_base_did_update_operation(ALICE_DID);
    // Trying to remove the currently active authentication key
    operation.public_keys_to_remove = key_id_set(&[generate_key_id(&verification(ed_key(&auth_key)))]);
    let signature = ed_sign(&auth_key, &operation.encode());
    assert_update_refused(old_did_details, ALICE_DID, &operation, &signature, Error::CurrentlyActiveKey);
}

#[test]
fn check_currently_active_delegation_key_update() {
    let auth_key = get_ed25519_authentication_key(true);
    let del_key = get_sr25519_delegation_key(true);
    let mut old_did_details = generate_base_did_details(ed_key(&auth_key));
    old_did_details.update_delegation_key(sr_key(&del_key), 0u64);
    let mut operation = generate_base_did_update_operation(ALICE_DID);
    // Trying to remove the currently active delegation key
    operation.public_keys_to_remove = key_id_set(&[generate_key_id(&verification(sr_key(&del_key)))]);
    let signature = ed_sign(&auth_key, &operation.encode());
    assert_update_refused(old_did_details, ALICE_DID, &operation, &signature, Error::CurrentlyActiveKey);
}

#[test]
fn check_currently_active_attestation_key_update() {
    let auth_key = get_ed25519_authentication_key(true);
    let att_key = get_sr25519_attestation_key(true);
    let mut old_did_details = generate_base_did_details(ed_key(&auth_key));
    old_did_details.update_attestation_key(sr_key(&att_key), 0u64);
    let mut operation = generate_base_did_update_operation(ALICE_DID);
    // Trying to remove the currently active attestation key
    operation.public_keys_to_remove = key_id_set(&[generate_key_id(&verification(sr_key(&att_key)))]);
    let signature = ed_sign(&auth_key, &operation.encode());
    assert_update_refused(old_did_details, ALICE_DID, &operation, &signature, Error::CurrentlyActiveKey);
}

#[test]
fn check_verification_key_not_present_update() {
    let auth_key = get_ed25519_authentication_key(true);
    let key_to_delete = get_sr25519_authentication_key(true);
    let old_did_details = generate_base_did_details(ed_key(&auth_key));
    let mut operation = generate_base_did_update_operation(ALICE_DID);
    // Trying to remove a key that is not stored
    operation.public_keys_to_remove =
        key_id_set(&[generate_key_id(&verification(sr_key(&key_to_delete)))]);
    let signature = ed_sign(&auth_key, &operation.encode());
    assert_update_refused(
        old_did_details,
        ALICE_DID,
        &operation,
        &signature,
        Error::VerificationKeyNotPresent,
    );
}

// submit_did_delete_operation

#[test]
fn check_successful_deletion() {
    let auth_key = get_ed25519_authentication_key(true);
    let did_details = generate_base_did_details(ed_key(&auth_key));
    let operation = generate_base_did_delete_operation(ALICE_DID);
    let signature = ed_sign(&auth_key, &operation.encode());

    let mut pallet = build(vec![(ALICE_DID, did_details)]);
    assert!(pallet.submit_did_delete_operation(DEFAULT_ACCOUNT, &operation, &signature).is_ok());
    assert_eq!(pallet.get_did(&ALICE_DID), None);

    // Re-adding the same DID identifier, which should not fail.
    let new_auth_key = get_sr25519_authentication_key(true);
    let operation = generate_base_did_creation_operation(ALICE_DID, sr_key(&new_auth_key));
    let signature = sr_sign(&new_auth_key, &operation.encode());

    let mut pallet = build(vec![]);
    assert!(pallet.submit_did_create_operation(DEFAULT_ACCOUNT, &operation, &signature, 0).is_ok());
}

fn assert_deletion_refused(
    dids: Vec<(TestDidIdentifier, DidDetails)>,
    operation: &DidDeletionOperation,
    signature: &DidSignature,
    expected: Error,
) {
    let mut pallet = build(dids);
    let before = pallet.clone();
    assert_eq!(pallet.submit_did_delete_operation(DEFAULT_ACCOUNT, operation, signature), Err(expected));
    assert_eq!(pallet, before);
}

#[test]
fn check_did_not_present_deletion() {
    let auth_key = get_ed25519_authentication_key(true);
    let operation = generate_base_did_delete_operation(ALICE_DID);
    let signature = ed_sign(&auth_key, &operation.encode());
    assert_deletion_refused(vec![], &operation, &signature, Error::DidNotPresent);
}

#[test]
fn check_max_tx_counter_did_deletion() {
    let auth_key = get_sr25519_authentication_key(true);
    let mut mock_did = generate_base_did_details(sr_key(&auth_key));
    mock_did.last_tx_counter = u64::MAX;
    let operation = generate_base_did_delete_operation(ALICE_DID);
    let signature = sr_sign(&auth_key, &operation.encode());
    assert_deletion_refused(vec![(ALICE_DID, mock_did)], &operation, &signature, Error::MaxTxCounterValue);
}

#[test]
fn check_smaller_tx_counter_did_deletion() {
    let auth_key = get_sr25519_authentication_key(true);
    let mut mock_did = generate_base_did_details(sr_key(&auth_key));
    mock_did.last_tx_counter = 1;
    let mut operation = generate_base_did_delete_operation(ALICE_DID);
    operation.tx_counter = mock_did.last_tx_counter - 1;
    let signature = sr_sign(&auth_key, &operation.encode());
    assert_deletion_refused(vec![(ALICE_DID, mock_did)], &operation, &signature, Error::InvalidNonce);
}

#[test]
fn check_equal_tx_counter_did_deletion() {
    let auth_key = get_sr25519_authentication_key(true);
    let mut mock_did = generate_base_did_details(sr_key(&auth_key));
    mock_did.last_tx_counter = 1;
    let mut operation = generate_base_did_delete_operation(ALICE_DID);
    operation.tx_counter = mock_did.last_tx_counter;
    let signature = sr_sign(&auth_key, &operation.encode());
    assert_deletion_refused(vec![(ALICE_DID, mock_did)], &operation, &signature, Error::InvalidNonce);
}

#[test]
fn check_too_large_tx_counter_did_deletion() {
    let auth_key = get_sr25519_authentication_key(true);
    let mock_did = generate_base_did_details(sr_key(&auth_key));
    let mut operation = generate_base_did_delete_operation(ALICE_DID);
    operation.tx_counter = mock_did.last_tx_counter + 2;
    let signature = sr_sign(&auth_key, &operation.encode());
    assert_deletion_refused(vec![(ALICE_DID, mock_did)], &operation, &signature, Error::InvalidNonce);
}

#[test]
fn check_invalid_signature_format_did_deletion() {
    let auth_key = get_ed25519_authentication_key(true);
    // Using an Sr25519 key where an Ed25519 is expected
    let invalid_key = get_sr25519_authentication_key(true);
    let mock_did = generate_base_did_details(ed_key(&auth_key));
    let operation = generate_base_did_delete_operation(ALICE_DID);
    let signature = sr_sign(&invalid_key, &operation.encode());
    assert_deletion_refused(vec![(ALICE_DID, mock_did)], &operation, &signature, Error::InvalidSignatureFormat);
}

#[test]
fn check_invalid_signature_did_deletion() {
    let auth_key = get_sr25519_authentication_key(true);
    // Using an Sr25519 key as expected, but from a different seed (default = false)
    let alternative_key = get_sr25519_authentication_key(false);
    let mock_did = generate_base_did_details(sr_key(&auth_key));
    let operation = generate_base_did_delete_operation(ALICE_DID);
    let signature = sr_sign(&alternative_key, &operation.encode());
    assert_deletion_refused(vec![(ALICE_DID, mock_did)], &operation, &signature, Error::InvalidSignature);
}

// submit_did_call

#[test]
fn check_call_attestation_key_successful() {
    let did = ALICE_DID;
    let auth_key = get_sr25519_authentication_key(true);
    let attestation_key = get_ed25519_attestation_key(true);

    let mut mock_did = generate_base_did_details(sr_key(&auth_key));
    mock_did.update_attestation_key(ed_key(&attestation_key), 0);

    let (call, call_operation) =
        generate_test_did_call(DidVerificationKeyRelationship::AssertionMethod, did, false);
    let signature = ed_sign(&attestation_key, &call_payload(&call_operation));

    let mut pallet = build(vec![(did, mock_did)]);
    assert_eq!(pallet.submit_did_call(&call, &call_operation, &signature), Ok(did));
}

#[test]
fn check_call_attestation_key_error() {
    let did = ALICE_DID;
    let auth_key = get_sr25519_authentication_key(true);
    let attestation_key = get_ed25519_attestation_key(true);

    let mut mock_did = generate_base_did_details(sr_key(&auth_key));
    mock_did.update_attestation_key(ed_key(&attestation_key), 0);

    let (call, call_operation) =
        generate_test_did_call(DidVerificationKeyRelationship::AssertionMethod, did, true);
    let signature = ed_sign(&attestation_key, &call_payload(&call_operation));

    let mut pallet = build(vec![(did, mock_did)]);
    assert_eq!(pallet.submit_did_call(&call, &call_operation, &signature), Ok(did));
}

// verify_operation_validity_and_increase_did_nonce

fn counter_of(pallet: &Pallet, did: &TestDidIdentifier) -> u64 {
    pallet.get_did(did).expect("DID should be present on chain.").get_tx_counter_value()
}

#[test]
fn check_authentication_successful_operation_verification() {
    let auth_key = get_sr25519_authentication_key(true);
    let mock_did = generate_base_did_details(sr_key(&auth_key));
    let operation = test_operation(ALICE_DID, DidVerificationKeyRelationship::Authentication, mock_did.last_tx_counter + 1);
    let signature = sr_sign(&auth_key, &operation.encode());

    let mut pallet = build(vec![(ALICE_DID, mock_did.clone())]);
    assert_eq!(pallet.verify_operation_validity_and_increase_did_nonce(&operation, &signature), Ok(()));

    // Verify that the DID tx counter has increased
    assert_eq!(counter_of(&pallet, &operation.did), mock_did.get_tx_counter_value() + 1u64);
}

#[test]
fn check_attestation_successful_operation_verification() {
    let auth_key = get_ed25519_authentication_key(true);
    let att_key = get_sr25519_attestation_key(true);
    let mut mock_did = generate_base_did_details(ed_key(&auth_key));
    mock_did.update_attestation_key(sr_key(&att_key), 0u64);
    let operation = test_operation(ALICE_DID, DidVerificationKeyRelationship::AssertionMethod, mock_did.last_tx_counter + 1);
    let signature = sr_sign(&att_key, &operation.encode());

    let mut pallet = build(vec![(ALICE_DID, mock_did.clone())]);
    assert_eq!(pallet.verify_operation_validity_and_increase_did_nonce(&operation, &signature), Ok(()));
    assert_eq!(counter_of(&pallet, &operation.did), mock_did.get_tx_counter_value() + 1u64);
}

#[test]
fn check_delegation_successful_operation_verification() {
    let auth_key = get_ed25519_authentication_key(true);
    let del_key = get_ed25519_delegation_key(true);
    let mut mock_did = generate_base_did_details(ed_key(&auth_key));
    mock_did.update_delegation_key(ed_key(&del_key), 0u64);
    let operation = test_operation(ALICE_DID, DidVerificationKeyRelationship::CapabilityDelegation, mock_did.last_tx_counter + 1);
    let signature = ed_sign(&del_key, &operation.encode());

    let mut pallet = build(vec![(ALICE_DID, mock_did.clone())]);
    assert_eq!(pallet.verify_operation_validity_and_increase_did_nonce(&operation, &signature), Ok(()));
    assert_eq!(counter_of(&pallet, &operation.did), mock_did.get_tx_counter_value() + 1u64);
}

#[test]
fn check_did_not_present_operation_verification() {
    let auth_key = get_ed25519_authentication_key(true);
    let del_key = get_ed25519_delegation_key(true);
    let mock_did = generate_base_did_details(ed_key(&auth_key));
    let operation = test_operation(ALICE_DID, DidVerificationKeyRelationship::CapabilityDelegation, mock_did.last_tx_counter + 1);
    let signature = ed_sign(&del_key, &operation.encode());

    let mut pallet = build(vec![]);
    let before = pallet.clone();
    assert_eq!(
        pallet.verify_operation_validity_and_increase_did_nonce(&operation, &signature),
        Err(DidError::StorageError(StorageError::DidNotPresent))
    );
    assert_eq!(pallet, before);
}

fn assert_operation_refused(
    mock_did: DidDetails,
    operation: &DidAuthorizedCallOperationWithVerificationRelationship,
    signature: &DidSignature,
    expected: DidError,
) {
    let mut pallet = build(vec![(ALICE_DID, mock_did.clone())]);
    let before = pallet.clone();
    assert_eq!(pallet.verify_operation_validity_and_increase_did_nonce(operation, signature), Err(expected));
    assert_eq!(pallet, before);
    // Verify that the DID tx counter has not increased
    assert_eq!(counter_of(&pallet, &operation.did), mock_did.get_tx_counter_value());
}

#[test]
fn check_max_tx_counter_operation_verification() {
    let auth_key = get_ed25519_authentication_key(true);
    let mut mock_did = generate_base_did_details(ed_key(&auth_key));
    mock_did.last_tx_counter = u64::MAX;
    let operation = test_operation(ALICE_DID, DidVerificationKeyRelationship::Authentication, mock_did.last_tx_counter);
    let signature = ed_sign(&auth_key, &operation.encode());
    assert_operation_refused(
        mock_did,
        &operation,
        &signature,
        DidError::StorageError(StorageError::MaxTxCounterValue),
    );
}

#[test]
fn check_smaller_counter_operation_verification() {
    let auth_key = get_ed25519_authentication_key(true);
    let mut mock_did = generate_base_did_details(ed_key(&auth_key));
    mock_did.last_tx_counter = 1;
    let operation = test_operation(ALICE_DID, DidVerificationKeyRelationship::Authentication, mock_did.last_tx_counter - 1);
    let signature = ed_sign(&auth_key, &operation.encode());
    assert_operation_refused(
        mock_did,
        &operation,
        &signature,
        DidError::SignatureError(SignatureError::InvalidNonce),
    );
}

#[test]
fn check_equal_counter_operation_verification() {
    let auth_key = get_ed25519_authentication_key(true);
    let mock_did = generate_base_did_details(ed_key(&auth_key));
    let operation = test_operation(ALICE_DID, DidVerificationKeyRelationship::Authentication, mock_did.last_tx_counter);
    let signature = ed_sign(&auth_key, &operation.encode());
    assert_operation_refused(
        mock_did,
        &operation,
        &signature,
        DidError::SignatureError(SignatureError::InvalidNonce),
    );
}

#[test]
fn check_too_large_counter_operation_verification() {
    let auth_key = get_ed25519_authentication_key(true);
    let mock_did = generate_base_did_details(ed_key(&auth_key));
    let operation = test_operation(ALICE_DID, DidVerificationKeyRelationship::Authentication, mock_did.last_tx_counter + 2);
    let signature = ed_sign(&auth_key, &operation.encode());
    assert_operation_refused(
        mock_did,
        &operation,
        &signature,
        DidError::SignatureError(SignatureError::InvalidNonce),
    );
}

#[test]
fn check_verification_key_not_present_operation_verification() {
    let auth_key = get_ed25519_authentication_key(true);
    let mock_did = generate_base_did_details(ed_key(&auth_key));
    let verification_key_required = DidVerificationKeyRelationship::CapabilityInvocation;
    let operation = test_operation(ALICE_DID, verification_key_required, mock_did.last_tx_counter + 1);
    let signature = ed_sign(&auth_key, &operation.encode());
    assert_operation_refused(
        mock_did,
        &operation,
        &signature,
        DidError::StorageError(StorageError::DidKeyNotPresent(verification_key_required)),
    );
}

#[test]
fn check_invalid_signature_format_operation_verification() {
    let auth_key = get_sr25519_authentication_key(true);
    // Expected an Sr25519, given an Ed25519
    let invalid_key = get_ed25519_authentication_key(true);
    let mock_did = generate_base_did_details(sr_key(&auth_key));
    let operation = test_operation(ALICE_DID, DidVerificationKeyRelationship::Authentication, mock_did.last_tx_counter + 1);
    let signature = ed_sign(&invalid_key, &operation.encode());
    assert_operation_refused(
        mock_did,
        &operation,
        &signature,
        DidError::SignatureError(SignatureError::InvalidSignatureFormat),
    );
}

#[test]
fn check_invalid_signature_operation_verification() {
    let auth_key = get_sr25519_authentication_key(true);
    // Using same key type but different seed (default = false)
    let alternative_key = get_sr25519_authentication_key(false);
    let mock_did = generate_base_did_details(sr_key(&auth_key));
    let operation = test_operation(ALICE_DID, DidVerificationKeyRelationship::Authentication, mock_did.last_tx_counter + 1);
    let signature = sr_sign(&alternative_key, &operation.encode());
    assert_operation_refused(
        mock_did,
        &operation,
        &signature,
        DidError::SignatureError(SignatureError::InvalidSignature),
    );
}

#[test]
fn check_generated_key_id_matches_library() {
    let key = verification(ed_key(&get_ed25519_authentication_key(true)));
    assert_eq!(calculate_key_id(&key), generate_key_id(&key));
    let key = encryption(get_x25519_encryption_key(false));
    assert_eq!(calculate_key_id(&key), generate_key_id(&key));
}
