use did::encoding::{push_compact_len, push_u64};
use did::url::check_valid_ascii_url;
use did::{
    DidCreationOperation, DidDeletionOperation, DidDetails, DidEncryptionKey, DidEncryptionKeySet,
    DidError, DidOperation, DidPublicKey, DidPublicKeyDescription, DidSignature,
    DidUpdateOperation, DidVerificationKey, DidVerificationKeyRelationship,
    DidVerificationKeyUpdateAction, Error, Event, FtpUrl, HttpUrl, IpfsUrl, KeyError, KeyIdSet,
    KeyMap, Pallet, RuntimeDbWeight, SignatureError, StorageError, SubstrateWeight, Url, UrlError,
    WeightInfo,
};
use parity_scale_codec::{Compact, Encode};
use sp_core::{ed25519, sr25519, Pair};
use std::collections::BTreeSet;

const SENDER: [u8; 32] = [9u8; 32];
const ALICE: [u8; 32] = [1u8; 32];
const BOB: [u8; 32] = [2u8; 32];

fn ed_pair(seed: u8) -> ed25519::Pair {
    ed25519::Pair::from_seed(&[seed; 32])
}

fn sr_pair(seed: u8) -> sr25519::Pair {
    sr25519::Pair::from_seed(&[seed; 32])
}

fn ed_key(pair: &ed25519::Pair) -> DidVerificationKey {
    DidVerificationKey::Ed25519(pair.public().0)
}

fn sr_key(pair: &sr25519::Pair) -> DidVerificationKey {
    DidVerificationKey::Sr25519(pair.public().0)
}

fn ed_sign(pair: &ed25519::Pair, payload: &[u8]) -> DidSignature {
    DidSignature::Ed25519(pair.sign(payload).0)
}

fn sr_sign(pair: &sr25519::Pair, payload: &[u8]) -> DidSignature {
    DidSignature::Sr25519(pair.sign(payload).0)
}

fn creation(did: [u8; 32], key: DidVerificationKey) -> DidCreationOperation {
    DidCreationOperation {
        did,
        new_authentication_key: key,
        new_key_agreement_keys: DidEncryptionKeySet::new(),
        new_attestation_key: None,
        new_delegation_key: None,
        new_endpoint_url: None,
    }
}

fn update(did: [u8; 32], tx_counter: u64) -> DidUpdateOperation {
    DidUpdateOperation {
        did,
        new_authentication_key: None,
        new_key_agreement_keys: DidEncryptionKeySet::new(),
        attestation_key_update: DidVerificationKeyUpdateAction::default(),
        delegation_key_update: DidVerificationKeyUpdateAction::default(),
        public_keys_to_remove: KeyIdSet::new(),
        new_endpoint_url: None,
        tx_counter,
    }
}

fn registry_with(did: [u8; 32], pair: &ed25519::Pair) -> Pallet {
    let mut pallet = Pallet::new();
    let op = creation(did, ed_key(pair));
    let sig = ed_sign(pair, &op.encode());
    assert!(pallet.submit_did_create_operation(SENDER, &op, &sig, 0).is_ok());
    pallet
}

// Internal function: HttpUrl try_from

#[test]
fn check_http_url() {
    assert!(HttpUrl::try_from("http://kilt.io".as_bytes()).is_ok());

    assert!(HttpUrl::try_from("https://kilt.io".as_bytes()).is_ok());

    assert!(HttpUrl::try_from(
        "https://super.long.domain.kilt.io:12345/public/files/test.txt".as_bytes()
    )
    .is_ok());

    // All other valid ASCII characters
    assert!(HttpUrl::try_from("http://:/?#[]@!$&'()*+,;=-._~".as_bytes()).is_ok());

    assert_eq!(HttpUrl::try_from("".as_bytes()), Err(UrlError::InvalidUrlScheme));

    // Non-printable ASCII characters
    assert_eq!(
        HttpUrl::try_from("http://kilt.io/\x00".as_bytes()),
        Err(UrlError::InvalidUrlEncoding)
    );

    // Some invalid ASCII characters
    assert_eq!(
        HttpUrl::try_from("http://kilt.io/<tag>".as_bytes()),
        Err(UrlError::InvalidUrlEncoding)
    );

    // Non-ASCII characters
    assert_eq!(HttpUrl::try_from("http://¶.com".as_bytes()), Err(UrlError::InvalidUrlEncoding));

    assert_eq!(HttpUrl::try_from("htt://kilt.io".as_bytes()), Err(UrlError::InvalidUrlScheme));

    assert_eq!(HttpUrl::try_from("httpss://kilt.io".as_bytes()), Err(UrlError::InvalidUrlScheme));
}

// Internal function: FtpUrl try_from

#[test]
fn check_ftp_url() {
    assert!(FtpUrl::try_from("ftp://kilt.io".as_bytes()).is_ok());

    assert!(FtpUrl::try_from("ftps://kilt.io".as_bytes()).is_ok());

    assert!(FtpUrl::try_from(
        "ftps://user@super.long.domain.kilt.io:12345/public/files/test.txt".as_bytes()
    )
    .is_ok());

    // All other valid ASCII characters
    assert!(FtpUrl::try_from("ftps://:/?#[]@%!$&'()*+,;=-._~".as_bytes()).is_ok());

    assert_eq!(FtpUrl::try_from("".as_bytes()), Err(UrlError::InvalidUrlScheme));

    // Non-printable ASCII characters
    assert_eq!(
        HttpUrl::try_from("http://kilt.io/\x00".as_bytes()),
        Err(UrlError::InvalidUrlEncoding)
    );

    // Some invalid ASCII characters
    assert_eq!(
        FtpUrl::try_from("ftp://kilt.io/<tag>".as_bytes()),
        Err(UrlError::InvalidUrlEncoding)
    );

    // Non-ASCII characters
    assert_eq!(FtpUrl::try_from("ftps://¶.com".as_bytes()), Err(UrlError::InvalidUrlEncoding));

    assert_eq!(FtpUrl::try_from("ft://kilt.io".as_bytes()), Err(UrlError::InvalidUrlScheme));

    assert_eq!(HttpUrl::try_from("ftpss://kilt.io".as_bytes()), Err(UrlError::InvalidUrlScheme));
}

// Internal function: IpfsUrl try_from

#[test]
fn check_ipfs_url() {
    // Base58 address
    assert!(IpfsUrl::try_from("ipfs://QmdQ1rHHHTbgbGorfuMMYDQQ36q4sxvYcB4GDEHREuJQkL".as_bytes())
        .is_ok());

    // Base32 address (at the moment, padding characters can appear anywhere in the
    // string)
    assert!(IpfsUrl::try_from("ipfs://OQQHHHTGMMYDQQ364YB4GDE=HREJQL==".as_bytes()).is_ok());

    assert_eq!(IpfsUrl::try_from("".as_bytes()), Err(UrlError::InvalidUrlScheme));

    assert_eq!(
        IpfsUrl::try_from("ipfs://¶\nQmdQ1rHHHTbgbGorfuMMYDQQ36q4sxvYcB4GDEHREuJQkL".as_bytes()),
        Err(UrlError::InvalidUrlEncoding)
    );

    assert_eq!(
        IpfsUrl::try_from("ipf://QmdQ1rHHHTbgbGorfuMMYDQQ36q4sxvYcB4GDEHREuJQkL".as_bytes()),
        Err(UrlError::InvalidUrlScheme)
    );

    assert_eq!(
        IpfsUrl::try_from("ipfss://\nQmdQ1rHHHTbgbGorfuMMYDQQ36q4sxvYcB4GDEHREuJQkL".as_bytes()),
        Err(UrlError::InvalidUrlScheme)
    );
}

#[test]
fn url_edge_cases() {
    // Bytes that are not UTF-8 are refused as badly encoded, before the scheme.
    assert_eq!(HttpUrl::try_from(&[0xffu8, 0xfe][..]), Err(UrlError::InvalidUrlEncoding));
    assert_eq!(IpfsUrl::try_from(&[0x69u8, 0xff][..]), Err(UrlError::InvalidUrlEncoding));
    // The scheme alone is a valid URL; an IPFS identifier mixing the two
    // alphabets is not.
    assert!(HttpUrl::try_from("http://".as_bytes()).is_ok());
    assert!(IpfsUrl::try_from("ipfs://".as_bytes()).is_ok());
    assert_eq!(IpfsUrl::try_from("ipfs://Qm=".as_bytes()), Err(UrlError::InvalidUrlEncoding));
    // Upper-case schemes are not accepted.
    assert_eq!(HttpUrl::try_from("HTTP://kilt.io".as_bytes()), Err(UrlError::InvalidUrlScheme));
    // The bytes are kept as given.
    let url = FtpUrl::try_from("ftp://kilt.io".as_bytes()).unwrap();
    assert_eq!(url.as_bytes(), "ftp://kilt.io".as_bytes());
    assert!(check_valid_ascii_url("a-Z_0~%".as_bytes()));
    assert!(!check_valid_ascii_url("a b".as_bytes()));
}

#[test]
fn url_encoding_matches_codec() {
    let http = Url::from(HttpUrl::try_from("https://kilt.io".as_bytes()).unwrap());
    let ftp = Url::from(FtpUrl::try_from("ftp://kilt.io".as_bytes()).unwrap());
    let ipfs = Url::from(IpfsUrl::try_from("ipfs://QmdQ".as_bytes()).unwrap());
    for (url, variant, text) in [
        (http, 0u8, "https://kilt.io"),
        (ftp, 1u8, "ftp://kilt.io"),
        (ipfs, 2u8, "ipfs://QmdQ"),
    ] {
        let mut out = Vec::new();
        url.encode_to(&mut out);
        assert_eq!(out, (variant, text.as_bytes().to_vec()).encode());
    }
}

#[test]
fn compact_length_matches_codec() {
    for n in [0usize, 1, 63, 64, 100, 16383, 16384, 1 << 20, (1 << 30) - 1, 1 << 30, u32::MAX as usize]
    {
        let mut out = vec![7u8];
        push_compact_len(&mut out, n);
        let mut expected = vec![7u8];
        expected.extend(Compact(n as u32).encode());
        assert_eq!(out, expected, "length {}", n);
    }
    let mut out = Vec::new();
    push_u64(&mut out, 0x0102_0304_0506_0708);
    assert_eq!(out, 0x0102_0304_0506_0708u64.encode());
    assert_eq!(out, vec![8, 7, 6, 5, 4, 3, 2, 1]);
}

#[test]
fn key_sets_are_ordered_and_encode_as_codec_sets() {
    let ids: Vec<[u8; 32]> = vec![[5u8; 32], [1u8; 32], [3u8; 32], [1u8; 32]];
    let mut set = KeyIdSet::new();
    let mut reference = BTreeSet::new();
    for id in &ids {
        assert_eq!(set.insert(*id), reference.insert(*id));
    }
    assert_eq!(set.len(), 3);
    assert_eq!(set.get(0), &[1u8; 32]);
    assert_eq!(set.get(2), &[5u8; 32]);
    let mut out = Vec::new();
    set.encode_to(&mut out);
    assert_eq!(out, reference.encode());

    assert!(set.remove(&[3u8; 32]));
    assert!(!set.remove(&[3u8; 32]));
    assert!(!set.contains(&[3u8; 32]));
    assert!(set.contains(&[5u8; 32]));

    let mut keys = DidEncryptionKeySet::new();
    let mut reference = BTreeSet::new();
    for seed in [9u8, 4, 9, 6] {
        keys.insert(DidEncryptionKey::X25519([seed; 32]));
        reference.insert((0u8, [seed; 32]));
    }
    assert_eq!(keys.len(), 3);
    assert!(keys.contains(&DidEncryptionKey::X25519([6u8; 32])));
    let mut out = Vec::new();
    keys.encode_to(&mut out);
    assert_eq!(out, reference.encode());
}

#[test]
fn key_map_insert_replace_remove() {
    let mut map: KeyMap<u64> = KeyMap::new();
    assert!(map.is_empty());
    map.insert([4u8; 32], 40);
    map.insert([2u8; 32], 20);
    map.insert([4u8; 32], 41);
    assert_eq!(map.len(), 2);
    assert_eq!(map.get(&[4u8; 32]), Some(&41));
    assert_eq!(map.entry(0), &([2u8; 32], 20));
    assert_eq!(map.remove(&[2u8; 32]), Some(20));
    assert_eq!(map.remove(&[2u8; 32]), None);
    assert!(!map.contains_key(&[2u8; 32]));
    assert_eq!(map.len(), 1);
}

#[test]
fn operations_encode_as_codec_values() {
    let auth = ed_pair(1);
    let att = sr_pair(2);
    let mut op = creation(ALICE, ed_key(&auth));
    op.new_key_agreement_keys.insert(DidEncryptionKey::X25519([8u8; 32]));
    op.new_attestation_key = Some(sr_key(&att));
    op.new_endpoint_url = Some(Url::from(HttpUrl::try_from("http://a.b".as_bytes()).unwrap()));
    let mut enc = BTreeSet::new();
    enc.insert((0u8, [8u8; 32]));
    let expected = (
        ALICE,
        (0u8, auth.public().0),
        enc,
        Some((1u8, att.public().0)),
        Option::<(u8, [u8; 32])>::None,
        Some((0u8, "http://a.b".as_bytes().to_vec())),
    )
        .encode();
    assert_eq!(op.encode(), expected);

    let mut up = update(BOB, 7);
    up.attestation_key_update = DidVerificationKeyUpdateAction::Delete;
    up.delegation_key_update = DidVerificationKeyUpdateAction::Change(ed_key(&auth));
    up.public_keys_to_remove.insert([3u8; 32]);
    let mut ids = BTreeSet::new();
    ids.insert([3u8; 32]);
    let expected = (
        BOB,
        Option::<(u8, [u8; 32])>::None,
        BTreeSet::<(u8, [u8; 32])>::new(),
        2u8,
        (1u8, (0u8, auth.public().0)),
        ids,
        Option::<(u8, Vec<u8>)>::None,
        7u64,
    )
        .encode();
    assert_eq!(up.encode(), expected);

    let del = DidDeletionOperation { did: ALICE, tx_counter: 300 };
    assert_eq!(del.encode(), (ALICE, 300u64).encode());
    assert_eq!(del.get_tx_counter(), 300);
    assert_eq!(op.get_tx_counter(), 0);
    assert_eq!(up.get_verification_key_relationship(), DidVerificationKeyRelationship::Authentication);

    let key = DidPublicKey::from(DidEncryptionKey::X25519([8u8; 32]));
    assert_eq!(key.encode(), (1u8, 0u8, [8u8; 32]).encode());
}

#[test]
fn signature_checks_each_outcome() {
    let ed = ed_pair(1);
    let sr = sr_pair(1);
    let payload = b"payload";
    let ed_sig = ed_sign(&ed, payload);
    let sr_sig = sr_sign(&sr, payload);

    assert_eq!(ed_key(&ed).verify_signature(payload, &ed_sig), Ok(true));
    assert_eq!(sr_key(&sr).verify_signature(payload, &sr_sig), Ok(true));
    assert_eq!(ed_key(&ed).verify_signature(b"other", &ed_sig), Ok(false));
    assert_eq!(sr_key(&sr).verify_signature(b"other", &sr_sig), Ok(false));
    assert_eq!(ed_key(&ed_pair(2)).verify_signature(payload, &ed_sig), Ok(false));
    assert_eq!(
        ed_key(&ed).verify_signature(payload, &sr_sig),
        Err(SignatureError::InvalidSignatureFormat)
    );
    assert_eq!(
        sr_key(&sr).verify_signature(payload, &ed_sig),
        Err(SignatureError::InvalidSignatureFormat)
    );

    assert!(ed_sig.verify(payload, &ed_key(&ed)));
    assert!(!ed_sig.verify(b"other", &ed_key(&ed)));
    assert!(!ed_sig.verify(payload, &sr_key(&sr)));
}

#[test]
fn raw_bytes_conversions() {
    assert_eq!(
        DidVerificationKey::try_from(vec![3u8; 32]),
        Ok(DidVerificationKey::Ed25519([3u8; 32]))
    );
    assert_eq!(
        DidVerificationKey::try_from(vec![3u8; 31]),
        Err(KeyError::InvalidVerificationKeyFormat)
    );
    assert_eq!(
        DidVerificationKey::from_raw_bytes(vec![]),
        Err(KeyError::InvalidVerificationKeyFormat)
    );
    assert_eq!(DidSignature::try_from(vec![4u8; 64]), Ok(DidSignature::Ed25519([4u8; 64])));
    assert_eq!(DidSignature::try_from(vec![4u8; 65]), Err(SignatureError::InvalidSignatureFormat));
    assert_eq!(
        DidSignature::from_raw_bytes(vec![4u8; 32]),
        Err(SignatureError::InvalidSignatureFormat)
    );
}

#[test]
fn key_descriptions() {
    assert_eq!(DidVerificationKey::Ed25519([0u8; 32]).get_did_key_description(), "Ed25519VerificationKey2018");
    assert_eq!(DidVerificationKey::Sr25519([0u8; 32]).get_did_key_description(), "Sr25519VerificationKey2020");
    assert_eq!(DidEncryptionKey::X25519([0u8; 32]).get_did_key_description(), "X25519KeyAgreementKey2019");
}

#[test]
fn key_ids_differ_by_key_kind() {
    let bytes = [7u8; 32];
    let ed = did::calculate_key_id(&DidPublicKey::from(DidVerificationKey::Ed25519(bytes)));
    let sr = did::calculate_key_id(&DidPublicKey::from(DidVerificationKey::Sr25519(bytes)));
    let x = did::calculate_key_id(&DidPublicKey::from(DidEncryptionKey::X25519(bytes)));
    assert_ne!(ed, sr);
    assert_ne!(ed, x);
    assert_ne!(sr, x);
    assert_eq!(ed, did::calculate_key_id(&DidPublicKey::from(DidVerificationKey::Ed25519(bytes))));
}

#[test]
fn errors_convert_to_registry_errors() {
    assert_eq!(Error::from(StorageError::DidNotPresent), Error::DidNotPresent);
    assert_eq!(Error::from(StorageError::DidAlreadyPresent), Error::DidAlreadyPresent);
    assert_eq!(
        Error::from(StorageError::DidKeyNotPresent(DidVerificationKeyRelationship::AssertionMethod)),
        Error::VerificationKeyNotPresent
    );
    assert_eq!(Error::from(StorageError::VerificationKeyNotPresent), Error::VerificationKeyNotPresent);
    assert_eq!(Error::from(StorageError::MaxTxCounterValue), Error::MaxTxCounterValue);
    assert_eq!(Error::from(StorageError::CurrentlyActiveKey), Error::CurrentlyActiveKey);
    assert_eq!(Error::from(SignatureError::InvalidSignature), Error::InvalidSignature);
    assert_eq!(Error::from(SignatureError::InvalidSignatureFormat), Error::InvalidSignatureFormat);
    assert_eq!(Error::from(SignatureError::InvalidNonce), Error::InvalidNonce);
    assert_eq!(Error::from(UrlError::InvalidUrlEncoding), Error::InvalidUrlEncoding);
    assert_eq!(Error::from(UrlError::InvalidUrlScheme), Error::InvalidUrlScheme);
    assert_eq!(Error::from(DidError::InternalError), Error::InternalError);
    assert_eq!(
        Error::from(DidError::SignatureError(SignatureError::InvalidNonce)),
        Error::InvalidNonce
    );
    assert_eq!(Error::from(DidError::UrlError(UrlError::InvalidUrlScheme)), Error::InvalidUrlScheme);
}

#[test]
fn weights_exact_values() {
    let weights = SubstrateWeight {
        db_weight: RuntimeDbWeight { read: 25_000_000, write: 100_000_000 },
    };
    assert_eq!(weights.submit_delegation_root_creation_operation(), 375_067_000);
    assert_eq!(weights.submit_delegation_creation_operation(), 722_160_000);
    assert_eq!(weights.submit_delegation_root_revocation_operation(3), 1_245_238_000);
    assert_eq!(weights.submit_delegation_revocation_operation(3), 1_025_476_000);
    assert_eq!(weights.revoke_delegation_leaf(3), 506_281_000);
    assert_eq!(weights.submit_delegation_root_revocation_operation(0), 99_623_000 + 75_000_000 + 200_000_000);

    // Every sum and product saturates at the maximum weight.
    let saturated = SubstrateWeight { db_weight: RuntimeDbWeight { read: u64::MAX, write: 1 } };
    assert_eq!(saturated.submit_delegation_creation_operation(), u64::MAX);
    assert_eq!(saturated.revoke_delegation_leaf(u32::MAX), u64::MAX);
    let db = RuntimeDbWeight { read: 2, write: 3 };
    assert_eq!(db.reads(5), 10);
    assert_eq!(db.writes(5), 15);
    assert_eq!(db.reads_writes(5, 5), 25);
    assert_eq!(did::weights::saturating_mul(u64::MAX, 2), u64::MAX);
    assert_eq!(did::weights::saturating_add(u64::MAX - 1, 2), u64::MAX);
}

#[test]
fn replayed_update_is_refused() {
    let auth = ed_pair(1);
    let mut pallet = registry_with(ALICE, &auth);
    let op = update(ALICE, 1);
    let sig = ed_sign(&auth, &op.encode());
    assert_eq!(pallet.submit_did_update_operation(SENDER, &op, &sig, 1), Ok(Event::DidUpdated(SENDER, ALICE)));
    assert_eq!(pallet.get_did(&ALICE).unwrap().get_tx_counter_value(), 1);
    let before = pallet.clone();
    assert_eq!(pallet.submit_did_update_operation(SENDER, &op, &sig, 2), Err(Error::InvalidNonce));
    assert_eq!(pallet, before);
}

#[test]
fn update_must_be_signed_with_the_current_key() {
    let auth = ed_pair(1);
    let new_auth = ed_pair(2);
    let mut pallet = registry_with(ALICE, &auth);
    let mut op = update(ALICE, 1);
    op.new_authentication_key = Some(ed_key(&new_auth));
    // Signed with the key it installs: refused.
    let sig = ed_sign(&new_auth, &op.encode());
    assert_eq!(pallet.submit_did_update_operation(SENDER, &op, &sig, 1), Err(Error::InvalidSignature));
    // Signed with the current key: accepted, and the new key is then the one
    // that signs.
    let sig = ed_sign(&auth, &op.encode());
    assert!(pallet.submit_did_update_operation(SENDER, &op, &sig, 1).is_ok());
    let next = update(ALICE, 2);
    let sig = ed_sign(&auth, &next.encode());
    assert_eq!(pallet.submit_did_update_operation(SENDER, &next, &sig, 2), Err(Error::InvalidSignature));
    let sig = ed_sign(&new_auth, &next.encode());
    assert!(pallet.submit_did_update_operation(SENDER, &next, &sig, 2).is_ok());
}

#[test]
fn other_dids_are_untouched() {
    let alice = ed_pair(1);
    let bob = ed_pair(2);
    let mut pallet = registry_with(ALICE, &alice);
    let op = creation(BOB, ed_key(&bob));
    let sig = ed_sign(&bob, &op.encode());
    assert!(pallet.submit_did_create_operation(SENDER, &op, &sig, 0).is_ok());
    let alice_before = pallet.get_did(&ALICE).unwrap().clone();
    let del = DidDeletionOperation { did: BOB, tx_counter: 1 };
    let sig = ed_sign(&bob, &del.encode());
    assert_eq!(pallet.submit_did_delete_operation(SENDER, &del, &sig), Ok(Event::DidDeleted(SENDER, BOB)));
    assert!(pallet.get_did(&BOB).is_none());
    assert_eq!(pallet.get_did(&ALICE), Some(&alice_before));
}

#[test]
fn deleted_did_can_be_created_again() {
    let auth = ed_pair(1);
    let mut pallet = registry_with(ALICE, &auth);
    let del = DidDeletionOperation { did: ALICE, tx_counter: 1 };
    let sig = ed_sign(&auth, &del.encode());
    assert!(pallet.submit_did_delete_operation(SENDER, &del, &sig).is_ok());
    let other = sr_pair(3);
    let op = creation(ALICE, sr_key(&other));
    let sig = sr_sign(&other, &op.encode());
    assert_eq!(pallet.submit_did_create_operation(SENDER, &op, &sig, 5), Ok(Event::DidCreated(SENDER, ALICE)));
    assert_eq!(pallet.get_did(&ALICE).unwrap().get_tx_counter_value(), 0);
}

#[test]
fn rotated_attestation_key_is_kept() {
    let auth = ed_pair(1);
    let mut details = DidDetails::new(ed_key(&auth), 0);
    let first = ed_key(&ed_pair(2));
    details.update_attestation_key(first, 1);
    let first_id = details.get_attestation_key_id().unwrap();
    details.update_attestation_key(ed_key(&ed_pair(3)), 2);
    assert_ne!(details.get_attestation_key_id(), &Some(first_id));
    assert!(details.get_public_keys().contains_key(&first_id));
    assert_eq!(details.get_public_keys().get(&first_id).unwrap().block_number, 1);
    // Deleting the attestation key removes it, since nothing else uses it.
    let current = details.get_attestation_key_id().unwrap();
    details.delete_attestation_key();
    assert!(!details.get_public_keys().contains_key(&current));
    assert_eq!(details.get_attestation_key_id(), &None);
}

#[test]
fn active_keys_cannot_be_removed() {
    let auth = ed_pair(1);
    let mut details = DidDetails::new(ed_key(&auth), 0);
    let del = sr_key(&sr_pair(4));
    details.update_delegation_key(del, 0);
    let mut ids = KeyIdSet::new();
    ids.insert(details.get_delegation_key_id().unwrap());
    assert_eq!(details.remove_public_keys(&ids), Err(StorageError::CurrentlyActiveKey));
    let mut ids = KeyIdSet::new();
    ids.insert([0u8; 32]);
    assert_eq!(details.remove_public_keys(&ids), Err(StorageError::VerificationKeyNotPresent));
    // Replacing the delegation key drops the old one; the old one can then
    // no longer be removed.
    let old_id = details.get_delegation_key_id().unwrap();
    details.update_delegation_key(ed_key(&ed_pair(5)), 1);
    assert!(!details.get_public_keys().contains_key(&old_id));
    let auth_id = details.get_authentication_key_id();
    assert!(details.get_public_keys().contains_key(&auth_id));
    assert_eq!(details.get_public_keys().len(), 2);
}

#[test]
fn key_agreement_keys_are_added_and_removed() {
    let auth = ed_pair(1);
    let mut details = DidDetails::new(ed_key(&auth), 0);
    let mut keys = DidEncryptionKeySet::new();
    keys.insert(DidEncryptionKey::X25519([1u8; 32]));
    keys.insert(DidEncryptionKey::X25519([2u8; 32]));
    details.add_key_agreement_keys(&keys, 3);
    assert_eq!(details.get_key_agreement_keys_ids().len(), 2);
    assert_eq!(details.get_public_keys().len(), 3);
    let id = did::calculate_key_id(&DidPublicKey::from(DidEncryptionKey::X25519([1u8; 32])));
    let mut ids = KeyIdSet::new();
    ids.insert(id);
    assert_eq!(details.remove_public_keys(&ids), Ok(()));
    assert!(!details.get_key_agreement_keys_ids().contains(&id));
    assert_eq!(details.get_public_keys().len(), 2);
}

#[test]
fn counter_stops_at_its_maximum() {
    let mut details = DidDetails::new(ed_key(&ed_pair(1)), 0);
    details.set_tx_counter(u64::MAX - 1);
    assert_eq!(details.increase_tx_counter(), Ok(()));
    assert_eq!(details.get_tx_counter_value(), u64::MAX);
    assert_eq!(details.increase_tx_counter(), Err(StorageError::MaxTxCounterValue));
    assert_eq!(details.get_tx_counter_value(), u64::MAX);
}

#[test]
fn verification_keys_by_relationship() {
    let auth = ed_pair(1);
    let mut details = DidDetails::new(ed_key(&auth), 0);
    assert_eq!(
        details.get_verification_key_for_key_type(DidVerificationKeyRelationship::Authentication),
        Some(&ed_key(&auth))
    );
    assert_eq!(details.get_verification_key_for_key_type(DidVerificationKeyRelationship::AssertionMethod), None);
    assert_eq!(
        details.get_verification_key_for_key_type(DidVerificationKeyRelationship::CapabilityInvocation),
        None
    );
    let att = sr_key(&sr_pair(2));
    details.update_attestation_key(att, 0);
    assert_eq!(
        details.get_verification_key_for_key_type(DidVerificationKeyRelationship::AssertionMethod),
        Some(&att)
    );
    // No key answers for capability invocation.
    let payload = b"x";
    assert_eq!(
        Pallet::verify_payload_signature_with_did_key_type(
            payload,
            &ed_sign(&auth, payload),
            &details,
            DidVerificationKeyRelationship::CapabilityInvocation
        ),
        Err(DidError::StorageError(StorageError::DidKeyNotPresent(
            DidVerificationKeyRelationship::CapabilityInvocation
        )))
    );
    assert_eq!(
        Pallet::verify_payload_signature_with_did_key_type(
            payload,
            &ed_sign(&auth, payload),
            &details,
            DidVerificationKeyRelationship::Authentication
        ),
        Ok(())
    );
}

#[test]
fn call_without_did_authorization_is_refused() {
    let auth = ed_pair(1);
    let mut pallet = registry_with(ALICE, &auth);
    let call = did::DidAuthorizedCallOperation { did: ALICE, tx_counter: 1, call: vec![1, 2] };
    let mut payload = (ALICE, 1u64).encode();
    payload.extend_from_slice(&[1, 2]);
    let sig = ed_sign(&auth, &payload);
    let before = pallet.clone();
    assert_eq!(pallet.authorize_did_call(&call, None, &sig), Err(Error::UnsupportedDidAuthorizationCall));
    assert_eq!(pallet, before);
    assert_eq!(
        pallet.authorize_did_call(&call, Some(DidVerificationKeyRelationship::Authentication), &sig),
        Ok(ALICE)
    );
    assert_eq!(pallet.get_did(&ALICE).unwrap().get_tx_counter_value(), 1);
    // The same authorization cannot be replayed.
    assert_eq!(
        pallet.authorize_did_call(&call, Some(DidVerificationKeyRelationship::Authentication), &sig),
        Err(Error::InvalidNonce)
    );
    // A call for an unknown DID.
    let call = did::DidAuthorizedCallOperation { did: BOB, tx_counter: 1, call: vec![] };
    assert_eq!(
        pallet.authorize_did_call(&call, Some(DidVerificationKeyRelationship::Authentication), &sig),
        Err(Error::DidNotPresent)
    );
}

#[test]
fn replaced_keys_are_removed_unless_still_used() {
    let first = ed_key(&ed_pair(1));
    let second = ed_key(&ed_pair(2));
    let first_id = did::calculate_key_id(&DidPublicKey::from(first));
    let mut details = DidDetails::new(first, 0);
    // The authentication key is also the delegation key: replacing it as
    // authentication key keeps it stored.
    details.update_delegation_key(first, 0);
    details.update_authentication_key(second, 1);
    assert!(details.get_public_keys().contains_key(&first_id));
    // Once no role uses it, deleting the delegation key removes it.
    details.delete_delegation_key();
    assert!(!details.get_public_keys().contains_key(&first_id));
    // Re-setting the same authentication key only refreshes its block.
    let second_id = details.get_authentication_key_id();
    details.update_authentication_key(second, 7);
    assert_eq!(details.get_public_keys().get(&second_id).unwrap().block_number, 7);
    assert_eq!(details.get_public_keys().len(), 1);
}

// A call that does not support DID-based authorization.
struct PlainCall;

impl did::DeriveDidCallAuthorizationVerificationKeyRelationship for PlainCall {
    fn derived_relationship(&self) -> Option<DidVerificationKeyRelationship> {
        None
    }

    fn derive_verification_key_relationship(&self) -> Option<DidVerificationKeyRelationship> {
        None
    }
}

// A call that asks for the attestation key.
struct AttestedCall;

impl did::DeriveDidCallAuthorizationVerificationKeyRelationship for AttestedCall {
    fn derived_relationship(&self) -> Option<DidVerificationKeyRelationship> {
        Some(DidVerificationKeyRelationship::AssertionMethod)
    }

    fn derive_verification_key_relationship(&self) -> Option<DidVerificationKeyRelationship> {
        Some(DidVerificationKeyRelationship::AssertionMethod)
    }
}

#[test]
fn submitted_call_uses_the_key_type_it_derives() {
    let auth = ed_pair(1);
    let att = sr_pair(2);
    let mut pallet = Pallet::new();
    let mut details = DidDetails::new(ed_key(&auth), 0);
    details.update_attestation_key(sr_key(&att), 0);
    pallet.insert_did(ALICE, details);
    let call = did::DidAuthorizedCallOperation { did: ALICE, tx_counter: 1, call: vec![5] };
    let mut payload = (ALICE, 1u64).encode();
    payload.push(5);

    // Unsupported call: refused, nothing changes.
    let before = pallet.clone();
    let sig = ed_sign(&auth, &payload);
    assert_eq!(pallet.submit_did_call(&PlainCall, &call, &sig), Err(Error::UnsupportedDidAuthorizationCall));
    assert_eq!(pallet, before);

    // Signed with the authentication key, but the call asks for the
    // attestation key: the signature scheme does not match.
    assert_eq!(pallet.submit_did_call(&AttestedCall, &call, &sig), Err(Error::InvalidSignatureFormat));
    assert_eq!(pallet, before);

    // Signed with the attestation key: authorized, the counter rises by one.
    let sig = sr_sign(&att, &payload);
    assert_eq!(pallet.submit_did_call(&AttestedCall, &call, &sig), Ok(ALICE));
    assert_eq!(pallet.get_did(&ALICE).unwrap().get_tx_counter_value(), 1);
}
