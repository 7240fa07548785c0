use warehouse_node::identity::{
    identity_from_key, load_or_create, new_identity_record, IdentityError, IdentityRecord,
    IdentityStore, NodeIdentity, DEFAULT_CAPACITY, DEFAULT_LOCATION, IDENTITY_RECORD_NAME,
};
use warehouse_node::peer::PeerId;

fn other_record(name: &str, key: Option<&str>) -> IdentityRecord {
    IdentityRecord {
        localkey: key.map(|k| k.to_string()),
        warehouse_name: name.to_string(),
        location: "/ip4/10.0.0.1/tcp/9000".to_string(),
        capacity: Some(5),
    }
}

#[test]
fn empty_store_gets_one_identity_record() {
    let mut store = IdentityStore::from_records(Vec::new());
    let id = load_or_create(&mut store).expect("fresh identity");
    assert_eq!(store.records().len(), 1);
    let rec = &store.records()[0];
    assert_eq!(rec.warehouse_name, IDENTITY_RECORD_NAME);
    assert_eq!(rec.location, DEFAULT_LOCATION);
    assert_eq!(rec.capacity, Some(DEFAULT_CAPACITY));
    assert_eq!(id.keypair_bytes().len(), 64);
    // 64 bytes in padded base64 take 88 characters
    assert_eq!(rec.localkey.as_ref().unwrap().len(), 88);
}

#[test]
fn second_load_returns_same_peer_and_inserts_nothing() {
    let mut store = IdentityStore::from_records(Vec::new());
    let first = load_or_create(&mut store).expect("fresh identity");
    let second = load_or_create(&mut store).expect("stored identity");
    assert_eq!(store.records().len(), 1);
    assert_eq!(first.peer_id(), second.peer_id());
    assert_eq!(first.keypair_bytes(), second.keypair_bytes());
}

#[test]
fn existing_identity_is_reused_not_overwritten() {
    let generated = NodeIdentity::generate();
    let rec = new_identity_record(&generated);
    let mut store = IdentityStore::from_records(vec![
        other_record("Depot", Some("irrelevant")),
        other_record(IDENTITY_RECORD_NAME, None),
        rec,
    ]);
    assert_eq!(store.find_identity_record(), Some(2));
    let loaded = load_or_create(&mut store).expect("stored identity");
    assert_eq!(store.records().len(), 3);
    assert_eq!(loaded.peer_id(), generated.peer_id());
}

#[test]
fn key_text_that_is_not_base64_is_reported() {
    let mut store =
        IdentityStore::from_records(vec![other_record(IDENTITY_RECORD_NAME, Some("not base64 !!"))]);
    let r = load_or_create(&mut store);
    assert_eq!(r.err(), Some(IdentityError::KeyNotBase64));
    assert_eq!(store.records().len(), 1);
}

#[test]
fn key_bytes_that_are_not_a_keypair_are_reported() {
    // "AAAA" decodes to three zero bytes
    let mut store = IdentityStore::from_records(vec![other_record(IDENTITY_RECORD_NAME, Some("AAAA"))]);
    let r = load_or_create(&mut store);
    assert_eq!(r.err(), Some(IdentityError::KeyNotKeypair));
    assert_eq!(store.records().len(), 1);
}

#[test]
fn stored_key_text_round_trips_to_the_same_identity() {
    let generated = NodeIdentity::generate();
    let rec = new_identity_record(&generated);
    let text = rec.localkey.clone().unwrap();
    assert_ne!(text.as_bytes(), generated.keypair_bytes().as_slice());
    let back = identity_from_key(&text).expect("readable key");
    assert_eq!(back.keypair_bytes(), generated.keypair_bytes());
    assert_eq!(back.peer_id(), generated.peer_id());
}

#[test]
fn generated_peer_id_is_an_ed25519_identifier() {
    let generated = NodeIdentity::generate();
    let text = generated.peer_id().as_str();
    assert!(text.starts_with("12D3KooW"));
    assert_eq!(PeerId::parse(text).as_ref(), Some(generated.peer_id()));
}

#[test]
fn keypair_bytes_of_wrong_length_are_refused() {
    assert!(NodeIdentity::from_keypair_bytes(vec![0u8; 32]).is_none());
}

#[test]
fn text_that_is_not_a_peer_id_does_not_parse() {
    assert!(PeerId::parse("not-a-peer").is_none());
    assert!(PeerId::parse("").is_none());
}
