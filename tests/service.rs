use burn_after_read::record::FieldValue;
use burn_after_read::service::{
    complete_retrieve, create, finish_create, open_item, plan_retrieve, prepare_create, retrieve,
    DeleteOutcome, Fetched, RetrievePlan, ServiceError, Written,
};
use burn_after_read::store::MemoryStore;

#[test]
fn round_trip_returns_plain_text_once() {
    let mut store = MemoryStore::new();
    let id = create(&mut store, "top secret: ünïcödé ✓", "pass").unwrap();
    assert_eq!(retrieve(&mut store, &id, "pass").unwrap(), "top secret: ünïcödé ✓");
    assert!(matches!(retrieve(&mut store, &id, "pass"), Err(ServiceError::NotFound)));
}

#[test]
fn round_trip_of_empty_plain_text() {
    let mut store = MemoryStore::new();
    let id = create(&mut store, "", "").unwrap();
    assert_eq!(retrieve(&mut store, &id, "").unwrap(), "");
}

#[test]
fn wrong_passphrase_fails_and_keeps_record() {
    let mut store = MemoryStore::new();
    let id = create(&mut store, "secret", "right").unwrap();
    let e = retrieve(&mut store, &id, "wrong").unwrap_err();
    assert!(matches!(e, ServiceError::DecryptionFailed));
    assert_eq!(e.message(), "Decryption failed");
    assert!(store.contains(&id));
    assert_eq!(retrieve(&mut store, &id, "right").unwrap(), "secret");
}

#[test]
fn second_retrieve_finds_nothing() {
    let mut store = MemoryStore::new();
    let id = create(&mut store, "once", "k").unwrap();
    retrieve(&mut store, &id, "k").unwrap();
    assert!(!store.contains(&id));
    assert!(matches!(retrieve(&mut store, &id, "k"), Err(ServiceError::NotFound)));
    assert!(matches!(retrieve(&mut store, &id, "other"), Err(ServiceError::NotFound)));
}

#[test]
fn unknown_handle_is_not_found() {
    let mut store = MemoryStore::new();
    let e = retrieve(&mut store, "no-such-handle", "k").unwrap_err();
    assert!(matches!(e, ServiceError::NotFound));
    assert_eq!(e.message(), "Not found");
}

#[test]
fn two_creates_of_the_same_secret_differ() {
    let mut store = MemoryStore::new();
    let a = create(&mut store, "same", "same").unwrap();
    let b = create(&mut store, "same", "same").unwrap();
    assert_ne!(a, b);
    assert_eq!(a.len(), 36);
    let na = match store.get(&a).unwrap().field("nonce") {
        Some(FieldValue::B(n)) => n.clone(),
        _ => panic!("no nonce"),
    };
    let nb = match store.get(&b).unwrap().field("nonce") {
        Some(FieldValue::B(n)) => n.clone(),
        _ => panic!("no nonce"),
    };
    assert_ne!(na, nb);
    let ca = match store.get(&a).unwrap().field("cipher_text") {
        Some(FieldValue::B(c)) => c.clone(),
        _ => panic!("no cipher text"),
    };
    let cb = match store.get(&b).unwrap().field("cipher_text") {
        Some(FieldValue::B(c)) => c.clone(),
        _ => panic!("no cipher text"),
    };
    assert_ne!(ca, cb);
}

#[test]
fn flipping_any_bit_of_cipher_text_fails_decryption() {
    let mut store = MemoryStore::new();
    let id = create(&mut store, "tamper me", "k").unwrap();
    let original = store.get(&id).unwrap();
    let sealed = match original.field("cipher_text") {
        Some(FieldValue::B(c)) => c.clone(),
        _ => panic!("no cipher text"),
    };
    for byte in 0..sealed.len() {
        for bit in 0..8 {
            let mut item = store.get(&id).unwrap();
            for f in item.fields.iter_mut() {
                if f.0 == "cipher_text" {
                    let mut altered = sealed.clone();
                    altered[byte] ^= 1 << bit;
                    f.1 = FieldValue::B(altered);
                }
            }
            let mut tampered = MemoryStore::new();
            tampered.put(id.clone(), item);
            let e = retrieve(&mut tampered, &id, "k").unwrap_err();
            assert!(matches!(e, ServiceError::DecryptionFailed));
            assert!(tampered.contains(&id));
        }
    }
    assert_eq!(retrieve(&mut store, &id, "k").unwrap(), "tamper me");
}

#[test]
fn concrete_scenario() {
    let mut store = MemoryStore::new();
    let h = create(&mut store, "https://example.com/secret", "hunter2").unwrap();
    assert!(matches!(retrieve(&mut store, &h, "wrong"), Err(ServiceError::DecryptionFailed)));
    assert!(store.contains(&h));
    assert_eq!(retrieve(&mut store, &h, "hunter2").unwrap(), "https://example.com/secret");
    assert!(matches!(retrieve(&mut store, &h, "hunter2"), Err(ServiceError::NotFound)));
}

#[test]
fn malformed_record_is_a_transform_error_and_stays() {
    let mut store = MemoryStore::new();
    let id = create(&mut store, "x", "k").unwrap();
    let mut item = store.get(&id).unwrap();
    item.fields.retain(|f| f.0 != "nonce");
    store.put(id.clone(), item);
    let e = retrieve(&mut store, &id, "k").unwrap_err();
    assert!(matches!(e, ServiceError::Transform(_)));
    assert_eq!(e.message(), "Transform failed: Missing or invalid 'nonce'");
    assert!(store.contains(&id));
}

#[test]
fn plan_for_each_store_answer() {
    let record = prepare_create("hello", "k").unwrap();
    match plan_retrieve(&Fetched::Found(record.item), "k") {
        RetrievePlan::Deliver(p) => assert_eq!(p, b"hello".to_vec()),
        RetrievePlan::Refuse(_) => panic!("should open"),
    }
    assert!(matches!(
        plan_retrieve(&Fetched::Missing, "k"),
        RetrievePlan::Refuse(ServiceError::NotFound)
    ));
    match plan_retrieve(&Fetched::Failed("timeout".to_string()), "k") {
        RetrievePlan::Refuse(e) => assert_eq!(e.message(), "Storage failed: timeout"),
        RetrievePlan::Deliver(_) => panic!("should refuse"),
    }
}

#[test]
fn open_item_with_wrong_passphrase() {
    let record = prepare_create("hello", "k").unwrap();
    assert!(matches!(open_item(&record.item, "K"), Err(ServiceError::DecryptionFailed)));
    assert_eq!(open_item(&record.item, "k").unwrap(), b"hello".to_vec());
}

#[test]
fn failed_delete_still_delivers_but_is_flagged() {
    let done = complete_retrieve(b"text", &DeleteOutcome::Failed("down".to_string()));
    assert_eq!(done.text, "text");
    assert!(!done.burned);
    let done = complete_retrieve(b"text", &DeleteOutcome::Deleted);
    assert!(done.burned);
}

#[test]
fn invalid_utf8_plain_text_is_decoded_lossily() {
    let done = complete_retrieve(&[0x61, 0xff, 0x62], &DeleteOutcome::Deleted);
    assert_eq!(done.text, "a\u{FFFD}b");
}

#[test]
fn finish_create_reports_write_failure() {
    let ok = finish_create("h".to_string(), Written::Stored).unwrap();
    assert_eq!(ok.id, "h");
    let e = finish_create("h".to_string(), Written::Failed("full".to_string())).unwrap_err();
    assert!(matches!(e, ServiceError::Storage(ref m) if m == "full"));
}

#[test]
fn encryption_failure_message() {
    assert_eq!(ServiceError::EncryptionFailed.message(), "Encryption failed");
}

#[test]
fn put_replaces_record_under_same_handle() {
    let mut store = MemoryStore::new();
    let first = prepare_create("one", "k").unwrap();
    let second = prepare_create("two", "k").unwrap();
    store.put("h".to_string(), first.item);
    store.put("h".to_string(), second.item);
    assert_eq!(retrieve(&mut store, "h", "k").unwrap(), "two");
    assert!(!store.contains("h"));
}
