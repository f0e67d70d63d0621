//! Request construction and outcome interpretation of the three operations.

use mutiny_vss::client::{HttpMethod, MutinyVssClient, VssOutcome, VssRequestBody};
use mutiny_vss::error::VssError;
use mutiny_vss::item::{EncryptedVssKeyValueItem, KeyVersion, VssKeyValueItem};
use mutiny_vss::json::JsonValue;
use mutiny_vss::key::VssSecretKey;

const URL: &str = "http://localhost:8080";

fn secret(b: u8) -> VssSecretKey {
    VssSecretKey::from_bytes(vec![b; 32]).unwrap()
}

fn anon_client() -> MutinyVssClient {
    MutinyVssClient::new_unauthenticated(URL.to_string(), secret(7))
}

fn item(key: &str, json: &str, version: u32) -> VssKeyValueItem {
    VssKeyValueItem {
        key: key.to_string(),
        value: JsonValue::parse(json).unwrap(),
        version,
    }
}

#[test]
fn put_request_batches_all_items_into_one_request() {
    let client = anon_client();
    for n in [0usize, 1, 3] {
        let items: Vec<VssKeyValueItem> = (0..n)
            .map(|i| item(&format!("key{i}"), "\"v\"", i as u32))
            .collect();
        let req = client.put_objects_request(&items).unwrap();
        assert_eq!(req.method, HttpMethod::Put);
        assert_eq!(req.url, format!("{URL}/putObjects"));
        match req.body {
            VssRequestBody::PutObjects { store_id, transaction_items } => {
                assert_eq!(store_id, client.store_id());
                assert_eq!(transaction_items.len(), n);
                for (i, enc) in transaction_items.iter().enumerate() {
                    assert_eq!(enc.key, format!("key{i}"));
                    assert_eq!(enc.version, i as u32);
                }
            }
            _ => panic!("wrong body shape"),
        }
    }
}

#[test]
fn put_request_entries_decrypt_back_to_the_items() {
    let client = anon_client();
    let items = vec![item("a", "{\"n\":1}", 4), item("b", "[true]", 5)];
    let req = client.put_objects_request(&items).unwrap();
    match req.body {
        VssRequestBody::PutObjects { transaction_items, .. } => {
            for (enc, orig) in transaction_items.iter().zip(items.iter()) {
                assert_eq!(&enc.decrypt(&secret(7)).unwrap(), orig);
            }
        }
        _ => panic!("wrong body shape"),
    }
}

#[test]
fn bad_base_url_is_rejected_before_any_request() {
    let client = MutinyVssClient::new_unauthenticated("not a url".to_string(), secret(7));
    let r = client.put_objects_request(&Vec::new());
    assert_eq!(r.err(), Some(VssError::UrlParseError));
    let r = client.get_object_request("hello");
    assert_eq!(r.err(), Some(VssError::UrlParseError));
    let r = client.list_key_versions_request(None);
    assert_eq!(r.err(), Some(VssError::UrlParseError));
}

#[test]
fn get_request_carries_store_id_and_key() {
    let client = anon_client();
    let req = client.get_object_request("hello").unwrap();
    assert_eq!(req.method, HttpMethod::Post);
    assert_eq!(req.url, format!("{URL}/getObject"));
    match req.body {
        VssRequestBody::GetObject { store_id, key } => {
            assert_eq!(store_id, client.store_id());
            assert_eq!(key, "hello");
        }
        _ => panic!("wrong body shape"),
    }
}

#[test]
fn list_request_carries_store_id_and_prefix() {
    let client = anon_client();
    let req = client.list_key_versions_request(Some("pre".to_string())).unwrap();
    assert_eq!(req.method, HttpMethod::Post);
    assert_eq!(req.url, format!("{URL}/listKeyVersions"));
    match req.body {
        VssRequestBody::ListKeyVersions { store_id, key_prefix } => {
            assert_eq!(store_id, client.store_id());
            assert_eq!(key_prefix, Some("pre".to_string()));
        }
        _ => panic!("wrong body shape"),
    }
}

#[test]
fn authenticated_request_bodies_carry_no_store_id() {
    let client = MutinyVssClient::new_authenticated(URL.to_string(), secret(7));
    let req = client.get_object_request("hello").unwrap();
    match req.body {
        VssRequestBody::GetObject { store_id, .. } => assert_eq!(store_id, None),
        _ => panic!("wrong body shape"),
    }
}

#[test]
fn foreign_ciphertext_and_unreachable_store_are_distinct_errors() {
    // Ciphertext under an unrelated key: DecryptionError.
    let client = anon_client();
    let foreign = item("hello", "\"world\"", 0).encrypt(&secret(9));
    let r = client.get_object_result(VssOutcome::Delivered { status: 200, payload: foreign });
    assert_eq!(r, Err(VssError::DecryptionError));

    // Unreachable server for the same call: TransportError.
    let r = client.get_object_result(VssOutcome::TransportFailed {
        details: "connection refused".to_string(),
    });
    assert_eq!(r, Err(VssError::TransportError("connection refused".to_string())));
}

#[test]
fn outcome_kinds_map_to_their_own_error_kinds() {
    let client = anon_client();
    let r = client.put_objects_result(VssOutcome::AuthFailed { details: "expired".to_string() });
    assert_eq!(r, Err(VssError::AuthError("expired".to_string())));
    let r = client.put_objects_result(VssOutcome::MalformedBody { details: "bad".to_string() });
    assert_eq!(r, Err(VssError::ResponseParseError("bad".to_string())));
    let r = client.put_objects_result(VssOutcome::Delivered { status: 404, payload: () });
    assert_eq!(r, Err(VssError::TransportError("non-success status".to_string())));
    let r = client.put_objects_result(VssOutcome::Delivered { status: 204, payload: () });
    assert_eq!(r, Ok(()));
}

#[test]
fn listing_returns_metadata_verbatim_without_decryption() {
    // The listing path never sees ciphertext: its outcome already carries
    // bare (key, version) pairs, and they come back unchanged.
    let client = anon_client();
    let listed = vec![
        KeyVersion { key: "a".to_string(), version: 1 },
        KeyVersion { key: "b".to_string(), version: 2 },
    ];
    let r = client.list_key_versions_result(VssOutcome::Delivered {
        status: 200,
        payload: listed.clone(),
    });
    assert_eq!(r, Ok(listed));
}

#[test]
fn get_result_copies_key_and_version_through() {
    let client = anon_client();
    let enc = item("hello", "\"world\"", 3).encrypt(&secret(7));
    assert_eq!(enc.key, "hello");
    let got = client
        .get_object_result(VssOutcome::Delivered { status: 200, payload: enc })
        .unwrap();
    assert_eq!(got.key, "hello");
    assert_eq!(got.version, 3);
    assert_eq!(got.value, JsonValue::parse("\"world\"").unwrap());
}

#[test]
fn get_on_error_status_is_a_transport_error() {
    let client = anon_client();
    let enc = item("hello", "\"world\"", 0).encrypt(&secret(7));
    let r = client.get_object_result(VssOutcome::Delivered { status: 500, payload: enc });
    assert_eq!(r, Err(VssError::TransportError("non-success status".to_string())));
}

#[test]
fn undecryptable_payload_is_not_a_transport_error() {
    let client = anon_client();
    let garbage = EncryptedVssKeyValueItem {
        key: "hello".to_string(),
        value: vec![0u8; 5],
        version: 0,
    };
    let r = client.get_object_result(VssOutcome::Delivered { status: 200, payload: garbage });
    assert_eq!(r, Err(VssError::DecryptionError));
}
