//! The item transform: encrypt/decrypt round trip and error discrimination.

use mutiny_vss::codec::encrypt_bytes;
use mutiny_vss::error::VssError;
use mutiny_vss::item::{EncryptedVssKeyValueItem, VssKeyValueItem};
use mutiny_vss::json::JsonValue;
use mutiny_vss::key::VssSecretKey;

fn secret(b: u8) -> VssSecretKey {
    VssSecretKey::from_bytes(vec![b; 32]).unwrap()
}

fn item(key: &str, json: &str, version: u32) -> VssKeyValueItem {
    VssKeyValueItem {
        key: key.to_string(),
        value: JsonValue::parse(json).unwrap(),
        version,
    }
}

#[test]
fn item_round_trip_is_identity() {
    let k = secret(7);
    let it = item("hello", "\"world\"", 0);
    let enc = it.encrypt(&k);
    assert_eq!(enc.key, "hello");
    assert_eq!(enc.version, 0);
    let back = enc.decrypt(&k).unwrap();
    assert_eq!(back, it);
}

#[test]
fn item_round_trip_keeps_structured_values() {
    let k = secret(42);
    let it = item("settings", "{\"theme\":\"dark\",\"limits\":[1,2,3]}", 9);
    let back = it.encrypt(&k).decrypt(&k).unwrap();
    assert_eq!(back, it);
}

#[test]
fn item_round_trip_keeps_non_ascii_text() {
    let k = secret(11);
    let it = item("greeting", "{\"text\":\"na\u{ef}ve \u{2603} \u{1f600}\"}", 3);
    let back = it.encrypt(&k).decrypt(&k).unwrap();
    assert_eq!(back, it);
}

#[test]
fn decrypt_under_other_key_fails_with_decryption_error() {
    let it = item("hello", "\"world\"", 0);
    let enc = it.encrypt(&secret(7));
    let r = enc.decrypt(&secret(8));
    assert_eq!(r, Err(VssError::DecryptionError));
}

#[test]
fn decrypt_of_non_utf8_plaintext_fails_with_encoding_error() {
    let k = secret(7);
    let cipher = encrypt_bytes(&k.to_bytes(), &vec![0xff, 0xfe, 0xfd]);
    let enc = EncryptedVssKeyValueItem { key: "hello".to_string(), value: cipher, version: 0 };
    assert_eq!(enc.decrypt(&k), Err(VssError::EncodingError));
}

#[test]
fn decrypt_of_non_json_text_fails_with_encoding_error() {
    let k = secret(7);
    let cipher = encrypt_bytes(&k.to_bytes(), &b"world".to_vec());
    let enc = EncryptedVssKeyValueItem { key: "hello".to_string(), value: cipher, version: 0 };
    assert_eq!(enc.decrypt(&k), Err(VssError::EncodingError));
}

#[test]
fn encrypted_value_is_not_the_plaintext() {
    let k = secret(7);
    let it = item("hello", "\"world\"", 0);
    let enc = it.encrypt(&k);
    assert_ne!(enc.value, b"\"world\"".to_vec());
    assert_eq!(enc.value.len(), "\"world\"".len() + 32);
}
