//! The store identity of anonymous clients, and key material validation.

use mutiny_vss::client::MutinyVssClient;
use mutiny_vss::key::VssSecretKey;

const URL: &str = "http://localhost:8080";

fn secret(b: u8) -> VssSecretKey {
    VssSecretKey::from_bytes(vec![b; 32]).unwrap()
}

#[test]
fn from_bytes_rejects_invalid_key_material() {
    // All-zero bytes are not a secp256k1 secret key; neither is a short slice.
    assert!(VssSecretKey::from_bytes(vec![0u8; 32]).is_none());
    assert!(VssSecretKey::from_bytes(vec![7u8; 16]).is_none());
    assert!(VssSecretKey::from_bytes(Vec::new()).is_none());
    assert!(VssSecretKey::from_bytes(vec![7u8; 32]).is_some());
}

#[test]
fn same_key_gives_same_store_id() {
    let a = MutinyVssClient::new_unauthenticated(URL.to_string(), secret(7));
    let b = MutinyVssClient::new_unauthenticated(URL.to_string(), secret(7));
    assert_eq!(a.store_id(), b.store_id());
    assert!(a.store_id().is_some());
}

#[test]
fn different_keys_give_different_store_ids() {
    let a = MutinyVssClient::new_unauthenticated(URL.to_string(), secret(7));
    let b = MutinyVssClient::new_unauthenticated(URL.to_string(), secret(8));
    assert_ne!(a.store_id(), b.store_id());
}

#[test]
fn store_id_is_the_public_key_hex() {
    // Computed here independently of the library: the lower-case hex of the
    // compressed secp256k1 public key of the held secret key.
    let client = MutinyVssClient::new_unauthenticated(URL.to_string(), secret(7));
    let sk = bitcoin::secp256k1::SecretKey::from_slice(&[7u8; 32]).unwrap();
    let pk = sk.public_key(&bitcoin::secp256k1::Secp256k1::new());
    let expected = hex_conservative::DisplayHex::to_lower_hex_string(&pk.serialize()[..]);
    let id = client.store_id().unwrap();
    assert_eq!(id, expected);
    assert_eq!(id.len(), 66);
}

#[test]
fn authenticated_client_tracks_no_store_id() {
    let client = MutinyVssClient::new_authenticated(URL.to_string(), secret(7));
    assert!(client.is_authenticated());
    assert!(client.store_id().is_none());
    let anon = MutinyVssClient::new_unauthenticated(URL.to_string(), secret(7));
    assert!(!anon.is_authenticated());
}
