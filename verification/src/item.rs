//! The versioned item model: plaintext items, their encrypted wire
//! counterparts, and the transforms between them.

use vstd::prelude::*;

use crate::codec::{dec_bytes, enc_bytes};
use crate::error::VssError;
use crate::json::{is_json, json_canon, JsonValue};
use crate::key::VssSecretKey;
use vstd::utf8::{decode_utf8, encode_utf8, valid_utf8};

verus! {

/// Version metadata for one key, as returned by the listing operation.
/// Carries no payload, so listing decrypts nothing.
#[derive(Debug, Clone, PartialEq, Eq)]
pub struct KeyVersion {
    pub key: String,
    pub version: u32,
}

/// A plaintext item: a caller-chosen key, an arbitrary JSON value, and a
/// caller-supplied version.
#[derive(Debug, Clone, PartialEq, Eq)]
pub struct VssKeyValueItem {
    pub key: String,
    pub value: JsonValue,
    pub version: u32,
}

/// The wire form of an item: the key and version in the clear, the value as
/// ciphertext.
#[derive(Debug, Clone, PartialEq, Eq)]
pub struct EncryptedVssKeyValueItem {
    pub key: String,
    pub value: Vec<u8>,
    pub version: u32,
}

/// `e` is the encryption of `item` under key material `k`: key and version
/// are preserved, and the ciphertext is the codec's output on the UTF-8
/// bytes of the value's canonical text.
pub open spec fn encrypted_item_of(
    item: VssKeyValueItem,
    k: Seq<u8>,
    e: EncryptedVssKeyValueItem,
) -> bool {
    &&& e.key@ == item.key@
    &&& e.version == item.version
    &&& e.value@ == enc_bytes(k, encode_utf8(item.value@))
}

/// Round trip at the level of texts: the encryption of a canonical JSON
/// text's bytes decrypts, under the same key, to exactly those bytes, which
/// decode and canonicalize back to the text itself.
pub proof fn lemma_item_round_trip(k: Seq<u8>, t: Seq<char>)
    requires
        is_json(t),
        json_canon(t) == t,
    ensures
        dec_bytes(k, enc_bytes(k, encode_utf8(t))) == Some(encode_utf8(t)),
        valid_utf8(encode_utf8(t)),
        decode_utf8(encode_utf8(t)) == t,
        json_canon(decode_utf8(encode_utf8(t))) == t,
{
    crate::codec::lemma_codec_round_trip(k, encode_utf8(t));
    vstd::utf8::encode_utf8_valid_utf8(t);
    vstd::utf8::encode_utf8_decode_utf8(t);
}

impl VssKeyValueItem {
    /// Encrypts the value of the item under the encryption key and returns
    /// the encrypted form of the item.  Decrypting that form under the same
    /// key gives the item back.
    pub fn encrypt(&self, encryption_key: &VssSecretKey) -> (e: EncryptedVssKeyValueItem)
        ensures
            encrypted_item_of(*self, encryption_key@, e),
            dec_bytes(encryption_key@, e.value@) == Some(encode_utf8(self.value@)),
            valid_utf8(encode_utf8(self.value@)),
            decode_utf8(encode_utf8(self.value@)) == self.value@,
            is_json(self.value@),
            json_canon(self.value@) == self.value@,
    {
        proof {
            use_type_invariant(&self.value);
            lemma_item_round_trip(encryption_key@, self.value@);
        }
        let bytes = self.value.to_utf8_bytes();
        let key_bytes = encryption_key.to_bytes();
        let value = crate::codec::encrypt_bytes(&key_bytes, &bytes);
        EncryptedVssKeyValueItem { key: self.key.clone(), value, version: self.version }
    }
}

impl EncryptedVssKeyValueItem {
    /// Decrypts the item's ciphertext under the encryption key.  Fails with
    /// `DecryptionError` exactly when authentication fails (wrong key or
    /// tampering), and with `EncodingError` exactly when the recovered bytes
    /// are not UTF-8 text or not valid JSON; otherwise returns the item with
    /// key and version copied through unchanged.
    pub fn decrypt(&self, encryption_key: &VssSecretKey) -> (r: Result<VssKeyValueItem, VssError>)
        ensures
            ({
                let d = dec_bytes(encryption_key@, self.value@);
                match r {
                    Ok(item) => {
                        &&& d is Some
                        &&& valid_utf8(d.unwrap())
                        &&& is_json(decode_utf8(d.unwrap()))
                        &&& item.key@ == self.key@
                        &&& item.version == self.version
                        &&& item.value@ == json_canon(decode_utf8(d.unwrap()))
                    },
                    Err(e) => {
                        ||| (e == VssError::DecryptionError && d is None)
                        ||| (e == VssError::EncodingError && d is Some && !valid_utf8(d.unwrap()))
                        ||| (e == VssError::EncodingError && d is Some && valid_utf8(d.unwrap())
                            && !is_json(decode_utf8(d.unwrap())))
                    },
                }
            }),
    {
        let key_bytes = encryption_key.to_bytes();
        match crate::codec::decrypt_bytes(&key_bytes, &self.value) {
            None => Err(VssError::DecryptionError),
            Some(p) => match crate::json::utf8_to_text(p) {
                None => Err(VssError::EncodingError),
                Some(text) => match JsonValue::parse(text.as_str()) {
                    None => Err(VssError::EncodingError),
                    Some(value) => Ok(
                        VssKeyValueItem { key: self.key.clone(), value, version: self.version },
                    ),
                },
            },
        }
    }
}

} // verus!
