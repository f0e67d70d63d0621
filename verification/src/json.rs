//! JSON payloads, modelled by their canonical text.
//!
//! A `JsonValue` holds the canonical serialization of a JSON value: the text
//! that serde_json produces for the parsed value.  Two equal values have one
//! canonical text, so equality of payloads is equality of the held text, and
//! a payload survives the encrypt/decrypt round trip verbatim.

use vstd::prelude::*;

verus! {

/// Whether the text `s` is valid JSON: exactly the texts that serde_json
/// parses as a value.
pub uninterp spec fn is_json(s: Seq<char>) -> bool;

/// The canonical form of the JSON text `s`: the serialization of the value
/// that `s` parses as.  A function of the text alone.
pub uninterp spec fn json_canon(s: Seq<char>) -> Seq<char>;

/// Relies on serde_json::from_str::<Value>, which succeeds exactly on valid
/// JSON text, and serde_json::Value::to_string, which serializes the parsed
/// value back to text.  serde_json guarantees that a serialized `Value`
/// parses back to the same value, so the canonical form is itself valid JSON
/// and canonicalizing is idempotent.
#[verifier::external_body]
fn canonicalize_json(s: &str) -> (r: Option<String>)
    ensures
        r is Some <==> is_json(s@),
        r is Some ==> r.unwrap()@ == json_canon(s@),
        r is Some ==> is_json(json_canon(s@)),
        r is Some ==> json_canon(json_canon(s@)) == json_canon(s@),
{
    match serde_json::from_str::<serde_json::Value>(s) {
        Ok(v) => Some(v.to_string()),
        Err(_) => None,
    }
}

/// Relies on String::from_utf8: it succeeds exactly on UTF-8 byte strings and
/// returns the text those bytes encode.
#[verifier::external_body]
pub(crate) fn utf8_to_text(b: Vec<u8>) -> (r: Option<String>)
    ensures
        r is Some <==> vstd::utf8::valid_utf8(b@),
        r is Some ==> r.unwrap()@ == vstd::utf8::decode_utf8(b@),
{
    match String::from_utf8(b) {
        Ok(s) => Some(s),
        Err(_) => None,
    }
}

/// An arbitrary JSON value, held as its canonical text.
#[derive(Debug, PartialEq, Eq)]
pub struct JsonValue {
    text: String,
}

impl Clone for JsonValue {
    /// A clone holds the same canonical text.
    fn clone(&self) -> (res: Self)
        ensures
            res@ == self@,
    {
        proof {
            use_type_invariant(self);
        }
        JsonValue { text: self.text.clone() }
    }
}

impl View for JsonValue {
    type V = Seq<char>;

    closed spec fn view(&self) -> Seq<char> {
        self.text@
    }
}

impl JsonValue {
    /// Every `JsonValue` holds valid JSON in canonical form.
    #[verifier::type_invariant]
    pub open spec fn wf(self) -> bool {
        is_json(self@) && json_canon(self@) == self@
    }

    /// Parses `s`; succeeds exactly when `s` is valid JSON, and then holds
    /// its canonical form.
    pub fn parse(s: &str) -> (r: Option<JsonValue>)
        ensures
            r is Some <==> is_json(s@),
            r is Some ==> r.unwrap()@ == json_canon(s@),
    {
        match canonicalize_json(s) {
            Some(text) => Some(JsonValue { text }),
            None => None,
        }
    }

    /// The canonical text of the value.
    pub fn to_text(&self) -> (r: String)
        ensures
            r@ == self@,
    {
        self.text.clone()
    }

    /// The UTF-8 bytes of the canonical text: what is encrypted.
    pub fn to_utf8_bytes(&self) -> (r: Vec<u8>)
        ensures
            r@ == vstd::utf8::encode_utf8(self@),
    {
        vstd::slice::slice_to_vec(self.text.as_str().as_bytes())
    }
}

} // verus!
