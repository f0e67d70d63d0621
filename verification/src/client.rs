//! The client facade: request construction and response interpretation for
//! the three store operations.
//!
//! Every operation is one stateless request/response exchange.  The library
//! builds the request (URL, method, body, with every payload encrypted) and
//! interprets the transport's outcome; actually carrying the request over
//! HTTP is the caller's part, since it is plain I/O.

use vstd::prelude::*;

use crate::error::VssError;
use crate::item::{encrypted_item_of, EncryptedVssKeyValueItem, KeyVersion, VssKeyValueItem};
use crate::key::{store_id_of, VssSecretKey};
use vstd::string::StringExecFns;

verus! {

/// Whether `s` parses as a valid URL.
pub uninterp spec fn url_ok(s: Seq<char>) -> bool;

/// Relies on reqwest::Url::parse: it succeeds exactly on text that forms a
/// valid absolute URL.
#[verifier::external_body]
fn check_url(s: &str) -> (r: bool)
    ensures
        r == url_ok(s@),
{
    reqwest::Url::parse(s).is_ok()
}

/// HTTP method of a protocol request.
#[derive(Debug, Clone, Copy, PartialEq, Eq, Structural)]
pub enum HttpMethod {
    Put,
    Post,
}

/// The transport configuration: exactly one of two mutually exclusive modes.
pub enum VssTransport {
    /// Requests go to a delegated auth client, which owns the store
    /// identifier and attaches credentials itself.
    Authenticated,
    /// Requests are issued directly; the store identifier is derived from
    /// the secret key and names the store as a public identity.
    Anonymous { store_id: String },
}

/// Body of one protocol request, one shape per operation.
pub enum VssRequestBody {
    PutObjects { store_id: Option<String>, transaction_items: Vec<EncryptedVssKeyValueItem> },
    GetObject { store_id: Option<String>, key: String },
    ListKeyVersions { store_id: Option<String>, key_prefix: Option<String> },
}

/// One wire request: method, full URL, and body.
pub struct VssRequest {
    pub method: HttpMethod,
    pub url: String,
    pub body: VssRequestBody,
}

/// What one dispatched request came back as, handed in by the transport.
pub enum VssOutcome<T> {
    /// The server answered with `status`; `payload` is its parsed body.
    Delivered { status: u16, payload: T },
    /// The request could not be delivered or no response arrived.
    TransportFailed { details: String },
    /// The delegated auth client reported a failure of its own.
    AuthFailed { details: String },
    /// A response arrived but its body was not of the expected shape.
    MalformedBody { details: String },
}

/// Whether `status` is a success status.
pub open spec fn status_success(status: u16) -> bool {
    200 <= status < 300
}

/// The views of an optional string.
pub open spec fn opt_str_view(o: Option<String>) -> Option<Seq<char>> {
    match o {
        Some(s) => Some(s@),
        None => None,
    }
}

/// The stateless protocol client: immutable after construction.
pub struct MutinyVssClient {
    url: String,
    transport: VssTransport,
    encryption_key: VssSecretKey,
}

impl MutinyVssClient {
    /// In anonymous mode the held store identifier is the one derived from
    /// the held secret key.
    #[verifier::type_invariant]
    spec fn wf(self) -> bool {
        match self.transport {
            VssTransport::Anonymous { store_id } => store_id@ == store_id_of(
                self.encryption_key@,
            ),
            VssTransport::Authenticated => true,
        }
    }

    /// The base URL all operations are addressed to.
    pub closed spec fn base_url(&self) -> Seq<char> {
        self.url@
    }

    /// The key material held for the client's lifetime.
    pub closed spec fn key_material(&self) -> Seq<u8> {
        self.encryption_key@
    }

    /// Whether the client forwards requests through the auth delegate.
    pub closed spec fn authenticated(&self) -> bool {
        self.transport is Authenticated
    }

    /// The store identifier sent in request bodies: absent in authenticated
    /// mode (the delegate injects it), derived from the key otherwise.
    pub closed spec fn store_id_spec(&self) -> Option<Seq<char>> {
        match self.transport {
            VssTransport::Authenticated => None,
            VssTransport::Anonymous { store_id } => Some(store_id@),
        }
    }

    /// A client that forwards every request to the delegated auth client;
    /// the store identifier is owned and injected by that delegate.
    pub fn new_authenticated(url: String, encryption_key: VssSecretKey) -> (r: Self)
        ensures
            r.base_url() == url@,
            r.key_material() == encryption_key@,
            r.authenticated(),
            r.store_id_spec() is None,
    {
        MutinyVssClient { url, transport: VssTransport::Authenticated, encryption_key }
    }

    /// A client that issues requests directly, addressing the store named by
    /// the hex encoding of the public key of `encryption_key`.
    pub fn new_unauthenticated(url: String, encryption_key: VssSecretKey) -> (r: Self)
        ensures
            r.base_url() == url@,
            r.key_material() == encryption_key@,
            !r.authenticated(),
            r.store_id_spec() == Some(store_id_of(encryption_key@)),
    {
        let store_id = encryption_key.derive_store_id();
        MutinyVssClient { url, transport: VssTransport::Anonymous { store_id }, encryption_key }
    }

    /// Whether requests must go through the auth delegate.
    pub fn is_authenticated(&self) -> (r: bool)
        ensures
            r == self.authenticated(),
    {
        match &self.transport {
            VssTransport::Authenticated => true,
            VssTransport::Anonymous { .. } => false,
        }
    }

    /// The store identifier sent in request bodies, if this client tracks
    /// one locally.
    pub fn store_id(&self) -> (r: Option<String>)
        ensures
            opt_str_view(r) == self.store_id_spec(),
    {
        match &self.transport {
            VssTransport::Authenticated => None,
            VssTransport::Anonymous { store_id } => Some(store_id.clone()),
        }
    }

    /// The full URL of one operation: the base URL followed by the
    /// operation's path, rejected when the result is not a valid URL.
    fn endpoint(&self, path: &str) -> (r: Result<String, VssError>)
        ensures
            match r {
                Ok(u) => u@ == self.base_url() + path@ && url_ok(u@),
                Err(e) => e == VssError::UrlParseError && !url_ok(self.base_url() + path@),
            },
    {
        let u = self.url.clone().concat(path);
        if check_url(u.as_str()) {
            Ok(u)
        } else {
            Err(VssError::UrlParseError)
        }
    }

    /// Builds the single write request for `items`: `PUT {base}/putObjects`
    /// whose body carries the store identifier and exactly one encrypted
    /// entry per item, in order.  Fails only when the URL is invalid.
    pub fn put_objects_request(&self, items: &Vec<VssKeyValueItem>) -> (r: Result<
        VssRequest,
        VssError,
    >)
        ensures
            match r {
                Ok(req) => {
                    &&& req.method == HttpMethod::Put
                    &&& req.url@ == self.base_url() + "/putObjects"@
                    &&& url_ok(req.url@)
                    &&& req.body matches VssRequestBody::PutObjects { store_id, transaction_items }
                        && opt_str_view(store_id) == self.store_id_spec()
                        && transaction_items@.len() == items@.len() && (forall|i: int|
                        0 <= i < items@.len() ==> encrypted_item_of(
                            items@[i],
                            self.key_material(),
                            #[trigger] transaction_items@[i],
                        ))
                },
                Err(e) => e == VssError::UrlParseError && !url_ok(
                    self.base_url() + "/putObjects"@,
                ),
            },
    {
        let url = match self.endpoint("/putObjects") {
            Ok(u) => u,
            Err(e) => {
                return Err(e);
            },
        };
        let mut transaction_items: Vec<EncryptedVssKeyValueItem> = Vec::new();
        let mut i: usize = 0;
        while i < items.len()
            invariant
                i <= items@.len(),
                transaction_items@.len() == i,
                forall|m: int|
                    0 <= m < i ==> encrypted_item_of(
                        items@[m],
                        self.encryption_key@,
                        #[trigger] transaction_items@[m],
                    ),
            decreases items@.len() - i,
        {
            transaction_items.push(items[i].encrypt(&self.encryption_key));
            i = i + 1;
        }
        Ok(
            VssRequest {
                method: HttpMethod::Put,
                url,
                body: VssRequestBody::PutObjects { store_id: self.store_id(), transaction_items },
            },
        )
    }

    /// Builds the read request for `key`: `POST {base}/getObject` with the
    /// store identifier and the key.  Fails only when the URL is invalid.
    pub fn get_object_request(&self, key: &str) -> (r: Result<VssRequest, VssError>)
        ensures
            match r {
                Ok(req) => {
                    &&& req.method == HttpMethod::Post
                    &&& req.url@ == self.base_url() + "/getObject"@
                    &&& url_ok(req.url@)
                    &&& req.body matches VssRequestBody::GetObject { store_id, key: k }
                        && opt_str_view(store_id) == self.store_id_spec() && k@ == key@
                },
                Err(e) => e == VssError::UrlParseError && !url_ok(
                    self.base_url() + "/getObject"@,
                ),
            },
    {
        let url = match self.endpoint("/getObject") {
            Ok(u) => u,
            Err(e) => {
                return Err(e);
            },
        };
        Ok(
            VssRequest {
                method: HttpMethod::Post,
                url,
                body: VssRequestBody::GetObject { store_id: self.store_id(), key: key.to_owned() },
            },
        )
    }

    /// Builds the listing request: `POST {base}/listKeyVersions` with the
    /// store identifier and the optional key prefix.  Fails only when the
    /// URL is invalid.
    pub fn list_key_versions_request(&self, key_prefix: Option<String>) -> (r: Result<
        VssRequest,
        VssError,
    >)
        ensures
            match r {
                Ok(req) => {
                    &&& req.method == HttpMethod::Post
                    &&& req.url@ == self.base_url() + "/listKeyVersions"@
                    &&& url_ok(req.url@)
                    &&& req.body matches VssRequestBody::ListKeyVersions { store_id, key_prefix: kp }
                        && opt_str_view(store_id) == self.store_id_spec() && opt_str_view(kp)
                        == opt_str_view(key_prefix)
                },
                Err(e) => e == VssError::UrlParseError && !url_ok(
                    self.base_url() + "/listKeyVersions"@,
                ),
            },
    {
        let url = match self.endpoint("/listKeyVersions") {
            Ok(u) => u,
            Err(e) => {
                return Err(e);
            },
        };
        Ok(
            VssRequest {
                method: HttpMethod::Post,
                url,
                body: VssRequestBody::ListKeyVersions { store_id: self.store_id(), key_prefix },
            },
        )
    }

    /// Interprets the outcome of the write request.  Success exactly on a
    /// delivered success status; every failure keeps its own kind.
    pub fn put_objects_result(&self, outcome: VssOutcome<()>) -> (r: Result<(), VssError>)
        ensures
            match outcome {
                VssOutcome::Delivered { status, payload } => {
                    if status_success(status) {
                        r is Ok
                    } else {
                        r matches Err(e) && e matches VssError::TransportError(d) && d@
                            == "non-success status"@
                    }
                },
                VssOutcome::TransportFailed { details } => r matches Err(e)
                    && e matches VssError::TransportError(d) && d@ == details@,
                VssOutcome::AuthFailed { details } => r matches Err(e)
                    && e matches VssError::AuthError(d) && d@ == details@,
                VssOutcome::MalformedBody { details } => r matches Err(e)
                    && e matches VssError::ResponseParseError(d) && d@ == details@,
            },
    {
        match outcome {
            VssOutcome::Delivered { status, payload: _ } => {
                if 200 <= status && status < 300 {
                    Ok(())
                } else {
                    Err(VssError::TransportError("non-success status".to_owned()))
                }
            },
            VssOutcome::TransportFailed { details } => Err(VssError::TransportError(details)),
            VssOutcome::AuthFailed { details } => Err(VssError::AuthError(details)),
            VssOutcome::MalformedBody { details } => Err(VssError::ResponseParseError(details)),
        }
    }

    /// Interprets the outcome of the read request: on a delivered success
    /// status the encrypted item is decrypted under the held key, and every
    /// failure keeps its own kind — "could not reach the store" and "data
    /// present but undecryptable" stay distinguishable.
    pub fn get_object_result(&self, outcome: VssOutcome<EncryptedVssKeyValueItem>) -> (r: Result<
        VssKeyValueItem,
        VssError,
    >)
        ensures
            match outcome {
                VssOutcome::Delivered { status, payload } => {
                    if status_success(status) {
                        ({
                            let d = crate::codec::dec_bytes(self.key_material(), payload.value@);
                            match r {
                                Ok(item) => {
                                    &&& d is Some
                                    &&& vstd::utf8::valid_utf8(d.unwrap())
                                    &&& crate::json::is_json(vstd::utf8::decode_utf8(d.unwrap()))
                                    &&& item.key@ == payload.key@
                                    &&& item.version == payload.version
                                    &&& item.value@ == crate::json::json_canon(
                                        vstd::utf8::decode_utf8(d.unwrap()),
                                    )
                                },
                                Err(e) => {
                                    ||| (e == VssError::DecryptionError && d is None)
                                    ||| (e == VssError::EncodingError && d is Some && !(
                                    vstd::utf8::valid_utf8(d.unwrap())
                                        && crate::json::is_json(
                                        vstd::utf8::decode_utf8(d.unwrap()),
                                    )))
                                },
                            }
                        })
                    } else {
                        r matches Err(e) && e matches VssError::TransportError(d) && d@
                            == "non-success status"@
                    }
                },
                VssOutcome::TransportFailed { details } => r matches Err(e)
                    && e matches VssError::TransportError(d) && d@ == details@,
                VssOutcome::AuthFailed { details } => r matches Err(e)
                    && e matches VssError::AuthError(d) && d@ == details@,
                VssOutcome::MalformedBody { details } => r matches Err(e)
                    && e matches VssError::ResponseParseError(d) && d@ == details@,
            },
    {
        match outcome {
            VssOutcome::Delivered { status, payload } => {
                if 200 <= status && status < 300 {
                    payload.decrypt(&self.encryption_key)
                } else {
                    Err(VssError::TransportError("non-success status".to_owned()))
                }
            },
            VssOutcome::TransportFailed { details } => Err(VssError::TransportError(details)),
            VssOutcome::AuthFailed { details } => Err(VssError::AuthError(details)),
            VssOutcome::MalformedBody { details } => Err(VssError::ResponseParseError(details)),
        }
    }

    /// Interprets the outcome of the listing request: on a delivered success
    /// status the version metadata is returned exactly as handed in — no
    /// ciphertext is touched and nothing is decrypted — and every failure
    /// keeps its own kind.
    pub fn list_key_versions_result(&self, outcome: VssOutcome<Vec<KeyVersion>>) -> (r: Result<
        Vec<KeyVersion>,
        VssError,
    >)
        ensures
            match outcome {
                VssOutcome::Delivered { status, payload } => {
                    if status_success(status) {
                        r matches Ok(list) && list == payload
                    } else {
                        r matches Err(e) && e matches VssError::TransportError(d) && d@
                            == "non-success status"@
                    }
                },
                VssOutcome::TransportFailed { details } => r matches Err(e)
                    && e matches VssError::TransportError(d) && d@ == details@,
                VssOutcome::AuthFailed { details } => r matches Err(e)
                    && e matches VssError::AuthError(d) && d@ == details@,
                VssOutcome::MalformedBody { details } => r matches Err(e)
                    && e matches VssError::ResponseParseError(d) && d@ == details@,
            },
    {
        match outcome {
            VssOutcome::Delivered { status, payload } => {
                if 200 <= status && status < 300 {
                    Ok(payload)
                } else {
                    Err(VssError::TransportError("non-success status".to_owned()))
                }
            },
            VssOutcome::TransportFailed { details } => Err(VssError::TransportError(details)),
            VssOutcome::AuthFailed { details } => Err(VssError::AuthError(details)),
            VssOutcome::MalformedBody { details } => Err(VssError::ResponseParseError(details)),
        }
    }
}

} // verus!
