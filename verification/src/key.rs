//! The client's secret key and the store identifier derived from it.
//!
//! A `VssSecretKey` is 32 bytes of key material that form a valid secp256k1
//! secret key.  In anonymous mode the store identifier is the lower-case hex
//! encoding of the corresponding compressed public key, so the identifier is
//! a deterministic function of the key material alone.

use vstd::prelude::*;

verus! {

/// Whether `b` is accepted by secp256k1 as a secret key: exactly 32 bytes,
/// non-zero, and below the curve order.
pub uninterp spec fn secret_key_valid(b: Seq<u8>) -> bool;

/// The lower-case hex encoding of the compressed secp256k1 public key that
/// corresponds to the secret key `b`; a function of the key bytes alone.
pub uninterp spec fn store_id_of(b: Seq<u8>) -> Seq<char>;

/// Relies on secp256k1::SecretKey::from_slice (which succeeds exactly on a
/// valid 32-byte secret key), SecretKey::public_key, PublicKey::serialize and
/// hex_conservative::DisplayHex::to_lower_hex_string: the resulting identifier
/// is the 66-character lower-case hex form of the compressed public key, a
/// deterministic function of the key bytes.
#[verifier::external_body]
fn derive_store_id_from_bytes(b: &Vec<u8>) -> (r: Option<String>)
    ensures
        r is Some <==> secret_key_valid(b@),
        r is Some ==> r.unwrap()@ == store_id_of(b@),
{
    match bitcoin::secp256k1::SecretKey::from_slice(b.as_slice()) {
        Ok(sk) => {
            let pk = sk.public_key(&bitcoin::secp256k1::Secp256k1::new());
            Some(hex_conservative::DisplayHex::to_lower_hex_string(&pk.serialize()[..]))
        }
        Err(_) => None,
    }
}

/// Secret key material held by the client for its whole lifetime.
pub struct VssSecretKey {
    bytes: Vec<u8>,
}

impl View for VssSecretKey {
    type V = Seq<u8>;

    closed spec fn view(&self) -> Seq<u8> {
        self.bytes@
    }
}

impl VssSecretKey {
    #[verifier::type_invariant]
    spec fn wf(self) -> bool {
        secret_key_valid(self.bytes@)
    }

    /// Accepts `bytes` as a secret key exactly when secp256k1 does.
    pub fn from_bytes(bytes: Vec<u8>) -> (r: Option<VssSecretKey>)
        ensures
            r is Some <==> secret_key_valid(bytes@),
            r is Some ==> r.unwrap()@ == bytes@,
    {
        match derive_store_id_from_bytes(&bytes) {
            Some(_) => Some(VssSecretKey { bytes }),
            None => None,
        }
    }

    /// A copy of the key material.
    pub fn to_bytes(&self) -> (r: Vec<u8>)
        ensures
            r@ == self@,
    {
        let mut r: Vec<u8> = Vec::new();
        let mut i: usize = 0;
        while i < self.bytes.len()
            invariant
                i <= self.bytes@.len(),
                r@ == self.bytes@.subrange(0, i as int),
            decreases self.bytes@.len() - i,
        {
            r.push(self.bytes[i]);
            i = i + 1;
            assert(r@ =~= self.bytes@.subrange(0, i as int));
        }
        assert(r@ =~= self.bytes@);
        r
    }

    /// The store identifier that this key addresses in anonymous mode: the
    /// hex encoding of its compressed public key.
    pub fn derive_store_id(&self) -> (r: String)
        ensures
            r@ == store_id_of(self@),
    {
        proof {
            use_type_invariant(self);
        }
        match derive_store_id_from_bytes(&self.bytes) {
            Some(id) => id,
            None => vstd::pervasive::unreached(),
        }
    }
}

/// Two anonymous clients built from the same secret key address the same
/// store: the identifier is a function of the key material alone.
pub proof fn lemma_store_id_deterministic(k1: Seq<u8>, k2: Seq<u8>)
    requires
        k1 == k2,
    ensures
        store_id_of(k1) == store_id_of(k2),
{
}

} // verus!
