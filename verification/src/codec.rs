//! Deterministic authenticated encryption of byte strings under a 32-byte key.
//!
//! The scheme is a synthetic-IV construction over SHA-256: the tag is the
//! digest of `key ++ plaintext`, and the body is the plaintext XORed with a
//! keystream derived from `key` and the tag.  Decryption recomputes the tag
//! and fails closed when it does not match, so a ciphertext produced under a
//! different key, or a tampered ciphertext, is rejected.

use vstd::prelude::*;

verus! {

/// The SHA-256 digest of a byte string, as a function of the bytes alone.
pub uninterp spec fn sha256_of(b: Seq<u8>) -> Seq<u8>;

/// Relies on bitcoin::hashes::sha256::Hash::hash: the digest is a function of
/// the input bytes alone, and is 32 bytes long.
#[verifier::external_body]
fn sha256(input: &Vec<u8>) -> (r: Vec<u8>)
    ensures
        r@ == sha256_of(input@),
        r@.len() == 32,
{
    let h = <bitcoin::hashes::sha256::Hash as bitcoin::hashes::Hash>::hash(input.as_slice());
    bitcoin::hashes::Hash::to_byte_array(h).to_vec()
}

/// The authentication tag of `p` under key `k`: the digest of `k ++ p`,
/// normalized to exactly 32 bytes.
pub open spec fn tag32(k: Seq<u8>, p: Seq<u8>) -> Seq<u8> {
    Seq::new(32, |i: int| sha256_of(k + p)[i])
}

/// The `i`-th 32-byte keystream block for key `k` and tag `t`: the first block
/// digests `k ++ t`, and each later block digests `k` and the previous block.
pub open spec fn ks_block(k: Seq<u8>, t: Seq<u8>, i: nat) -> Seq<u8>
    decreases i,
{
    if i == 0 {
        Seq::new(32, |j: int| sha256_of(k + t)[j])
    } else {
        Seq::new(32, |j: int| sha256_of(k + ks_block(k, t, (i - 1) as nat))[j])
    }
}

/// The `j`-th keystream byte for key `k` and tag `t`.
pub open spec fn ks_byte(k: Seq<u8>, t: Seq<u8>, j: int) -> u8 {
    ks_block(k, t, (j / 32) as nat)[j % 32]
}

/// `d` XORed bytewise with the keystream for key `k` and tag `t`.
pub open spec fn xor_stream(k: Seq<u8>, t: Seq<u8>, d: Seq<u8>) -> Seq<u8> {
    Seq::new(d.len(), |j: int| d[j] ^ ks_byte(k, t, j))
}

/// The ciphertext for plaintext `p` under key `k`: the tag followed by the
/// masked plaintext.  It is 32 bytes longer than `p`.
pub open spec fn enc_bytes(k: Seq<u8>, p: Seq<u8>) -> Seq<u8> {
    tag32(k, p) + xor_stream(k, tag32(k, p), p)
}

/// The result of decrypting `c` under key `k`: the recovered plaintext when
/// the recomputed tag matches, and nothing otherwise.
pub open spec fn dec_bytes(k: Seq<u8>, c: Seq<u8>) -> Option<Seq<u8>> {
    if c.len() < 32 {
        None
    } else {
        let t = c.subrange(0, 32);
        let p = xor_stream(k, t, c.subrange(32, c.len() as int));
        if tag32(k, p) == t {
            Some(p)
        } else {
            None
        }
    }
}

/// XOR is an involution on bytes.
proof fn lemma_xor_involution(a: u8, b: u8)
    ensures
        (a ^ b) ^ b == a,
{
    assert((a ^ b) ^ b == a) by (bit_vector);
}

/// Decrypting an encryption under the same key recovers the plaintext exactly.
pub proof fn lemma_codec_round_trip(k: Seq<u8>, p: Seq<u8>)
    ensures
        dec_bytes(k, enc_bytes(k, p)) == Some(p),
{
    let c = enc_bytes(k, p);
    let t = tag32(k, p);
    assert(c.subrange(0, 32) =~= t);
    assert(c.subrange(32, c.len() as int) =~= xor_stream(k, t, p));
    let p2 = xor_stream(k, t, xor_stream(k, t, p));
    assert forall|j: int| 0 <= j < p.len() implies p2[j] == p[j] by {
        lemma_xor_involution(p[j], ks_byte(k, t, j));
    }
    assert(p2 =~= p);
}

/// A ciphertext that decrypts successfully is exactly the encryption of the
/// recovered plaintext under that key.  In particular, a ciphertext produced
/// under one key decrypts under another only if the same bytes happen to be
/// a valid encryption under both keys at once.
pub proof fn lemma_decrypt_pins_ciphertext(k: Seq<u8>, c: Seq<u8>, p: Seq<u8>)
    requires
        dec_bytes(k, c) == Some(p),
    ensures
        c == enc_bytes(k, p),
{
    let t = c.subrange(0, 32);
    assert(p == xor_stream(k, t, c.subrange(32, c.len() as int)));
    assert(tag32(k, p) == t);
    let body = xor_stream(k, t, p);
    assert forall|j: int| 0 <= j < p.len() implies body[j] == c[j + 32] by {
        lemma_xor_involution(c[j + 32], ks_byte(k, t, j));
    }
    assert(enc_bytes(k, p) =~= c);
}

/// The bytes of `a` followed by the bytes of `b`.
fn concat_bytes(a: &Vec<u8>, b: &Vec<u8>) -> (r: Vec<u8>)
    ensures
        r@ == a@ + b@,
{
    let mut r: Vec<u8> = Vec::new();
    let mut i: usize = 0;
    while i < a.len()
        invariant
            i <= a.len(),
            r@ == a@.subrange(0, i as int),
        decreases a.len() - i,
    {
        r.push(a[i]);
        i = i + 1;
        assert(r@ =~= a@.subrange(0, i as int));
    }
    assert(r@ =~= a@);
    let mut j: usize = 0;
    while j < b.len()
        invariant
            j <= b.len(),
            r@ == a@ + b@.subrange(0, j as int),
        decreases b.len() - j,
    {
        r.push(b[j]);
        j = j + 1;
        assert(r@ =~= a@ + b@.subrange(0, j as int));
    }
    assert(r@ =~= a@ + b@);
    r
}

/// Whether two byte vectors hold the same bytes.
fn bytes_eq(a: &Vec<u8>, b: &Vec<u8>) -> (r: bool)
    ensures
        r <==> a@ == b@,
{
    if a.len() != b.len() {
        assert(a@ != b@) by {
            assert(a@.len() != b@.len());
        }
        return false;
    }
    let mut i: usize = 0;
    while i < a.len()
        invariant
            i <= a.len(),
            a@.len() == b@.len(),
            forall|m: int| 0 <= m < i ==> a@[m] == b@[m],
        decreases a.len() - i,
    {
        if a[i] != b[i] {
            return false;
        }
        i = i + 1;
    }
    assert(a@ =~= b@);
    true
}

/// Masks `data` with the keystream for `key` and `tag`.  Applying it twice
/// with the same `key` and `tag` gives the original bytes back.
fn apply_keystream(key: &Vec<u8>, tag: &Vec<u8>, data: &Vec<u8>) -> (r: Vec<u8>)
    ensures
        r@ == xor_stream(key@, tag@, data@),
{
    let mut out: Vec<u8> = Vec::new();
    let mut block: Vec<u8> = sha256(&concat_bytes(key, tag));
    let ghost mut bi: int = 0;
    let mut bj: usize = 0;
    let mut j: usize = 0;
    while j < data.len()
        invariant
            j <= data.len(),
            bj <= 32,
            0 <= bi,
            j == bi * 32 + bj,
            block@ == ks_block(key@, tag@, bi as nat),
            block@.len() == 32,
            out@ == xor_stream(key@, tag@, data@.subrange(0, j as int)),
        decreases data.len() - j,
    {
        if bj == 32 {
            block = sha256(&concat_bytes(key, &block));
            proof {
                assert(block@ =~= ks_block(key@, tag@, (bi + 1) as nat));
                bi = bi + 1;
            }
            bj = 0;
        }
        proof {
            vstd::arithmetic::div_mod::lemma_fundamental_div_mod_converse(
                j as int, 32, bi, bj as int,
            );
        }
        out.push(data[j] ^ block[bj]);
        bj = bj + 1;
        j = j + 1;
        assert(out@ =~= xor_stream(key@, tag@, data@.subrange(0, j as int)));
    }
    assert(data@.subrange(0, data@.len() as int) =~= data@);
    out
}

/// Encrypts `plaintext` under `key`: a deterministic, length-expanding,
/// authenticated transform.  The result is 32 bytes longer than the input.
pub fn encrypt_bytes(key: &Vec<u8>, plaintext: &Vec<u8>) -> (c: Vec<u8>)
    ensures
        c@ == enc_bytes(key@, plaintext@),
        c@.len() == plaintext@.len() + 32,
{
    let tag = sha256(&concat_bytes(key, plaintext));
    proof {
        assert(tag@ =~= tag32(key@, plaintext@));
    }
    let body = apply_keystream(key, &tag, plaintext);
    let c = concat_bytes(&tag, &body);
    c
}

/// Decrypts `ciphertext` under `key`.  Succeeds exactly when the ciphertext
/// was produced under the same key, and then returns that plaintext.
pub fn decrypt_bytes(key: &Vec<u8>, ciphertext: &Vec<u8>) -> (r: Option<Vec<u8>>)
    ensures
        match r {
            Some(p) => dec_bytes(key@, ciphertext@) == Some(p@),
            None => dec_bytes(key@, ciphertext@) is None,
        },
{
    if ciphertext.len() < 32 {
        return None;
    }
    let mut tag: Vec<u8> = Vec::new();
    let mut i: usize = 0;
    while i < 32
        invariant
            i <= 32,
            ciphertext@.len() >= 32,
            tag@ == ciphertext@.subrange(0, i as int),
        decreases 32 - i,
    {
        tag.push(ciphertext[i]);
        i = i + 1;
        assert(tag@ =~= ciphertext@.subrange(0, i as int));
    }
    let mut body: Vec<u8> = Vec::new();
    let mut m: usize = 32;
    while m < ciphertext.len()
        invariant
            32 <= m <= ciphertext@.len(),
            body@ == ciphertext@.subrange(32, m as int),
        decreases ciphertext.len() - m,
    {
        body.push(ciphertext[m]);
        m = m + 1;
        assert(body@ =~= ciphertext@.subrange(32, m as int));
    }
    let p = apply_keystream(key, &tag, &body);
    let check = sha256(&concat_bytes(key, &p));
    proof {
        assert(check@ =~= tag32(key@, p@));
    }
    if bytes_eq(&check, &tag) {
        Some(p)
    } else {
        None
    }
}

} // verus!
