//! The wire encoding of request bodies: UTF-8 JSON bytes, built and proved
//! here rather than handed to a serializer.
//!
//! Strings are emitted with `"`, `\` and control characters escaped;
//! ciphertext is emitted as a JSON array of byte values; versions are
//! decimal numbers.  The same encoding is expected back on the read path.

use vstd::prelude::*;

use crate::client::VssRequestBody;
use crate::item::EncryptedVssKeyValueItem;
use vstd::utf8::encode_utf8;

verus! {

/// The UTF-8 bytes of a text.
pub open spec fn lit(s: Seq<char>) -> Seq<u8> {
    encode_utf8(s)
}

/// The ASCII decimal digits of `n`, most significant first.
pub open spec fn dec_digits(n: nat) -> Seq<u8>
    decreases n,
{
    if n < 10 {
        seq![(0x30 + n) as u8]
    } else {
        dec_digits(n / 10) + seq![(0x30 + n % 10) as u8]
    }
}

/// The lower-case ASCII hex digit for `n < 16`.
pub open spec fn hex_digit(n: u8) -> u8 {
    if n < 10 {
        (0x30 + n) as u8
    } else {
        (0x57 + n) as u8
    }
}

/// How one byte of a JSON string's UTF-8 text is emitted: quote and
/// backslash get a backslash escape, control bytes a `\u00XX` escape, and
/// every other byte (including every byte of a multi-byte character) passes
/// through unchanged.
pub open spec fn esc_byte(b: u8) -> Seq<u8> {
    if b == 0x22 {
        seq![0x5c as u8, 0x22 as u8]
    } else if b == 0x5c {
        seq![0x5c as u8, 0x5c as u8]
    } else if b < 0x20 {
        seq![0x5c as u8, 0x75 as u8, 0x30 as u8, 0x30 as u8, hex_digit(b / 16), hex_digit(b % 16)]
    } else {
        seq![b]
    }
}

/// The escaped form of a string's UTF-8 bytes.
pub open spec fn escape_bytes(s: Seq<u8>) -> Seq<u8>
    decreases s.len(),
{
    if s.len() == 0 {
        Seq::empty()
    } else {
        escape_bytes(s.drop_last()) + esc_byte(s.last())
    }
}

/// A JSON string: the escaped text between double quotes.
pub open spec fn quoted(s: Seq<char>) -> Seq<u8> {
    seq![0x22 as u8] + escape_bytes(encode_utf8(s)) + seq![0x22 as u8]
}

/// A JSON string or `null`, for the optional fields of the bodies.
pub open spec fn opt_quoted(o: Option<String>) -> Seq<u8> {
    match o {
        Some(s) => quoted(s@),
        None => lit("null"@),
    }
}

/// The comma-separated decimal bytes of `s`.
pub open spec fn byte_list(s: Seq<u8>) -> Seq<u8>
    decreases s.len(),
{
    if s.len() == 0 {
        Seq::empty()
    } else if s.len() == 1 {
        dec_digits(s[0] as nat)
    } else {
        byte_list(s.drop_last()) + seq![0x2c as u8] + dec_digits(s.last() as nat)
    }
}

/// A JSON array of byte values: how ciphertext travels.
pub open spec fn byte_array(s: Seq<u8>) -> Seq<u8> {
    seq![0x5b as u8] + byte_list(s) + seq![0x5d as u8]
}

/// One encrypted item as a JSON object.
pub open spec fn item_wire(e: EncryptedVssKeyValueItem) -> Seq<u8> {
    lit("{\"key\":"@) + quoted(e.key@) + lit(",\"value\":"@) + byte_array(e.value@) + lit(
        ",\"version\":"@,
    ) + dec_digits(e.version as nat) + lit("}"@)
}

/// The comma-separated encrypted items.
pub open spec fn items_wire(items: Seq<EncryptedVssKeyValueItem>) -> Seq<u8>
    decreases items.len(),
{
    if items.len() == 0 {
        Seq::empty()
    } else if items.len() == 1 {
        item_wire(items[0])
    } else {
        items_wire(items.drop_last()) + seq![0x2c as u8] + item_wire(items.last())
    }
}

/// The JSON body of one request, per operation.
pub open spec fn body_wire(b: VssRequestBody) -> Seq<u8> {
    match b {
        VssRequestBody::PutObjects { store_id, transaction_items } => lit("{\"store_id\":"@)
            + opt_quoted(store_id) + lit(",\"transaction_items\":["@) + items_wire(
            transaction_items@,
        ) + lit("]}"@),
        VssRequestBody::GetObject { store_id, key } => lit("{\"store_id\":"@) + opt_quoted(
            store_id,
        ) + lit(",\"key\":"@) + quoted(key@) + lit("}"@),
        VssRequestBody::ListKeyVersions { store_id, key_prefix } => lit("{\"store_id\":"@)
            + opt_quoted(store_id) + lit(",\"key_prefix\":"@) + opt_quoted(key_prefix) + lit(
            "}"@,
        ),
    }
}

/// Appends the UTF-8 bytes of `s`.
fn push_literal(out: &mut Vec<u8>, s: &str)
    ensures
        final(out)@ == old(out)@ + lit(s@),
{
    let bytes = vstd::slice::slice_to_vec(s.as_bytes());
    let ghost base: Seq<u8> = out@;
    let mut i: usize = 0;
    while i < bytes.len()
        invariant
            i <= bytes@.len(),
            bytes@ == lit(s@),
            out@ == base + bytes@.subrange(0, i as int),
        decreases bytes@.len() - i,
    {
        out.push(bytes[i]);
        i = i + 1;
        assert(out@ =~= base + bytes@.subrange(0, i as int));
    }
    assert(base + bytes@.subrange(0, bytes@.len() as int) =~= base + bytes@);
}

/// Appends the decimal digits of `n`.
fn push_decimal(out: &mut Vec<u8>, n: u32)
    ensures
        final(out)@ == old(out)@ + dec_digits(n as nat),
    decreases n,
{
    if n < 10 {
        out.push(0x30 + n as u8);
        assert(out@ =~= old(out)@ + dec_digits(n as nat));
    } else {
        push_decimal(out, n / 10);
        out.push(0x30 + (n % 10) as u8);
        assert(out@ =~= old(out)@ + dec_digits(n as nat));
    }
}

/// Appends one string as quoted, escaped JSON.
fn push_quoted(out: &mut Vec<u8>, s: &str)
    ensures
        final(out)@ == old(out)@ + quoted(s@),
{
    let bytes = vstd::slice::slice_to_vec(s.as_bytes());
    let ghost base: Seq<u8> = out@;
    out.push(0x22);
    let mut i: usize = 0;
    while i < bytes.len()
        invariant
            i <= bytes@.len(),
            bytes@ == encode_utf8(s@),
            out@ == base + seq![0x22 as u8] + escape_bytes(bytes@.subrange(0, i as int)),
        decreases bytes@.len() - i,
    {
        let b = bytes[i];
        if b == 0x22 {
            out.push(0x5c);
            out.push(0x22);
        } else if b == 0x5c {
            out.push(0x5c);
            out.push(0x5c);
        } else if b < 0x20 {
            out.push(0x5c);
            out.push(0x75);
            out.push(0x30);
            out.push(0x30);
            let hi = b / 16;
            let lo = b % 16;
            out.push(if hi < 10 { 0x30 + hi } else { 0x57 + hi });
            out.push(if lo < 10 { 0x30 + lo } else { 0x57 + lo });
        } else {
            out.push(b);
        }
        i = i + 1;
        proof {
            let pre = bytes@.subrange(0, i as int);
            assert(pre.drop_last() =~= bytes@.subrange(0, i - 1));
            assert(out@ =~= base + seq![0x22 as u8] + escape_bytes(pre));
        }
    }
    out.push(0x22);
    proof {
        assert(bytes@.subrange(0, bytes@.len() as int) =~= bytes@);
        assert(out@ =~= base + quoted(s@));
    }
}

/// Appends a string or `null`.
fn push_opt_quoted(out: &mut Vec<u8>, o: &Option<String>)
    ensures
        final(out)@ == old(out)@ + opt_quoted(*o),
{
    match o {
        Some(s) => push_quoted(out, s.as_str()),
        None => push_literal(out, "null"),
    }
}

/// Appends ciphertext as a JSON array of byte values.
fn push_byte_array(out: &mut Vec<u8>, bytes: &Vec<u8>)
    ensures
        final(out)@ == old(out)@ + byte_array(bytes@),
{
    let ghost base: Seq<u8> = out@;
    out.push(0x5b);
    let mut i: usize = 0;
    while i < bytes.len()
        invariant
            i <= bytes@.len(),
            out@ == base + seq![0x5b as u8] + byte_list(bytes@.subrange(0, i as int)),
        decreases bytes@.len() - i,
    {
        if i > 0 {
            out.push(0x2c);
        }
        push_decimal(out, bytes[i] as u32);
        i = i + 1;
        proof {
            let pre = bytes@.subrange(0, i as int);
            assert(pre.drop_last() =~= bytes@.subrange(0, i - 1));
            assert(out@ =~= base + seq![0x5b as u8] + byte_list(pre));
        }
    }
    out.push(0x5d);
    proof {
        assert(bytes@.subrange(0, bytes@.len() as int) =~= bytes@);
        assert(out@ =~= base + byte_array(bytes@));
    }
}

/// Appends one encrypted item as a JSON object.
fn push_item(out: &mut Vec<u8>, e: &EncryptedVssKeyValueItem)
    ensures
        final(out)@ == old(out)@ + item_wire(*e),
{
    push_literal(out, "{\"key\":");
    push_quoted(out, e.key.as_str());
    push_literal(out, ",\"value\":");
    push_byte_array(out, &e.value);
    push_literal(out, ",\"version\":");
    push_decimal(out, e.version);
    push_literal(out, "}");
    assert(out@ =~= old(out)@ + item_wire(*e));
}

/// The JSON bytes of one request body: what goes over the wire.
pub fn body_wire_bytes(body: &VssRequestBody) -> (r: Vec<u8>)
    ensures
        r@ == body_wire(*body),
{
    let mut out: Vec<u8> = Vec::new();
    match body {
        VssRequestBody::PutObjects { store_id, transaction_items } => {
            push_literal(&mut out, "{\"store_id\":");
            push_opt_quoted(&mut out, store_id);
            push_literal(&mut out, ",\"transaction_items\":[");
            let ghost base: Seq<u8> = out@;
            let mut i: usize = 0;
            while i < transaction_items.len()
                invariant
                    i <= transaction_items@.len(),
                    out@ == base + items_wire(transaction_items@.subrange(0, i as int)),
                decreases transaction_items@.len() - i,
            {
                if i > 0 {
                    out.push(0x2c);
                }
                push_item(&mut out, &transaction_items[i]);
                i = i + 1;
                proof {
                    let pre = transaction_items@.subrange(0, i as int);
                    assert(pre.drop_last() =~= transaction_items@.subrange(0, i - 1));
                    assert(out@ =~= base + items_wire(pre));
                }
            }
            proof {
                assert(transaction_items@.subrange(0, transaction_items@.len() as int)
                    =~= transaction_items@);
            }
            push_literal(&mut out, "]}");
            assert(out@ =~= body_wire(*body));
        },
        VssRequestBody::GetObject { store_id, key } => {
            push_literal(&mut out, "{\"store_id\":");
            push_opt_quoted(&mut out, store_id);
            push_literal(&mut out, ",\"key\":");
            push_quoted(&mut out, key.as_str());
            push_literal(&mut out, "}");
            assert(out@ =~= body_wire(*body));
        },
        VssRequestBody::ListKeyVersions { store_id, key_prefix } => {
            push_literal(&mut out, "{\"store_id\":");
            push_opt_quoted(&mut out, store_id);
            push_literal(&mut out, ",\"key_prefix\":");
            push_opt_quoted(&mut out, key_prefix);
            push_literal(&mut out, "}");
            assert(out@ =~= body_wire(*body));
        },
    }
    out
}

} // verus!
