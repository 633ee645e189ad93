//! Canonical byte encodings: lowercase hex and the deterministic CBOR
//! primitives used for hash and signature inputs.
//!
//! Every encoder is deterministic: integers use the shortest CBOR form,
//! text is length-prefixed UTF-8, absent optional fields encode as null,
//! and no indefinite-length items are produced.

use vstd::prelude::*;
use vstd::utf8::encode_utf8;

verus! {

/// The lowercase hex digit for a value below 16.
pub open spec fn hex_char(n: u8) -> char {
    if n == 0 {
        '0'
    } else if n == 1 {
        '1'
    } else if n == 2 {
        '2'
    } else if n == 3 {
        '3'
    } else if n == 4 {
        '4'
    } else if n == 5 {
        '5'
    } else if n == 6 {
        '6'
    } else if n == 7 {
        '7'
    } else if n == 8 {
        '8'
    } else if n == 9 {
        '9'
    } else if n == 10 {
        'a'
    } else if n == 11 {
        'b'
    } else if n == 12 {
        'c'
    } else if n == 13 {
        'd'
    } else if n == 14 {
        'e'
    } else {
        'f'
    }
}

/// Lowercase hex encoding of a byte sequence: two digits per byte,
/// high nibble first.
pub open spec fn hex_of(bytes: Seq<u8>) -> Seq<char>
    decreases bytes.len(),
{
    if bytes.len() == 0 {
        Seq::empty()
    } else {
        hex_of(bytes.drop_last()) + seq![
            hex_char((bytes.last() / 16) as u8),
            hex_char((bytes.last() % 16) as u8),
        ]
    }
}

fn hex_char_of(n: u8) -> (r: char)
    requires
        n < 16,
    ensures
        r == hex_char(n),
{
    match n {
        0 => '0',
        1 => '1',
        2 => '2',
        3 => '3',
        4 => '4',
        5 => '5',
        6 => '6',
        7 => '7',
        8 => '8',
        9 => '9',
        10 => 'a',
        11 => 'b',
        12 => 'c',
        13 => 'd',
        14 => 'e',
        _ => 'f',
    }
}

/// Relies on std's String::push: appends exactly the given character.
#[verifier::external_body]
fn string_push(s: &mut String, c: char)
    ensures
        final(s)@ == old(s)@.push(c),
{
    s.push(c);
}

/// Lowercase hex encoding of a byte slice.
pub fn hex_encode(bytes: &[u8]) -> (r: String)
    ensures
        r@ == hex_of(bytes@),
{
    let mut out = String::new();
    let mut i: usize = 0;
    while i < bytes.len()
        invariant
            i <= bytes@.len(),
            out@ == hex_of(bytes@.take(i as int)),
        decreases bytes@.len() - i,
    {
        let b = bytes[i];
        string_push(&mut out, hex_char_of(b / 16));
        string_push(&mut out, hex_char_of(b % 16));
        proof {
            let t = bytes@.take(i + 1 as int);
            assert(t.drop_last() =~= bytes@.take(i as int));
            assert(t.last() == bytes@[i as int]);
        }
        i = i + 1;
    }
    proof {
        assert(bytes@.take(bytes@.len() as int) =~= bytes@);
    }
    out
}

/// CBOR head byte(s) for a major type and an unsigned argument,
/// in shortest form with big-endian length bytes.
pub open spec fn cbor_header(major: u8, v: u64) -> Seq<u8> {
    let m = (major * 0x20) as u8;
    if v < 24 {
        seq![(m + v) as u8]
    } else if v <= 0xff {
        seq![(m + 24) as u8, v as u8]
    } else if v <= 0xffff {
        seq![(m + 25) as u8, (v / 0x100) as u8, (v % 0x100) as u8]
    } else if v <= 0xffff_ffff {
        seq![
            (m + 26) as u8,
            (v / 0x100_0000) as u8,
            (v / 0x1_0000 % 0x100) as u8,
            (v / 0x100 % 0x100) as u8,
            (v % 0x100) as u8,
        ]
    } else {
        seq![
            (m + 27) as u8,
            (v / 0x100_0000_0000_0000) as u8,
            (v / 0x1_0000_0000_0000 % 0x100) as u8,
            (v / 0x100_0000_0000 % 0x100) as u8,
            (v / 0x1_0000_0000 % 0x100) as u8,
            (v / 0x100_0000 % 0x100) as u8,
            (v / 0x1_0000 % 0x100) as u8,
            (v / 0x100 % 0x100) as u8,
            (v % 0x100) as u8,
        ]
    }
}

/// CBOR encoding of an unsigned integer (major type 0).
pub open spec fn cbor_uint(v: u64) -> Seq<u8> {
    cbor_header(0, v)
}

/// CBOR encoding of a signed integer: major type 0 when non-negative,
/// major type 1 carrying `-1 - v` otherwise.
pub open spec fn cbor_int(v: i64) -> Seq<u8> {
    if v >= 0 {
        cbor_header(0, v as u64)
    } else {
        cbor_header(1, (-1 - v) as u64)
    }
}

/// CBOR encoding of a text string (major type 3): byte length, then the
/// UTF-8 bytes.
pub open spec fn cbor_text(s: Seq<char>) -> Seq<u8> {
    cbor_header(3, encode_utf8(s).len() as u64) + encode_utf8(s)
}

/// The CBOR simple value null.
pub open spec fn cbor_null() -> Seq<u8> {
    seq![0xf6u8]
}

/// An optional text string: the tagged string when present, null when absent.
pub open spec fn cbor_opt_text(s: Option<Seq<char>>) -> Seq<u8> {
    match s {
        Some(t) => cbor_text(t),
        None => cbor_null(),
    }
}

/// CBOR array header (major type 4) for a fixed element count.
pub open spec fn cbor_array_header(n: u64) -> Seq<u8> {
    cbor_header(4, n)
}

/// Append the CBOR head for `major` with unsigned argument `v`.
pub fn push_header(out: &mut Vec<u8>, major: u8, v: u64)
    requires
        major < 8,
    ensures
        final(out)@ == old(out)@ + cbor_header(major, v),
{
    let m: u8 = major * 0x20;
    if v < 24 {
        out.push(m + (v as u8));
    } else if v <= 0xff {
        out.push(m + 24);
        out.push(v as u8);
    } else if v <= 0xffff {
        out.push(m + 25);
        out.push((v / 0x100) as u8);
        out.push((v % 0x100) as u8);
    } else if v <= 0xffff_ffff {
        out.push(m + 26);
        out.push((v / 0x100_0000) as u8);
        out.push((v / 0x1_0000 % 0x100) as u8);
        out.push((v / 0x100 % 0x100) as u8);
        out.push((v % 0x100) as u8);
    } else {
        out.push(m + 27);
        out.push((v / 0x100_0000_0000_0000) as u8);
        out.push((v / 0x1_0000_0000_0000 % 0x100) as u8);
        out.push((v / 0x100_0000_0000 % 0x100) as u8);
        out.push((v / 0x1_0000_0000 % 0x100) as u8);
        out.push((v / 0x100_0000 % 0x100) as u8);
        out.push((v / 0x1_0000 % 0x100) as u8);
        out.push((v / 0x100 % 0x100) as u8);
        out.push((v % 0x100) as u8);
    }
    proof {
        assert(out@ =~= old(out)@ + cbor_header(major, v));
    }
}

/// Append the CBOR encoding of an unsigned integer.
pub fn push_uint(out: &mut Vec<u8>, v: u64)
    ensures
        final(out)@ == old(out)@ + cbor_uint(v),
{
    push_header(out, 0, v);
}

/// Append the CBOR encoding of a signed integer.
pub fn push_int(out: &mut Vec<u8>, v: i64)
    ensures
        final(out)@ == old(out)@ + cbor_int(v),
{
    if v >= 0 {
        push_header(out, 0, v as u64);
    } else {
        let mag: i64 = -(v + 1);
        assert(mag as u64 == (-1 - v) as u64);
        push_header(out, 1, mag as u64);
    }
}

/// Append the CBOR encoding of a text string.
pub fn push_text(out: &mut Vec<u8>, s: &str)
    ensures
        final(out)@ == old(out)@ + cbor_text(s@),
{
    let bytes = s.as_bytes();
    push_header(out, 3, bytes.len() as u64);
    let ghost mid = out@;
    let mut i: usize = 0;
    while i < bytes.len()
        invariant
            i <= bytes@.len(),
            bytes@ == encode_utf8(s@),
            out@ == mid + bytes@.take(i as int),
        decreases bytes@.len() - i,
    {
        out.push(bytes[i]);
        proof {
            assert(bytes@.take(i + 1 as int) =~= bytes@.take(i as int).push(bytes@[i as int]));
        }
        i = i + 1;
    }
    proof {
        assert(bytes@.take(bytes@.len() as int) =~= bytes@);
        assert(out@ =~= old(out)@ + cbor_text(s@));
    }
}

/// Append the CBOR simple value null.
pub fn push_null(out: &mut Vec<u8>)
    ensures
        final(out)@ == old(out)@ + cbor_null(),
{
    out.push(0xf6);
    proof {
        assert(out@ =~= old(out)@ + cbor_null());
    }
}

/// Append a text string when present, null when absent.
pub fn push_opt_text(out: &mut Vec<u8>, s: &Option<String>)
    ensures
        final(out)@ == old(out)@ + cbor_opt_text(match s {
            Some(t) => Some(t@),
            None => None,
        }),
{
    match s {
        Some(t) => push_text(out, t.as_str()),
        None => push_null(out),
    }
}

/// Append a CBOR array header for `n` elements.
pub fn push_array_header(out: &mut Vec<u8>, n: u64)
    ensures
        final(out)@ == old(out)@ + cbor_array_header(n),
{
    push_header(out, 4, n);
}

} // verus!
