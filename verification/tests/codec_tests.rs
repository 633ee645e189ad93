use taric_core::codec::hex_encode;
use taric_core::types::{cbor_for_ack_sign, cbor_for_hash, compute_entry_hash};
use taric_core::{Ack, LogEntry};

fn entry_fixture() -> LogEntry {
    LogEntry {
        version: 1,
        entry_hash: String::new(),
        device_id: "dev-1".into(),
        timestamp: 1_700_000_000,
        session_id: "00000000-0000-0000-0000-000000000000".into(),
        nonce: 1,
        algo: "ed25519".into(),
        key_id: Some("001-key1-1".into()),
        payload: "{\"t\":22.5}".into(),
        signature: String::new(),
        previous_entry_hash: None,
    }
}

fn ack_with_ts(ts: i64) -> Ack {
    Ack {
        entry_id: "ab".into(),
        new_entry_hash: "cd".into(),
        status: "ok".into(),
        timestamp: ts,
        server_signer_id: "s".into(),
        server_signature: String::new(),
    }
}

#[test]
fn hex_encoding_is_lowercase_two_digits_per_byte() {
    assert_eq!(hex_encode(&[]), "");
    assert_eq!(hex_encode(&[0x00, 0xff, 0x2a]), "00ff2a");
    assert_eq!(hex_encode(&[0x01, 0x23, 0x45, 0x67, 0x89, 0xab, 0xcd, 0xef]), "0123456789abcdef");
}

#[test]
fn canonical_hash_bytes_are_bit_exact() {
    let e = entry_fixture();
    let bytes = cbor_for_hash(&e);
    let expected = "8901656465762d311a6553f100782430303030303030302d303030302d303030302d303030302d3030303030303030303030300167656432353531396a3030312d6b6579312d316a7b2274223a32322e357df6";
    assert_eq!(hex_encode(&bytes), expected);
}

#[test]
fn entry_hash_known_answer() {
    let e = entry_fixture();
    assert_eq!(
        compute_entry_hash(&e),
        "e87404ad10bc50d2ebff02d749d3f3be87af716c0802e912f12f6376e6d8d2f8"
    );
}

#[test]
fn entry_hash_is_pure() {
    let e = entry_fixture();
    let h1 = compute_entry_hash(&e);
    let h2 = compute_entry_hash(&e);
    assert_eq!(h1, h2);
    let h3 = compute_entry_hash(&e.clone());
    assert_eq!(h1, h3);
}

#[test]
fn ack_canonical_bytes_small_fields() {
    // array(5), "ab", "cd", "ok", -1, "s"
    let bytes = cbor_for_ack_sign(&ack_with_ts(-1));
    assert_eq!(
        bytes,
        vec![0x85, 0x62, 0x61, 0x62, 0x62, 0x63, 0x64, 0x62, 0x6f, 0x6b, 0x20, 0x61, 0x73]
    );
}

#[test]
fn cbor_integers_use_shortest_form() {
    let tail = |ts: i64| -> Vec<u8> {
        let b = cbor_for_ack_sign(&ack_with_ts(ts));
        // the timestamp sits between the three strings and the signer id
        b[10..b.len() - 2].to_vec()
    };
    assert_eq!(tail(0), vec![0x00]);
    assert_eq!(tail(23), vec![0x17]);
    assert_eq!(tail(24), vec![0x18, 0x18]);
    assert_eq!(tail(255), vec![0x18, 0xff]);
    assert_eq!(tail(256), vec![0x19, 0x01, 0x00]);
    assert_eq!(tail(65535), vec![0x19, 0xff, 0xff]);
    assert_eq!(tail(65536), vec![0x1a, 0x00, 0x01, 0x00, 0x00]);
    assert_eq!(tail(4294967295), vec![0x1a, 0xff, 0xff, 0xff, 0xff]);
    assert_eq!(tail(4294967296), vec![0x1b, 0x00, 0x00, 0x00, 0x01, 0x00, 0x00, 0x00, 0x00]);
    assert_eq!(tail(i64::MAX), vec![0x1b, 0x7f, 0xff, 0xff, 0xff, 0xff, 0xff, 0xff, 0xff]);
    assert_eq!(tail(-1), vec![0x20]);
    assert_eq!(tail(-24), vec![0x37]);
    assert_eq!(tail(-25), vec![0x38, 0x18]);
    assert_eq!(tail(-500), vec![0x39, 0x01, 0xf3]);
    assert_eq!(tail(i64::MIN), vec![0x3b, 0x7f, 0xff, 0xff, 0xff, 0xff, 0xff, 0xff, 0xff]);
}

#[test]
fn cbor_text_length_counts_utf8_bytes() {
    let mut a = ack_with_ts(0);
    a.entry_id = "\u{e9}".into();  // two UTF-8 bytes
    let bytes = cbor_for_ack_sign(&a);
    assert_eq!(bytes[1], 0x62);
    assert_eq!(&bytes[2..4], &[0xc3, 0xa9]);
}

#[test]
fn absent_optional_fields_encode_as_null() {
    let mut e = entry_fixture();
    e.key_id = None;
    e.previous_entry_hash = None;
    let bytes = cbor_for_hash(&e);
    assert_eq!(bytes[bytes.len() - 1], 0xf6);
    // key_id null sits right after the "ed25519" text
    let pos = bytes.windows(8).position(|w| w == b"\x67ed25519").unwrap();
    assert_eq!(bytes[pos + 8], 0xf6);
}

#[test]
fn present_optional_fields_encode_as_text() {
    let mut e = entry_fixture();
    e.previous_entry_hash = Some("abcd".into());
    let bytes = cbor_for_hash(&e);
    assert_eq!(&bytes[bytes.len() - 5..], &[0x64, 0x61, 0x62, 0x63, 0x64]);
}

#[test]
fn hash_ignores_entry_hash_and_signature_fields() {
    let mut e = entry_fixture();
    let h = compute_entry_hash(&e);
    e.entry_hash = "0".repeat(64);
    e.signature = "AAAA".into();
    assert_eq!(compute_entry_hash(&e), h);
}
