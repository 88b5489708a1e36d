use gossip_persister::hex_decode;
use gossip_persister::hex_str;
use gossip_persister::scid_be_bytes;
use gossip_persister::scid_hex;

#[test]
fn scid_bytes_are_big_endian() {
    assert_eq!(scid_be_bytes(0x0000010000000000), vec![0, 0, 1, 0, 0, 0, 0, 0]);
    assert_eq!(scid_be_bytes(0), vec![0; 8]);
    assert_eq!(
        scid_be_bytes(0x0123456789abcdef),
        vec![0x01, 0x23, 0x45, 0x67, 0x89, 0xab, 0xcd, 0xef]
    );
    assert_eq!(scid_be_bytes(u64::MAX), vec![0xff; 8]);
}

#[test]
fn scid_hex_is_sixteen_lowercase_chars() {
    let s = scid_hex(0x0000010000000000);
    assert_eq!(s, "0000010000000000");
    assert_eq!(s.len(), 16);
    let s = scid_hex(0x0123456789abcdef);
    assert_eq!(s, "0123456789abcdef");
    assert_eq!(s.len(), 16);
    assert!(s.chars().all(|c| c.is_ascii_lowercase() || c.is_ascii_digit()));
    let s = scid_hex(u64::MAX);
    assert_eq!(s, "ffffffffffffffff");
}

#[test]
fn hex_str_encodes_each_byte() {
    assert_eq!(hex_str(&[]), "");
    assert_eq!(hex_str(&[0x00]), "00");
    assert_eq!(hex_str(&[0xff]), "ff");
    assert_eq!(hex_str(&[0x0a, 0x1b, 0x2c]), "0a1b2c");
    let chain_hash = [0xabu8; 32];
    let s = hex_str(&chain_hash);
    assert_eq!(s.len(), 64);
    assert_eq!(&s[..4], "abab");
}

#[test]
fn hex_round_trip_recovers_bytes() {
    let cases: Vec<Vec<u8>> = vec![
        vec![],
        vec![0],
        vec![0xff],
        vec![0, 0, 1, 0, 0, 0, 0, 0],
        (0u8..=255).collect(),
    ];
    for bytes in cases {
        let encoded = hex_str(&bytes);
        assert_eq!(hex_decode(&encoded), Some(bytes));
    }
}

#[test]
fn hex_decode_rejects_odd_length() {
    assert_eq!(hex_decode("0"), None);
    assert_eq!(hex_decode("abc"), None);
}

#[test]
fn hex_decode_rejects_other_characters() {
    assert_eq!(hex_decode("0g"), None);
    assert_eq!(hex_decode("AB"), None);
    assert_eq!(hex_decode("1:"), None);
}

#[test]
fn hex_decode_accepts_lowercase_hex() {
    assert_eq!(hex_decode(""), Some(vec![]));
    assert_eq!(hex_decode("00ff"), Some(vec![0x00, 0xff]));
    assert_eq!(hex_decode("0123456789abcdef"), Some(vec![0x01, 0x23, 0x45, 0x67, 0x89, 0xab, 0xcd, 0xef]));
}
