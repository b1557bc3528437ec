use rsnapp::ObjectId;

const BYTES: [u8; 12] = [0x5f, 0x8a, 0x00, 0x01, 0xab, 0xcd, 0xef, 0x10, 0x20, 0x30, 0x9e, 0xff];

#[test]
fn to_hex_is_lowercase_two_digits_per_byte() {
    let oid = ObjectId::with_bytes(BYTES);
    assert_eq!(oid.to_hex(), "5f8a0001abcdef1020309eff");
}

#[test]
fn to_hex_of_zero_id() {
    assert_eq!(ObjectId::with_bytes([0; 12]).to_hex(), "000000000000000000000000");
}

#[test]
fn with_string_reads_lowercase_text() {
    let oid = ObjectId::with_string("5f8a0001abcdef1020309eff").expect("valid id");
    assert_eq!(oid.bytes, BYTES);
}

#[test]
fn with_string_reads_uppercase_and_mixed_text() {
    assert_eq!(ObjectId::with_string("5F8A0001ABCDEF1020309EFF").unwrap().bytes, BYTES);
    assert_eq!(ObjectId::with_string("5f8A0001aBcDeF1020309eFf").unwrap().bytes, BYTES);
}

#[test]
fn with_string_refuses_wrong_lengths() {
    assert!(ObjectId::with_string("").is_none());
    assert!(ObjectId::with_string("5f8a0001abcdef1020309ef").is_none());
    assert!(ObjectId::with_string("5f8a0001abcdef1020309eff00").is_none());
    assert!(ObjectId::with_string("5f8a0001abcdef1020309effa").is_none());
}

#[test]
fn with_string_refuses_non_hex_characters() {
    assert!(ObjectId::with_string("5f8a0001abcdef1020309egg").is_none());
    assert!(ObjectId::with_string("5f8a0001abcdef1020309e f").is_none());
    assert!(ObjectId::with_string("5f8a0001abcdef1020309eé").is_none());
}

#[test]
fn hex_text_reads_back_as_the_same_id() {
    for seed in 0u8..=20 {
        let mut bytes = [0u8; 12];
        for (i, b) in bytes.iter_mut().enumerate() {
            *b = seed.wrapping_mul(37).wrapping_add((i as u8).wrapping_mul(71));
        }
        let text = ObjectId::with_bytes(bytes).to_hex();
        assert_eq!(text.len(), 24);
        assert_eq!(ObjectId::with_string(&text).unwrap().bytes, bytes);
    }
}
