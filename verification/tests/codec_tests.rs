use spell_wallet::codec::bytes_to_hex;
use spell_wallet::codec::hex_to_bytes;
use spell_wallet::codec::parse_u32_decimal;
use spell_wallet::codec::u32_to_decimal;
use spell_wallet::errors::ErrorKind;

#[test]
fn hex_encode_matches_reference_encoder() {
    let bytes: Vec<u8> = (0u8..=255).collect();
    assert_eq!(bytes_to_hex(&bytes), hex::encode(&bytes));
    assert_eq!(bytes_to_hex(&[]), "");
    assert_eq!(bytes_to_hex(&[0x00, 0xff, 0x51, 0x20]), "00ff5120");
}

#[test]
fn hex_decode_matches_reference_decoder() {
    let s = "00ff5120deadbeef";
    assert_eq!(hex_to_bytes(s).unwrap(), hex::decode(s).unwrap());
    assert_eq!(hex_to_bytes("").unwrap(), Vec::<u8>::new());
    assert_eq!(hex_to_bytes("AbCd").unwrap(), vec![0xab, 0xcd]);
}

#[test]
fn hex_decode_rejects_malformed_input() {
    let e = hex_to_bytes("abc").unwrap_err();
    assert_eq!(e.kind(), ErrorKind::InvalidHex);
    let e = hex_to_bytes("zz").unwrap_err();
    assert_eq!(e.kind(), ErrorKind::InvalidHex);
    let e = hex_to_bytes("a b2").unwrap_err();
    assert_eq!(e.kind(), ErrorKind::InvalidHex);
}

#[test]
fn hex_round_trips() {
    let bytes = vec![1u8, 2, 3, 0xf6, 0x51];
    assert_eq!(hex_to_bytes(&bytes_to_hex(&bytes)).unwrap(), bytes);
}

#[test]
fn decimal_parse_exact_values() {
    assert_eq!(parse_u32_decimal("0"), Some(0));
    assert_eq!(parse_u32_decimal("42"), Some(42));
    assert_eq!(parse_u32_decimal("+42"), Some(42));
    assert_eq!(parse_u32_decimal("007"), Some(7));
    assert_eq!(parse_u32_decimal("4294967295"), Some(u32::MAX));
}

#[test]
fn decimal_parse_rejects_non_numerals() {
    assert_eq!(parse_u32_decimal(""), None);
    assert_eq!(parse_u32_decimal("+"), None);
    assert_eq!(parse_u32_decimal("-1"), None);
    assert_eq!(parse_u32_decimal("12a"), None);
    assert_eq!(parse_u32_decimal("4294967296"), None);
    assert_eq!(parse_u32_decimal("99999999999999999999"), None);
    assert_eq!(parse_u32_decimal("1 2"), None);
}

#[test]
fn decimal_format_and_parse_agree() {
    for v in [0u32, 1, 9, 10, 99, 100, 4294967295] {
        let s = u32_to_decimal(v);
        assert_eq!(s, v.to_string());
        assert_eq!(parse_u32_decimal(&s), Some(v));
    }
}
