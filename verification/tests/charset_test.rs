use pcmanx_rs::charset::{decode, encode, Encoding};

#[test]
fn utf8_decode_works() {
    let text = decode("hello".as_bytes(), Encoding::Utf8);
    assert_eq!(text, "hello");
}

#[test]
fn big5_decode_known_char() {
    let text = decode(&[0xA4, 0xA4], Encoding::Big5);
    assert_eq!(text, "中");
}

#[test]
fn utf8_encode_works() {
    let bytes = encode("hello", Encoding::Utf8);
    assert_eq!(bytes, b"hello");
}

#[test]
fn cjk_round_trip() {
    let src = "中文測試";
    let encoded = encode(src, Encoding::Big5);
    let decoded = decode(&encoded, Encoding::Big5);
    assert_eq!(decoded, src);
}

#[test]
fn utf8_round_trip_of_cjk_text() {
    let src = "中文測試 ok";
    let encoded = encode(src, Encoding::Utf8);
    assert_eq!(encoded, src.as_bytes());
    assert_eq!(decode(&encoded, Encoding::Utf8), src);
}

#[test]
fn invalid_utf8_is_replaced() {
    let text = decode(&[0x61, 0xff, 0x62], Encoding::Utf8);
    assert_eq!(text, "a\u{fffd}b");
}

#[test]
fn uao_variants_use_big5_table() {
    assert_eq!(decode(&[0xA4, 0xA4], Encoding::Uao241), "中");
    assert_eq!(decode(&[0xA4, 0xA4], Encoding::Uao250), "中");
    assert_eq!(encode("中", Encoding::Uao250), vec![0xA4, 0xA4]);
}

#[test]
fn big5_encodes_ascii_unchanged() {
    assert_eq!(encode("abc 123", Encoding::Big5), b"abc 123".to_vec());
    assert_eq!(decode(b"abc 123", Encoding::Big5), "abc 123");
}

#[test]
fn encoding_default_is_big5() {
    assert_eq!(Encoding::default(), Encoding::Big5);
}
