use pcmanx_rs::keys::{key_to_bytes, TermKey};

#[test]
fn control_letters_send_control_codes() {
    assert_eq!(key_to_bytes(TermKey::Other, true, Some('a')), Some(vec![1]));
    assert_eq!(key_to_bytes(TermKey::Other, true, Some('Z')), Some(vec![26]));
    assert_eq!(key_to_bytes(TermKey::Other, true, Some('c')), key_to_bytes(TermKey::Other, true, Some('C')));
}

#[test]
fn special_keys_send_sequences() {
    assert_eq!(key_to_bytes(TermKey::Return, false, Some('\r')), Some(b"\r".to_vec()));
    assert_eq!(key_to_bytes(TermKey::Up, false, None), Some(b"\x1b[A".to_vec()));
    assert_eq!(key_to_bytes(TermKey::Delete, false, None), Some(b"\x1b[3~".to_vec()));
    assert_eq!(key_to_bytes(TermKey::F1, false, None), Some(b"\x1bOP".to_vec()));
    assert_eq!(key_to_bytes(TermKey::F12, false, None), Some(b"\x1b[24~".to_vec()));
    assert_eq!(key_to_bytes(TermKey::BackSpace, true, None), Some(vec![0x08]));
}

#[test]
fn typed_characters_send_utf8() {
    assert_eq!(key_to_bytes(TermKey::Other, false, Some('x')), Some(b"x".to_vec()));
    assert_eq!(key_to_bytes(TermKey::Other, false, Some('中')), Some("中".as_bytes().to_vec()));
    assert_eq!(key_to_bytes(TermKey::Other, false, Some('\u{7f}')), None);
    assert_eq!(key_to_bytes(TermKey::Other, false, None), None);
    assert_eq!(key_to_bytes(TermKey::Other, true, Some('1')), Some(b"1".to_vec()));
}
