use rk_configurator::keycode::{str_equal, KeyCode};

#[test]
fn from_str_names_letters_and_digits() {
    assert_eq!(KeyCode::from_str("Key_A"), Some(KeyCode::KeyA));
    assert_eq!(KeyCode::from_str("Key_1"), Some(KeyCode::Key1));
    assert_eq!(KeyCode::from_str("Multimedia_Mute"), Some(KeyCode::MultimediaMute));
    assert_eq!(KeyCode::from_str("Shortcut_Explorer"), Some(KeyCode::ShortcutExplorer));
}

#[test]
fn from_str_rejects_unknown_names() {
    assert_eq!(KeyCode::from_str("Key_Nope"), None);
    assert_eq!(KeyCode::from_str(""), None);
    assert_eq!(KeyCode::from_str("key_a"), None);
}

#[test]
fn from_str_names_the_sentinel() {
    assert_eq!(KeyCode::from_str("Key_Invalid"), Some(KeyCode::KeyInvalid));
    assert_eq!(KeyCode::KeyInvalid.to_u32(), 0);
}

#[test]
fn to_u32_gives_firmware_values() {
    assert_eq!(KeyCode::KeyA.to_u32(), 0x0400);
    assert_eq!(KeyCode::Key0.to_u32(), 0x2700);
    assert_eq!(KeyCode::KeyLeftControl.to_u32(), 0x010000);
    assert_eq!(KeyCode::KeyRightSuper.to_u32(), 0x800000);
    assert_eq!(KeyCode::ShortcutExplorer.to_u32(), 0x01000194);
    assert_eq!(KeyCode::MultimediaPlayPause.to_u32(), 0x010000cd);
    assert_eq!(KeyCode::KeyFn.to_u32(), 0xb000);
}

#[test]
fn named_codes_round_trip() {
    let codes = [
        KeyCode::KeyA,
        KeyCode::KeyZ,
        KeyCode::Key5,
        KeyCode::KeyNumEnter,
        KeyCode::ShortcutCopy,
        KeyCode::ShortcutCloseWindow,
        KeyCode::MultimediaVolumeDown,
        KeyCode::KeyInvalid,
    ];
    for c in codes {
        let v = c.to_u32();
        assert_eq!(KeyCode::from_u32(v), c);
        assert_eq!(KeyCode::from_u32(v).to_u32(), v);
    }
}

#[test]
fn unknown_values_round_trip() {
    for v in [1u32, 0x0300, 0xdeadbeef, u32::MAX, 0x010000ff] {
        let c = KeyCode::from_u32(v);
        assert_eq!(c, KeyCode::Unrecognized(v));
        assert_eq!(c.to_u32(), v);
    }
}

#[test]
fn str_equal_compares_characters() {
    assert!(str_equal("abc", "abc"));
    assert!(!str_equal("abc", "abd"));
    assert!(!str_equal("abc", "ab"));
    assert!(str_equal("", ""));
}

#[test]
fn names_round_trip() {
    for v in [0x0400u32, 0x1e00, 0x2d00, 0x010000, 0x01000194, 0x010000e2, 0xb000, 0] {
        let c = KeyCode::from_u32(v);
        let n = c.name().unwrap();
        assert_eq!(KeyCode::from_str(n), Some(c));
    }
    assert_eq!(KeyCode::KeyA.name(), Some("Key_A"));
    assert_eq!(KeyCode::from_u32(0x0300).name(), None);
}

#[test]
fn wide_values_decode_only_within_32_bits() {
    assert_eq!(KeyCode::from_u64(0x0400), Some(KeyCode::KeyA));
    assert_eq!(KeyCode::from_u64(u32::MAX as u64), Some(KeyCode::Unrecognized(u32::MAX)));
    assert_eq!(KeyCode::from_u64(u32::MAX as u64 + 1), None);
    assert_eq!(KeyCode::from_i64(0x1e00), Some(KeyCode::Key1));
    assert_eq!(KeyCode::from_i64(-1), None);
    assert_eq!(KeyCode::from_i64(1 << 40), None);
}
