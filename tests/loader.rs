use rk_configurator::json::{Json, JsonNumber};
use rk_configurator::keycode::KeyCode;
use rk_configurator::loader::{descriptor_path, hex_string, image_path, load_from_source, load_keyboard_config, DescriptorSource, LoadError};
use rk_configurator::matcher::{
    matches_unix_device, matches_windows_path, scan_devices, str_contains, DeviceEntry, Platform,
};
use rk_configurator::modes::get_lighting_modes;
use rk_configurator::encoder::CUSTOM_MODE_BIT;

fn num(v: i64) -> Json {
    if v >= 0 {
        Json::Number(JsonNumber::PosInt(v as u64))
    } else {
        Json::Number(JsonNumber::NegInt(v))
    }
}

fn pair(a: i64, b: i64) -> Json {
    Json::Array(vec![num(a), num(b)])
}

fn obj(fields: Vec<(&str, Json)>) -> Json {
    Json::Object(fields.into_iter().map(|(k, v)| (k.to_string(), v)).collect())
}

fn key(idx: i64, code: &str) -> Json {
    obj(vec![
        ("bIndex", num(idx)),
        ("keyCode", Json::Str(code.to_string())),
        ("top", pair(idx, 1)),
        ("bottom", pair(idx + 1, 2)),
    ])
}

fn descriptor(enabled: bool, keys: Vec<Json>) -> Json {
    obj(vec![
        ("enabled", Json::Bool(enabled)),
        ("name", Json::Str("RK84".to_string())),
        ("top", pair(0, 0)),
        ("bottom", pair(300, -5)),
        ("keyMapEnabled", Json::Bool(true)),
        ("lightEnabled", Json::Bool(true)),
        ("rgb", Json::Bool(false)),
        ("keys", Json::Array(keys)),
    ])
}

#[test]
fn loads_a_descriptor() {
    let d = descriptor(true, vec![key(1, "Key_A"), key(2, "Multimedia_Mute")]);
    let kb = load_keyboard_config(0x258a, 0x1a2b, "/dev/hidraw3", &d, true).unwrap();
    assert_eq!(kb.id.vid, 0x258a);
    assert_eq!(kb.id.pid, 0x1a2b);
    assert_eq!(kb.name, "RK84");
    assert_eq!(kb.path, "/dev/hidraw3");
    assert_eq!(kb.image_path, "keyboards/258a/images/1a2b.png");
    assert_eq!((kb.top_left_x, kb.top_left_y, kb.bottom_right_x, kb.bottom_right_y), (0, 0, 300, -5));
    assert!(kb.key_map_enabled && kb.light_enabled && !kb.rgb);
    assert_eq!(kb.keys.len(), 2);
    assert_eq!(kb.keys[0].key_code, KeyCode::KeyA);
    assert_eq!(kb.keys[1].buffer_index, 2);
    assert_eq!(kb.keys[1].key_code, KeyCode::MultimediaMute);
    assert_eq!((kb.keys[1].top_x, kb.keys[1].top_y, kb.keys[1].bottom_x, kb.keys[1].bottom_y), (2, 1, 3, 2));
}

#[test]
fn disabled_descriptor_is_unsupported() {
    let d = descriptor(false, vec![]);
    assert_eq!(load_keyboard_config(1, 2, "p", &d, true).unwrap_err(), LoadError::UnsupportedDevice);
}

#[test]
fn missing_or_malformed_enabled_flag_is_invalid() {
    let no_flag = obj(vec![("name", Json::Str("x".to_string()))]);
    assert_eq!(load_keyboard_config(1, 2, "p", &no_flag, true).unwrap_err(), LoadError::InvalidDescriptor);
    let empty = obj(vec![]);
    assert_eq!(load_keyboard_config(1, 2, "p", &empty, true).unwrap_err(), LoadError::InvalidDescriptor);
    let not_bool = obj(vec![("enabled", num(1))]);
    assert_eq!(load_keyboard_config(1, 2, "p", &not_bool, true).unwrap_err(), LoadError::InvalidDescriptor);
}

#[test]
fn unassigned_keys_are_dropped() {
    let d = descriptor(true, vec![key(1, "Key_A"), key(2, "Key_Invalid"), key(3, "Key_B")]);
    let kb = load_keyboard_config(1, 2, "p", &d, true).unwrap();
    let idx: Vec<u8> = kb.keys.iter().map(|k| k.buffer_index).collect();
    assert_eq!(idx, vec![1, 3]);
    assert!(kb.keys.iter().all(|k| k.key_code != KeyCode::KeyInvalid));
}

#[test]
fn malformed_descriptors_are_invalid() {
    let missing_name = obj(vec![("enabled", Json::Bool(true)), ("top", pair(0, 0)), ("bottom", pair(1, 1))]);
    assert_eq!(load_keyboard_config(1, 2, "p", &missing_name, true).unwrap_err(), LoadError::InvalidDescriptor);
    let bad_key = descriptor(true, vec![key(1, "Key_Unknown")]);
    assert_eq!(load_keyboard_config(1, 2, "p", &bad_key, true).unwrap_err(), LoadError::InvalidDescriptor);
    let short_top = obj(vec![
        ("enabled", Json::Bool(true)),
        ("name", Json::Str("x".to_string())),
        ("top", Json::Array(vec![num(1)])),
        ("bottom", pair(1, 1)),
    ]);
    assert_eq!(load_keyboard_config(1, 2, "p", &short_top, true).unwrap_err(), LoadError::InvalidDescriptor);
}

#[test]
fn keys_ignored_without_key_mapping() {
    let d = obj(vec![
        ("enabled", Json::Bool(true)),
        ("name", Json::Str("x".to_string())),
        ("top", pair(0, 0)),
        ("bottom", pair(1, 1)),
    ]);
    let kb = load_keyboard_config(1, 2, "p", &d, true).unwrap();
    assert!(kb.keys.is_empty());
    assert!(!kb.key_map_enabled);
}

#[test]
fn missing_image_is_missing_asset() {
    let d = descriptor(true, vec![key(1, "Key_A")]);
    assert_eq!(load_keyboard_config(1, 2, "p", &d, false).unwrap_err(), LoadError::MissingAsset);
}

#[test]
fn source_errors_pass_through() {
    let s = DescriptorSource { descriptor: Err(LoadError::NotFound), image_present: true };
    assert_eq!(load_from_source(1, 2, "p", &s).unwrap_err(), LoadError::NotFound);
}

#[test]
fn resource_paths() {
    assert_eq!(descriptor_path(0x258a, 0x1a2b), "258a/configs/1a2b.json");
    assert_eq!(image_path(0x258a, 0x0), "258a/images/0.png");
}

fn entry(vid: u16, pid: u16, path: &str, page: u16, usage: u16) -> DeviceEntry {
    DeviceEntry { vid, pid, path: path.to_string(), usage_page: page, usage }
}

fn good() -> DescriptorSource {
    DescriptorSource { descriptor: Ok(descriptor(true, vec![key(1, "Key_A")])), image_present: true }
}

#[test]
fn scan_with_disabled_descriptors_finds_nothing() {
    let entries = vec![entry(0x258a, 1, "a", 1, 0x80), entry(0x258a, 2, "b", 1, 0x80)];
    let sources = vec![
        DescriptorSource { descriptor: Ok(descriptor(false, vec![])), image_present: true },
        DescriptorSource { descriptor: Ok(descriptor(false, vec![])), image_present: true },
    ];
    assert!(scan_devices(&entries, &sources, Platform::Unix).is_empty());
}

#[test]
fn scan_filters_and_deduplicates() {
    let entries = vec![
        entry(0x1234, 1, "other", 1, 0x80),
        entry(0x258a, 5, "wrong-collection", 1, 0x06),
        entry(0x258a, 5, "first", 1, 0x80),
        entry(0x258a, 5, "second", 1, 0x80),
        entry(0x258a, 7, "broken", 1, 0x80),
        entry(0x258a, 6, "third", 1, 0x80),
    ];
    let sources = vec![
        good(),
        good(),
        good(),
        good(),
        DescriptorSource { descriptor: Err(LoadError::NotFound), image_present: false },
        good(),
    ];
    let r = scan_devices(&entries, &sources, Platform::Unix);
    let paths: Vec<&str> = r.iter().map(|k| k.path.as_str()).collect();
    assert_eq!(paths, vec!["first", "third"]);
}

#[test]
fn scan_twice_gives_same_result() {
    let entries = vec![entry(0x258a, 3, "x&Col02y", 0, 0), entry(0x258a, 4, "z&Col01", 0, 0), entry(0x258a, 9, "none", 0, 0)];
    let sources = vec![good(), good(), good()];
    let a = scan_devices(&entries, &sources, Platform::Windows);
    let b = scan_devices(&entries, &sources, Platform::Windows);
    let pa: Vec<(u16, String)> = a.iter().map(|k| (k.id.pid, k.path.clone())).collect();
    let pb: Vec<(u16, String)> = b.iter().map(|k| (k.id.pid, k.path.clone())).collect();
    assert_eq!(pa, vec![(3, "x&Col02y".to_string()), (4, "z&Col01".to_string())]);
    assert_eq!(pa, pb);
}

#[test]
fn platform_rules() {
    assert!(matches_unix_device(0x0001, 0x0080));
    assert!(!matches_unix_device(0x0001, 0x0006));
    assert!(matches_windows_path("\\\\?\\hid#vid_258a&pid_0049&Col02#", 0x258a, 0x49, None));
    assert!(!matches_windows_path("\\\\?\\hid#vid_258a&pid_0049&Col03#", 0x258a, 0x49, None));
    assert!(matches_windows_path("hid&Col03#", 0x258a, 0x49, Some("03")));
    assert!(str_contains("abc", ""));
    assert!(!str_contains("ab", "abc"));
}

#[test]
fn lighting_mode_tables() {
    let rgb = get_lighting_modes(true);
    let single = get_lighting_modes(false);
    assert_eq!(rgb.len(), 7);
    assert_eq!(rgb[6].name, "Custom");
    assert_eq!(rgb[6].mode_bit, CUSTOM_MODE_BIT);
    let names: Vec<&str> = single.iter().map(|m| m.name.as_str()).collect();
    assert_eq!(names, vec!["Static", "Breathing", "Reactive"]);
}

#[test]
fn hex_formatting() {
    assert_eq!(hex_string(0), "0");
    assert_eq!(hex_string(10), "a");
    assert_eq!(hex_string(0x10), "10");
    assert_eq!(hex_string(0x258a), "258a");
    assert_eq!(hex_string(u16::MAX), "ffff");
}

#[test]
fn unassigned_entries_anywhere_change_nothing() {
    let plain = descriptor(true, vec![key(1, "Key_A"), key(3, "Key_B")]);
    let padded = descriptor(
        true,
        vec![key(0, "Key_Invalid"), key(1, "Key_A"), key(2, "Key_Invalid"), key(3, "Key_B"), key(4, "Key_Invalid")],
    );
    let a = load_keyboard_config(1, 2, "p", &plain, true).unwrap();
    let b = load_keyboard_config(1, 2, "p", &padded, true).unwrap();
    let ka: Vec<(u8, KeyCode)> = a.keys.iter().map(|k| (k.buffer_index, k.key_code)).collect();
    let kb: Vec<(u8, KeyCode)> = b.keys.iter().map(|k| (k.buffer_index, k.key_code)).collect();
    assert_eq!(ka, kb);
}

#[test]
fn unassigned_entry_still_needs_a_rectangle() {
    let no_rect = obj(vec![("bIndex", num(2)), ("keyCode", Json::Str("Key_Invalid".to_string()))]);
    let d = descriptor(true, vec![key(1, "Key_A"), no_rect]);
    assert_eq!(load_keyboard_config(1, 2, "p", &d, true).unwrap_err(), LoadError::InvalidDescriptor);
    let half_rect = obj(vec![
        ("bIndex", num(2)),
        ("keyCode", Json::Str("Key_Invalid".to_string())),
        ("top", pair(0, 0)),
    ]);
    let d = descriptor(true, vec![half_rect]);
    assert_eq!(load_keyboard_config(1, 2, "p", &d, true).unwrap_err(), LoadError::InvalidDescriptor);
}

#[test]
fn scan_skips_disabled_vendor_devices_only() {
    let entries = vec![entry(0x1234, 1, "other", 1, 0x80), entry(0x258a, 2, "kb", 1, 0x80)];
    let sources = vec![good(), DescriptorSource { descriptor: Ok(descriptor(false, vec![])), image_present: true }];
    assert!(scan_devices(&entries, &sources, Platform::Unix).is_empty());
}
