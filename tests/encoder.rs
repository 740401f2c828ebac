use rk_configurator::encoder::{
    build_buffers, build_light_report, mapping_bytes, order_by_position, EncodeError, Subsystem,
    CUSTOM_MODE_BIT, LIGHT_COMMAND, PER_KEY_COMMAND, REMAP_COMMAND,
};
use rk_configurator::keycode::KeyCode;
use rk_configurator::model::{
    Key, Keyboard, KeyboardConfig, KeyboardUsbId, KeyMapping, KeyMappingConfig, LightModeConfig,
    PerKeyColor, RgbColor,
};
use rk_configurator::report::{BUFFER_SIZE, REPORT_ID};

fn keyboard(n: usize, light: bool, remap: bool) -> Keyboard {
    let mut keys = Vec::new();
    for i in 0..n {
        keys.push(Key {
            buffer_index: i as u8,
            key_code: KeyCode::KeyA,
            top_x: 0,
            top_y: 0,
            bottom_x: 1,
            bottom_y: 1,
        });
    }
    Keyboard {
        id: KeyboardUsbId { vid: 0x258a, pid: 0x1 },
        path: String::from("dev"),
        name: String::from("Test"),
        image_path: String::new(),
        keys,
        key_map_enabled: remap,
        light_enabled: light,
        rgb: true,
        top_left_x: 0,
        top_left_y: 0,
        bottom_right_x: 10,
        bottom_right_y: 10,
    }
}

fn light(mode_bit: u8, custom: Option<Vec<PerKeyColor>>) -> LightModeConfig {
    LightModeConfig {
        mode_bit,
        animation: 3,
        brightness: 4,
        color: Some(RgbColor { r: 10, g: 20, b: 30 }),
        random_colors: false,
        sleep: 5,
        custom_colors: custom,
    }
}

fn mapping(idx: u8, code: KeyCode) -> KeyMapping {
    KeyMapping { buffer_index: idx, key_code: code }
}

#[test]
fn light_report_layout() {
    let r = build_light_report(&light(2, None));
    assert_eq!(r.len(), BUFFER_SIZE);
    assert_eq!(&r[..10], &[REPORT_ID, LIGHT_COMMAND, 2, 3, 4, 5, 0, 10, 20, 30]);
    assert!(r[10..].iter().all(|b| *b == 0));
}

#[test]
fn light_report_random_colors() {
    let mut lc = light(2, None);
    lc.random_colors = true;
    let r = build_light_report(&lc);
    assert_eq!(&r[..10], &[REPORT_ID, LIGHT_COMMAND, 2, 3, 4, 5, 1, 0, 0, 0]);
}

#[test]
fn lighting_without_support_is_capability_mismatch() {
    let kb = keyboard(4, false, true);
    let cfg = KeyboardConfig { light_mode: Some(light(1, None)), key_mapping: None };
    assert_eq!(build_buffers(&kb, &cfg), Err(EncodeError::CapabilityMismatch(Subsystem::Lighting)));
}

#[test]
fn remap_without_support_is_capability_mismatch() {
    let kb = keyboard(4, true, false);
    let cfg = KeyboardConfig {
        light_mode: None,
        key_mapping: Some(KeyMappingConfig { mappings: vec![mapping(1, KeyCode::KeyB)] }),
    };
    assert_eq!(build_buffers(&kb, &cfg), Err(EncodeError::CapabilityMismatch(Subsystem::Remap)));
}

#[test]
fn unknown_positions_are_structural_errors() {
    let kb = keyboard(4, true, true);
    let cfg = KeyboardConfig {
        light_mode: None,
        key_mapping: Some(KeyMappingConfig { mappings: vec![mapping(1, KeyCode::KeyB), mapping(9, KeyCode::KeyC)] }),
    };
    assert_eq!(build_buffers(&kb, &cfg), Err(EncodeError::StructuralError(Subsystem::Remap, 9)));
    let over = vec![PerKeyColor { buffer_index: 7, color: RgbColor { r: 1, g: 2, b: 3 } }];
    let cfg = KeyboardConfig { light_mode: Some(light(CUSTOM_MODE_BIT, Some(over))), key_mapping: None };
    assert_eq!(build_buffers(&kb, &cfg), Err(EncodeError::StructuralError(Subsystem::Lighting, 7)));
}

#[test]
fn unknown_override_position_is_rejected_in_every_mode() {
    let kb = keyboard(4, true, true);
    let over = vec![PerKeyColor { buffer_index: 9, color: RgbColor { r: 1, g: 2, b: 3 } }];
    let cfg = KeyboardConfig { light_mode: Some(light(1, Some(over))), key_mapping: None };
    assert_eq!(build_buffers(&kb, &cfg), Err(EncodeError::StructuralError(Subsystem::Lighting, 9)));
    let empty_kb = keyboard(0, true, true);
    let over = vec![PerKeyColor { buffer_index: 0, color: RgbColor { r: 1, g: 2, b: 3 } }];
    let cfg = KeyboardConfig { light_mode: Some(light(1, Some(over))), key_mapping: None };
    assert_eq!(build_buffers(&empty_kb, &cfg), Err(EncodeError::StructuralError(Subsystem::Lighting, 0)));
}

#[test]
fn empty_configuration_gives_no_reports() {
    let kb = keyboard(4, true, true);
    let cfg = KeyboardConfig { light_mode: None, key_mapping: None };
    assert_eq!(build_buffers(&kb, &cfg), Ok(vec![]));
}

#[test]
fn custom_mode_covers_every_key() {
    let kb = keyboard(104, true, true);
    let over = vec![
        PerKeyColor { buffer_index: 3, color: RgbColor { r: 1, g: 2, b: 3 } },
        PerKeyColor { buffer_index: 100, color: RgbColor { r: 4, g: 5, b: 6 } },
    ];
    let cfg = KeyboardConfig { light_mode: Some(light(CUSTOM_MODE_BIT, Some(over))), key_mapping: None };
    let bufs = build_buffers(&kb, &cfg).unwrap();
    assert_eq!(bufs.len(), 1 + 7);
    assert_eq!(bufs[0][1], LIGHT_COMMAND);
    let mut seen = 0;
    for (j, b) in bufs[1..].iter().enumerate() {
        assert_eq!(b.len(), 65);
        assert_eq!(b[0], REPORT_ID);
        assert_eq!(b[1], PER_KEY_COMMAND);
        assert_eq!(b[2] as usize, j);
        let count = b[3] as usize;
        assert_eq!(count, if j < 6 { 15 } else { 14 });
        for q in 0..count {
            let e = &b[4 + 4 * q..8 + 4 * q];
            let idx = e[0];
            assert_eq!(idx as usize, seen);
            let expected = match idx {
                3 => [1, 2, 3],
                100 => [4, 5, 6],
                _ => [0xff, 0xff, 0xff],
            };
            assert_eq!(&e[1..], &expected);
            seen += 1;
        }
        assert!(b[4 + 4 * count..].iter().all(|x| *x == 0));
    }
    assert_eq!(seen, 104);
}

#[test]
fn lighting_reports_come_before_remap_reports() {
    let kb = keyboard(30, true, true);
    let mut mappings = Vec::new();
    for i in 0..13u8 {
        mappings.push(mapping(12 - i, KeyCode::KeyB));
    }
    let cfg = KeyboardConfig {
        light_mode: Some(light(CUSTOM_MODE_BIT, None)),
        key_mapping: Some(KeyMappingConfig { mappings }),
    };
    let bufs = build_buffers(&kb, &cfg).unwrap();
    let cmds: Vec<u8> = bufs.iter().map(|b| b[1]).collect();
    assert_eq!(
        cmds,
        vec![LIGHT_COMMAND, PER_KEY_COMMAND, PER_KEY_COMMAND, REMAP_COMMAND, REMAP_COMMAND]
    );
    assert!(bufs.iter().all(|b| b.len() == BUFFER_SIZE));
}

#[test]
fn remap_reports_are_sorted_and_chunked() {
    let kb = keyboard(30, true, true);
    let mut mappings = Vec::new();
    for i in 0..13u8 {
        mappings.push(mapping(12 - i, KeyCode::ShortcutExplorer));
    }
    let cfg = KeyboardConfig { light_mode: None, key_mapping: Some(KeyMappingConfig { mappings }) };
    let bufs = build_buffers(&kb, &cfg).unwrap();
    assert_eq!(bufs.len(), 2);
    assert_eq!(&bufs[0][..4], &[REPORT_ID, REMAP_COMMAND, 0, 12]);
    assert_eq!(&bufs[1][..4], &[REPORT_ID, REMAP_COMMAND, 1, 1]);
    for q in 0..12 {
        assert_eq!(&bufs[0][4 + 5 * q..9 + 5 * q], &[q as u8, 0x01, 0x00, 0x01, 0x94]);
    }
    assert_eq!(&bufs[1][4..9], &[12, 0x01, 0x00, 0x01, 0x94]);
    assert!(bufs[0][64..].iter().all(|x| *x == 0));
    assert!(bufs[1][9..].iter().all(|x| *x == 0));
}

#[test]
fn empty_remap_still_sends_one_report() {
    let kb = keyboard(3, true, true);
    let cfg = KeyboardConfig { light_mode: None, key_mapping: Some(KeyMappingConfig { mappings: vec![] }) };
    let bufs = build_buffers(&kb, &cfg).unwrap();
    assert_eq!(bufs.len(), 1);
    assert_eq!(&bufs[0][..4], &[REPORT_ID, REMAP_COMMAND, 0, 0]);
}

#[test]
fn order_by_position_is_stable() {
    let m = vec![
        mapping(5, KeyCode::KeyA),
        mapping(2, KeyCode::KeyB),
        mapping(5, KeyCode::KeyC),
        mapping(0, KeyCode::KeyD),
    ];
    let r = order_by_position(&m);
    let got: Vec<(u8, KeyCode)> = r.iter().map(|x| (x.buffer_index, x.key_code)).collect();
    assert_eq!(
        got,
        vec![(0, KeyCode::KeyD), (2, KeyCode::KeyB), (5, KeyCode::KeyA), (5, KeyCode::KeyC)]
    );
}

#[test]
fn mapping_bytes_high_byte_first() {
    assert_eq!(mapping_bytes(mapping(7, KeyCode::MultimediaMute)), vec![7, 0x01, 0x00, 0x00, 0xe2]);
    assert_eq!(mapping_bytes(mapping(1, KeyCode::KeyLeftShift)), vec![1, 0x00, 0x02, 0x00, 0x00]);
}

#[test]
fn too_many_keys_for_the_table_is_an_encoding_error() {
    let mut kb = keyboard(0, true, true);
    for i in 0..(15 * 256 + 1) {
        kb.keys.push(Key { buffer_index: (i % 256) as u8, key_code: KeyCode::KeyA, top_x: 0, top_y: 0, bottom_x: 0, bottom_y: 0 });
    }
    let cfg = KeyboardConfig { light_mode: Some(light(CUSTOM_MODE_BIT, None)), key_mapping: None };
    assert_eq!(build_buffers(&kb, &cfg), Err(EncodeError::EncodingError(Subsystem::Lighting)));
}

#[test]
fn every_report_has_the_report_size_over_a_corpus() {
    let mut seed: u32 = 12345;
    let mut next = move || {
        seed = seed.wrapping_mul(1103515245).wrapping_add(12345);
        (seed >> 8) & 0xffff
    };
    for _ in 0..200 {
        let n = (next() % 120) as usize + 1;
        let kb = keyboard(n, true, true);
        let mut over = Vec::new();
        for _ in 0..(next() % 5) {
            let idx = (next() as usize % n) as u8;
            over.push(PerKeyColor { buffer_index: idx, color: RgbColor { r: 1, g: 2, b: 3 } });
        }
        let mut mappings = Vec::new();
        for _ in 0..(next() % 40) {
            let idx = (next() as usize % n) as u8;
            mappings.push(mapping(idx, KeyCode::from_u32(next())));
        }
        let mode = if next() % 2 == 0 { CUSTOM_MODE_BIT } else { (next() % 7) as u8 };
        let cfg = KeyboardConfig {
            light_mode: Some(light(mode, Some(over))),
            key_mapping: Some(KeyMappingConfig { mappings }),
        };
        let bufs = build_buffers(&kb, &cfg).unwrap();
        assert!(bufs.iter().all(|b| b.len() == BUFFER_SIZE));
        let first_remap = bufs.iter().position(|b| b[1] == REMAP_COMMAND).unwrap();
        assert!(first_remap >= 1);
        assert!(bufs[..first_remap].iter().all(|b| b[1] == LIGHT_COMMAND || b[1] == PER_KEY_COMMAND));
        assert!(bufs[first_remap..].iter().all(|b| b[1] == REMAP_COMMAND));
    }
}
