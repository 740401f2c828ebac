use vstd::prelude::*;
use crate::keycode::KeyCode;

verus! {

/// USB vendor id and product id of a device.
#[derive(Debug, Clone, Copy, PartialEq, Eq, Hash, Structural)]
pub struct KeyboardUsbId {
    pub vid: u16,
    pub pid: u16,
}

/// One physical key: its position in the firmware tables, its default code and
/// its rectangle in layout coordinates.
#[derive(Debug, Clone, Copy, PartialEq, Eq, Structural)]
pub struct Key {
    pub buffer_index: u8,
    pub key_code: KeyCode,
    pub top_x: i32,
    pub top_y: i32,
    pub bottom_x: i32,
    pub bottom_y: i32,
}

/// What one connected keyboard can do, as its descriptor declares it.
#[derive(Debug, Clone)]
pub struct Keyboard {
    pub id: KeyboardUsbId,
    pub path: String,
    pub name: String,
    pub image_path: String,
    pub keys: Vec<Key>,
    pub key_map_enabled: bool,
    pub light_enabled: bool,
    pub rgb: bool,
    pub top_left_x: i32,
    pub top_left_y: i32,
    pub bottom_right_x: i32,
    pub bottom_right_y: i32,
}

/// The values of a keyboard record: id, device path, name, image path, keys,
/// the three feature flags, and the corners of its bounding box.
pub type KeyboardView = (
    KeyboardUsbId,
    Seq<char>,
    Seq<char>,
    Seq<char>,
    Seq<Key>,
    bool,
    bool,
    bool,
    i32,
    i32,
    i32,
    i32,
);

impl View for Keyboard {
    type V = KeyboardView;

    open spec fn view(&self) -> KeyboardView {
        (
            self.id,
            self.path@,
            self.name@,
            self.image_path@,
            self.keys@,
            self.key_map_enabled,
            self.light_enabled,
            self.rgb,
            self.top_left_x,
            self.top_left_y,
            self.bottom_right_x,
            self.bottom_right_y,
        )
    }
}

/// A lighting mode and the firmware mode bit that selects it.
#[derive(Debug, Clone)]
pub struct Mode {
    pub name: String,
    pub mode_bit: u8,
}

/// A colour.
#[derive(Debug, Clone, Copy, PartialEq, Eq, Structural)]
pub struct RgbColor {
    pub r: u8,
    pub g: u8,
    pub b: u8,
}

/// A configuration to send; an absent part leaves that subsystem untouched.
#[derive(Debug, Clone)]
pub struct KeyboardConfig {
    pub light_mode: Option<LightModeConfig>,
    pub key_mapping: Option<KeyMappingConfig>,
}

/// Lighting settings.
#[derive(Debug, Clone)]
pub struct LightModeConfig {
    pub mode_bit: u8,
    pub animation: u8,
    pub brightness: u8,
    pub color: Option<RgbColor>,
    pub random_colors: bool,
    pub sleep: u8,
    pub custom_colors: Option<Vec<PerKeyColor>>,
}

/// A colour for one key in the custom per-key mode.
#[derive(Debug, Clone, Copy, PartialEq, Eq, Structural)]
pub struct PerKeyColor {
    pub buffer_index: u8,
    pub color: RgbColor,
}

/// Key remapping settings.
#[derive(Debug, Clone)]
pub struct KeyMappingConfig {
    pub mappings: Vec<KeyMapping>,
}

/// One key remapped to a code.
#[derive(Debug, Clone, Copy, PartialEq, Eq, Structural)]
pub struct KeyMapping {
    pub buffer_index: u8,
    pub key_code: KeyCode,
}

} // verus!
