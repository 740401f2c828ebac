use vstd::prelude::*;
use vstd::string::*;
use crate::json::{
    as_array, as_bool, as_i64, as_str, as_u64, element, get_array, get_bool, get_element, get_i64,
    get_member, get_str, get_u64, member, Json,
};
use crate::keycode::KeyCode;
use crate::model::{Key, Keyboard, KeyboardUsbId, KeyboardView};

verus! {

/// Why a keyboard's descriptor bundle cannot be loaded.
#[derive(Debug, Clone, Copy, PartialEq, Eq, Structural)]
pub enum LoadError {
    /// The descriptor file is absent.
    NotFound,
    /// A required field is missing or has the wrong shape.
    InvalidDescriptor,
    /// The descriptor's boolean `enabled` flag is false.
    UnsupportedDevice,
    /// The image that goes with the descriptor is absent.
    MissingAsset,
}

/// What was found on disk for one device: the parsed descriptor (or why there
/// is none) and whether its image exists.
#[derive(Debug)]
pub struct DescriptorSource {
    pub descriptor: Result<Json, LoadError>,
    pub image_present: bool,
}

pub open spec fn opt(o: Option<&Json>) -> Option<Json> {
    match o {
        Some(v) => Some(*v),
        None => None,
    }
}

/// A boolean flag of a descriptor; missing or not a boolean reads as false.
pub open spec fn flag(d: Json, key: Seq<char>) -> bool {
    as_bool(member(d, key)) == Some(true)
}

/// A two-element integer array, each integer cut to 32 bits.
pub open spec fn point(o: Option<Json>) -> Option<(i32, i32)> {
    match as_array(o) {
        None => None,
        Some(a) => match (as_i64(element(a, 0)), as_i64(element(a, 1))) {
            (Some(x), Some(y)) => Some((x as i32, y as i32)),
            _ => None,
        },
    }
}

/// One entry of a descriptor's `keys` array: `None` where it lacks an integer
/// position, a known code name or an integer `top`/`bottom` pair;
/// `Some(None)` where it is complete and its code is the unassigned sentinel.
pub open spec fn key_entry(k: Json) -> Option<Option<Key>> {
    match (
        as_u64(member(k, "bIndex"@)),
        as_str(member(k, "keyCode"@)),
        point(member(k, "top"@)),
        point(member(k, "bottom"@)),
    ) {
        (Some(b), Some(name), Some(t), Some(bt)) => match KeyCode::spec_named(name) {
            None => None,
            Some(code) => if code == KeyCode::KeyInvalid {
                Some(None)
            } else {
                Some(Some(Key {
                    buffer_index: b as u8,
                    key_code: code,
                    top_x: t.0,
                    top_y: t.1,
                    bottom_x: bt.0,
                    bottom_y: bt.1,
                }))
            },
        },
        _ => None,
    }
}

/// The keys of a `keys` array, in order, without the unassigned ones; `None`
/// if any entry is malformed.
pub open spec fn key_list(a: Seq<Json>) -> Option<Seq<Key>>
    decreases a.len(),
{
    if a.len() == 0 {
        Some(Seq::empty())
    } else {
        match key_list(a.drop_last()) {
            None => None,
            Some(ks) => match key_entry(a.last()) {
                None => None,
                Some(None) => Some(ks),
                Some(Some(k)) => Some(ks.push(k)),
            },
        }
    }
}

/// The keys a descriptor declares; none unless key mapping is enabled.
pub open spec fn descriptor_keys(d: Json) -> Option<Seq<Key>> {
    if flag(d, "keyMapEnabled"@) {
        match as_array(member(d, "keys"@)) {
            None => None,
            Some(a) => key_list(a),
        }
    } else {
        Some(Seq::empty())
    }
}

/// Why a descriptor cannot be loaded, if it cannot.
pub open spec fn load_error(d: Json, image_present: bool) -> Option<LoadError> {
    if as_bool(member(d, "enabled"@)) is None {
        Some(LoadError::InvalidDescriptor)
    } else if as_bool(member(d, "enabled"@)) == Some(false) {
        Some(LoadError::UnsupportedDevice)
    } else if as_str(member(d, "name"@)) is None || point(member(d, "top"@)) is None
        || point(member(d, "bottom"@)) is None || descriptor_keys(d) is None {
        Some(LoadError::InvalidDescriptor)
    } else if !image_present {
        Some(LoadError::MissingAsset)
    } else {
        None
    }
}

/// A hexadecimal digit, lower case.
pub open spec fn hex_digit(n: nat) -> char {
    if n < 10 {
        ((n + 48) as u8) as char
    } else {
        ((n + 87) as u8) as char
    }
}

/// A number in lower-case hexadecimal without leading zeros.
pub open spec fn hex_of(n: nat) -> Seq<char>
    decreases n,
{
    if n < 16 {
        seq![hex_digit(n)]
    } else {
        hex_of(n / 16).push(hex_digit(n % 16))
    }
}

/// Where a keyboard's descriptor lies, under the resource root.
pub open spec fn descriptor_path_of(vid: u16, pid: u16) -> Seq<char> {
    hex_of(vid as nat) + "/configs/"@ + hex_of(pid as nat) + ".json"@
}

/// Where a keyboard's image lies, under the resource root.
pub open spec fn image_file_of(vid: u16, pid: u16) -> Seq<char> {
    hex_of(vid as nat) + "/images/"@ + hex_of(pid as nat) + ".png"@
}

/// The image path a keyboard record gives to the interface.
pub open spec fn image_path_of(vid: u16, pid: u16) -> Seq<char> {
    "keyboards/"@ + image_file_of(vid, pid)
}

/// The record loaded from a descriptor that has no load error.
pub open spec fn loaded_view(vid: u16, pid: u16, path: Seq<char>, d: Json) -> KeyboardView {
    let t = point(member(d, "top"@))->Some_0;
    let b = point(member(d, "bottom"@))->Some_0;
    (
        KeyboardUsbId { vid, pid },
        path,
        as_str(member(d, "name"@))->Some_0,
        image_path_of(vid, pid),
        descriptor_keys(d)->Some_0,
        flag(d, "keyMapEnabled"@),
        flag(d, "lightEnabled"@),
        flag(d, "rgb"@),
        t.0,
        t.1,
        b.0,
        b.1,
    )
}

/// The hexadecimal digit for `n`, as a string.
fn hex_digit_str(n: u16) -> (r: &'static str)
    requires
        n < 16,
    ensures
        r@ == seq![hex_digit(n as nat)],
{
    if n == 0 {
        proof {
            reveal_strlit("0");
        }
        "0"
    } else if n == 1 {
        proof {
            reveal_strlit("1");
        }
        "1"
    } else if n == 2 {
        proof {
            reveal_strlit("2");
        }
        "2"
    } else if n == 3 {
        proof {
            reveal_strlit("3");
        }
        "3"
    } else if n == 4 {
        proof {
            reveal_strlit("4");
        }
        "4"
    } else if n == 5 {
        proof {
            reveal_strlit("5");
        }
        "5"
    } else if n == 6 {
        proof {
            reveal_strlit("6");
        }
        "6"
    } else if n == 7 {
        proof {
            reveal_strlit("7");
        }
        "7"
    } else if n == 8 {
        proof {
            reveal_strlit("8");
        }
        "8"
    } else if n == 9 {
        proof {
            reveal_strlit("9");
        }
        "9"
    } else if n == 10 {
        proof {
            reveal_strlit("a");
        }
        "a"
    } else if n == 11 {
        proof {
            reveal_strlit("b");
        }
        "b"
    } else if n == 12 {
        proof {
            reveal_strlit("c");
        }
        "c"
    } else if n == 13 {
        proof {
            reveal_strlit("d");
        }
        "d"
    } else if n == 14 {
        proof {
            reveal_strlit("e");
        }
        "e"
    } else {
        proof {
            reveal_strlit("f");
        }
        "f"
    }
}

/// A number in lower-case hexadecimal without leading zeros.
pub fn hex_string(v: u16) -> (r: String)
    ensures
        r@ == hex_of(v as nat),
    decreases v,
{
    if v < 16 {
        String::from_str(hex_digit_str(v))
    } else {
        let high = hex_string(v / 16);
        let r = high.concat(hex_digit_str(v % 16));
        assert(r@ =~= hex_of(v as nat));
        r
    }
}

/// The descriptor's path relative to the resource root: `<vid>/configs/<pid>.json`.
pub fn descriptor_path(vid: u16, pid: u16) -> (r: String)
    ensures
        r@ == descriptor_path_of(vid, pid),
{
    let r = hex_string(vid).concat("/configs/").concat(hex_string(pid).as_str()).concat(".json");
    r
}

/// The image's path relative to the resource root: `<vid>/images/<pid>.png`.
pub fn image_path(vid: u16, pid: u16) -> (r: String)
    ensures
        r@ == image_file_of(vid, pid),
{
    let r = hex_string(vid).concat("/images/").concat(hex_string(pid).as_str()).concat(".png");
    r
}

fn read_flag(d: &Json, key: &str) -> (r: bool)
    ensures
        r == flag(*d, key@),
{
    match get_bool(get_member(d, key)) {
        Some(b) => b,
        None => false,
    }
}

fn read_point(o: Option<&Json>) -> (r: Option<(i32, i32)>)
    ensures
        r == point(opt(o)),
{
    let a = match get_array(o) {
        Some(a) => a,
        None => {
            return None;
        },
    };
    let x = get_i64(get_element(a, 0));
    let y = get_i64(get_element(a, 1));
    match (x, y) {
        (Some(x), Some(y)) => Some((x as i32, y as i32)),
        _ => None,
    }
}

fn read_key(k: &Json) -> (r: Option<Option<Key>>)
    ensures
        r == key_entry(*k),
{
    let b = match get_u64(get_member(k, "bIndex")) {
        Some(b) => b,
        None => {
            return None;
        },
    };
    let name = match get_str(get_member(k, "keyCode")) {
        Some(s) => s,
        None => {
            return None;
        },
    };
    let t = match read_point(get_member(k, "top")) {
        Some(t) => t,
        None => {
            return None;
        },
    };
    let bt = match read_point(get_member(k, "bottom")) {
        Some(bt) => bt,
        None => {
            return None;
        },
    };
    let code = match KeyCode::from_str(name.as_str()) {
        Some(c) => c,
        None => {
            return None;
        },
    };
    if code == KeyCode::KeyInvalid {
        return Some(None);
    }
    Some(Some(Key {
        buffer_index: b as u8,
        key_code: code,
        top_x: t.0,
        top_y: t.1,
        bottom_x: bt.0,
        bottom_y: bt.1,
    }))
}

proof fn lemma_key_list_prefix(a: Seq<Json>, i: int)
    requires
        0 <= i <= a.len(),
        key_list(a.take(i)) is None,
    ensures
        key_list(a) is None,
    decreases a.len(),
{
    if i == a.len() {
        assert(a.take(i) =~= a);
    } else {
        assert(a.drop_last().take(i) =~= a.take(i));
        lemma_key_list_prefix(a.drop_last(), i);
    }
}

fn read_keys(a: &Vec<Json>) -> (r: Option<Vec<Key>>)
    ensures
        match r {
            Some(v) => key_list(a@) == Some(v@),
            None => key_list(a@) is None,
        },
{
    let mut out: Vec<Key> = Vec::new();
    let mut i: usize = 0;
    assert(a@.take(0) =~= Seq::<Json>::empty());
    while i < a.len()
        invariant
            i <= a.len(),
            key_list(a@.take(i as int)) == Some(out@),
        decreases a.len() - i,
    {
        assert(a@.take(i as int + 1).drop_last() =~= a@.take(i as int));
        assert(a@.take(i as int + 1).last() == a@[i as int]);
        match read_key(&a[i]) {
            None => {
                proof {
                    lemma_key_list_prefix(a@, i as int + 1);
                }
                return None;
            },
            Some(None) => {},
            Some(Some(k)) => {
                out.push(k);
            },
        }
        i = i + 1;
    }
    assert(a@.take(i as int) =~= a@);
    Some(out)
}

/// Loads a keyboard record from its parsed descriptor.
pub fn load_keyboard_config(
    vid: u16,
    pid: u16,
    device_path: &str,
    descriptor: &Json,
    image_present: bool,
) -> (r: Result<Keyboard, LoadError>)
    ensures
        match r {
            Ok(kb) => load_error(*descriptor, image_present) is None
                && kb@ == loaded_view(vid, pid, device_path@, *descriptor),
            Err(e) => load_error(*descriptor, image_present) == Some(e),
        },
{
    let d = descriptor;
    match get_bool(get_member(d, "enabled")) {
        None => {
            return Err(LoadError::InvalidDescriptor);
        },
        Some(false) => {
            return Err(LoadError::UnsupportedDevice);
        },
        Some(true) => {},
    }
    let name = match get_str(get_member(d, "name")) {
        Some(s) => s,
        None => {
            return Err(LoadError::InvalidDescriptor);
        },
    };
    let top = match read_point(get_member(d, "top")) {
        Some(p) => p,
        None => {
            return Err(LoadError::InvalidDescriptor);
        },
    };
    let bottom = match read_point(get_member(d, "bottom")) {
        Some(p) => p,
        None => {
            return Err(LoadError::InvalidDescriptor);
        },
    };
    let key_map_enabled = read_flag(d, "keyMapEnabled");
    let light_enabled = read_flag(d, "lightEnabled");
    let rgb = read_flag(d, "rgb");
    let keys = if key_map_enabled {
        let arr = match get_array(get_member(d, "keys")) {
            Some(a) => a,
            None => {
                return Err(LoadError::InvalidDescriptor);
            },
        };
        match read_keys(arr) {
            Some(ks) => ks,
            None => {
                return Err(LoadError::InvalidDescriptor);
            },
        }
    } else {
        Vec::new()
    };
    if !image_present {
        return Err(LoadError::MissingAsset);
    }
    let image = String::from_str("keyboards/").concat(image_path(vid, pid).as_str());
    let kb = Keyboard {
        id: KeyboardUsbId { vid, pid },
        path: device_path.to_owned(),
        name: name.clone(),
        image_path: image,
        keys,
        key_map_enabled,
        light_enabled,
        rgb,
        top_left_x: top.0,
        top_left_y: top.1,
        bottom_right_x: bottom.0,
        bottom_right_y: bottom.1,
    };
    assert(kb.keys@ == descriptor_keys(*d)->Some_0);
    assert(kb@ =~= loaded_view(vid, pid, device_path@, *descriptor));
    Ok(kb)
}

/// Loads a keyboard record from what was found on disk for it.
pub fn load_from_source(vid: u16, pid: u16, device_path: &str, source: &DescriptorSource) -> (r: Result<Keyboard, LoadError>)
    ensures
        match source.descriptor {
            Ok(d) => match r {
                Ok(kb) => load_error(d, source.image_present) is None
                    && kb@ == loaded_view(vid, pid, device_path@, d),
                Err(e) => load_error(d, source.image_present) == Some(e),
            },
            Err(e) => r == Err::<Keyboard, LoadError>(e),
        },
{
    match &source.descriptor {
        Ok(d) => load_keyboard_config(vid, pid, device_path, d, source.image_present),
        Err(e) => Err(*e),
    }
}

/// An entry of a descriptor's `keys` array that names the unassigned code is
/// left out of the loaded keys: no loaded key carries that code.
pub proof fn lemma_unassigned_keys_dropped(a: Seq<Json>)
    requires
        key_list(a) is Some,
    ensures
        forall|i: int| 0 <= i < key_list(a)->Some_0.len()
            ==> (#[trigger] key_list(a)->Some_0[i]).key_code != KeyCode::KeyInvalid,
    decreases a.len(),
{
    if a.len() > 0 {
        lemma_unassigned_keys_dropped(a.drop_last());
    }
}

/// A complete `keys` entry whose code name resolves to the unassigned
/// sentinel: it has an integer position, integer `top` and `bottom` pairs,
/// and a `keyCode` naming `KeyInvalid`.
pub open spec fn is_unassigned_entry(k: Json) -> bool {
    &&& as_u64(member(k, "bIndex"@)) is Some
    &&& point(member(k, "top"@)) is Some
    &&& point(member(k, "bottom"@)) is Some
    &&& as_str(member(k, "keyCode"@)) is Some
    &&& KeyCode::spec_named(as_str(member(k, "keyCode"@))->Some_0) == Some(KeyCode::KeyInvalid)
}

/// A `keys` array with its unassigned entries taken out, order kept.
pub open spec fn without_unassigned(a: Seq<Json>) -> Seq<Json>
    decreases a.len(),
{
    if a.len() == 0 {
        Seq::empty()
    } else if is_unassigned_entry(a.last()) {
        without_unassigned(a.drop_last())
    } else {
        without_unassigned(a.drop_last()).push(a.last())
    }
}

proof fn lemma_key_list_without_unassigned(a: Seq<Json>)
    ensures
        key_list(a) == key_list(without_unassigned(a)),
    decreases a.len(),
{
    if a.len() > 0 {
        lemma_key_list_without_unassigned(a.drop_last());
        if !is_unassigned_entry(a.last()) {
            let w = without_unassigned(a.drop_last()).push(a.last());
            assert(w.drop_last() =~= without_unassigned(a.drop_last()));
        }
    }
}

/// Unassigned entries in a `keys` array, however many and wherever they
/// stand, change nothing: two arrays that agree once those entries are taken
/// out load the same keys in the same order, or both fail to load.
pub proof fn lemma_unassigned_entries_ignored(a: Seq<Json>, b: Seq<Json>)
    requires
        without_unassigned(a) == without_unassigned(b),
    ensures
        key_list(a) == key_list(b),
{
    lemma_key_list_without_unassigned(a);
    lemma_key_list_without_unassigned(b);
}

} // verus!
