use vstd::prelude::*;
use vstd::string::*;
use crate::encoder::CUSTOM_MODE_BIT;
use crate::model::Mode;

verus! {

/// The lighting modes a keyboard offers, with their mode bits: the full table
/// for RGB keyboards, a shorter one for single-colour keyboards.
pub open spec fn mode_table(is_rgb: bool) -> Seq<(Seq<char>, u8)> {
    if is_rgb {
        seq![
            ("Static"@, 0x01u8),
            ("Breathing"@, 0x02u8),
            ("Wave"@, 0x03u8),
            ("Ripple"@, 0x04u8),
            ("Reactive"@, 0x05u8),
            ("Spectrum"@, 0x06u8),
            ("Custom"@, CUSTOM_MODE_BIT),
        ]
    } else {
        seq![("Static"@, 0x01u8), ("Breathing"@, 0x02u8), ("Reactive"@, 0x05u8)]
    }
}

fn mode(name: &str, mode_bit: u8) -> (r: Mode)
    ensures
        r.name@ == name@,
        r.mode_bit == mode_bit,
{
    Mode { name: String::from_str(name), mode_bit }
}

/// The lighting modes for a keyboard with or without full RGB lighting.
pub fn get_lighting_modes(is_rgb: bool) -> (r: Vec<Mode>)
    ensures
        r@.map_values(|m: Mode| (m.name@, m.mode_bit)) == mode_table(is_rgb),
{
    let mut v: Vec<Mode> = Vec::new();
    v.push(mode("Static", 0x01));
    v.push(mode("Breathing", 0x02));
    if is_rgb {
        v.push(mode("Wave", 0x03));
        v.push(mode("Ripple", 0x04));
    }
    v.push(mode("Reactive", 0x05));
    if is_rgb {
        v.push(mode("Spectrum", 0x06));
        v.push(mode("Custom", CUSTOM_MODE_BIT));
    }
    assert(v@.map_values(|m: Mode| (m.name@, m.mode_bit)) =~= mode_table(is_rgb));
    v
}

} // verus!
