use vstd::prelude::*;
use crate::model::{Key, Keyboard, KeyboardConfig, KeyMapping, LightModeConfig, PerKeyColor, RgbColor};
use crate::report::{
    build_table_reports, entries_of_width, lemma_pad_len, lemma_table_entry,
    lemma_table_reports_shape, pad, pad_report, table_reports, BUFFER_SIZE, HEADER_LEN, MAX_CHUNKS, REPORT_ID,
};

verus! {

/// Command byte of the report that selects a lighting mode.
pub const LIGHT_COMMAND: u8 = 0x01;

/// Command byte of the reports that carry a per-key colour table.
pub const PER_KEY_COMMAND: u8 = 0x02;

/// Command byte of the reports that carry key remappings.
pub const REMAP_COMMAND: u8 = 0x03;

/// Mode bit of the custom per-key lighting mode.
pub const CUSTOM_MODE_BIT: u8 = 0x14;

/// Colour table entries in one report, and bytes per entry (position, red, green, blue).
pub const COLORS_PER_REPORT: usize = 15;
pub const COLOR_ENTRY_LEN: usize = 4;

/// Remap entries in one report, and bytes per entry (position, then the code, high byte first).
pub const MAPPINGS_PER_REPORT: usize = 12;
pub const MAPPING_ENTRY_LEN: usize = 5;

/// Colour of a key that the custom per-key table gives no colour.
pub const DEFAULT_KEY_RED: u8 = 0xff;
pub const DEFAULT_KEY_GREEN: u8 = 0xff;
pub const DEFAULT_KEY_BLUE: u8 = 0xff;

/// The part of the device a configuration addresses.
#[derive(Debug, Clone, Copy, PartialEq, Eq, Structural)]
pub enum Subsystem {
    Lighting,
    Remap,
}

/// Why a configuration cannot be encoded for a keyboard.
#[derive(Debug, Clone, Copy, PartialEq, Eq, Structural)]
pub enum EncodeError {
    /// The keyboard does not support the subsystem.
    CapabilityMismatch(Subsystem),
    /// An entry names a key position that the keyboard does not have.
    StructuralError(Subsystem, u8),
    /// The table needs more reports than the one-byte chunk number can count.
    EncodingError(Subsystem),
}

/// Whether some key of the keyboard sits at firmware position `idx`.
pub open spec fn has_key(keys: Seq<Key>, idx: u8) -> bool {
    exists|i: int| 0 <= i < keys.len() && #[trigger] keys[i].buffer_index == idx
}

/// The first position in `idxs` that no key has.
pub open spec fn first_missing(keys: Seq<Key>, idxs: Seq<u8>) -> Option<u8>
    decreases idxs.len(),
{
    if idxs.len() == 0 {
        None
    } else if !has_key(keys, idxs[0]) {
        Some(idxs[0])
    } else {
        first_missing(keys, idxs.drop_first())
    }
}

/// The colour that the per-key list gives position `idx`; a later entry wins.
pub open spec fn override_color(ov: Seq<PerKeyColor>, idx: u8) -> Option<RgbColor>
    decreases ov.len(),
{
    if ov.len() == 0 {
        None
    } else if ov.last().buffer_index == idx {
        Some(ov.last().color)
    } else {
        override_color(ov.drop_last(), idx)
    }
}

pub open spec fn default_key_color() -> RgbColor {
    RgbColor { r: DEFAULT_KEY_RED, g: DEFAULT_KEY_GREEN, b: DEFAULT_KEY_BLUE }
}

/// The colour of the key at `idx` in the per-key table.
pub open spec fn key_color(ov: Seq<PerKeyColor>, idx: u8) -> RgbColor {
    match override_color(ov, idx) {
        Some(c) => c,
        None => default_key_color(),
    }
}

pub open spec fn overrides(lc: LightModeConfig) -> Seq<PerKeyColor> {
    match lc.custom_colors {
        Some(v) => v@,
        None => Seq::empty(),
    }
}

pub open spec fn color_entry(idx: u8, c: RgbColor) -> Seq<u8> {
    seq![idx, c.r, c.g, c.b]
}

/// The dense colour table: one entry for every key, in key order.
pub open spec fn color_entries(keys: Seq<Key>, ov: Seq<PerKeyColor>) -> Seq<Seq<u8>> {
    Seq::new(
        keys.len(),
        |i: int| color_entry(keys[i].buffer_index, key_color(ov, keys[i].buffer_index)),
    )
}

/// The random-colour flag and the colour written into a lighting report.
pub open spec fn light_color(lc: LightModeConfig) -> (u8, RgbColor) {
    if lc.random_colors {
        (1u8, RgbColor { r: 0, g: 0, b: 0 })
    } else {
        match lc.color {
            Some(c) => (0u8, c),
            None => (0u8, RgbColor { r: 0, g: 0, b: 0 }),
        }
    }
}

/// The report that selects a lighting mode.
pub open spec fn light_report(lc: LightModeConfig) -> Seq<u8> {
    let (flag, c) = light_color(lc);
    pad(
        seq![REPORT_ID, LIGHT_COMMAND, lc.mode_bit, lc.animation, lc.brightness, lc.sleep, flag, c.r, c.g, c.b],
    )
}

/// All lighting reports: the mode report, then for the custom mode the colour table.
pub open spec fn light_reports(keys: Seq<Key>, lc: LightModeConfig) -> Seq<Seq<u8>> {
    if lc.mode_bit == CUSTOM_MODE_BIT {
        seq![light_report(lc)] + table_reports(
            PER_KEY_COMMAND,
            color_entries(keys, overrides(lc)),
            COLORS_PER_REPORT as nat,
        )
    } else {
        seq![light_report(lc)]
    }
}

/// The mappings at position `k`, in list order.
pub open spec fn at_position(m: Seq<KeyMapping>, k: int) -> Seq<KeyMapping>
    decreases m.len(),
{
    if m.len() == 0 {
        Seq::empty()
    } else if m.last().buffer_index as int == k {
        at_position(m.drop_last(), k).push(m.last())
    } else {
        at_position(m.drop_last(), k)
    }
}

/// The mappings at positions `k` and above, by ascending position.
pub open spec fn ordered_from(m: Seq<KeyMapping>, k: int) -> Seq<KeyMapping>
    decreases 256 - k,
{
    if k < 0 || k >= 256 {
        Seq::empty()
    } else {
        at_position(m, k) + ordered_from(m, k + 1)
    }
}

/// The mappings by ascending position; equal positions keep their list order.
pub open spec fn by_position(m: Seq<KeyMapping>) -> Seq<KeyMapping> {
    ordered_from(m, 0)
}

/// A remap entry: position, then the 32-bit code high byte first.
pub open spec fn mapping_entry(m: KeyMapping) -> Seq<u8> {
    let v = m.key_code.spec_value();
    seq![
        m.buffer_index,
        (v / 0x1000000) as u8,
        ((v / 0x10000) % 256) as u8,
        ((v / 0x100) % 256) as u8,
        (v % 256) as u8,
    ]
}

pub open spec fn remap_reports(m: Seq<KeyMapping>) -> Seq<Seq<u8>> {
    table_reports(
        REMAP_COMMAND,
        by_position(m).map_values(|x: KeyMapping| mapping_entry(x)),
        MAPPINGS_PER_REPORT as nat,
    )
}

pub open spec fn color_positions(ov: Seq<PerKeyColor>) -> Seq<u8> {
    ov.map_values(|c: PerKeyColor| c.buffer_index)
}

pub open spec fn mapping_positions(m: Seq<KeyMapping>) -> Seq<u8> {
    m.map_values(|x: KeyMapping| x.buffer_index)
}

/// The lighting part of an encoding.
pub open spec fn encode_lighting(kb: Keyboard, light: Option<LightModeConfig>) -> Result<Seq<Seq<u8>>, EncodeError> {
    match light {
        None => Ok(Seq::empty()),
        Some(lc) => {
            if !kb.light_enabled {
                Err(EncodeError::CapabilityMismatch(Subsystem::Lighting))
            } else {
                match first_missing(kb.keys@, color_positions(overrides(lc))) {
                    Some(b) => Err(EncodeError::StructuralError(Subsystem::Lighting, b)),
                    None => if lc.mode_bit != CUSTOM_MODE_BIT {
                        Ok(seq![light_report(lc)])
                    } else if kb.keys@.len() > COLORS_PER_REPORT * MAX_CHUNKS {
                        Err(EncodeError::EncodingError(Subsystem::Lighting))
                    } else {
                        Ok(light_reports(kb.keys@, lc))
                    },
                }
            }
        },
    }
}

/// The remap part of an encoding.
pub open spec fn encode_remap(kb: Keyboard, mapping: Option<crate::model::KeyMappingConfig>) -> Result<Seq<Seq<u8>>, EncodeError> {
    match mapping {
        None => Ok(Seq::empty()),
        Some(km) => {
            if !kb.key_map_enabled {
                Err(EncodeError::CapabilityMismatch(Subsystem::Remap))
            } else {
                match first_missing(kb.keys@, mapping_positions(km.mappings@)) {
                    Some(b) => Err(EncodeError::StructuralError(Subsystem::Remap, b)),
                    None => if km.mappings@.len() > MAPPINGS_PER_REPORT * MAX_CHUNKS {
                        Err(EncodeError::EncodingError(Subsystem::Remap))
                    } else {
                        Ok(remap_reports(km.mappings@))
                    },
                }
            }
        },
    }
}

/// The reports for a configuration: lighting first, then remapping; or the
/// first error, lighting checked first.
pub open spec fn spec_encode(kb: Keyboard, cfg: KeyboardConfig) -> Result<Seq<Seq<u8>>, EncodeError> {
    match encode_lighting(kb, cfg.light_mode) {
        Err(e) => Err(e),
        Ok(lr) => match encode_remap(kb, cfg.key_mapping) {
            Err(e) => Err(e),
            Ok(rr) => Ok(lr + rr),
        },
    }
}

fn has_key_at(keys: &Vec<Key>, idx: u8) -> (r: bool)
    ensures
        r == has_key(keys@, idx),
{
    let mut i: usize = 0;
    while i < keys.len()
        invariant
            i <= keys.len(),
            forall|j: int| 0 <= j < i ==> #[trigger] keys@[j].buffer_index != idx,
        decreases keys.len() - i,
    {
        if keys[i].buffer_index == idx {
            return true;
        }
        i = i + 1;
    }
    false
}

fn first_missing_color(keys: &Vec<Key>, ov: &Vec<PerKeyColor>) -> (r: Option<u8>)
    ensures
        r == first_missing(keys@, color_positions(ov@)),
{
    let ghost idxs = color_positions(ov@);
    assert(idxs.skip(0) =~= idxs);
    let mut i: usize = 0;
    while i < ov.len()
        invariant
            i <= ov.len(),
            idxs == color_positions(ov@),
            first_missing(keys@, idxs) == first_missing(keys@, idxs.skip(i as int)),
        decreases ov.len() - i,
    {
        assert(idxs.skip(i as int)[0] == ov@[i as int].buffer_index);
        assert(idxs.skip(i as int).drop_first() =~= idxs.skip(i as int + 1));
        if !has_key_at(keys, ov[i].buffer_index) {
            return Some(ov[i].buffer_index);
        }
        i = i + 1;
    }
    assert(idxs.skip(i as int).len() == 0);
    None
}

fn first_missing_mapping(keys: &Vec<Key>, m: &Vec<KeyMapping>) -> (r: Option<u8>)
    ensures
        r == first_missing(keys@, mapping_positions(m@)),
{
    let ghost idxs = mapping_positions(m@);
    assert(idxs.skip(0) =~= idxs);
    let mut i: usize = 0;
    while i < m.len()
        invariant
            i <= m.len(),
            idxs == mapping_positions(m@),
            first_missing(keys@, idxs) == first_missing(keys@, idxs.skip(i as int)),
        decreases m.len() - i,
    {
        assert(idxs.skip(i as int)[0] == m@[i as int].buffer_index);
        assert(idxs.skip(i as int).drop_first() =~= idxs.skip(i as int + 1));
        if !has_key_at(keys, m[i].buffer_index) {
            return Some(m[i].buffer_index);
        }
        i = i + 1;
    }
    assert(idxs.skip(i as int).len() == 0);
    None
}

/// The colour of the key at `idx` in the per-key table.
pub fn color_of_key(ov: &Vec<PerKeyColor>, idx: u8) -> (r: RgbColor)
    ensures
        r == key_color(ov@, idx),
{
    let mut found: Option<RgbColor> = None;
    let mut i: usize = 0;
    while i < ov.len()
        invariant
            i <= ov.len(),
            found == override_color(ov@.take(i as int), idx),
        decreases ov.len() - i,
    {
        assert(ov@.take(i as int + 1).drop_last() =~= ov@.take(i as int));
        assert(ov@.take(i as int + 1).last() == ov@[i as int]);
        if ov[i].buffer_index == idx {
            found = Some(ov[i].color);
        }
        i = i + 1;
    }
    assert(ov@.take(i as int) =~= ov@);
    match found {
        Some(c) => c,
        None => RgbColor { r: DEFAULT_KEY_RED, g: DEFAULT_KEY_GREEN, b: DEFAULT_KEY_BLUE },
    }
}

fn color_table(keys: &Vec<Key>, ov: &Vec<PerKeyColor>) -> (r: Vec<Vec<u8>>)
    ensures
        r.deep_view() == color_entries(keys@, ov@),
        entries_of_width(r.deep_view(), COLOR_ENTRY_LEN as nat),
{
    let mut out: Vec<Vec<u8>> = Vec::new();
    let mut i: usize = 0;
    while i < keys.len()
        invariant
            i <= keys.len(),
            out.len() == i,
            forall|j: int| 0 <= j < i ==> #[trigger] out.deep_view()[j] == color_entries(keys@, ov@)[j],
        decreases keys.len() - i,
    {
        let idx = keys[i].buffer_index;
        let c = color_of_key(ov, idx);
        let e: Vec<u8> = vec![idx, c.r, c.g, c.b];
        assert(e@ =~= color_entry(idx, c));
        let ghost prev = out.deep_view();
        out.push(e);
        assert forall|j: int| 0 <= j < i + 1 implies #[trigger] out.deep_view()[j] == color_entries(keys@, ov@)[j] by {
            if j < i {
                assert(out.deep_view()[j] == prev[j]);
            }
        }
        i = i + 1;
    }
    assert(out.deep_view() =~= color_entries(keys@, ov@));
    out
}

/// Builds the report that selects a lighting mode.
pub fn build_light_report(lc: &LightModeConfig) -> (r: Vec<u8>)
    ensures
        r@ == light_report(*lc),
{
    let (flag, c) = if lc.random_colors {
        (1u8, RgbColor { r: 0, g: 0, b: 0 })
    } else {
        match lc.color {
            Some(c) => (0u8, c),
            None => (0u8, RgbColor { r: 0, g: 0, b: 0 }),
        }
    };
    let v: Vec<u8> = vec![REPORT_ID, LIGHT_COMMAND, lc.mode_bit, lc.animation, lc.brightness, lc.sleep, flag, c.r, c.g, c.b];
    let r = pad_report(v);
    assert(v@ =~= seq![REPORT_ID, LIGHT_COMMAND, lc.mode_bit, lc.animation, lc.brightness, lc.sleep, flag, c.r, c.g, c.b]);
    r
}

/// The mappings sorted by ascending position; equal positions keep their order.
pub fn order_by_position(m: &Vec<KeyMapping>) -> (r: Vec<KeyMapping>)
    ensures
        r@ == by_position(m@),
{
    let mut out: Vec<KeyMapping> = Vec::new();
    let mut k: u16 = 0;
    while k < 256
        invariant
            k <= 256,
            out@ + ordered_from(m@, k as int) == by_position(m@),
        decreases 256 - k,
    {
        let ghost base = out@;
        let mut i: usize = 0;
        while i < m.len()
            invariant
                k < 256,
                i <= m.len(),
                out@ == base + at_position(m@.take(i as int), k as int),
            decreases m.len() - i,
        {
            assert(m@.take(i as int + 1).drop_last() =~= m@.take(i as int));
            assert(m@.take(i as int + 1).last() == m@[i as int]);
            if m[i].buffer_index as u16 == k {
                out.push(m[i]);
            }
            assert(out@ =~= base + at_position(m@.take(i as int + 1), k as int));
            i = i + 1;
        }
        assert(m@.take(i as int) =~= m@);
        assert(ordered_from(m@, k as int) == at_position(m@, k as int) + ordered_from(m@, k as int + 1));
        assert(out@ + ordered_from(m@, k as int + 1) =~= base + ordered_from(m@, k as int));
        k = k + 1;
    }
    assert(out@ + ordered_from(m@, 256) =~= out@);
    out
}

/// The remap entry of one mapping.
pub fn mapping_bytes(m: KeyMapping) -> (r: Vec<u8>)
    ensures
        r@ == mapping_entry(m),
{
    let v = m.key_code.to_u32();
    let r: Vec<u8> = vec![
        m.buffer_index,
        (v / 0x1000000) as u8,
        ((v / 0x10000) % 256) as u8,
        ((v / 0x100) % 256) as u8,
        (v % 256) as u8,
    ];
    assert(r@ =~= mapping_entry(m));
    r
}

fn mapping_table(m: &Vec<KeyMapping>) -> (r: Vec<Vec<u8>>)
    ensures
        r.deep_view() == m@.map_values(|x: KeyMapping| mapping_entry(x)),
        entries_of_width(r.deep_view(), MAPPING_ENTRY_LEN as nat),
{
    let mut out: Vec<Vec<u8>> = Vec::new();
    let mut i: usize = 0;
    while i < m.len()
        invariant
            i <= m.len(),
            out.len() == i,
            forall|j: int| 0 <= j < i ==> #[trigger] out.deep_view()[j] == mapping_entry(m@[j]),
        decreases m.len() - i,
    {
        let e = mapping_bytes(m[i]);
        let ghost prev = out.deep_view();
        out.push(e);
        assert forall|j: int| 0 <= j < i + 1 implies #[trigger] out.deep_view()[j] == mapping_entry(m@[j]) by {
            if j < i {
                assert(out.deep_view()[j] == prev[j]);
            }
        }
        i = i + 1;
    }
    assert(out.deep_view() =~= m@.map_values(|x: KeyMapping| mapping_entry(x)));
    out
}

/// How many mappings sit at position `k` or above.
pub open spec fn count_from(m: Seq<KeyMapping>, k: int) -> nat
    decreases m.len(),
{
    if m.len() == 0 {
        0
    } else {
        count_from(m.drop_last(), k) + if m.last().buffer_index as int >= k { 1nat } else { 0nat }
    }
}

proof fn lemma_count_split(m: Seq<KeyMapping>, k: int)
    ensures
        at_position(m, k).len() + count_from(m, k + 1) == count_from(m, k),
    decreases m.len(),
{
    if m.len() > 0 {
        lemma_count_split(m.drop_last(), k);
    }
}

proof fn lemma_count_bounds(m: Seq<KeyMapping>)
    ensures
        count_from(m, 0) == m.len(),
        count_from(m, 256) == 0,
    decreases m.len(),
{
    if m.len() > 0 {
        lemma_count_bounds(m.drop_last());
    }
}

proof fn lemma_ordered_from_len(m: Seq<KeyMapping>, k: int)
    requires
        0 <= k <= 256,
    ensures
        ordered_from(m, k).len() == count_from(m, k),
    decreases 256 - k,
{
    if k < 256 {
        lemma_ordered_from_len(m, k + 1);
        lemma_count_split(m, k);
    } else {
        lemma_count_bounds(m);
    }
}

/// Sorting by position keeps every mapping: as many come out as go in.
pub proof fn lemma_by_position_len(m: Seq<KeyMapping>)
    ensures
        by_position(m).len() == m.len(),
{
    lemma_ordered_from_len(m, 0);
    lemma_count_bounds(m);
}

/// Encodes a configuration into the reports to send to a keyboard: the
/// lighting reports first, then the remap reports; nothing on an error.
pub fn build_buffers(keyboard: &Keyboard, config: &KeyboardConfig) -> (r: Result<Vec<Vec<u8>>, EncodeError>)
    ensures
        match r {
            Ok(b) => spec_encode(*keyboard, *config) == Ok::<Seq<Seq<u8>>, EncodeError>(b.deep_view()),
            Err(e) => spec_encode(*keyboard, *config) == Err::<Seq<Seq<u8>>, EncodeError>(e),
        },
{
    let mut out: Vec<Vec<u8>> = Vec::new();
    match &config.light_mode {
        None => {
            assert(out.deep_view() =~= Seq::<Seq<u8>>::empty());
        },
        Some(lc) => {
            if !keyboard.light_enabled {
                return Err(EncodeError::CapabilityMismatch(Subsystem::Lighting));
            }
            let empty: Vec<PerKeyColor> = Vec::new();
            let ov: &Vec<PerKeyColor> = match &lc.custom_colors {
                Some(v) => v,
                None => &empty,
            };
            assert(ov@ == overrides(*lc)) by {
                if lc.custom_colors is None {
                    assert(ov@ =~= Seq::<PerKeyColor>::empty());
                }
            }
            match first_missing_color(&keyboard.keys, ov) {
                Some(b) => {
                    return Err(EncodeError::StructuralError(Subsystem::Lighting, b));
                },
                None => {},
            }
            let mode_report = build_light_report(lc);
            out.push(mode_report);
            assert(out.deep_view()[0] == mode_report@);
            assert(out.deep_view() =~= seq![light_report(*lc)]);
            if lc.mode_bit == CUSTOM_MODE_BIT {
                if keyboard.keys.len() > COLORS_PER_REPORT * MAX_CHUNKS {
                    return Err(EncodeError::EncodingError(Subsystem::Lighting));
                }
                let table = color_table(&keyboard.keys, ov);
                let mut reports = build_table_reports(PER_KEY_COMMAND, &table, COLORS_PER_REPORT, COLOR_ENTRY_LEN);
                let ghost first = out@;
                let ghost added = reports@;
                let ghost firstv = out.deep_view();
                let ghost addedv = reports.deep_view();
                out.append(&mut reports);
                assert(out@ =~= first + added);
                assert forall|i: int| 0 <= i < out.len() implies #[trigger] out.deep_view()[i] == (firstv + addedv)[i] by {
                    if i < first.len() {
                        assert(out@[i] == first[i]);
                    } else {
                        assert(out@[i] == added[i - first.len()]);
                    }
                }
                assert(out.deep_view() =~= firstv + addedv);
            }
            assert(out.deep_view() =~= light_reports(keyboard.keys@, *lc));
        },
    }
    let ghost lr = out.deep_view();
    assert(encode_lighting(*keyboard, config.light_mode) == Ok::<Seq<Seq<u8>>, EncodeError>(lr));
    match &config.key_mapping {
        None => {},
        Some(km) => {
            if !keyboard.key_map_enabled {
                return Err(EncodeError::CapabilityMismatch(Subsystem::Remap));
            }
            match first_missing_mapping(&keyboard.keys, &km.mappings) {
                Some(b) => {
                    return Err(EncodeError::StructuralError(Subsystem::Remap, b));
                },
                None => {},
            }
            if km.mappings.len() > MAPPINGS_PER_REPORT * MAX_CHUNKS {
                return Err(EncodeError::EncodingError(Subsystem::Remap));
            }
            let ordered = order_by_position(&km.mappings);
            proof {
                lemma_by_position_len(km.mappings@);
            }
            let table = mapping_table(&ordered);
            let mut reports = build_table_reports(REMAP_COMMAND, &table, MAPPINGS_PER_REPORT, MAPPING_ENTRY_LEN);
            let ghost first = out@;
            let ghost added = reports@;
            let ghost firstv = out.deep_view();
            let ghost addedv = reports.deep_view();
            out.append(&mut reports);
            assert(out@ =~= first + added);
            assert forall|i: int| 0 <= i < out.len() implies #[trigger] out.deep_view()[i] == (firstv + addedv)[i] by {
                if i < first.len() {
                    assert(out@[i] == first[i]);
                } else {
                    assert(out@[i] == added[i - first.len()]);
                }
            }
            assert(out.deep_view() =~= firstv + addedv);
            assert(out.deep_view() =~= lr + remap_reports(km.mappings@));
        },
    }
    assert(out.deep_view() =~= lr + match encode_remap(*keyboard, config.key_mapping) { Ok(rr) => rr, Err(_) => Seq::empty() });
    Ok(out)
}

/// Lighting cannot be sent to a keyboard without lighting support: the
/// encoding fails with a capability mismatch and yields no reports.
pub proof fn lemma_lighting_needs_support(kb: Keyboard, cfg: KeyboardConfig)
    requires
        !kb.light_enabled,
        cfg.light_mode is Some,
    ensures
        spec_encode(kb, cfg) == Err::<Seq<Seq<u8>>, EncodeError>(
            EncodeError::CapabilityMismatch(Subsystem::Lighting),
        ),
{
}

proof fn lemma_color_entries_width(keys: Seq<Key>, ov: Seq<PerKeyColor>)
    ensures
        entries_of_width(color_entries(keys, ov), COLOR_ENTRY_LEN as nat),
{
}

proof fn lemma_mapping_entries_width(m: Seq<KeyMapping>)
    ensures
        entries_of_width(by_position(m).map_values(|x: KeyMapping| mapping_entry(x)), MAPPING_ENTRY_LEN as nat),
{
}

proof fn lemma_light_report_shape(lc: LightModeConfig)
    ensures
        light_report(lc).len() == BUFFER_SIZE,
        light_report(lc)[0] == REPORT_ID,
        light_report(lc)[1] == LIGHT_COMMAND,
{
    let (flag, c) = light_color(lc);
    let body = seq![REPORT_ID, LIGHT_COMMAND, lc.mode_bit, lc.animation, lc.brightness, lc.sleep, flag, c.r, c.g, c.b];
    lemma_pad_len(body);
    assert(pad(body)[1] == body[1]);
    assert(pad(body)[0] == body[0]);
}

/// What a successful encoding holds: lighting reports (the mode report, then
/// any colour table) are followed by remap reports, and every one of them has
/// the report size.
proof fn lemma_encode_shape(kb: Keyboard, cfg: KeyboardConfig)
    requires
        spec_encode(kb, cfg) is Ok,
    ensures
        encode_lighting(kb, cfg.light_mode) is Ok,
        encode_remap(kb, cfg.key_mapping) is Ok,
        spec_encode(kb, cfg)->Ok_0 == encode_lighting(kb, cfg.light_mode)->Ok_0 + encode_remap(kb, cfg.key_mapping)->Ok_0,
        cfg.light_mode is Some <==> encode_lighting(kb, cfg.light_mode)->Ok_0.len() >= 1,
        cfg.key_mapping is Some <==> encode_remap(kb, cfg.key_mapping)->Ok_0.len() >= 1,
        forall|i: int| 0 <= i < encode_lighting(kb, cfg.light_mode)->Ok_0.len() ==> {
            &&& (#[trigger] encode_lighting(kb, cfg.light_mode)->Ok_0[i]).len() == BUFFER_SIZE
            &&& encode_lighting(kb, cfg.light_mode)->Ok_0[i][1] == LIGHT_COMMAND
                || encode_lighting(kb, cfg.light_mode)->Ok_0[i][1] == PER_KEY_COMMAND
        },
        forall|i: int| 0 <= i < encode_remap(kb, cfg.key_mapping)->Ok_0.len() ==> {
            &&& (#[trigger] encode_remap(kb, cfg.key_mapping)->Ok_0[i]).len() == BUFFER_SIZE
            &&& encode_remap(kb, cfg.key_mapping)->Ok_0[i][1] == REMAP_COMMAND
        },
{
    if let Some(lc) = cfg.light_mode {
        lemma_light_report_shape(lc);
        let ct = color_entries(kb.keys@, overrides(lc));
        lemma_color_entries_width(kb.keys@, overrides(lc));
        lemma_table_reports_shape(PER_KEY_COMMAND, ct, COLORS_PER_REPORT as nat, COLOR_ENTRY_LEN as nat);
        let lr = encode_lighting(kb, cfg.light_mode)->Ok_0;
        if lc.mode_bit == CUSTOM_MODE_BIT {
            let tr = table_reports(PER_KEY_COMMAND, ct, COLORS_PER_REPORT as nat);
            assert forall|i: int| 0 <= i < lr.len() implies {
                &&& (#[trigger] lr[i]).len() == BUFFER_SIZE
                &&& lr[i][1] == LIGHT_COMMAND || lr[i][1] == PER_KEY_COMMAND
            } by {
                if i > 0 {
                    assert(lr[i] == tr[i - 1]);
                }
            }
        }
    }
    if let Some(km) = cfg.key_mapping {
        lemma_mapping_entries_width(km.mappings@);
        lemma_table_reports_shape(
            REMAP_COMMAND,
            by_position(km.mappings@).map_values(|x: KeyMapping| mapping_entry(x)),
            MAPPINGS_PER_REPORT as nat,
            MAPPING_ENTRY_LEN as nat,
        );
    }
}

/// Every report that an encoding yields has the report size.
pub proof fn lemma_reports_have_report_size(kb: Keyboard, cfg: KeyboardConfig)
    requires
        spec_encode(kb, cfg) is Ok,
    ensures
        forall|i: int| 0 <= i < spec_encode(kb, cfg)->Ok_0.len()
            ==> (#[trigger] spec_encode(kb, cfg)->Ok_0[i]).len() == BUFFER_SIZE,
{
    lemma_encode_shape(kb, cfg);
    let lr = encode_lighting(kb, cfg.light_mode)->Ok_0;
    let rr = encode_remap(kb, cfg.key_mapping)->Ok_0;
    assert forall|i: int| 0 <= i < spec_encode(kb, cfg)->Ok_0.len()
        implies (#[trigger] spec_encode(kb, cfg)->Ok_0[i]).len() == BUFFER_SIZE by {
        if i < lr.len() {
            assert(spec_encode(kb, cfg)->Ok_0[i] == lr[i]);
        } else {
            assert(spec_encode(kb, cfg)->Ok_0[i] == rr[i - lr.len()]);
        }
    }
}

/// With both lighting and remapping asked for, every lighting report comes
/// strictly before every remap report: the first `k` reports (`k` at least
/// one) are lighting reports, the rest (at least one) remap reports.
pub proof fn lemma_lighting_before_remap(kb: Keyboard, cfg: KeyboardConfig)
    requires
        cfg.light_mode is Some,
        cfg.key_mapping is Some,
        spec_encode(kb, cfg) is Ok,
    ensures
        ({
            let b = spec_encode(kb, cfg)->Ok_0;
            let k = encode_lighting(kb, cfg.light_mode)->Ok_0.len() as int;
            &&& 1 <= k < b.len()
            &&& forall|i: int| 0 <= i < k ==> (#[trigger] b[i])[1] == LIGHT_COMMAND || b[i][1] == PER_KEY_COMMAND
            &&& forall|i: int| k <= i < b.len() ==> (#[trigger] b[i])[1] == REMAP_COMMAND
        }),
{
    lemma_encode_shape(kb, cfg);
    let b = spec_encode(kb, cfg)->Ok_0;
    let lr = encode_lighting(kb, cfg.light_mode)->Ok_0;
    let rr = encode_remap(kb, cfg.key_mapping)->Ok_0;
    let k = lr.len() as int;
    assert forall|i: int| 0 <= i < k implies (#[trigger] b[i])[1] == LIGHT_COMMAND || b[i][1] == PER_KEY_COMMAND by {
        assert(b[i] == lr[i]);
    }
    assert forall|i: int| k <= i < b.len() implies (#[trigger] b[i])[1] == REMAP_COMMAND by {
        assert(b[i] == rr[i - k]);
    }
}

/// In the custom per-key mode the colour table covers every key the keyboard
/// has, overridden or not: key `i` sits in table report `i / 15` (the report
/// after the mode report) at byte `4 + 4 * (i % 15)`, with its position and
/// its colour, which is the default colour where no entry overrides it.
pub proof fn lemma_per_key_table_is_dense(kb: Keyboard, cfg: KeyboardConfig, i: int)
    requires
        cfg.light_mode is Some,
        cfg.light_mode->Some_0.mode_bit == CUSTOM_MODE_BIT,
        spec_encode(kb, cfg) is Ok,
        0 <= i < kb.keys@.len(),
    ensures
        ({
            let b = spec_encode(kb, cfg)->Ok_0;
            let j = 1 + i / (COLORS_PER_REPORT as int);
            let at = HEADER_LEN + (COLOR_ENTRY_LEN as int) * (i % (COLORS_PER_REPORT as int));
            let idx = kb.keys@[i].buffer_index;
            let c = key_color(overrides(cfg.light_mode->Some_0), idx);
            &&& j < b.len()
            &&& b[j][at] == idx
            &&& b[j][at + 1] == c.r
            &&& b[j][at + 2] == c.g
            &&& b[j][at + 3] == c.b
        }),
        override_color(overrides(cfg.light_mode->Some_0), kb.keys@[i].buffer_index) is None
            ==> key_color(overrides(cfg.light_mode->Some_0), kb.keys@[i].buffer_index) == default_key_color(),
{
    lemma_encode_shape(kb, cfg);
    let lc = cfg.light_mode->Some_0;
    let b = spec_encode(kb, cfg)->Ok_0;
    let lr = encode_lighting(kb, cfg.light_mode)->Ok_0;
    let ct = color_entries(kb.keys@, overrides(lc));
    let tr = table_reports(PER_KEY_COMMAND, ct, COLORS_PER_REPORT as nat);
    let q = i / (COLORS_PER_REPORT as int);
    lemma_color_entries_width(kb.keys@, overrides(lc));
    lemma_table_entry(PER_KEY_COMMAND, ct, COLORS_PER_REPORT as nat, COLOR_ENTRY_LEN as nat, i, 0);
    lemma_table_entry(PER_KEY_COMMAND, ct, COLORS_PER_REPORT as nat, COLOR_ENTRY_LEN as nat, i, 1);
    lemma_table_entry(PER_KEY_COMMAND, ct, COLORS_PER_REPORT as nat, COLOR_ENTRY_LEN as nat, i, 2);
    lemma_table_entry(PER_KEY_COMMAND, ct, COLORS_PER_REPORT as nat, COLOR_ENTRY_LEN as nat, i, 3);
    assert(lr == seq![light_report(lc)] + tr);
    assert(b[1 + q] == lr[1 + q]);
    assert(lr[1 + q] == tr[q]);
}

} // verus!
