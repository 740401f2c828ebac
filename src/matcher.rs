use vstd::prelude::*;
use vstd::string::*;
use crate::json::{as_bool, member};
use crate::loader::{load_error, load_from_source, loaded_view, DescriptorSource};
use crate::model::{Keyboard, KeyboardView};

verus! {

/// The one vendor whose keyboards are supported.
pub const SUPPORTED_VID: u16 = 0x258a;

/// HID usage page and usage of the keyboard collection on Linux and macOS.
pub const KEYBOARD_USAGE_PAGE: u16 = 0x0001;
pub const KEYBOARD_USAGE: u16 = 0x0080;

/// How to pick the right HID collection among those one keyboard exposes.
#[derive(Debug, Clone, Copy, PartialEq, Eq, Structural)]
pub enum Platform {
    /// By a collection marker in the device path.
    Windows,
    /// By the HID usage page and usage.
    Unix,
}

/// One HID device entry as the operating system lists it.
#[derive(Debug, Clone)]
pub struct DeviceEntry {
    pub vid: u16,
    pub pid: u16,
    pub path: String,
    pub usage_page: u16,
    pub usage: u16,
}

/// Whether `n` occurs in `h`.
pub open spec fn seq_contains(h: Seq<char>, n: Seq<char>) -> bool {
    exists|i: int| 0 <= i && i + n.len() <= h.len() && #[trigger] h.subrange(i, i + n.len()) == n
}

pub open spec fn spec_windows_match(path: Seq<char>, col: Option<Seq<char>>) -> bool {
    match col {
        Some(c) => seq_contains(path, "&Col"@ + c),
        None => seq_contains(path, "&Col01"@) || seq_contains(path, "&Col02"@),
    }
}

pub open spec fn spec_unix_match(usage_page: u16, usage: u16) -> bool {
    usage_page == KEYBOARD_USAGE_PAGE && usage == KEYBOARD_USAGE
}

/// Whether the platform's rule picks this entry's collection.
pub open spec fn accepts(platform: Platform, e: DeviceEntry) -> bool {
    match platform {
        Platform::Windows => spec_windows_match(e.path@, None),
        Platform::Unix => spec_unix_match(e.usage_page, e.usage),
    }
}

/// Whether a keyboard record can be loaded from what was found on disk.
pub open spec fn source_loads(s: DescriptorSource) -> bool {
    match s.descriptor {
        Ok(d) => load_error(d, s.image_present) is None,
        Err(_) => false,
    }
}

/// Whether a picked entry already has product id `pid`.
pub open spec fn seen(entries: Seq<DeviceEntry>, prev: Seq<int>, pid: u16) -> bool {
    exists|q: int| 0 <= q < prev.len() && (#[trigger] entries[prev[q]]).pid == pid
}

/// The entries among the first `n` that a scan turns into keyboards, in order:
/// of the supported vendor, picked by the platform's rule, loadable, and the
/// first such entry of their product id.
pub open spec fn picked(
    entries: Seq<DeviceEntry>,
    sources: Seq<DescriptorSource>,
    platform: Platform,
    n: int,
) -> Seq<int>
    decreases n,
{
    if n <= 0 {
        Seq::empty()
    } else {
        let prev = picked(entries, sources, platform, n - 1);
        let e = entries[n - 1];
        if e.vid == SUPPORTED_VID && !seen(entries, prev, e.pid) && accepts(platform, e)
            && source_loads(sources[n - 1]) {
            prev.push(n - 1)
        } else {
            prev
        }
    }
}

/// The keyboard records a scan yields.
pub open spec fn scan_view(
    entries: Seq<DeviceEntry>,
    sources: Seq<DescriptorSource>,
    platform: Platform,
) -> Seq<KeyboardView> {
    picked(entries, sources, platform, entries.len() as int).map_values(
        |i: int| loaded_view(entries[i].vid, entries[i].pid, entries[i].path@, sources[i].descriptor->Ok_0),
    )
}

/// Whether `needle` occurs in `hay`.
pub fn str_contains(hay: &str, needle: &str) -> (r: bool)
    ensures
        r == seq_contains(hay@, needle@),
{
    let hl = hay.unicode_len();
    let nl = needle.unicode_len();
    if nl > hl {
        return false;
    }
    if nl == 0 {
        assert(hay@.subrange(0, 0 + needle@.len() as int) =~= needle@);
        return true;
    }
    let mut i: usize = 0;
    while i <= hl - nl
        invariant
            hl == hay@.len(),
            nl == needle@.len(),
            1 <= nl <= hl,
            i <= hl - nl + 1,
            forall|p: int| 0 <= p < i ==> #[trigger] hay@.subrange(p, p + nl) != needle@,
        decreases hl - nl + 1 - i,
    {
        let mut j: usize = 0;
        let mut same = true;
        while j < nl
            invariant
                hl == hay@.len(),
                nl == needle@.len(),
                i + nl <= hl,
                j <= nl,
                same ==> forall|q: int| 0 <= q < j ==> hay@[i + q] == needle@[q],
                !same ==> hay@.subrange(i as int, i + nl) != needle@,
            decreases nl - j,
        {
            if same && hay.get_char(i + j) != needle.get_char(j) {
                same = false;
                assert(hay@.subrange(i as int, i + nl)[j as int] != needle@[j as int]);
            }
            j = j + 1;
        }
        if same {
            assert(hay@.subrange(i as int, i + nl) =~= needle@);
            return true;
        }
        i = i + 1;
    }
    assert forall|p: int| 0 <= p && p + nl <= hl implies #[trigger] hay@.subrange(p, p + nl) != needle@ by {
        assert(p < i);
    }
    false
}

/// Whether a Windows device path names the keyboard's collection: the given
/// collection marker, or by default one of the two usual ones.
pub fn matches_windows_path(path: &str, vid: u16, pid: u16, col_number: Option<&str>) -> (r: bool)
    ensures
        r == spec_windows_match(path@, match col_number { Some(c) => Some(c@), None => None }),
{
    match col_number {
        Some(col) => {
            let pattern = String::from_str("&Col").concat(col);
            str_contains(path, pattern.as_str())
        },
        None => str_contains(path, "&Col01") || str_contains(path, "&Col02"),
    }
}

/// Whether a HID usage page and usage are those of the keyboard collection.
pub fn matches_unix_device(usage_page: u16, usage: u16) -> (r: bool)
    ensures
        r == spec_unix_match(usage_page, usage),
{
    usage_page == KEYBOARD_USAGE_PAGE && usage == KEYBOARD_USAGE
}

/// Whether the platform's rule picks this entry's collection.
pub fn accepts_entry(platform: Platform, entry: &DeviceEntry) -> (r: bool)
    ensures
        r == accepts(platform, *entry),
{
    match platform {
        Platform::Windows => matches_windows_path(entry.path.as_str(), entry.vid, entry.pid, None),
        Platform::Unix => matches_unix_device(entry.usage_page, entry.usage),
    }
}

fn pid_seen(seen_pids: &Vec<u16>, pid: u16) -> (r: bool)
    ensures
        r == seen_pids@.contains(pid),
{
    let mut i: usize = 0;
    while i < seen_pids.len()
        invariant
            i <= seen_pids.len(),
            forall|q: int| 0 <= q < i ==> seen_pids@[q] != pid,
        decreases seen_pids.len() - i,
    {
        if seen_pids[i] == pid {
            return true;
        }
        i = i + 1;
    }
    false
}

/// Turns the listed HID devices into keyboard records, in listing order:
/// `sources[i]` is what was found on disk for `entries[i]`. Entries of other
/// vendors, other collections, further collections of a keyboard already
/// found, and those whose descriptor bundle does not load are left out.
pub fn scan_devices(entries: &Vec<DeviceEntry>, sources: &Vec<DescriptorSource>, platform: Platform) -> (r: Vec<Keyboard>)
    requires
        sources.len() == entries.len(),
    ensures
        r@.map_values(|k: Keyboard| k@) == scan_view(entries@, sources@, platform),
{
    let ghost es = entries@;
    let ghost ss = sources@;
    let mut out: Vec<Keyboard> = Vec::new();
    let mut seen_pids: Vec<u16> = Vec::new();
    let mut i: usize = 0;
    while i < entries.len()
        invariant
            es == entries@,
            ss == sources@,
            sources.len() == entries.len(),
            i <= entries.len(),
            out.len() == picked(es, ss, platform, i as int).len(),
            seen_pids.len() == picked(es, ss, platform, i as int).len(),
            forall|q: int| 0 <= q < out.len() ==> {
                let p = #[trigger] picked(es, ss, platform, i as int)[q];
                &&& 0 <= p < i
                &&& out@[q]@ == loaded_view(es[p].vid, es[p].pid, es[p].path@, ss[p].descriptor->Ok_0)
                &&& seen_pids@[q] == es[p].pid
            },
        decreases entries.len() - i,
    {
        let ghost prev = picked(es, ss, platform, i as int);
        let e = &entries[i];
        proof {
            if seen(es, prev, e.pid) {
                let q = choose|q: int| 0 <= q < prev.len() && (#[trigger] es[prev[q]]).pid == e.pid;
                assert(seen_pids@[q] == e.pid);
            }
            if seen_pids@.contains(e.pid) {
                let q = choose|q: int| 0 <= q < seen_pids@.len() && seen_pids@[q] == e.pid;
                assert(es[prev[q]].pid == e.pid);
            }
        }
        if e.vid == SUPPORTED_VID && !pid_seen(&seen_pids, e.pid) && accepts_entry(platform, e) {
            match load_from_source(e.vid, e.pid, e.path.as_str(), &sources[i]) {
                Ok(kb) => {
                    seen_pids.push(e.pid);
                    out.push(kb);
                },
                Err(_) => {},
            }
        }
        proof {
            let next = picked(es, ss, platform, i as int + 1);
            assert forall|q: int| 0 <= q < out.len() implies {
                let p = #[trigger] next[q];
                &&& 0 <= p < i + 1
                &&& out@[q]@ == loaded_view(es[p].vid, es[p].pid, es[p].path@, ss[p].descriptor->Ok_0)
                &&& seen_pids@[q] == es[p].pid
            } by {
                if q < prev.len() {
                    assert(next[q] == prev[q]);
                }
            }
        }
        i = i + 1;
    }
    assert(out@.map_values(|k: Keyboard| k@) =~= scan_view(es, ss, platform));
    out
}

/// A descriptor marked not enabled is no error for a scan: where every entry
/// of the supported vendor that the platform's rule picks has a descriptor
/// with `enabled` false (or none at all), the scan yields no keyboard.
pub proof fn lemma_disabled_yields_nothing(
    entries: Seq<DeviceEntry>,
    sources: Seq<DescriptorSource>,
    platform: Platform,
)
    requires
        sources.len() == entries.len(),
        forall|i: int| 0 <= i < entries.len() && (#[trigger] entries[i]).vid == SUPPORTED_VID
            && accepts(platform, entries[i]) ==> match sources[i].descriptor {
            Ok(d) => as_bool(member(d, "enabled"@)) == Some(false),
            Err(_) => true,
        },
    ensures
        scan_view(entries, sources, platform).len() == 0,
{
    lemma_picked_none(entries, sources, platform, entries.len() as int);
}

proof fn lemma_picked_none(entries: Seq<DeviceEntry>, sources: Seq<DescriptorSource>, platform: Platform, n: int)
    requires
        0 <= n <= entries.len(),
        sources.len() == entries.len(),
        forall|i: int| 0 <= i < entries.len() && (#[trigger] entries[i]).vid == SUPPORTED_VID
            && accepts(platform, entries[i]) ==> match sources[i].descriptor {
            Ok(d) => as_bool(member(d, "enabled"@)) == Some(false),
            Err(_) => true,
        },
    ensures
        picked(entries, sources, platform, n).len() == 0,
    decreases n,
{
    if n > 0 {
        lemma_picked_none(entries, sources, platform, n - 1);
        let e = entries[n - 1];
        if e.vid == SUPPORTED_VID && accepts(platform, e) {
            assert(!source_loads(sources[n - 1]));
        }
    }
}

/// A scan keeps the listing order: the entries it picks come in strictly
/// ascending listing position.
pub proof fn lemma_picked_in_listing_order(
    entries: Seq<DeviceEntry>,
    sources: Seq<DescriptorSource>,
    platform: Platform,
    n: int,
)
    requires
        0 <= n,
    ensures
        forall|q: int| 0 <= q < picked(entries, sources, platform, n).len()
            ==> 0 <= #[trigger] picked(entries, sources, platform, n)[q] < n,
        forall|q1: int, q2: int| 0 <= q1 < q2 < picked(entries, sources, platform, n).len()
            ==> #[trigger] picked(entries, sources, platform, n)[q1] < #[trigger] picked(entries, sources, platform, n)[q2],
    decreases n,
{
    if n > 0 {
        lemma_picked_in_listing_order(entries, sources, platform, n - 1);
        let prev = picked(entries, sources, platform, n - 1);
        let cur = picked(entries, sources, platform, n);
        assert forall|q: int| 0 <= q < cur.len() implies 0 <= #[trigger] cur[q] < n by {
            if q < prev.len() {
                assert(cur[q] == prev[q]);
            }
        }
        assert forall|q1: int, q2: int| 0 <= q1 < q2 < cur.len() implies #[trigger] cur[q1] < #[trigger] cur[q2] by {
            assert(cur[q1] == prev[q1]);
            if q2 < prev.len() {
                assert(cur[q2] == prev[q2]);
            }
        }
    }
}

/// Scanning the same device list with the same files twice yields the same
/// keyboard records in the same order.
pub proof fn lemma_scan_is_stable(
    entries: Seq<DeviceEntry>,
    sources: Seq<DescriptorSource>,
    platform: Platform,
    first: Seq<Keyboard>,
    second: Seq<Keyboard>,
)
    requires
        first.map_values(|k: Keyboard| k@) == scan_view(entries, sources, platform),
        second.map_values(|k: Keyboard| k@) == scan_view(entries, sources, platform),
    ensures
        first.len() == second.len(),
        forall|i: int| 0 <= i < first.len() ==> (#[trigger] first[i])@ == second[i]@,
{
    assert(first.map_values(|k: Keyboard| k@).len() == first.len());
    assert(second.map_values(|k: Keyboard| k@).len() == second.len());
    assert forall|i: int| 0 <= i < first.len() implies (#[trigger] first[i])@ == second[i]@ by {
        assert(first.map_values(|k: Keyboard| k@)[i] == first[i]@);
        assert(second.map_values(|k: Keyboard| k@)[i] == second[i]@);
    }
}

} // verus!
