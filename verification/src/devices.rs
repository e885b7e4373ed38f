//! Parsing the device list that `adb devices` / `adb devices -l` prints.

use vstd::prelude::*;
use crate::text::{
    chars_of, copy_range, has_prefix, has_prefix_at, split_lines, string_from_chars, trim,
    trim_bounds, word_bounds, words,
};

verus! {

/// One row from `adb devices` / `adb devices -l`.
///
/// `state` is the raw adb state token (`device`, `unauthorized`, `offline`, …).
/// Optional `model` / `product` come from `-l` properties when present.
#[derive(Clone, Debug, PartialEq, Eq)]
pub struct AdbDevice {
    pub serial: String,
    pub state: String,
    pub model: Option<String>,
    pub product: Option<String>,
}

/// The plain contents of an [`AdbDevice`].
pub struct AdbDeviceView {
    pub serial: Seq<char>,
    pub state: Seq<char>,
    pub model: Option<Seq<char>>,
    pub product: Option<Seq<char>>,
}

/// The characters of an optional string.
pub open spec fn opt_chars(s: Option<String>) -> Option<Seq<char>> {
    match s {
        Some(v) => Some(v@),
        None => None,
    }
}

impl View for AdbDevice {
    type V = AdbDeviceView;

    open spec fn view(&self) -> AdbDeviceView {
        AdbDeviceView {
            serial: self.serial@,
            state: self.state@,
            model: opt_chars(self.model),
            product: opt_chars(self.product),
        }
    }
}

/// The header line that `adb devices` prints before the rows.
pub open spec fn list_header() -> Seq<char> {
    "List of devices"@
}

/// The rest of the first word that starts with `key`, if any.
pub open spec fn find_prop(ws: Seq<Seq<char>>, key: Seq<char>) -> Option<Seq<char>>
    decreases ws.len(),
{
    if ws.len() == 0 {
        None
    } else if has_prefix(ws[0], key) {
        Some(ws[0].subrange(key.len() as int, ws[0].len() as int))
    } else {
        find_prop(ws.drop_first(), key)
    }
}

/// The device a line describes: none for blank lines, for the header, and
/// for lines with fewer than two words; otherwise the serial and state are the
/// first two words and `model:` / `product:` words give the properties.
pub open spec fn line_device(line: Seq<char>) -> Option<AdbDeviceView> {
    let t = trim(line);
    if t.len() == 0 || has_prefix(t, list_header()) {
        None
    } else {
        let ws = words(t);
        if ws.len() < 2 {
            None
        } else {
            Some(
                AdbDeviceView {
                    serial: ws[0],
                    state: ws[1],
                    model: find_prop(ws, "model:"@),
                    product: find_prop(ws, "product:"@),
                },
            )
        }
    }
}

/// The devices that the lines describe, in order.
pub open spec fn devices_of_lines(lines: Seq<Seq<char>>) -> Seq<AdbDeviceView>
    decreases lines.len(),
{
    if lines.len() == 0 {
        seq![]
    } else {
        let pre = devices_of_lines(lines.drop_last());
        match line_device(lines.last()) {
            Some(d) => pre.push(d),
            None => pre,
        }
    }
}

/// The devices that an `adb devices [-l]` listing describes.
pub open spec fn parse_devices(out: Seq<char>) -> Seq<AdbDeviceView> {
    devices_of_lines(split_lines(out))
}

/// The property value after `key` in the first word of `v` that starts with it.
fn find_prop_in(v: &Vec<char>, ws: &Vec<(usize, usize)>, key: &Vec<char>) -> (r: Option<String>)
    requires
        forall|k: int| 0 <= k < ws.len() ==> #[trigger] ws@[k].0 <= ws@[k].1 <= v.len(),
    ensures
        opt_chars(r) == find_prop(
            ws@.map_values(|b: (usize, usize)| v@.subrange(b.0 as int, b.1 as int)),
            key@,
        ),
{
    let ghost all = ws@.map_values(|b: (usize, usize)| v@.subrange(b.0 as int, b.1 as int));
    assert(all.subrange(0, all.len() as int) =~= all);
    let mut k: usize = 0;
    while k < ws.len()
        invariant
            k <= ws.len(),
            all == ws@.map_values(|b: (usize, usize)| v@.subrange(b.0 as int, b.1 as int)),
            forall|j: int| 0 <= j < ws.len() ==> #[trigger] ws@[j].0 <= ws@[j].1 <= v.len(),
            find_prop(all, key@) == find_prop(all.subrange(k as int, all.len() as int), key@),
        decreases ws.len() - k,
    {
        let (s, e) = ws[k];
        let ghost rest = all.subrange(k as int, all.len() as int);
        assert(rest[0] == v@.subrange(s as int, e as int));
        if has_prefix_at(v, s, e, key) {
            let val = copy_range(v, s + key.len(), e);
            assert(val@ =~= rest[0].subrange(key@.len() as int, rest[0].len() as int));
            return Some(string_from_chars(val.as_slice()));
        }
        assert(rest.drop_first() =~= all.subrange(k + 1, all.len() as int));
        k = k + 1;
    }
    None
}

/// The device that `v[start..end]` describes, as [`line_device`] says.
fn device_of_line(v: &Vec<char>, start: usize, end: usize, header: &Vec<char>, model_key: &Vec<
    char,
>, product_key: &Vec<char>) -> (r: Option<AdbDevice>)
    requires
        start <= end <= v.len(),
        header@ == list_header(),
        model_key@ == "model:"@,
        product_key@ == "product:"@,
    ensures
        match r {
            Some(d) => line_device(v@.subrange(start as int, end as int)) == Some(d@),
            None => line_device(v@.subrange(start as int, end as int)) is None,
        },
{
    let (lo, hi) = trim_bounds(v, start, end);
    if lo == hi || has_prefix_at(v, lo, hi, header) {
        return None;
    }
    let ws = word_bounds(v, lo, hi);
    let ghost all = ws@.map_values(|b: (usize, usize)| v@.subrange(b.0 as int, b.1 as int));
    if ws.len() < 2 {
        return None;
    }
    let (s0, e0) = ws[0];
    let (s1, e1) = ws[1];
    assert(all[0] == v@.subrange(s0 as int, e0 as int));
    assert(all[1] == v@.subrange(s1 as int, e1 as int));
    let serial = string_from_chars(copy_range(v, s0, e0).as_slice());
    let state = string_from_chars(copy_range(v, s1, e1).as_slice());
    assert(forall|k: int| 0 <= k < ws.len() ==> #[trigger] ws@[k].0 <= ws@[k].1 <= v.len());
    let model = find_prop_in(v, &ws, model_key);
    assert(forall|k: int| 0 <= k < ws.len() ==> #[trigger] ws@[k].0 <= ws@[k].1 <= v.len());
    let product = find_prop_in(v, &ws, product_key);
    Some(AdbDevice { serial, state, model, product })
}

/// Parse stdout of `adb devices` or `adb devices -l`.
///
/// Skips the `List of devices attached` header and blank lines.
/// Only uses whitespace-separated columns as produced by stock adb.
pub fn parse_adb_devices_l(stdout: &str) -> (devices: Vec<AdbDevice>)
    ensures
        devices@.map_values(|d: AdbDevice| d@) == parse_devices(stdout@),
{
    let v = chars_of(stdout);
    let header = chars_of("List of devices");
    let model_key = chars_of("model:");
    let product_key = chars_of("product:");
    let mut devices: Vec<AdbDevice> = Vec::new();
    let ghost mut done: Seq<Seq<char>> = seq![];
    let mut line_start: usize = 0;
    let mut i: usize = 0;
    assert(v@.subrange(0, 0) =~= Seq::<char>::empty());
    while i < v.len()
        invariant
            line_start <= i <= v.len(),
            v@ == stdout@,
            header@ == list_header(),
            model_key@ == "model:"@,
            product_key@ == "product:"@,
            split_lines(v@.subrange(0, i as int)) == done.push(
                v@.subrange(line_start as int, i as int),
            ),
            devices@.map_values(|d: AdbDevice| d@) == devices_of_lines(done),
        decreases v.len() - i,
    {
        let ghost pre = v@.subrange(0, i as int);
        assert(v@.subrange(0, i + 1).drop_last() =~= pre);
        if v[i] == '\n' {
            let ghost line = v@.subrange(line_start as int, i as int);
            let ghost old_devices = devices@;
            let d = device_of_line(&v, line_start, i, &header, &model_key, &product_key);
            proof {
                assert(done.push(line).drop_last() =~= done);
            }
            match d {
                Some(d) => {
                    devices.push(d);
                    assert(devices@.map_values(|d: AdbDevice| d@) =~= old_devices.map_values(
                        |d: AdbDevice| d@,
                    ).push(d@));
                },
                None => {},
            }
            proof {
                done = done.push(line);
            }
            line_start = i + 1;
            assert(v@.subrange(line_start as int, i + 1) =~= Seq::<char>::empty());
        } else {
            assert(v@.subrange(line_start as int, i + 1) =~= v@.subrange(
                line_start as int,
                i as int,
            ).push(v@[i as int]));
        }
        i = i + 1;
    }
    assert(v@.subrange(0, v.len() as int) =~= v@);
    let ghost line = v@.subrange(line_start as int, v.len() as int);
    let ghost old_devices = devices@;
    let d = device_of_line(&v, line_start, v.len(), &header, &model_key, &product_key);
    proof {
        assert(done.push(line).drop_last() =~= done);
    }
    match d {
        Some(d) => {
            devices.push(d);
            assert(devices@.map_values(|d: AdbDevice| d@) =~= old_devices.map_values(
                |d: AdbDevice| d@,
            ).push(d@));
        },
        None => {},
    }
    devices
}

} // verus!
