//! The macOS status model: reading trackpad properties out of `ioreg`
//! listings and `defaults` values, combining them into a status, and the
//! labelled rows that the status window shows.

use vstd::prelude::*;
use crate::text::{
    chars_of, decimal, decimal_string, find_chars, find_from, lemma_find_from_first, hex, is_blank, is_blank_str,
    hex_value, is_digit, join, law_decimal_round_trip, law_hex_round_trip, law_zero_padding, lemma_find_from_bounds, occurs_at, padded_hex_string,
    str_eq, trim, trimmed, zero_padded, decimal_value,
};

verus! {

broadcast use vstd::string::group_string_axioms;

// ---------------------------------------------------------------------
// Splitting an ioreg listing into objects
// ---------------------------------------------------------------------

/// The text in front of each object of an `ioreg` listing but the first.
pub open spec fn ioreg_separator() -> Seq<char> {
    seq!['\n', '+', '-', 'o', ' ']
}

/// The pieces of `s[start..]` between occurrences of the separator,
/// matched from left to right.
pub open spec fn split_from(s: Seq<char>, start: int) -> Seq<Seq<char>>
    decreases s.len() + 1 - start,
{
    match find_from(s, ioreg_separator(), start) {
        Some(i) => {
            proof {
                lemma_find_from_bounds(s, ioreg_separator(), start);
            }
            seq![s.subrange(start, i)] + split_from(s, i + 5)
        },
        None => seq![s.subrange(start, s.len() as int)],
    }
}

/// The pieces of `ps` that are not blank, in order.
pub open spec fn non_blank(ps: Seq<Seq<char>>) -> Seq<Seq<char>>
    decreases ps.len(),
{
    if ps.len() == 0 {
        Seq::empty()
    } else if is_blank(ps[0]) {
        non_blank(ps.drop_first())
    } else {
        seq![ps[0]] + non_blank(ps.drop_first())
    }
}

/// The objects of an `ioreg` listing: the non-blank pieces between
/// separators.
pub open spec fn ioreg_objects(s: Seq<char>) -> Seq<Seq<char>> {
    non_blank(split_from(s, 0))
}

proof fn lemma_non_blank_cons(p: Seq<char>, rest: Seq<Seq<char>>)
    ensures
        non_blank(seq![p] + rest) == if is_blank(p) {
            non_blank(rest)
        } else {
            seq![p] + non_blank(rest)
        },
{
    assert((seq![p] + rest).drop_first() =~= rest);
    assert((seq![p] + rest)[0] == p);
}

/// Splits an `ioreg` listing into the text of its objects.
pub fn split_ioreg_objects(output: &str) -> (r: Vec<&str>)
    ensures
        r@.len() == ioreg_objects(output@).len(),
        forall|i: int| 0 <= i < r@.len() ==> #[trigger] r@[i]@ == ioreg_objects(output@)[i],
{
    let ghost s = output@;
    let v = chars_of(output);
    let sep: Vec<char> = vec!['\n', '+', '-', 'o', ' '];
    assert(sep@ =~= ioreg_separator());
    let mut r: Vec<&str> = Vec::new();
    let ghost mut views: Seq<Seq<char>> = Seq::empty();
    let mut start: usize = 0;
    loop
        invariant
            v@ == s,
            s == output@,
            sep@ == ioreg_separator(),
            start <= v.len(),
            r@.len() == views.len(),
            forall|i: int| 0 <= i < r@.len() ==> #[trigger] r@[i]@ == views[i],
            ioreg_objects(s) == views + non_blank(split_from(s, start as int)),
        decreases v.len() + 1 - start,
    {
        proof {
            lemma_find_from_bounds(s, ioreg_separator(), start as int);
        }
        match find_chars(&v, &sep, start) {
            Some(i) => {
                let piece = output.substring_char(start, i);
                proof {
                    assert(split_from(s, start as int) == seq![s.subrange(start as int, i as int)]
                        + split_from(s, i + 5));
                    lemma_non_blank_cons(s.subrange(start as int, i as int), split_from(s, i + 5));
                }
                if !is_blank_str(piece) {
                    r.push(piece);
                    proof {
                        assert(views.push(piece@) + non_blank(split_from(s, i + 5)) =~= views + (
                        seq![piece@] + non_blank(split_from(s, i + 5))));
                        views = views.push(piece@);
                    }
                }
                start = i + 5;
            },
            None => {
                let piece = output.substring_char(start, v.len());
                proof {
                    lemma_non_blank_cons(s.subrange(start as int, s.len() as int), Seq::empty());
                    assert(seq![s.subrange(start as int, s.len() as int)] + Seq::<Seq<char>>::empty()
                        =~= seq![s.subrange(start as int, s.len() as int)]);
                    assert(non_blank(Seq::<Seq<char>>::empty()) =~= Seq::<Seq<char>>::empty());
                }
                if !is_blank_str(piece) {
                    r.push(piece);
                    proof {
                        views = views.push(piece@);
                    }
                }
                assert(ioreg_objects(s) =~= views);
                return r;
            },
        }
    }
}

// ---------------------------------------------------------------------
// Reading properties of one object
// ---------------------------------------------------------------------

/// The text that starts a string property: `"<key>" = "`.
pub open spec fn string_needle(key: Seq<char>) -> Seq<char> {
    "\""@ + key + "\" = \""@
}

/// The text that starts a numeric property: `"<key>" = `.
pub open spec fn number_needle(key: Seq<char>) -> Seq<char> {
    "\""@ + key + "\" = "@
}

/// The string property `key` of `block`: the text from the first
/// occurrence of its needle up to the next double quote.
pub open spec fn spec_string_property(block: Seq<char>, key: Seq<char>) -> Option<Seq<char>> {
    match find_from(block, string_needle(key), 0) {
        None => None,
        Some(i) => {
            let start = i + string_needle(key).len();
            match find_from(block, seq!['"'], start) {
                None => None,
                Some(j) => Some(block.subrange(start, j)),
            }
        },
    }
}

/// End of the run of ASCII digits that starts at `k`.
pub open spec fn digit_run_end(b: Seq<char>, k: int) -> int
    decreases b.len() - k,
{
    if 0 <= k < b.len() && is_digit(b[k]) {
        digit_run_end(b, k + 1)
    } else {
        k
    }
}

/// The numeric property `key` of `block`: the digits after the first
/// occurrence of its needle, read as a `u32`; none when there are no
/// digits or the value does not fit.
pub open spec fn spec_u32_property(block: Seq<char>, key: Seq<char>) -> Option<u32> {
    match find_from(block, number_needle(key), 0) {
        None => None,
        Some(i) => {
            let start = i + number_needle(key).len();
            let ds = block.subrange(start, digit_run_end(block, start));
            if ds.len() == 0 || decimal_value(ds) > u32::MAX {
                None
            } else {
                Some(decimal_value(ds) as u32)
            }
        },
    }
}

/// Reads the string property `key` of one `ioreg` object.
pub fn read_string_property(block: &str, key: &str) -> (r: Option<String>)
    ensures
        match spec_string_property(block@, key@) {
            Some(v) => r matches Some(x) && x@ == v,
            None => r is None,
        },
{
    let needle_text = join(join("\"", key).as_str(), "\" = \"");
    let needle = chars_of(needle_text.as_str());
    let b = chars_of(block);
    let quote: Vec<char> = vec!['"'];
    let ghost s = block@;
    assert(needle@ =~= string_needle(key@));
    proof {
        lemma_find_from_bounds(s, string_needle(key@), 0);
    }
    match find_chars(&b, &needle, 0) {
        None => None,
        Some(i) => {
            assert(occurs_at(s, string_needle(key@), i as int));
            let blen = b.len();
            assert(i + needle@.len() <= blen);
            let start = i + needle.len();
            proof {
                lemma_find_from_bounds(s, seq!['"'], start as int);
                assert(quote@ =~= seq!['"']);
            }
            match find_chars(&b, &quote, start) {
                None => None,
                Some(j) => Some(block.substring_char(start, j).to_owned()),
            }
        },
    }
}

/// Reads the numeric property `key` of one `ioreg` object.
pub fn read_u32_property(block: &str, key: &str) -> (r: Option<u32>)
    ensures
        r == spec_u32_property(block@, key@),
{
    let needle_text = join(join("\"", key).as_str(), "\" = ");
    let needle = chars_of(needle_text.as_str());
    let b = chars_of(block);
    let ghost s = block@;
    assert(needle@ =~= number_needle(key@));
    proof {
        lemma_find_from_bounds(s, number_needle(key@), 0);
    }
    match find_chars(&b, &needle, 0) {
        None => None,
        Some(i) => {
            assert(occurs_at(s, number_needle(key@), i as int));
            let blen = b.len();
            assert(i + needle@.len() <= blen);
            let start = i + needle.len();
            let mut k = start;
            let mut value: u64 = 0;
            while k < b.len() && '0' <= b[k] && b[k] <= '9'
                invariant
                    b@ == s,
                    start <= k <= b.len(),
                    digit_run_end(s, start as int) == digit_run_end(s, k as int),
                    forall|m: int| start <= m < k ==> is_digit(#[trigger] s[m]),
                    value as int == if decimal_value(s.subrange(start as int, k as int))
                        < 0x1_0000_0000 {
                        decimal_value(s.subrange(start as int, k as int))
                    } else {
                        0x1_0000_0000
                    },
                decreases b.len() - k,
            {
                let d = (b[k] as u32 - 48) as u64;
                proof {
                    let pre = s.subrange(start as int, k as int);
                    let next = s.subrange(start as int, k + 1);
                    assert(next.drop_last() =~= pre);
                    assert(decimal_value(pre) >= 0) by {
                        lemma_decimal_value_nonneg(pre);
                    }
                }
                let grown = value * 10 + d;
                value = if grown > 0x1_0000_0000 {
                    0x1_0000_0000
                } else {
                    grown
                };
                k = k + 1;
            }
            if k == start || value > 0xffff_ffff {
                None
            } else {
                Some(value as u32)
            }
        },
    }
}

/// A numeral of ASCII digits has a non-negative value.
pub proof fn lemma_decimal_value_nonneg(ds: Seq<char>)
    requires
        forall|i: int| 0 <= i < ds.len() ==> is_digit(#[trigger] ds[i]),
    ensures
        decimal_value(ds) >= 0,
    decreases ds.len(),
{
    if ds.len() > 0 {
        assert forall|i: int| 0 <= i < ds.drop_last().len() implies is_digit(
            #[trigger] ds.drop_last()[i],
        ) by {
            assert(ds.drop_last()[i] == ds[i]);
        }
        lemma_decimal_value_nonneg(ds.drop_last());
        assert(is_digit(ds[ds.len() - 1]));
    }
}

} // verus!

verus! {

// ---------------------------------------------------------------------
// Devices
// ---------------------------------------------------------------------

/// Product ids of the Magic Trackpad 2 and the Magic Trackpad USB-C.
pub open spec fn spec_is_magic_trackpad(product_id: u32) -> bool {
    product_id == 0x0265 || product_id == 0x0324
}

/// Whether a USB product id is one of a Magic Trackpad.
pub fn is_magic_trackpad_product(product_id: u32) -> (r: bool)
    ensures
        r == spec_is_magic_trackpad(product_id),
{
    product_id == 0x0265 || product_id == 0x0324
}

/// The name shown for a product id when the device reports none.
pub open spec fn spec_fallback_name(product_id: u32) -> Seq<char> {
    if product_id == 0x0265 {
        "Magic Trackpad 2"@
    } else if product_id == 0x0324 {
        "Magic Trackpad USB-C"@
    } else {
        "Magic Trackpad"@
    }
}

/// The name shown for a product id when the device reports none.
pub fn fallback_product_name(product_id: u32) -> (r: String)
    ensures
        r@ == spec_fallback_name(product_id),
{
    if product_id == 0x0265 {
        "Magic Trackpad 2".to_owned()
    } else if product_id == 0x0324 {
        "Magic Trackpad USB-C".to_owned()
    } else {
        "Magic Trackpad".to_owned()
    }
}

/// `value`, or `Unknown` when it is blank.
pub open spec fn spec_value_or_unknown(value: Seq<char>) -> Seq<char> {
    if is_blank(value) {
        "Unknown"@
    } else {
        value
    }
}

/// `value`, or `Unknown` when it is blank.
pub fn value_or_unknown(value: &str) -> (r: String)
    ensures
        r@ == spec_value_or_unknown(value@),
{
    if is_blank_str(value) {
        "Unknown".to_owned()
    } else {
        value.to_owned()
    }
}

/// A trackpad as the device-management service lists it.
#[derive(Clone, Debug, PartialEq, Eq)]
pub struct ManagementDevice {
    pub product: String,
    pub transport: String,
    pub battery_percent: Option<u8>,
    pub serial_number: String,
    pub product_id: u32,
    pub firmware: String,
}

/// The content of a [`ManagementDevice`].
pub struct ManagementDeviceView {
    pub product: Seq<char>,
    pub transport: Seq<char>,
    pub battery_percent: Option<u8>,
    pub serial_number: Seq<char>,
    pub product_id: u32,
    pub firmware: Seq<char>,
}

impl View for ManagementDevice {
    type V = ManagementDeviceView;

    open spec fn view(&self) -> ManagementDeviceView {
        ManagementDeviceView {
            product: self.product@,
            transport: self.transport@,
            battery_percent: self.battery_percent,
            serial_number: self.serial_number@,
            product_id: self.product_id,
            firmware: self.firmware@,
        }
    }
}

/// A trackpad as the multitouch driver lists it.
#[derive(Clone, Debug, PartialEq, Eq)]
pub struct MultitouchDevice {
    pub product: String,
    pub transport: String,
    pub serial_number: String,
    pub product_id: u32,
    pub pointer_multiplier: String,
}

/// The content of a [`MultitouchDevice`].
pub struct MultitouchDeviceView {
    pub product: Seq<char>,
    pub transport: Seq<char>,
    pub serial_number: Seq<char>,
    pub product_id: u32,
    pub pointer_multiplier: Seq<char>,
}

impl View for MultitouchDevice {
    type V = MultitouchDeviceView;

    open spec fn view(&self) -> MultitouchDeviceView {
        MultitouchDeviceView {
            product: self.product@,
            transport: self.transport@,
            serial_number: self.serial_number@,
            product_id: self.product_id,
            pointer_multiplier: self.pointer_multiplier@,
        }
    }
}

/// A string property, or `default` when it is missing.
pub open spec fn string_or(block: Seq<char>, key: Seq<char>, default: Seq<char>) -> Seq<char> {
    match spec_string_property(block, key) {
        Some(v) => v,
        None => default,
    }
}

/// A numeric property as decimal text, or empty text when it is missing.
pub open spec fn number_text(block: Seq<char>, key: Seq<char>) -> Option<Seq<char>> {
    match spec_u32_property(block, key) {
        Some(v) => Some(decimal(v as nat)),
        None => None,
    }
}

/// Index of the first object whose `ProductID` is a Magic Trackpad's.
pub open spec fn first_trackpad_from(blocks: Seq<Seq<char>>, i: int) -> Option<int>
    decreases blocks.len() - i,
{
    if i < 0 || i >= blocks.len() {
        None
    } else if spec_u32_property(blocks[i], "ProductID"@) matches Some(p) && spec_is_magic_trackpad(p) {
        Some(i)
    } else {
        first_trackpad_from(blocks, i + 1)
    }
}

pub proof fn lemma_first_trackpad(blocks: Seq<Seq<char>>, i: int)
    ensures
        first_trackpad_from(blocks, i) matches Some(k) ==> {
            &&& i <= k < blocks.len()
            &&& spec_u32_property(blocks[k], "ProductID"@) matches Some(p)
            &&& spec_is_magic_trackpad(p)
        },
    decreases blocks.len() - i,
{
    if 0 <= i < blocks.len() {
        lemma_first_trackpad(blocks, i + 1);
    }
}

/// The management device that `block` describes.
pub open spec fn spec_management_device(block: Seq<char>) -> ManagementDeviceView {
    ManagementDeviceView {
        product: string_or(block, "Product"@, Seq::empty()),
        transport: string_or(block, "Transport"@, "Unknown"@),
        battery_percent: match spec_u32_property(block, "BatteryPercent"@) {
            Some(v) => if v <= 255 {
                Some(v as u8)
            } else {
                None
            },
            None => None,
        },
        serial_number: string_or(block, "SerialNumber"@, Seq::empty()),
        product_id: spec_u32_property(block, "ProductID"@)->Some_0,
        firmware: match number_text(block, "MTFW Version"@) {
            Some(t) => t,
            None => match number_text(block, "BTFW Version"@) {
                Some(t) => t,
                None => Seq::empty(),
            },
        },
    }
}

/// The multitouch device that `block` describes.
pub open spec fn spec_multitouch_device(block: Seq<char>) -> MultitouchDeviceView {
    MultitouchDeviceView {
        product: string_or(block, "Product"@, Seq::empty()),
        transport: string_or(block, "Transport"@, Seq::empty()),
        serial_number: string_or(block, "SerialNumber"@, Seq::empty()),
        product_id: spec_u32_property(block, "ProductID"@)->Some_0,
        pointer_multiplier: match number_text(block, "HIDPointerAccelerationMultiplier"@) {
            Some(t) => t,
            None => Seq::empty(),
        },
    }
}

/// A string property, or `default` when it is missing.
fn read_string_or(block: &str, key: &str, default: &str) -> (r: String)
    ensures
        r@ == string_or(block@, key@, default@),
{
    match read_string_property(block, key) {
        Some(v) => v,
        None => default.to_owned(),
    }
}

/// A numeric property as decimal text.
fn read_number_text(block: &str, key: &str) -> (r: Option<String>)
    ensures
        match number_text(block@, key@) {
            Some(t) => r matches Some(x) && x@ == t,
            None => r is None,
        },
{
    match read_u32_property(block, key) {
        Some(v) => Some(decimal_string(v as u64)),
        None => None,
    }
}

/// The index of the first object of an `ioreg` listing that is a Magic
/// Trackpad.
fn find_trackpad_object(blocks: &Vec<&str>) -> (r: Option<usize>)
    ensures
        match r {
            Some(i) => first_trackpad_from(blocks@.map_values(|b: &str| b@), 0) == Some(i as int),
            None => first_trackpad_from(blocks@.map_values(|b: &str| b@), 0) is None,
        },
{
    let ghost views = blocks@.map_values(|b: &str| b@);
    let mut i: usize = 0;
    while i < blocks.len()
        invariant
            views == blocks@.map_values(|b: &str| b@),
            i <= blocks.len(),
            first_trackpad_from(views, 0) == first_trackpad_from(views, i as int),
        decreases blocks.len() - i,
    {
        assert(views[i as int] == blocks@[i as int]@);
        match read_u32_property(blocks[i], "ProductID") {
            Some(p) => {
                if is_magic_trackpad_product(p) {
                    return Some(i);
                }
            },
            None => {},
        }
        i = i + 1;
    }
    None
}

/// The Magic Trackpad that an `ioreg` listing of the device-management
/// service shows: the first object with a Magic Trackpad product id.
pub fn read_trackpad_management_device(output: &str) -> (r: Option<ManagementDevice>)
    ensures
        match first_trackpad_from(ioreg_objects(output@), 0) {
            Some(i) => r matches Some(d) && d@ == spec_management_device(ioreg_objects(output@)[i]),
            None => r is None,
        },
{
    let blocks = split_ioreg_objects(output);
    assert(blocks@.map_values(|b: &str| b@) =~= ioreg_objects(output@));
    proof {
        lemma_first_trackpad(ioreg_objects(output@), 0);
    }
    match find_trackpad_object(&blocks) {
        None => None,
        Some(i) => {
            let block = blocks[i];
            assert(block@ == ioreg_objects(output@)[i as int]);
            let product_id = match read_u32_property(block, "ProductID") {
                Some(p) => p,
                None => 0,
            };
            let battery_percent = match read_u32_property(block, "BatteryPercent") {
                Some(v) => if v <= 255 {
                    Some(v as u8)
                } else {
                    None
                },
                None => None,
            };
            let firmware = match read_number_text(block, "MTFW Version") {
                Some(t) => t,
                None => match read_number_text(block, "BTFW Version") {
                    Some(t) => t,
                    None => String::new(),
                },
            };
            let d = ManagementDevice {
                product: read_string_or(block, "Product", ""),
                transport: read_string_or(block, "Transport", "Unknown"),
                battery_percent,
                serial_number: read_string_or(block, "SerialNumber", ""),
                product_id,
                firmware,
            };
            proof {
                assert(""@ =~= Seq::<char>::empty()) by {
                    reveal_strlit("");
                }
            }
            assert(d@ == spec_management_device(block@));
            Some(d)
        },
    }
}

/// The Magic Trackpad that an `ioreg` listing of the multitouch driver
/// shows: the first object with a Magic Trackpad product id.
pub fn read_multitouch_device(output: &str) -> (r: Option<MultitouchDevice>)
    ensures
        match first_trackpad_from(ioreg_objects(output@), 0) {
            Some(i) => r matches Some(d) && d@ == spec_multitouch_device(ioreg_objects(output@)[i]),
            None => r is None,
        },
{
    let blocks = split_ioreg_objects(output);
    assert(blocks@.map_values(|b: &str| b@) =~= ioreg_objects(output@));
    proof {
        lemma_first_trackpad(ioreg_objects(output@), 0);
    }
    match find_trackpad_object(&blocks) {
        None => None,
        Some(i) => {
            let block = blocks[i];
            assert(block@ == ioreg_objects(output@)[i as int]);
            let product_id = match read_u32_property(block, "ProductID") {
                Some(p) => p,
                None => 0,
            };
            let pointer_multiplier = match read_number_text(block, "HIDPointerAccelerationMultiplier") {
                Some(t) => t,
                None => String::new(),
            };
            let d = MultitouchDevice {
                product: read_string_or(block, "Product", ""),
                transport: read_string_or(block, "Transport", ""),
                serial_number: read_string_or(block, "SerialNumber", ""),
                product_id,
                pointer_multiplier,
            };
            proof {
                assert(""@ =~= Seq::<char>::empty()) by {
                    reveal_strlit("");
                }
            }
            assert(d@ == spec_multitouch_device(block@));
            Some(d)
        },
    }
}

} // verus!

verus! {

// ---------------------------------------------------------------------
// The status
// ---------------------------------------------------------------------

/// What the status window shows about the trackpad.
#[derive(Clone, Debug, PartialEq, Eq)]
pub struct MacTrackpadStatus {
    pub detected: bool,
    pub name: String,
    pub transport: String,
    pub battery_percent: Option<u8>,
    pub serial_number: String,
    pub product_id: Option<u32>,
    pub firmware: String,
    pub tracking_speed: String,
    pub click_mode: String,
    pub tap_to_click: String,
    pub scroll_mode: String,
}

/// The content of a [`MacTrackpadStatus`].
pub struct StatusView {
    pub detected: bool,
    pub name: Seq<char>,
    pub transport: Seq<char>,
    pub battery_percent: Option<u8>,
    pub serial_number: Seq<char>,
    pub product_id: Option<u32>,
    pub firmware: Seq<char>,
    pub tracking_speed: Seq<char>,
    pub click_mode: Seq<char>,
    pub tap_to_click: Seq<char>,
    pub scroll_mode: Seq<char>,
}

impl View for MacTrackpadStatus {
    type V = StatusView;

    open spec fn view(&self) -> StatusView {
        StatusView {
            detected: self.detected,
            name: self.name@,
            transport: self.transport@,
            battery_percent: self.battery_percent,
            serial_number: self.serial_number@,
            product_id: self.product_id,
            firmware: self.firmware@,
            tracking_speed: self.tracking_speed@,
            click_mode: self.click_mode@,
            tap_to_click: self.tap_to_click@,
            scroll_mode: self.scroll_mode@,
        }
    }
}

impl Default for MacTrackpadStatus {
    fn default() -> (r: Self)
        ensures
            r@ == (StatusView {
                detected: false,
                name: Seq::empty(),
                transport: Seq::empty(),
                battery_percent: None,
                serial_number: Seq::empty(),
                product_id: None,
                firmware: Seq::empty(),
                tracking_speed: Seq::empty(),
                click_mode: Seq::empty(),
                tap_to_click: Seq::empty(),
                scroll_mode: Seq::empty(),
            }),
    {
        MacTrackpadStatus {
            detected: false,
            name: String::new(),
            transport: String::new(),
            battery_percent: None,
            serial_number: String::new(),
            product_id: None,
            firmware: String::new(),
            tracking_speed: String::new(),
            click_mode: String::new(),
            tap_to_click: String::new(),
            scroll_mode: String::new(),
        }
    }
}

/// The view of an optional text.
pub open spec fn opt_text(o: Option<String>) -> Option<Seq<char>> {
    match o {
        Some(s) => Some(s@),
        None => None,
    }
}

/// `On`/`Off` for a `defaults` flag, `Unknown` when it could not be read.
pub open spec fn on_off(v: Option<Seq<char>>) -> Seq<char> {
    match v {
        Some(t) => if t == "1"@ {
            "On"@
        } else {
            "Off"@
        },
        None => "Unknown"@,
    }
}

/// The click mode that the `Clicking` flag means.
pub open spec fn click_mode_of(v: Option<Seq<char>>) -> Seq<char> {
    match v {
        Some(t) => if t == "1"@ {
            "Tap/click enabled"@
        } else {
            "Physical click"@
        },
        None => "Unknown"@,
    }
}

/// The status before any device is looked at.
pub open spec fn base_status(
    clicking: Option<Seq<char>>,
    scrolling: Option<Seq<char>>,
    tracking_speed: Seq<char>,
) -> StatusView {
    StatusView {
        detected: false,
        name: "Magic Trackpad"@,
        transport: "Unknown"@,
        battery_percent: None,
        serial_number: Seq::empty(),
        product_id: None,
        firmware: Seq::empty(),
        tracking_speed,
        click_mode: click_mode_of(clicking),
        tap_to_click: on_off(clicking),
        scroll_mode: on_off(scrolling),
    }
}

/// The status once the device-management entry is taken in: it fills in
/// everything it knows, naming the device by product id when its product
/// name is blank.
pub open spec fn with_management(s: StatusView, d: Option<ManagementDeviceView>) -> StatusView {
    match d {
        None => s,
        Some(d) => StatusView {
            detected: true,
            name: if is_blank(d.product) {
                spec_fallback_name(d.product_id)
            } else {
                d.product
            },
            transport: d.transport,
            battery_percent: d.battery_percent,
            serial_number: d.serial_number,
            product_id: Some(d.product_id),
            firmware: d.firmware,
            ..s
        },
    }
}

/// The status once the multitouch entry is taken in: it only fills what is
/// still unknown.
pub open spec fn with_multitouch(s: StatusView, m: Option<MultitouchDeviceView>) -> StatusView {
    match m {
        None => s,
        Some(m) => StatusView {
            detected: true,
            name: if s.name == "Magic Trackpad"@ && !is_blank(m.product) {
                m.product
            } else {
                s.name
            },
            transport: if s.transport == "Unknown"@ && !is_blank(m.transport) {
                m.transport
            } else {
                s.transport
            },
            serial_number: if s.serial_number.len() == 0 {
                m.serial_number
            } else {
                s.serial_number
            },
            product_id: if s.product_id is None {
                Some(m.product_id)
            } else {
                s.product_id
            },
            tracking_speed: if s.tracking_speed == "Unknown"@ && m.pointer_multiplier.len() != 0 {
                "Acceleration multiplier "@ + m.pointer_multiplier
            } else {
                s.tracking_speed
            },
            ..s
        },
    }
}

/// The view of an optional management device.
pub open spec fn opt_management(d: Option<ManagementDevice>) -> Option<ManagementDeviceView> {
    match d {
        Some(d) => Some(d@),
        None => None,
    }
}

/// The view of an optional multitouch device.
pub open spec fn opt_multitouch(m: Option<MultitouchDevice>) -> Option<MultitouchDeviceView> {
    match m {
        Some(m) => Some(m@),
        None => None,
    }
}

/// Whether an optional text is exactly `1`.
fn is_one(v: &Option<String>) -> (r: bool)
    ensures
        r == (opt_text(*v) matches Some(t) && t == "1"@),
{
    match v {
        Some(t) => str_eq(t.as_str(), "1"),
        None => false,
    }
}

impl MacTrackpadStatus {
    /// Combines what was read about the trackpad into its status.
    /// `clicking` and `scrolling` are the trimmed `Clicking` and
    /// `TrackpadScroll` defaults, `tracking_speed` the speed text, and
    /// `management` and `multitouch` the trackpad entries of the two
    /// `ioreg` listings.
    pub fn load(
        clicking: Option<String>,
        scrolling: Option<String>,
        tracking_speed: String,
        management: Option<ManagementDevice>,
        multitouch: Option<MultitouchDevice>,
    ) -> (r: Self)
        ensures
            r@ == with_multitouch(
                with_management(
                    base_status(opt_text(clicking), opt_text(scrolling), tracking_speed@),
                    opt_management(management),
                ),
                opt_multitouch(multitouch),
            ),
    {
        let click_one = is_one(&clicking);
        let scroll_one = is_one(&scrolling);
        let click_mode = match &clicking {
            Some(_) => if click_one {
                "Tap/click enabled".to_owned()
            } else {
                "Physical click".to_owned()
            },
            None => "Unknown".to_owned(),
        };
        let tap_to_click = match &clicking {
            Some(_) => if click_one {
                "On".to_owned()
            } else {
                "Off".to_owned()
            },
            None => "Unknown".to_owned(),
        };
        let scroll_mode = match &scrolling {
            Some(_) => if scroll_one {
                "On".to_owned()
            } else {
                "Off".to_owned()
            },
            None => "Unknown".to_owned(),
        };
        let mut status = MacTrackpadStatus {
            detected: false,
            name: "Magic Trackpad".to_owned(),
            transport: "Unknown".to_owned(),
            battery_percent: None,
            serial_number: String::new(),
            product_id: None,
            firmware: String::new(),
            tracking_speed,
            click_mode,
            tap_to_click,
            scroll_mode,
        };
        let ghost s0 = status@;
        assert(s0 == base_status(opt_text(clicking), opt_text(scrolling), tracking_speed@));
        if let Some(device) = management {
            status.detected = true;
            status.name = if is_blank_str(device.product.as_str()) {
                fallback_product_name(device.product_id)
            } else {
                device.product
            };
            status.transport = device.transport;
            status.battery_percent = device.battery_percent;
            status.serial_number = device.serial_number;
            status.product_id = Some(device.product_id);
            status.firmware = device.firmware;
        }
        let ghost s1 = status@;
        assert(s1 == with_management(s0, opt_management(management)));
        if let Some(m) = multitouch {
            status.detected = true;
            if str_eq(status.name.as_str(), "Magic Trackpad") && !is_blank_str(m.product.as_str()) {
                status.name = m.product;
            }
            if str_eq(status.transport.as_str(), "Unknown") && !is_blank_str(m.transport.as_str()) {
                status.transport = m.transport;
            }
            if status.serial_number.as_str().unicode_len() == 0 {
                status.serial_number = m.serial_number;
            }
            if status.product_id.is_none() {
                status.product_id = Some(m.product_id);
            }
            if str_eq(status.tracking_speed.as_str(), "Unknown") && m.pointer_multiplier.as_str().unicode_len() != 0 {
                status.tracking_speed = join("Acceleration multiplier ", m.pointer_multiplier.as_str());
            }
        }
        assert(status@ == with_multitouch(s1, opt_multitouch(multitouch)));
        status
    }
}

/// The ten labelled rows of the status window, in order.
pub open spec fn spec_status_items(s: StatusView) -> Seq<(Seq<char>, Seq<char>)> {
    seq![
        ("Status"@, if s.detected {
            "Connected"@
        } else {
            "Not detected"@
        }),
        ("Transport"@, s.transport),
        ("Battery"@, match s.battery_percent {
            Some(v) => decimal(v as nat) + "%"@,
            None => "Unknown"@,
        }),
        ("Speed mode"@, s.tracking_speed),
        ("Tap to click"@, s.tap_to_click),
        ("Click mode"@, s.click_mode),
        ("Scrolling"@, s.scroll_mode),
        ("Product ID"@, match s.product_id {
            Some(v) => "0x"@ + zero_padded(hex(v as nat), 4),
            None => "Unknown"@,
        }),
        ("Serial"@, spec_value_or_unknown(s.serial_number)),
        ("Firmware"@, spec_value_or_unknown(s.firmware)),
    ]
}

/// Pushes one labelled row.
fn push_item(items: &mut Vec<(String, String)>, label: &str, value: String)
    ensures
        final(items)@.len() == old(items)@.len() + 1,
        forall|i: int| 0 <= i < old(items)@.len() ==> #[trigger] final(items)@[i] == old(items)@[i],
        final(items)@[old(items)@.len() as int].0@ == label@,
        final(items)@[old(items)@.len() as int].1@ == value@,
{
    items.push((label.to_owned(), value));
}

/// The labelled rows of the status window.
pub fn status_items(status: &MacTrackpadStatus) -> (items: Vec<(String, String)>)
    ensures
        items@.len() == 10,
        forall|i: int|
            0 <= i < 10 ==> (#[trigger] items@[i].0@, items@[i].1@) == spec_status_items(status@)[i],
{
    let connected = if status.detected {
        "Connected"
    } else {
        "Not detected"
    };
    let battery = match status.battery_percent {
        Some(v) => join(decimal_string(v as u64).as_str(), "%"),
        None => "Unknown".to_owned(),
    };
    let product_id = match status.product_id {
        Some(v) => join("0x", padded_hex_string(v as u64, 4).as_str()),
        None => "Unknown".to_owned(),
    };
    let serial = value_or_unknown(status.serial_number.as_str());
    let firmware = value_or_unknown(status.firmware.as_str());
    let mut items: Vec<(String, String)> = Vec::new();
    push_item(&mut items, "Status", connected.to_owned());
    push_item(&mut items, "Transport", status.transport.clone());
    push_item(&mut items, "Battery", battery);
    push_item(&mut items, "Speed mode", status.tracking_speed.clone());
    push_item(&mut items, "Tap to click", status.tap_to_click.clone());
    push_item(&mut items, "Click mode", status.click_mode.clone());
    push_item(&mut items, "Scrolling", status.scroll_mode.clone());
    push_item(&mut items, "Product ID", product_id);
    push_item(&mut items, "Serial", serial);
    push_item(&mut items, "Firmware", firmware);
    items
}

/// The speed text: the trackpad scaling if it could be read, else the
/// mouse scaling, else `Unknown`.
pub open spec fn spec_tracking_speed(trackpad: Option<Seq<char>>, mouse: Option<Seq<char>>) -> Seq<char> {
    match trackpad {
        Some(v) => "Tracking speed "@ + trimmed(v),
        None => match mouse {
            Some(m) => "Pointer speed "@ + trimmed(m),
            None => "Unknown"@,
        },
    }
}

/// The speed text from the `com.apple.trackpad.scaling` and
/// `com.apple.mouse.scaling` defaults, whichever could be read first.
pub fn read_tracking_speed(trackpad: Option<String>, mouse: Option<String>) -> (r: String)
    ensures
        r@ == spec_tracking_speed(opt_text(trackpad), opt_text(mouse)),
{
    match trackpad {
        Some(v) => join("Tracking speed ", trim(v.as_str())),
        None => match mouse {
            Some(m) => join("Pointer speed ", trim(m.as_str())),
            None => "Unknown".to_owned(),
        },
    }
}

/// A trackpad default as read from `defaults`, trimmed.
pub fn read_trackpad_default(output: Option<String>) -> (r: Option<String>)
    ensures
        match output {
            Some(v) => r matches Some(t) && t@ == trimmed(v@),
            None => r is None,
        },
{
    match output {
        Some(v) => Some(trim(v.as_str()).to_owned()),
        None => None,
    }
}

} // verus!

verus! {

// ---------------------------------------------------------------------
// Laws
// ---------------------------------------------------------------------

proof fn lemma_non_blank_all(ps: Seq<Seq<char>>)
    ensures
        forall|i: int| 0 <= i < non_blank(ps).len() ==> !is_blank(#[trigger] non_blank(ps)[i]),
    decreases ps.len(),
{
    if ps.len() > 0 {
        lemma_non_blank_all(ps.drop_first());
        if !is_blank(ps[0]) {
            let rest = non_blank(ps.drop_first());
            assert forall|i: int| 0 <= i < (seq![ps[0]] + rest).len() implies !is_blank(
                #[trigger] (seq![ps[0]] + rest)[i],
            ) by {
                if i > 0 {
                    assert((seq![ps[0]] + rest)[i] == rest[i - 1]);
                }
            }
        }
    }
}

/// No object of an `ioreg` listing is blank.
pub proof fn law_ioreg_objects_are_not_blank(s: Seq<char>)
    ensures
        forall|i: int| 0 <= i < ioreg_objects(s).len() ==> !is_blank(#[trigger] ioreg_objects(s)[i]),
{
    lemma_non_blank_all(split_from(s, 0));
}

/// The trackpad counts as detected exactly when one of the two `ioreg`
/// listings shows it.
pub proof fn law_detected_iff_listed(
    clicking: Option<Seq<char>>,
    scrolling: Option<Seq<char>>,
    speed: Seq<char>,
    management: Option<ManagementDeviceView>,
    multitouch: Option<MultitouchDeviceView>,
)
    ensures
        with_multitouch(with_management(base_status(clicking, scrolling, speed), management), multitouch).detected
            <==> (management is Some || multitouch is Some),
{
}

/// The device-management entry wins over the multitouch entry: its product
/// id, battery level and firmware are shown whatever the multitouch entry
/// says, and so are its transport and serial number when they are not
/// blank or empty.
pub proof fn law_management_entry_wins(
    clicking: Option<Seq<char>>,
    scrolling: Option<Seq<char>>,
    speed: Seq<char>,
    d: ManagementDeviceView,
    multitouch: Option<MultitouchDeviceView>,
)
    ensures
        ({
            let s = with_multitouch(
                with_management(base_status(clicking, scrolling, speed), Some(d)),
                multitouch,
            );
            &&& s.product_id == Some(d.product_id)
            &&& s.battery_percent == d.battery_percent
            &&& s.firmware == d.firmware
            &&& d.serial_number.len() != 0 ==> s.serial_number == d.serial_number
            &&& d.transport != "Unknown"@ ==> s.transport == d.transport
        }),
{
}

/// The status that `MacTrackpadStatus::load` gives for these inputs.
pub open spec fn loaded(
    clicking: Option<Seq<char>>,
    scrolling: Option<Seq<char>>,
    speed: Seq<char>,
    management: Option<ManagementDeviceView>,
    multitouch: Option<MultitouchDeviceView>,
) -> StatusView {
    with_multitouch(with_management(base_status(clicking, scrolling, speed), management), multitouch)
}

/// The three trackpad flags: scrolling and tap to click read `On` exactly
/// when their default is `1`, `Off` for any other value and `Unknown` when
/// it could not be read; the click mode is `Tap/click enabled` for a
/// `Clicking` of `1`, `Physical click` otherwise, `Unknown` without one.
/// No device entry changes them.
pub proof fn law_status_flags(
    clicking: Option<Seq<char>>,
    scrolling: Option<Seq<char>>,
    speed: Seq<char>,
    management: Option<ManagementDeviceView>,
    multitouch: Option<MultitouchDeviceView>,
)
    ensures
        ({
            let s = loaded(clicking, scrolling, speed, management, multitouch);
            &&& scrolling == Some("1"@) ==> s.scroll_mode == "On"@
            &&& (scrolling matches Some(t) && t != "1"@) ==> s.scroll_mode == "Off"@
            &&& scrolling is None ==> s.scroll_mode == "Unknown"@
            &&& clicking == Some("1"@) ==> s.tap_to_click == "On"@ && s.click_mode
                == "Tap/click enabled"@
            &&& (clicking matches Some(t) && t != "1"@) ==> s.tap_to_click == "Off"@
                && s.click_mode == "Physical click"@
            &&& clicking is None ==> s.tap_to_click == "Unknown"@ && s.click_mode == "Unknown"@
        }),
{
}

/// Without any device entry nothing is detected: the name is `Magic
/// Trackpad`, the transport `Unknown`, there is no battery level, product
/// id, serial number or firmware, and the speed text is the one given.
pub proof fn law_status_without_devices(
    clicking: Option<Seq<char>>,
    scrolling: Option<Seq<char>>,
    speed: Seq<char>,
)
    ensures
        ({
            let s = loaded(clicking, scrolling, speed, None, None);
            &&& !s.detected
            &&& s.name == "Magic Trackpad"@
            &&& s.transport == "Unknown"@
            &&& s.battery_percent is None
            &&& s.product_id is None
            &&& s.serial_number.len() == 0
            &&& s.firmware.len() == 0
            &&& s.tracking_speed == speed
        }),
{
}

/// The device-management entry names the trackpad by its product, or by
/// its product id (`Magic Trackpad 2` for 0x0265, `Magic Trackpad USB-C`
/// for 0x0324) when the product is blank; it gives the transport, battery
/// level, serial number, product id and firmware.
pub proof fn law_status_from_management(
    clicking: Option<Seq<char>>,
    scrolling: Option<Seq<char>>,
    speed: Seq<char>,
    d: ManagementDeviceView,
)
    ensures
        ({
            let s = loaded(clicking, scrolling, speed, Some(d), None);
            &&& s.detected
            &&& !is_blank(d.product) ==> s.name == d.product
            &&& is_blank(d.product) && d.product_id == 0x0265 ==> s.name == "Magic Trackpad 2"@
            &&& is_blank(d.product) && d.product_id == 0x0324 ==> s.name
                == "Magic Trackpad USB-C"@
            &&& s.transport == d.transport
            &&& s.battery_percent == d.battery_percent
            &&& s.serial_number == d.serial_number
            &&& s.product_id == Some(d.product_id)
            &&& s.firmware == d.firmware
            &&& s.tracking_speed == speed
        }),
{
}

/// The multitouch entry alone names the trackpad by its non-blank product
/// and gives its non-blank transport, its serial number and product id,
/// and an unknown speed becomes `Acceleration multiplier <m>` for a
/// non-empty pointer multiplier `m`.
pub proof fn law_status_from_multitouch(
    clicking: Option<Seq<char>>,
    scrolling: Option<Seq<char>>,
    speed: Seq<char>,
    m: MultitouchDeviceView,
)
    ensures
        ({
            let s = loaded(clicking, scrolling, speed, None, Some(m));
            &&& s.detected
            &&& !is_blank(m.product) ==> s.name == m.product
            &&& is_blank(m.product) ==> s.name == "Magic Trackpad"@
            &&& !is_blank(m.transport) ==> s.transport == m.transport
            &&& s.serial_number == m.serial_number
            &&& s.product_id == Some(m.product_id)
            &&& speed == "Unknown"@ && m.pointer_multiplier.len() != 0 ==> s.tracking_speed
                == "Acceleration multiplier "@ + m.pointer_multiplier
            &&& speed != "Unknown"@ ==> s.tracking_speed == speed
        }),
{
}

/// Each row of the status window shows the field it is labelled with:
/// the detection state, the transport, the battery level as a decimal
/// percentage, the speed, tap to click, click mode and scrolling as they
/// are, the product id as `0x` and at least four lower-case hex digits,
/// and the serial number and firmware, or `Unknown` for a missing value.
pub proof fn law_status_rows(s: StatusView)
    ensures
        ({
            let rows = spec_status_items(s);
            &&& rows.len() == 10
            &&& rows[0] == ("Status"@, if s.detected { "Connected"@ } else { "Not detected"@ })
            &&& rows[1] == ("Transport"@, s.transport)
            &&& rows[2].0 == "Battery"@
            &&& (s.battery_percent matches Some(v) ==> rows[2].1.last() == '%' && decimal_value(
                rows[2].1.drop_last(),
            ) == v)
            &&& s.battery_percent is None ==> rows[2].1 == "Unknown"@
            &&& rows[3] == ("Speed mode"@, s.tracking_speed)
            &&& rows[4] == ("Tap to click"@, s.tap_to_click)
            &&& rows[5] == ("Click mode"@, s.click_mode)
            &&& rows[6] == ("Scrolling"@, s.scroll_mode)
            &&& rows[7].0 == "Product ID"@
            &&& (s.product_id matches Some(v) ==> rows[7].1.len() >= 6 && rows[7].1.take(2)
                == "0x"@ && hex_value(rows[7].1.skip(2)) == v)
            &&& s.product_id is None ==> rows[7].1 == "Unknown"@
            &&& rows[8].0 == "Serial"@
            &&& (is_blank(s.serial_number) ==> rows[8].1 == "Unknown"@)
            &&& (!is_blank(s.serial_number) ==> rows[8].1 == s.serial_number)
            &&& rows[9].0 == "Firmware"@
            &&& (is_blank(s.firmware) ==> rows[9].1 == "Unknown"@)
            &&& (!is_blank(s.firmware) ==> rows[9].1 == s.firmware)
        }),
{
    let rows = spec_status_items(s);
    if let Some(v) = s.battery_percent {
        reveal_strlit("%");
        law_decimal_round_trip(v as nat);
        let t = decimal(v as nat) + "%"@;
        assert(t.drop_last() =~= decimal(v as nat));
        assert(rows[2].1 == t);
    }
    if let Some(v) = s.product_id {
        reveal_strlit("0x");
        let h = zero_padded(hex(v as nat), 4);
        law_zero_padding(hex(v as nat), 4);
        law_hex_round_trip(v as nat);
        assert(h.len() >= 4);
        assert(("0x"@ + h).take(2) =~= "0x"@);
        assert(("0x"@ + h).skip(2) =~= h);
    }
}

/// The found management device shows the properties of its `ioreg`
/// object: its product id is the `ProductID` property (a Magic Trackpad
/// id), its battery level the `BatteryPercent` property when that fits a
/// byte and none otherwise, its product, transport and serial number the
/// `Product`, `Transport` and `SerialNumber` strings (empty, `Unknown`
/// and empty when missing), and its firmware the decimal `MTFW Version`,
/// else the `BTFW Version`, else empty.
pub proof fn law_management_device_properties(output: Seq<char>)
    ensures
        first_trackpad_from(ioreg_objects(output), 0) matches Some(i) ==> {
            let block = ioreg_objects(output)[i];
            let d = spec_management_device(block);
            &&& spec_u32_property(block, "ProductID"@) == Some(d.product_id)
            &&& spec_is_magic_trackpad(d.product_id)
            &&& (spec_u32_property(block, "BatteryPercent"@) matches Some(v) ==> (v <= 255
                ==> d.battery_percent == Some(v as u8)))
            &&& (spec_u32_property(block, "BatteryPercent"@) matches Some(v) ==> (v > 255
                ==> d.battery_percent is None))
            &&& spec_u32_property(block, "BatteryPercent"@) is None ==> d.battery_percent is None
            &&& (spec_string_property(block, "Product"@) matches Some(p) ==> d.product == p)
            &&& spec_string_property(block, "Product"@) is None ==> d.product.len() == 0
            &&& (spec_string_property(block, "Transport"@) matches Some(t) ==> d.transport == t)
            &&& spec_string_property(block, "Transport"@) is None ==> d.transport == "Unknown"@
            &&& (spec_string_property(block, "SerialNumber"@) matches Some(n) ==> d.serial_number
                == n)
            &&& spec_string_property(block, "SerialNumber"@) is None ==> d.serial_number.len()
                == 0
            &&& (spec_u32_property(block, "MTFW Version"@) matches Some(v) ==> decimal_value(
                d.firmware,
            ) == v && d.firmware.len() > 0)
            &&& (spec_u32_property(block, "MTFW Version"@) is None ==> (spec_u32_property(
                block,
                "BTFW Version"@,
            ) matches Some(v) ==> decimal_value(d.firmware) == v && d.firmware.len() > 0))
            &&& (spec_u32_property(block, "MTFW Version"@) is None && spec_u32_property(
                block,
                "BTFW Version"@,
            ) is None ==> d.firmware.len() == 0)
        },
{
    lemma_first_trackpad(ioreg_objects(output), 0);
    if let Some(i) = first_trackpad_from(ioreg_objects(output), 0) {
        let block = ioreg_objects(output)[i];
        if let Some(v) = spec_u32_property(block, "MTFW Version"@) {
            law_decimal_round_trip(v as nat);
        } else if let Some(v) = spec_u32_property(block, "BTFW Version"@) {
            law_decimal_round_trip(v as nat);
        }
    }
}

/// The found multitouch device shows the properties of its `ioreg`
/// object: the `ProductID` (a Magic Trackpad id), the `Product`,
/// `Transport` and `SerialNumber` strings (empty when missing) and the
/// decimal `HIDPointerAccelerationMultiplier` (empty when missing).
pub proof fn law_multitouch_device_properties(output: Seq<char>)
    ensures
        first_trackpad_from(ioreg_objects(output), 0) matches Some(i) ==> {
            let block = ioreg_objects(output)[i];
            let m = spec_multitouch_device(block);
            &&& spec_u32_property(block, "ProductID"@) == Some(m.product_id)
            &&& spec_is_magic_trackpad(m.product_id)
            &&& (spec_string_property(block, "Product"@) matches Some(p) ==> m.product == p)
            &&& spec_string_property(block, "Product"@) is None ==> m.product.len() == 0
            &&& (spec_string_property(block, "Transport"@) matches Some(t) ==> m.transport == t)
            &&& spec_string_property(block, "Transport"@) is None ==> m.transport.len() == 0
            &&& (spec_string_property(block, "SerialNumber"@) matches Some(n) ==> m.serial_number
                == n)
            &&& spec_string_property(block, "SerialNumber"@) is None ==> m.serial_number.len()
                == 0
            &&& (spec_u32_property(block, "HIDPointerAccelerationMultiplier"@) matches Some(v)
                ==> decimal_value(m.pointer_multiplier) == v && m.pointer_multiplier.len() > 0)
            &&& spec_u32_property(block, "HIDPointerAccelerationMultiplier"@) is None
                ==> m.pointer_multiplier.len() == 0
        },
{
    lemma_first_trackpad(ioreg_objects(output), 0);
    if let Some(i) = first_trackpad_from(ioreg_objects(output), 0) {
        let block = ioreg_objects(output)[i];
        if let Some(v) = spec_u32_property(block, "HIDPointerAccelerationMultiplier"@) {
            law_decimal_round_trip(v as nat);
        }
    }
}

/// The device found is the first object of the listing whose `ProductID`
/// is a Magic Trackpad's: every earlier object has another or none.
pub proof fn law_first_trackpad_is_first(blocks: Seq<Seq<char>>)
    ensures
        first_trackpad_from(blocks, 0) matches Some(i) ==> forall|k: int|
            0 <= k < i ==> !(spec_u32_property(#[trigger] blocks[k], "ProductID"@) matches Some(p)
                && spec_is_magic_trackpad(p)),
        first_trackpad_from(blocks, 0) is None ==> forall|k: int|
            0 <= k < blocks.len() ==> !(spec_u32_property(#[trigger] blocks[k], "ProductID"@) matches Some(p)
                && spec_is_magic_trackpad(p)),
{
    lemma_first_trackpad_scan(blocks, 0);
}

proof fn lemma_first_trackpad_scan(blocks: Seq<Seq<char>>, j: int)
    requires
        0 <= j,
    ensures
        first_trackpad_from(blocks, j) matches Some(i) ==> forall|k: int|
            j <= k < i ==> !(spec_u32_property(#[trigger] blocks[k], "ProductID"@) matches Some(p)
                && spec_is_magic_trackpad(p)),
        first_trackpad_from(blocks, j) is None ==> forall|k: int|
            j <= k < blocks.len() ==> !(spec_u32_property(#[trigger] blocks[k], "ProductID"@) matches Some(p)
                && spec_is_magic_trackpad(p)),
    decreases blocks.len() - j,
{
    if j < blocks.len() {
        lemma_first_trackpad_scan(blocks, j + 1);
    }
}

/// A string property is the text right after the first `"<key>" = "` up
/// to the next double quote, so it holds no double quote and the object
/// holds the needle, the value and a closing quote in a row.
pub proof fn law_string_property_shape(block: Seq<char>, key: Seq<char>)
    ensures
        spec_string_property(block, key) matches Some(v) ==> {
            &&& forall|k: int| 0 <= k < v.len() ==> #[trigger] v[k] != '"'
            &&& exists|i: int| occurs_at(block, string_needle(key) + v + seq!['"'], i)
        },
{
    if let Some(v) = spec_string_property(block, key) {
        let n = string_needle(key);
        lemma_find_from_bounds(block, n, 0);
        let i = find_from(block, n, 0)->Some_0;
        let start = i + n.len();
        lemma_find_from_bounds(block, seq!['"'], start);
        let j = find_from(block, seq!['"'], start)->Some_0;
        lemma_find_from_first(block, seq!['"'], start);
        assert(v =~= block.subrange(start, j));
        assert forall|k: int| 0 <= k < v.len() implies #[trigger] v[k] != '"' by {
            assert(v[k] == block[start + k]);
            if block[start + k] == '"' {
                assert(block.subrange(start + k, start + k + 1) =~= seq!['"']);
                assert(occurs_at(block, seq!['"'], start + k));
            }
        }
        let whole = n + v + seq!['"'];
        assert(block.subrange(j, j + 1) =~= seq!['"']);
        assert(block.subrange(i, i + n.len()) =~= n);
        assert(block.subrange(i, i + whole.len()) =~= whole);
        assert(occurs_at(block, whole, i));
    }
}

/// `p` holds the `\n+-o ` marker that starts an `ioreg` object.
pub open spec fn holds_marker(p: Seq<char>) -> bool {
    exists|m: int| occurs_at(p, seq!['\n', '+', '-', 'o', ' '], m)
}

proof fn lemma_piece_no_marker(s: Seq<char>, start: int, end: int)
    requires
        0 <= start <= end <= s.len(),
        forall|m: int| start <= m && m + 5 <= end ==> !occurs_at(s, ioreg_separator(), m),
    ensures
        !holds_marker(s.subrange(start, end)),
{
    let piece = s.subrange(start, end);
    if holds_marker(piece) {
        let m = choose|m: int| occurs_at(piece, seq!['\n', '+', '-', 'o', ' '], m);
        assert(seq!['\n', '+', '-', 'o', ' '] =~= ioreg_separator());
        assert(s.subrange(start + m, start + m + 5) =~= piece.subrange(m, m + 5));
        assert(occurs_at(s, ioreg_separator(), start + m));
    }
}

proof fn lemma_split_pieces(s: Seq<char>, start: int)
    requires
        0 <= start <= s.len(),
    ensures
        forall|j: int| 0 <= j < split_from(s, start).len() ==> !holds_marker(
            #[trigger] split_from(s, start)[j],
        ),
    decreases s.len() + 1 - start,
{
    let sep = ioreg_separator();
    lemma_find_from_bounds(s, sep, start);
    lemma_find_from_first(s, sep, start);
    match find_from(s, sep, start) {
        Some(k) => {
            lemma_split_pieces(s, k + 5);
            lemma_piece_no_marker(s, start, k);
            let rest = split_from(s, k + 5);
            assert forall|j: int| 0 <= j < split_from(s, start).len() implies !holds_marker(
                #[trigger] split_from(s, start)[j],
            ) by {
                if j > 0 {
                    assert(split_from(s, start)[j] == rest[j - 1]);
                }
            }
        },
        None => {
            lemma_piece_no_marker(s, start, s.len() as int);
        },
    }
}

proof fn lemma_non_blank_no_marker(ps: Seq<Seq<char>>)
    requires
        forall|j: int| 0 <= j < ps.len() ==> !holds_marker(#[trigger] ps[j]),
    ensures
        forall|j: int| 0 <= j < non_blank(ps).len() ==> !holds_marker(#[trigger] non_blank(ps)[j]),
    decreases ps.len(),
{
    if ps.len() > 0 {
        assert forall|j: int| 0 <= j < ps.drop_first().len() implies !holds_marker(
            #[trigger] ps.drop_first()[j],
        ) by {
            assert(ps.drop_first()[j] == ps[j + 1]);
        }
        lemma_non_blank_no_marker(ps.drop_first());
        if !is_blank(ps[0]) {
            let rest = non_blank(ps.drop_first());
            assert forall|j: int| 0 <= j < (seq![ps[0]] + rest).len() implies !holds_marker(
                #[trigger] (seq![ps[0]] + rest)[j],
            ) by {
                if j > 0 {
                    assert((seq![ps[0]] + rest)[j] == rest[j - 1]);
                }
            }
        }
    }
}

/// The objects of an `ioreg` listing are what lies between the `\n+-o `
/// markers: no object holds one.
pub proof fn law_ioreg_objects_hold_no_marker(s: Seq<char>)
    ensures
        forall|j: int| 0 <= j < ioreg_objects(s).len() ==> !holds_marker(#[trigger] ioreg_objects(s)[j]),
{
    lemma_split_pieces(s, 0);
    lemma_non_blank_no_marker(split_from(s, 0));
}

/// Product ids, names and unknown values: the Magic Trackpad ids are
/// 0x0265 and 0x0324, named `Magic Trackpad 2` and `Magic Trackpad USB-C`,
/// any other id is named `Magic Trackpad`; a blank value shows as
/// `Unknown` and any other value as itself.
pub proof fn law_product_names(product_id: u32, value: Seq<char>)
    ensures
        spec_is_magic_trackpad(product_id) <==> (product_id == 0x0265 || product_id == 0x0324),
        product_id == 0x0265 ==> spec_fallback_name(product_id) == "Magic Trackpad 2"@,
        product_id == 0x0324 ==> spec_fallback_name(product_id) == "Magic Trackpad USB-C"@,
        product_id != 0x0265 && product_id != 0x0324 ==> spec_fallback_name(product_id)
            == "Magic Trackpad"@,
        is_blank(value) ==> spec_value_or_unknown(value) == "Unknown"@,
        !is_blank(value) ==> spec_value_or_unknown(value) == value,
{
}

/// The speed text names the trackpad scaling when it could be read,
/// trimmed, else the mouse scaling, trimmed, else says `Unknown`.
pub proof fn law_tracking_speed(trackpad: Option<Seq<char>>, mouse: Option<Seq<char>>)
    ensures
        trackpad matches Some(v) ==> spec_tracking_speed(trackpad, mouse) == "Tracking speed "@
            + trimmed(v),
        trackpad is None ==> (mouse matches Some(m) ==> spec_tracking_speed(trackpad, mouse)
            == "Pointer speed "@ + trimmed(m)),
        trackpad is None && mouse is None ==> spec_tracking_speed(trackpad, mouse) == "Unknown"@,
{
}

/// A numeric property is the run of digits right after the first
/// `"<key>" = `: the run is not empty, ends at a non-digit or the end of
/// the object, and its value is the property.
pub proof fn law_u32_property_shape(block: Seq<char>, key: Seq<char>)
    ensures
        spec_u32_property(block, key) matches Some(v) ==> exists|i: int, e: int|
            {
                &&& #[trigger] find_from(block, "\""@ + key + "\" = "@, 0) == Some(i)
                &&& i + ("\""@ + key + "\" = "@).len() < e <= block.len()
                &&& #[trigger] decimal_value(block.subrange(i + ("\""@ + key + "\" = "@).len(), e))
                    == v
                &&& forall|k: int| i + ("\""@ + key + "\" = "@).len() <= k < e ==> is_digit(#[trigger] block[k])
                &&& (e == block.len() || !is_digit(block[e]))
            },
        find_from(block, "\""@ + key + "\" = "@, 0) is None ==> spec_u32_property(block, key) is None,
{
    if let Some(v) = spec_u32_property(block, key) {
        let n = number_needle(key);
        lemma_find_from_bounds(block, n, 0);
        let i = find_from(block, n, 0)->Some_0;
        let st = i + n.len();
        lemma_digit_run(block, st);
        let e = digit_run_end(block, st);
        assert(find_from(block, "\""@ + key + "\" = "@, 0) == Some(i));
        let ds = block.subrange(st, e);
        assert forall|m: int| 0 <= m < ds.len() implies is_digit(#[trigger] ds[m]) by {
            assert(ds[m] == block[st + m]);
        }
        lemma_decimal_value_nonneg(ds);
        assert(decimal_value(ds) == v);
    }
}

proof fn lemma_digit_run(b: Seq<char>, k: int)
    requires
        0 <= k <= b.len(),
    ensures
        k <= digit_run_end(b, k) <= b.len(),
        forall|m: int| k <= m < digit_run_end(b, k) ==> is_digit(#[trigger] b[m]),
        digit_run_end(b, k) == b.len() || !is_digit(b[digit_run_end(b, k)]),
    decreases b.len() - k,
{
    if k < b.len() && is_digit(b[k]) {
        lemma_digit_run(b, k + 1);
    }
}

} // verus!
