//! Magic Trackpad 2 report decoding.

use vstd::prelude::*;

verus! {

/// Report id of the boot-mouse report that may carry a multitouch payload.
pub const REPORT_ID_MOUSE: u8 = 0x02;

/// Report id of a Magic Trackpad 2 multitouch report.
pub const REPORT_ID_MULTITOUCH: u8 = 0x31;

/// Number of contacts a Precision Touchpad report can hold.
pub const PTP_MAX_CONTACT_POINTS: usize = 5;

/// Bytes before the first finger record of a multitouch report.
pub const MT2_REPORT_HEADER_SIZE: usize = 4;

/// Bytes of one finger record.
pub const MT2_FINGER_SIZE: usize = 9;

/// Bytes of the boot-mouse prefix in front of an embedded multitouch report.
pub const MOUSE_REPORT_SIZE: usize = 8;

/// Why a report could not be decoded.
#[derive(Clone, Copy, Debug, PartialEq, Eq, Structural)]
pub enum ParseError {
    Empty,
    MalformedLength,
    UnsupportedReport(u8),
}

/// Lower edge of a device axis.
#[derive(Clone, Copy, Debug, PartialEq, Eq, Structural)]
pub struct AxisRange {
    pub min: i16,
}

/// Driver options that change how fingers and the button are reported.
#[derive(Clone, Copy, Debug, PartialEq, Eq, Structural)]
pub struct ParserSettings {
    pub button_disabled: bool,
    pub ignore_near_fingers: bool,
    pub palm_rejection: bool,
}

impl Default for ParserSettings {
    fn default() -> (r: Self)
        ensures
            r == default_parser_settings(),
    {
        ParserSettings { button_disabled: false, ignore_near_fingers: true, palm_rejection: false }
    }
}

/// Axis origins and options used when decoding reports.
#[derive(Clone, Copy, Debug, PartialEq, Eq, Structural)]
pub struct ParserConfig {
    pub x: AxisRange,
    pub y: AxisRange,
    pub settings: ParserSettings,
}

impl Default for ParserConfig {
    fn default() -> (r: Self)
        ensures
            r == default_parser_config(),
    {
        ParserConfig {
            x: AxisRange { min: 0 },
            y: AxisRange { min: 0 },
            settings: ParserSettings::default(),
        }
    }
}

/// One decoded finger record of a multitouch report.
#[derive(Clone, Copy, Debug, PartialEq, Eq, Structural)]
pub struct Mt2Finger {
    pub absolute_x: i16,
    pub absolute_y: i16,
    pub finger: u8,
    pub state: u8,
    pub touch_major: u8,
    pub touch_minor: u8,
    pub size: u8,
    pub pressure: u8,
    pub id: u8,
    pub orientation: u8,
}

/// One contact of a Precision Touchpad report.
#[derive(Clone, Copy, Debug, PartialEq, Eq, Structural)]
pub struct PtpContact {
    pub confidence: bool,
    pub tip_switch: bool,
    pub contact_id: u32,
    pub x: u16,
    pub y: u16,
}

impl Default for PtpContact {
    fn default() -> (r: Self)
        ensures
            r == empty_contact(),
    {
        PtpContact { confidence: false, tip_switch: false, contact_id: 0, x: 0, y: 0 }
    }
}

/// A Precision Touchpad report.
#[derive(Clone, Copy, Debug, PartialEq, Eq)]
pub struct PtpReport {
    pub report_id: u8,
    pub scan_time: u16,
    pub contact_count: u8,
    pub is_button_clicked: bool,
    pub contacts: [PtpContact; 5],
}

impl Default for PtpReport {
    fn default() -> (r: Self)
        ensures
            is_default_report(r),
    {
        let c = PtpContact::default();
        let r = PtpReport {
            report_id: REPORT_ID_MULTITOUCH,
            scan_time: 0,
            contact_count: 0,
            is_button_clicked: false,
            contacts: [c, c, c, c, c],
        };
        assert(r.contacts@ =~= seq![c, c, c, c, c]);
        r
    }
}

// ---------------------------------------------------------------------
// Model
// ---------------------------------------------------------------------

pub open spec fn default_parser_settings() -> ParserSettings {
    ParserSettings { button_disabled: false, ignore_near_fingers: true, palm_rejection: false }
}

pub open spec fn default_parser_config() -> ParserConfig {
    ParserConfig {
        x: AxisRange { min: 0 },
        y: AxisRange { min: 0 },
        settings: default_parser_settings(),
    }
}

pub open spec fn empty_contact() -> PtpContact {
    PtpContact { confidence: false, tip_switch: false, contact_id: 0, x: 0, y: 0 }
}

pub open spec fn is_default_report(r: PtpReport) -> bool {
    &&& r.report_id == REPORT_ID_MULTITOUCH
    &&& r.scan_time == 0
    &&& r.contact_count == 0
    &&& !r.is_button_clicked
    &&& r.contacts@.len() == 5
    &&& forall|i: int| 0 <= i < 5 ==> r.contacts@[i] == empty_contact()
}

/// The little-endian value of four bytes.
pub open spec fn le_u32(b0: u8, b1: u8, b2: u8, b3: u8) -> int {
    b0 + 256 * b1 + 65536 * b2 + 16777216 * b3
}

/// The value of a 13-bit two's complement field whose raw bits are `raw`.
pub open spec fn signed_13(raw: int) -> int {
    if raw >= 4096 {
        raw - 8192
    } else {
        raw
    }
}

/// The finger record encoded by the first nine bytes of `b`: a packed
/// little-endian word with x in bits 0..13, y in bits 13..26, the finger
/// type in bits 26..29 and the state in bits 29..32, then touch major,
/// touch minor, size and pressure bytes, then a byte holding the contact id
/// in its low four bits and the orientation in its top three bits.
pub open spec fn spec_finger(b: Seq<u8>) -> Mt2Finger {
    let p = le_u32(b[0], b[1], b[2], b[3]);
    Mt2Finger {
        absolute_x: signed_13(p % 8192) as i16,
        absolute_y: signed_13((p / 8192) % 8192) as i16,
        finger: ((p / 0x400_0000) % 8) as u8,
        state: (p / 0x2000_0000) as u8,
        touch_major: b[4],
        touch_minor: b[5],
        size: b[6],
        pressure: b[7],
        id: (b[8] % 16) as u8,
        orientation: (b[8] / 32) as u8,
    }
}

/// `value - min`, clamped to the range of a non-negative `i16`.
pub open spec fn spec_axis(value: int, min: int) -> u16 {
    let d = value - min;
    if d <= 0 {
        0
    } else if d > 32767 {
        32767
    } else {
        d as u16
    }
}

/// The state bit that marks a finger as touching the surface.
pub open spec fn state_is_valid(state: u8) -> bool {
    (state / 4) % 2 == 1
}

/// The state bit that marks a finger as hovering near the surface.
pub open spec fn state_is_near(state: u8) -> bool {
    (state / 2) % 2 == 1
}

/// The contact that a finger becomes under `config`: the y axis is flipped,
/// both axes are measured from the configured origin, a finger of type 6 (a
/// palm) loses its confidence when palm rejection is on, and the tip switch
/// is the state's "valid" bit, cleared for a hovering finger (state bit 1)
/// when near fingers are ignored.
pub open spec fn spec_contact(f: Mt2Finger, config: ParserConfig) -> PtpContact {
    PtpContact {
        confidence: !config.settings.palm_rejection || f.finger != 6,
        tip_switch: state_is_valid(f.state) && (!config.settings.ignore_near_fingers || !state_is_near(f.state)),
        contact_id: f.id as u32,
        x: spec_axis(f.absolute_x as int, config.x.min as int),
        y: spec_axis(-(f.absolute_y as int), config.y.min as int),
    }
}

/// The error a multitouch report is refused with, if any.
pub open spec fn multitouch_error(input: Seq<u8>) -> Option<ParseError> {
    if input.len() < 4 {
        Some(ParseError::MalformedLength)
    } else if input[0] != REPORT_ID_MULTITOUCH {
        Some(ParseError::UnsupportedReport(input[0]))
    } else if (input.len() - 4) % 9 != 0 {
        Some(ParseError::MalformedLength)
    } else {
        None
    }
}

/// Number of finger records after the header.
pub open spec fn finger_record_count(input: Seq<u8>) -> int {
    (input.len() - 4) / 9
}

/// Number of contacts reported: the finger records, at most five.
pub open spec fn spec_contact_count(input: Seq<u8>) -> int {
    if finger_record_count(input) < 5 {
        finger_record_count(input)
    } else {
        5
    }
}

/// The bytes of finger record `i`.
pub open spec fn finger_record(input: Seq<u8>, i: int) -> Seq<u8> {
    input.subrange(4 + 9 * i, 4 + 9 * i + 9)
}

/// The 21-bit timestamp (low five bits in the top of byte 1, the rest in
/// bytes 2..4), truncated to 16 bits.
pub open spec fn spec_timestamp(input: Seq<u8>) -> int {
    ((input[2] + 256 * input[3]) * 32 + input[1] / 8) % 65536
}

/// Scan time in 100 µs units: ten times the timestamp, modulo 2^16.
pub open spec fn spec_scan_time(input: Seq<u8>) -> u16 {
    ((spec_timestamp(input) * 10) % 65536) as u16
}

/// `r` is the report that a well-formed multitouch report `input` decodes to.
pub open spec fn is_decoded_report(r: PtpReport, input: Seq<u8>, config: ParserConfig) -> bool {
    &&& r.report_id == REPORT_ID_MULTITOUCH
    &&& r.scan_time == spec_scan_time(input)
    &&& r.contact_count == spec_contact_count(input)
    &&& r.is_button_clicked == (input[1] % 2 == 1 && !config.settings.button_disabled)
    &&& r.contacts@.len() == 5
    &&& forall|i: int|
        0 <= i < 5 ==> #[trigger] r.contacts@[i] == if i < spec_contact_count(input) {
            spec_contact(spec_finger(finger_record(input, i)), config)
        } else {
            empty_contact()
        }
}

/// What decoding `input` as a multitouch report gives.
pub open spec fn multitouch_outcome(
    input: Seq<u8>,
    config: ParserConfig,
    res: Result<PtpReport, ParseError>,
) -> bool {
    match multitouch_error(input) {
        Some(e) => res == Err::<PtpReport, ParseError>(e),
        None => res matches Ok(r) && is_decoded_report(r, input, config),
    }
}

/// What decoding a raw HID report gives: a multitouch report is decoded as
/// such, a mouse report longer than the mouse prefix carries a multitouch
/// report after that prefix, and any other report is refused.
pub open spec fn report_outcome(
    input: Seq<u8>,
    config: ParserConfig,
    res: Result<PtpReport, ParseError>,
) -> bool {
    if input.len() == 0 {
        res == Err::<PtpReport, ParseError>(ParseError::Empty)
    } else if input[0] == REPORT_ID_MOUSE {
        if input.len() > 8 {
            multitouch_outcome(input.subrange(8, input.len() as int), config, res)
        } else {
            res == Err::<PtpReport, ParseError>(ParseError::UnsupportedReport(REPORT_ID_MOUSE))
        }
    } else if input[0] == REPORT_ID_MULTITOUCH {
        multitouch_outcome(input, config, res)
    } else {
        res == Err::<PtpReport, ParseError>(
            ParseError::UnsupportedReport(if input.len() > 1 { input[1] } else { input[0] }),
        )
    }
}

// ---------------------------------------------------------------------
// Decoding
// ---------------------------------------------------------------------

/// Decodes a raw HID report from the trackpad.
pub fn parse_report(input: &[u8], config: ParserConfig) -> (res: Result<PtpReport, ParseError>)
    ensures
        report_outcome(input@, config, res),
{
    if input.len() == 0 {
        return Err(ParseError::Empty);
    }
    let report_id = input[0];
    if report_id == REPORT_ID_MOUSE {
        if input.len() > MOUSE_REPORT_SIZE {
            parse_mt2_multitouch(&input[MOUSE_REPORT_SIZE..input.len()], config)
        } else {
            Err(ParseError::UnsupportedReport(REPORT_ID_MOUSE))
        }
    } else if report_id == REPORT_ID_MULTITOUCH {
        parse_mt2_multitouch(input, config)
    } else if input.len() > 1 {
        Err(ParseError::UnsupportedReport(input[1]))
    } else {
        Err(ParseError::UnsupportedReport(report_id))
    }
}

/// Decodes a Magic Trackpad 2 multitouch report: a four-byte header
/// followed by nine-byte finger records, of which the first five are kept.
pub fn parse_mt2_multitouch(input: &[u8], config: ParserConfig) -> (res: Result<
    PtpReport,
    ParseError,
>)
    ensures
        multitouch_outcome(input@, config, res),
{
    if input.len() < MT2_REPORT_HEADER_SIZE {
        return Err(ParseError::MalformedLength);
    }
    if input[0] != REPORT_ID_MULTITOUCH {
        return Err(ParseError::UnsupportedReport(input[0]));
    }
    let finger_len = input.len() - MT2_REPORT_HEADER_SIZE;
    if finger_len % MT2_FINGER_SIZE != 0 {
        return Err(ParseError::MalformedLength);
    }
    let flags = input[1];
    let scan_time = scan_time_of(flags, input[2], input[3]);
    let mut report = PtpReport::default();
    report.scan_time = scan_time;
    report.is_button_clicked = (flags & 0x01) != 0 && !config.settings.button_disabled;
    proof {
        assert((flags & 0x01) != 0 <==> flags % 2 == 1) by (bit_vector);
    }
    let raw_count = finger_len / MT2_FINGER_SIZE;
    let count = if raw_count < PTP_MAX_CONTACT_POINTS {
        raw_count
    } else {
        PTP_MAX_CONTACT_POINTS
    };
    report.contact_count = count as u8;
    let ghost s = input@;
    let mut index: usize = 0;
    while index < count
        invariant
            s == input@,
            multitouch_error(s) is None,
            count == spec_contact_count(s),
            count <= 5,
            index <= count,
            report.report_id == REPORT_ID_MULTITOUCH,
            report.scan_time == spec_scan_time(s),
            report.contact_count == count,
            report.is_button_clicked == (s[1] % 2 == 1 && !config.settings.button_disabled),
            report.contacts@.len() == 5,
            forall|i: int|
                0 <= i < 5 ==> #[trigger] report.contacts@[i] == if i < index {
                    spec_contact(spec_finger(finger_record(s, i)), config)
                } else {
                    empty_contact()
                },
        decreases count - index,
    {
        let start = MT2_REPORT_HEADER_SIZE + index * MT2_FINGER_SIZE;
        let record = &input[start..start + MT2_FINGER_SIZE];
        assert(record@ == finger_record(s, index as int));
        let finger = parse_finger(record);
        let contact = finger_to_contact(finger, config);
        report.contacts[index] = contact;
        index = index + 1;
    }
    Ok(report)
}

/// Scan time of a report from its flag byte and the two timestamp bytes.
fn scan_time_of(flags: u8, low: u8, high: u8) -> (r: u16)
    ensures
        r == ((((low + 256 * high) * 32 + flags / 8) % 65536) * 10 % 65536) as u16,
{
    let timestamp_low = (flags >> 3) as u16;
    let timestamp_high = (low as u16) | ((high as u16) << 8);
    let timestamp = (timestamp_high << 5) | timestamp_low;
    let r = timestamp.wrapping_mul(10);
    assert(timestamp == (((low + 256 * high) * 32 + flags / 8) % 65536) as u16) by (bit_vector)
        requires
            timestamp_low == (flags >> 3) as u16,
            timestamp_high == (low as u16) | ((high as u16) << 8),
            timestamp == (timestamp_high << 5) | timestamp_low,
    ;
    r
}

/// Decodes one nine-byte finger record.
pub fn parse_finger(input: &[u8]) -> (f: Mt2Finger)
    requires
        input@.len() >= 9,
    ensures
        f == spec_finger(input@),
{
    let b0 = input[0];
    let b1 = input[1];
    let b2 = input[2];
    let b3 = input[3];
    let packed: u32 = (b0 as u32) | ((b1 as u32) << 8) | ((b2 as u32) << 16) | ((b3 as u32) << 24);
    assert(packed == le_u32(b0, b1, b2, b3)) by (bit_vector)
        requires
            packed == (b0 as u32) | ((b1 as u32) << 8) | ((b2 as u32) << 16) | ((b3 as u32) << 24),
    ;
    let raw_x = (packed & 0x1fff) as u16;
    let raw_y = ((packed >> 13) & 0x1fff) as u16;
    assert(raw_x == packed % 8192 && raw_y == (packed / 8192) % 8192) by (bit_vector)
        requires
            raw_x == (packed & 0x1fff) as u16,
            raw_y == ((packed >> 13) & 0x1fff) as u16,
    ;
    let x = sign_extend_13(raw_x);
    let y = sign_extend_13(raw_y);
    let finger = ((packed >> 26) & 0x07) as u8;
    let state = ((packed >> 29) & 0x07) as u8;
    assert(finger == (packed / 0x400_0000) % 8 && state == packed / 0x2000_0000) by (bit_vector)
        requires
            finger == ((packed >> 26) & 0x07) as u8,
            state == ((packed >> 29) & 0x07) as u8,
    ;
    let tail = input[8];
    let id = tail & 0x0f;
    let orientation = tail >> 5;
    assert(id == tail % 16 && orientation == tail / 32) by (bit_vector)
        requires
            id == tail & 0x0f,
            orientation == tail >> 5,
    ;
    Mt2Finger {
        absolute_x: x,
        absolute_y: y,
        finger,
        state,
        touch_major: input[4],
        touch_minor: input[5],
        size: input[6],
        pressure: input[7],
        id,
        orientation,
    }
}

/// Turns a decoded finger into a Precision Touchpad contact.
pub fn finger_to_contact(finger: Mt2Finger, config: ParserConfig) -> (c: PtpContact)
    requires
        finger.absolute_y > i16::MIN,
    ensures
        c == spec_contact(finger, config),
{
    let x = saturating_axis(finger.absolute_x, config.x.min);
    let y = saturating_axis(-finger.absolute_y, config.y.min);
    let state = finger.state;
    let is_near = (state & 0x02) != 0;
    let is_valid = (state & 0x04) != 0;
    proof {
        assert(((state & 0x02) != 0) == ((state / 2) % 2 == 1)) by (bit_vector);
        assert(((state & 0x04) != 0) == ((state / 4) % 2 == 1)) by (bit_vector);
    }
    PtpContact {
        confidence: !config.settings.palm_rejection || finger.finger != 6,
        tip_switch: is_valid && (!config.settings.ignore_near_fingers || !is_near),
        contact_id: finger.id as u32,
        x,
        y,
    }
}

/// The value of the 13-bit two's complement field in the low bits of `value`.
fn sign_extend_13(value: u16) -> (r: i16)
    ensures
        r as int == signed_13(value as int % 8192),
{
    let r = ((value << 3) as i16) >> 3;
    assert(r as int == (if value % 8192 >= 4096 { (value % 8192) as int - 8192 } else { (value % 8192) as int }))
        by (bit_vector)
        requires
            r == ((value << 3) as i16) >> 3,
    ;
    r
}

/// `value - min`, saturated to `i16`, and then clamped at zero.
fn saturating_axis(value: i16, min: i16) -> (r: u16)
    ensures
        r == spec_axis(value as int, min as int),
{
    let d: i32 = value as i32 - min as i32;
    if d <= 0 {
        0
    } else if d > 32767 {
        32767
    } else {
        d as u16
    }
}

} // verus!

verus! {

// ---------------------------------------------------------------------
// Laws
// ---------------------------------------------------------------------

/// The raw 13-bit field that holds the two's complement value `v`.
pub open spec fn field_13(v: int) -> int {
    if v < 0 {
        v + 8192
    } else {
        v
    }
}

/// The packed first word of a finger record.
pub open spec fn packed_word(f: Mt2Finger) -> int {
    field_13(f.absolute_x as int) + 8192 * field_13(f.absolute_y as int) + 0x400_0000 * f.finger
        + 0x2000_0000 * f.state
}

/// The nine bytes that record the finger `f`.
pub open spec fn encode_finger(f: Mt2Finger) -> Seq<u8> {
    let p = packed_word(f);
    seq![
        (p % 256) as u8,
        ((p / 256) % 256) as u8,
        ((p / 65536) % 256) as u8,
        (p / 16777216) as u8,
        f.touch_major,
        f.touch_minor,
        f.size,
        f.pressure,
        (f.id + 32 * f.orientation) as u8,
    ]
}

/// Every field of `f` fits the width it has in a finger record, and the
/// unused bit 4 of the last byte is clear.
pub open spec fn is_recordable(f: Mt2Finger) -> bool {
    &&& -4096 <= f.absolute_x < 4096
    &&& -4096 <= f.absolute_y < 4096
    &&& f.finger < 8
    &&& f.state < 8
    &&& f.id < 16
    &&& f.orientation < 8
}

/// Decoding a finger record gives back every field that was recorded in it.
pub proof fn law_finger_record_round_trip(f: Mt2Finger)
    requires
        is_recordable(f),
    ensures
        spec_finger(encode_finger(f)) == f,
{
    let a = field_13(f.absolute_x as int);
    let b = field_13(f.absolute_y as int);
    let au = a as u32;
    let bu = b as u32;
    let cu = f.finger as u32;
    let du = f.state as u32;
    let p = packed_word(f);
    assert(0 <= a < 8192 && 0 <= b < 8192);
    let pu: u32 = (au + 8192 * bu + 0x400_0000 * cu + 0x2000_0000 * du) as u32;
    assert(au + 8192 * bu + 0x400_0000 * cu + 0x2000_0000 * du < 0x1_0000_0000);
    assert(p == pu);
    assert({
        &&& pu % 256 + 256 * ((pu / 256) % 256) + 65536 * ((pu / 65536) % 256) + 16777216 * (pu
            / 16777216) == pu
        &&& pu / 16777216 < 256
    }) by (bit_vector);
    assert({
        &&& pu % 8192 == au
        &&& (pu / 8192) % 8192 == bu
        &&& (pu / 0x400_0000) % 8 == cu
        &&& pu / 0x2000_0000 == du
    }) by (bit_vector)
        requires
            au < 8192,
            bu < 8192,
            cu < 8,
            du < 8,
            pu == au + 8192 * bu + 0x400_0000 * cu + 0x2000_0000 * du,
    ;
    let id = f.id;
    let o = f.orientation;
    let t: u8 = (id + 32 * o) as u8;
    assert(t % 16 == id && t / 32 == o) by (bit_vector)
        requires
            id < 16,
            o < 8,
            t == (id + 32 * o) as u8,
    ;
    let e = encode_finger(f);
    assert(le_u32(e[0], e[1], e[2], e[3]) == p);
    assert(spec_finger(e) =~= f);
}

/// A mouse report that carries a multitouch report after its eight-byte
/// prefix decodes exactly as that multitouch report does on its own.
pub proof fn law_mouse_wrapped_report(
    prefix: Seq<u8>,
    payload: Seq<u8>,
    config: ParserConfig,
    res: Result<PtpReport, ParseError>,
)
    requires
        prefix.len() == 8,
        prefix[0] == REPORT_ID_MOUSE,
        payload.len() > 0,
    ensures
        report_outcome(prefix + payload, config, res) == multitouch_outcome(payload, config, res),
{
    let input = prefix + payload;
    assert(input[0] == REPORT_ID_MOUSE);
    assert(input.subrange(8, input.len() as int) =~= payload);
}

/// A decoded report never holds more than five contacts, holds one per
/// finger record up to that limit, and every contact past the count is
/// empty.
pub proof fn law_contact_count(input: Seq<u8>, config: ParserConfig, r: PtpReport)
    requires
        multitouch_outcome(input, config, Ok(r)),
    ensures
        r.contact_count <= PTP_MAX_CONTACT_POINTS,
        r.contact_count == finger_record_count(input) || (r.contact_count == 5
            && finger_record_count(input) > 5),
        forall|i: int|
            r.contact_count <= i < 5 ==> (#[trigger] r.contacts@[i]) == (PtpContact {
                confidence: false,
                tip_switch: false,
                contact_id: 0,
                x: 0,
                y: 0,
            }),
{
}

/// With the button disabled, no decoded report shows a click.
pub proof fn law_disabled_button_never_clicks(input: Seq<u8>, config: ParserConfig, r: PtpReport)
    requires
        config.settings.button_disabled,
        multitouch_outcome(input, config, Ok(r)),
    ensures
        !r.is_button_clicked,
{
}

/// Without palm rejection every reported contact is confident.
pub proof fn law_no_palm_rejection_keeps_confidence(
    input: Seq<u8>,
    config: ParserConfig,
    r: PtpReport,
)
    requires
        !config.settings.palm_rejection,
        multitouch_outcome(input, config, Ok(r)),
    ensures
        forall|i: int| 0 <= i < r.contact_count ==> #[trigger] r.contacts@[i].confidence,
{
    assert forall|i: int| 0 <= i < r.contact_count implies #[trigger] r.contacts@[i].confidence by {
        assert(r.contacts@[i] == spec_contact(spec_finger(finger_record(input, i)), config));
    }
}

/// When near fingers are not ignored, a contact touches exactly when its
/// finger's state has the valid bit; when they are ignored, a hovering
/// finger never touches.
pub proof fn law_tip_switch(f: Mt2Finger, config: ParserConfig)
    ensures
        !config.settings.ignore_near_fingers ==> spec_contact(f, config).tip_switch
            == state_is_valid(f.state),
        config.settings.ignore_near_fingers && state_is_near(f.state) ==> !spec_contact(
            f,
            config,
        ).tip_switch,
{
}

/// Palm rejection drops the confidence of palms and of nothing else:
/// with it on, a contact is confident exactly when its finger is not of
/// type 6; with it off, every contact is confident.
pub proof fn law_palm_rejection(f: Mt2Finger, config: ParserConfig)
    ensures
        config.settings.palm_rejection ==> (spec_contact(f, config).confidence <==> f.finger != 6),
        !config.settings.palm_rejection ==> spec_contact(f, config).confidence,
{
}

/// A contact keeps the finger's id, sits at the finger's x measured from
/// the x origin and at its negated y measured from the y origin, clamped to
/// `0..=32767`, and touches exactly when the finger's state has bit 2 set
/// and, if near fingers are ignored, bit 1 clear.
pub proof fn law_contact_fields(f: Mt2Finger, config: ParserConfig)
    ensures
        spec_contact(f, config).contact_id == f.id as u32,
        f.absolute_x - config.x.min <= 0 ==> spec_contact(f, config).x == 0,
        0 <= f.absolute_x - config.x.min <= 32767 ==> spec_contact(f, config).x == f.absolute_x
            - config.x.min,
        f.absolute_x - config.x.min > 32767 ==> spec_contact(f, config).x == 32767,
        -f.absolute_y - config.y.min <= 0 ==> spec_contact(f, config).y == 0,
        0 <= -f.absolute_y - config.y.min <= 32767 ==> spec_contact(f, config).y == -f.absolute_y
            - config.y.min,
        -f.absolute_y - config.y.min > 32767 ==> spec_contact(f, config).y == 32767,
        spec_contact(f, config).tip_switch <==> ((f.state / 4) % 2 == 1 && (
        !config.settings.ignore_near_fingers || (f.state / 2) % 2 == 0)),
{
}

/// The fields of a decoded finger, read straight from the record bytes:
/// x is bits 0..13 of the little-endian first word, y bits 13..26, the
/// finger type bits 26..29 and the state bits 29..32, both coordinates in
/// two's complement; the id is the low nibble of byte 8 and the
/// orientation its top three bits.
pub proof fn law_finger_fields(b: Seq<u8>)
    requires
        b.len() >= 9,
    ensures
        ({
            let f = spec_finger(b);
            let x = b[0] + 256 * (b[1] % 32);
            let y = b[1] / 32 + 8 * b[2] + 2048 * (b[3] % 4);
            &&& f.absolute_x == (if x >= 4096 { x - 8192 } else { x })
            &&& f.absolute_y == (if y >= 4096 { y - 8192 } else { y })
            &&& f.finger == (b[3] / 4) % 8
            &&& f.state == b[3] / 32
            &&& f.touch_major == b[4] && f.touch_minor == b[5]
            &&& f.size == b[6] && f.pressure == b[7]
            &&& f.id == b[8] % 16
            &&& f.orientation == b[8] / 32
        }),
{
    let b0 = b[0];
    let b1 = b[1];
    let b2 = b[2];
    let b3 = b[3];
    let p: u32 = ((b0 as u32) + 256 * (b1 as u32) + 65536 * (b2 as u32) + 16777216 * (b3 as u32)) as u32;
    assert(le_u32(b0, b1, b2, b3) == p);
    assert({
        &&& p % 8192 == b0 + 256 * (b1 % 32)
        &&& (p / 8192) % 8192 == b1 / 32 + 8 * b2 + 2048 * (b3 % 4)
        &&& (p / 0x400_0000) % 8 == (b3 / 4) % 8
        &&& p / 0x2000_0000 == b3 / 32
    }) by (bit_vector)
        requires
            p == ((b0 as u32) + 256 * (b1 as u32) + 65536 * (b2 as u32) + 16777216 * (b3 as u32)) as u32,
    ;
}

/// What a decoded multitouch report says, read from its bytes: the click
/// is bit 0 of byte 1 unless the button is disabled, the scan time is ten
/// times the timestamp (bits 3..8 of byte 1 below the 16-bit word in bytes
/// 2..4 shifted left by 5), modulo 2^16, and contact `i` carries the id in
/// the low nibble of the last byte of finger record `i`.
pub proof fn law_decoded_report_fields(input: Seq<u8>, config: ParserConfig, r: PtpReport)
    requires
        multitouch_outcome(input, config, Ok(r)),
    ensures
        r.report_id == 0x31,
        r.is_button_clicked <==> (input[1] % 2 == 1 && !config.settings.button_disabled),
        r.scan_time == ((input[2] as int * 320 + input[3] as int * 81920 + (input[1] / 8) as int
            * 10) % 65536),
        forall|i: int|
            0 <= i < r.contact_count ==> (#[trigger] r.contacts@[i]).contact_id == input[4 + 9 * i
                + 8] % 16,
{
    let t = (input[2] + 256 * input[3]) * 32 + input[1] / 8;
    assert((t % 65536) * 10 % 65536 == (t * 10) % 65536) by (nonlinear_arith)
        requires
            t >= 0,
    ;
    assert forall|i: int| 0 <= i < r.contact_count implies (#[trigger] r.contacts@[i]).contact_id
        == input[4 + 9 * i + 8] % 16 by {
        assert(r.contacts@[i] == spec_contact(spec_finger(finger_record(input, i)), config));
        assert(finger_record(input, i)[8] == input[4 + 9 * i + 8]);
    }
}

/// When a report is refused, and with what: an empty report, a mouse
/// report too short to carry a multitouch report, any other id than the
/// two known ones (naming its second byte, or its only byte), and a
/// multitouch report shorter than its header, with an id other than 0x31,
/// or whose finger part is not a whole number of nine-byte records.
pub proof fn law_refusals(input: Seq<u8>, config: ParserConfig, res: Result<PtpReport, ParseError>)
    requires
        report_outcome(input, config, res),
    ensures
        input.len() == 0 ==> res == Err::<PtpReport, ParseError>(ParseError::Empty),
        input.len() > 0 && input[0] == 0x02 && input.len() <= 8 ==> res == Err::<
            PtpReport,
            ParseError,
        >(ParseError::UnsupportedReport(0x02)),
        input.len() > 1 && input[0] != 0x02 && input[0] != 0x31 ==> res == Err::<
            PtpReport,
            ParseError,
        >(ParseError::UnsupportedReport(input[1])),
        input.len() == 1 && input[0] != 0x02 && input[0] != 0x31 ==> res == Err::<
            PtpReport,
            ParseError,
        >(ParseError::UnsupportedReport(input[0])),
        input.len() > 0 && input[0] == 0x31 && input.len() < 4 ==> res == Err::<
            PtpReport,
            ParseError,
        >(ParseError::MalformedLength),
        input.len() >= 4 && input[0] == 0x31 && (input.len() - 4) % 9 != 0 ==> res == Err::<
            PtpReport,
            ParseError,
        >(ParseError::MalformedLength),
        input.len() >= 4 && input[0] == 0x31 && (input.len() - 4) % 9 == 0 ==> res is Ok,
        input.len() > 8 && input[0] == 0x02 && input[8] != 0x31 && input.len() >= 12 ==> res
            == Err::<PtpReport, ParseError>(ParseError::UnsupportedReport(input[8])),
{
}

} // verus!
