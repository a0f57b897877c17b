use mt2::report::{
    finger_to_contact, parse_finger, parse_mt2_multitouch, parse_report, AxisRange, Mt2Finger,
    ParseError, ParserConfig, ParserSettings, PtpContact, PtpReport, MT2_FINGER_SIZE,
    MT2_REPORT_HEADER_SIZE, REPORT_ID_MULTITOUCH,
};

fn finger_bytes(x: u32, y: u32, finger: u32, state: u32, tail: u8) -> [u8; MT2_FINGER_SIZE] {
    let packed = x | (y << 13) | (finger << 26) | (state << 29);
    let mut bytes = [0_u8; MT2_FINGER_SIZE];
    bytes[0..4].copy_from_slice(&packed.to_le_bytes());
    bytes[8] = tail;
    bytes
}

fn multitouch(flags: u8, timestamp: u16, fingers: &[[u8; MT2_FINGER_SIZE]]) -> Vec<u8> {
    let mut report = vec![REPORT_ID_MULTITOUCH, flags];
    report.extend_from_slice(&timestamp.to_le_bytes());
    for f in fingers {
        report.extend_from_slice(f);
    }
    report
}

#[test]
fn parses_type5_finger_bitfields() {
    let packed = 1234_u32 | (567_u32 << 13) | (6_u32 << 26) | (4_u32 << 29);
    let mut bytes = [0_u8; MT2_FINGER_SIZE];
    bytes[0..4].copy_from_slice(&packed.to_le_bytes());
    bytes[4] = 10;
    bytes[5] = 11;
    bytes[6] = 12;
    bytes[7] = 13;
    bytes[8] = 7 | (3 << 5);

    let finger = parse_finger(&bytes);

    assert_eq!(finger.absolute_x, 1234);
    assert_eq!(finger.absolute_y, 567);
    assert_eq!(finger.finger, 6);
    assert_eq!(finger.state, 4);
    assert_eq!(finger.id, 7);
    assert_eq!(finger.orientation, 3);
}

#[test]
fn parses_multitouch_report() {
    let packed = 100_u32 | (50_u32 << 13) | (1_u32 << 26) | (4_u32 << 29);
    let mut report = [0_u8; MT2_REPORT_HEADER_SIZE + MT2_FINGER_SIZE];
    report[0] = REPORT_ID_MULTITOUCH;
    report[1] = 0x01 | (3 << 3);
    report[2..4].copy_from_slice(&2_u16.to_le_bytes());
    report[4..8].copy_from_slice(&packed.to_le_bytes());
    report[12] = 9;

    let parsed = parse_report(&report, ParserConfig::default()).unwrap();

    assert!(parsed.is_button_clicked);
    assert_eq!(parsed.scan_time, ((2 << 5) | 3) * 10);
    assert_eq!(parsed.contact_count, 1);
    assert_eq!(parsed.contacts[0].contact_id, 9);
    assert_eq!(parsed.contacts[0].x, 100);
    assert_eq!(parsed.contacts[0].tip_switch, true);
}

#[test]
fn finger_negative_coordinates_are_sign_extended() {
    let bytes = finger_bytes(8192 - 5, 8192 - 4096, 0, 0, 0);
    let finger = parse_finger(&bytes);
    assert_eq!(finger.absolute_x, -5);
    assert_eq!(finger.absolute_y, -4096);
    let bytes = finger_bytes(4095, 0, 7, 7, 0xff);
    let finger = parse_finger(&bytes);
    assert_eq!(finger.absolute_x, 4095);
    assert_eq!(finger.finger, 7);
    assert_eq!(finger.state, 7);
    assert_eq!(finger.id, 15);
    assert_eq!(finger.orientation, 7);
}

#[test]
fn finger_record_round_trips_fields() {
    let f = Mt2Finger {
        absolute_x: -1000,
        absolute_y: 2000,
        finger: 3,
        state: 5,
        touch_major: 40,
        touch_minor: 30,
        size: 20,
        pressure: 10,
        id: 12,
        orientation: 6,
    };
    let x = (f.absolute_x as i32 + 8192) as u32 % 8192;
    let y = f.absolute_y as u32;
    let mut bytes = finger_bytes(x, y, 3, 5, 12 | (6 << 5));
    bytes[4] = 40;
    bytes[5] = 30;
    bytes[6] = 20;
    bytes[7] = 10;
    assert_eq!(parse_finger(&bytes), f);
}

#[test]
fn contact_flips_y_and_measures_from_axis_origin() {
    let config = ParserConfig {
        x: AxisRange { min: -100 },
        y: AxisRange { min: -300 },
        settings: ParserSettings::default(),
    };
    let finger = parse_finger(&finger_bytes(8192 - 50, 200, 0, 4, 3));
    let c = finger_to_contact(finger, config);
    assert_eq!(c.x, 50);
    assert_eq!(c.y, 100);
    assert_eq!(c.contact_id, 3);
    assert!(c.tip_switch);
    assert!(c.confidence);
    let below = parse_finger(&finger_bytes(8192 - 500, 400, 0, 4, 0));
    let c = finger_to_contact(below, config);
    assert_eq!(c.x, 0);
    assert_eq!(c.y, 0);
}

#[test]
fn contact_axis_saturates() {
    let config = ParserConfig {
        x: AxisRange { min: i16::MIN },
        y: AxisRange { min: 0 },
        settings: ParserSettings::default(),
    };
    let finger = Mt2Finger {
        absolute_x: 30000,
        absolute_y: -20,
        finger: 0,
        state: 0,
        touch_major: 0,
        touch_minor: 0,
        size: 0,
        pressure: 0,
        id: 0,
        orientation: 0,
    };
    let c = finger_to_contact(finger, config);
    assert_eq!(c.x, 32767);
    assert_eq!(c.y, 20);
}

#[test]
fn palm_rejection_and_near_fingers() {
    let palm = parse_finger(&finger_bytes(1, 1, 6, 4 | 2, 0));
    let default = ParserConfig::default();
    let c = finger_to_contact(palm, default);
    assert!(c.confidence);
    assert!(!c.tip_switch);

    let strict = ParserConfig {
        settings: ParserSettings {
            button_disabled: false,
            ignore_near_fingers: false,
            palm_rejection: true,
        },
        ..ParserConfig::default()
    };
    let c = finger_to_contact(palm, strict);
    assert!(!c.confidence);
    assert!(c.tip_switch);

    let hovering_invalid = parse_finger(&finger_bytes(1, 1, 1, 2, 0));
    assert!(!finger_to_contact(hovering_invalid, strict).tip_switch);
}

#[test]
fn disabled_button_is_never_clicked() {
    let config = ParserConfig {
        settings: ParserSettings {
            button_disabled: true,
            ignore_near_fingers: true,
            palm_rejection: false,
        },
        ..ParserConfig::default()
    };
    let report = multitouch(0x01, 0, &[]);
    assert!(!parse_mt2_multitouch(&report, config).unwrap().is_button_clicked);
    assert!(parse_mt2_multitouch(&report, ParserConfig::default()).unwrap().is_button_clicked);
}

#[test]
fn keeps_at_most_five_contacts() {
    let fingers: Vec<[u8; MT2_FINGER_SIZE]> =
        (0..7).map(|i| finger_bytes(10 * i as u32, 0, 0, 4, i as u8)).collect();
    let report = multitouch(0, 0, &fingers);
    let parsed = parse_mt2_multitouch(&report, ParserConfig::default()).unwrap();
    assert_eq!(parsed.contact_count, 5);
    for i in 0..5 {
        assert_eq!(parsed.contacts[i].contact_id, i as u32);
        assert_eq!(parsed.contacts[i].x, 10 * i as u16);
    }

    let two = multitouch(0, 0, &fingers[..2]);
    let parsed = parse_mt2_multitouch(&two, ParserConfig::default()).unwrap();
    assert_eq!(parsed.contact_count, 2);
    for i in 2..5 {
        assert_eq!(parsed.contacts[i], PtpContact::default());
    }
}

#[test]
fn empty_multitouch_report_is_default_report() {
    let parsed = parse_mt2_multitouch(&multitouch(0, 0, &[]), ParserConfig::default()).unwrap();
    assert_eq!(parsed, PtpReport::default());
}

#[test]
fn scan_time_wraps() {
    let report = multitouch(0xff, 0xffff, &[]);
    let parsed = parse_mt2_multitouch(&report, ParserConfig::default()).unwrap();
    let timestamp: u16 = (0xffff_u16 << 5) | 31;
    assert_eq!(parsed.scan_time, timestamp.wrapping_mul(10));
    assert_eq!(parsed.scan_time, 65526);
}

#[test]
fn multitouch_errors() {
    let config = ParserConfig::default();
    assert_eq!(parse_mt2_multitouch(&[0x31, 0, 0], config), Err(ParseError::MalformedLength));
    assert_eq!(
        parse_mt2_multitouch(&[0x30, 0, 0, 0], config),
        Err(ParseError::UnsupportedReport(0x30))
    );
    assert_eq!(
        parse_mt2_multitouch(&[0x31, 0, 0, 0, 1, 2, 3], config),
        Err(ParseError::MalformedLength)
    );
}

#[test]
fn report_dispatch() {
    let config = ParserConfig::default();
    assert_eq!(parse_report(&[], config), Err(ParseError::Empty));
    assert_eq!(
        parse_report(&[0x02, 1, 2, 3, 4, 5, 6, 7], config),
        Err(ParseError::UnsupportedReport(0x02))
    );
    assert_eq!(parse_report(&[0x05, 0x44], config), Err(ParseError::UnsupportedReport(0x44)));
    assert_eq!(parse_report(&[0x05], config), Err(ParseError::UnsupportedReport(0x05)));

    let inner = multitouch(0x01, 7, &[finger_bytes(42, 0, 0, 4, 2)]);
    let mut wrapped = vec![0x02, 0, 0, 0, 0, 0, 0, 0];
    wrapped.extend_from_slice(&inner);
    assert_eq!(parse_report(&wrapped, config), parse_mt2_multitouch(&inner, config));
    assert_eq!(parse_report(&wrapped, config).unwrap().contacts[0].x, 42);

    let mut bad = vec![0x02, 0, 0, 0, 0, 0, 0, 0];
    bad.extend_from_slice(&[0x31, 0]);
    assert_eq!(parse_report(&bad, config), Err(ParseError::MalformedLength));
}
