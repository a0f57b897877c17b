use mt2::status::{
    fallback_product_name, is_magic_trackpad_product, read_multitouch_device,
    read_string_property, read_trackpad_default, read_trackpad_management_device,
    read_tracking_speed, read_u32_property, split_ioreg_objects, status_items, value_or_unknown,
    MacTrackpadStatus, ManagementDevice, MultitouchDevice,
};
use mt2::text::{trim, decimal_string, padded_hex_string, signed_decimal_string};

#[test]
fn parses_ioreg_trackpad_properties() {
    let block = r#"
    {
      "Product" = ""
      "SerialNumber" = "30:82:16:F2:74:EA"
      "Transport" = "Bluetooth"
      "ProductID" = 613
      "BatteryPercent" = 66
      "MTFW Version" = 1301
    }
"#;

    assert_eq!(read_u32_property(block, "ProductID"), Some(613));
    assert_eq!(read_u32_property(block, "BatteryPercent"), Some(66));
    assert_eq!(
        read_string_property(block, "SerialNumber").as_deref(),
        Some("30:82:16:F2:74:EA")
    );
    assert!(is_magic_trackpad_product(613));
}

#[test]
fn builds_status_items() {
    let status = MacTrackpadStatus {
        detected: true,
        name: "Magic Trackpad 2".to_string(),
        transport: "Bluetooth".to_string(),
        battery_percent: Some(66),
        tracking_speed: "Pointer speed 2".to_string(),
        ..MacTrackpadStatus::default()
    };

    let items = status_items(&status);

    assert!(items.contains(&("Status".to_string(), "Connected".to_string())));
    assert!(items.contains(&("Battery".to_string(), "66%".to_string())));
    assert!(items.contains(&("Speed mode".to_string(), "Pointer speed 2".to_string())));
}

#[test]
fn status_items_in_order() {
    let status = MacTrackpadStatus {
        product_id: Some(0x265),
        serial_number: "  ".to_string(),
        firmware: "1301".to_string(),
        ..MacTrackpadStatus::default()
    };
    let items = status_items(&status);
    let labels: Vec<&str> = items.iter().map(|(l, _)| l.as_str()).collect();
    assert_eq!(
        labels,
        [
            "Status", "Transport", "Battery", "Speed mode", "Tap to click", "Click mode",
            "Scrolling", "Product ID", "Serial", "Firmware"
        ]
    );
    assert_eq!(items[0].1, "Not detected");
    assert_eq!(items[2].1, "Unknown");
    assert_eq!(items[7].1, "0x0265");
    assert_eq!(items[8].1, "Unknown");
    assert_eq!(items[9].1, "1301");
    let wide = MacTrackpadStatus { product_id: Some(0x12345), ..MacTrackpadStatus::default() };
    assert_eq!(status_items(&wide)[7].1, "0x12345");
    assert_eq!(status_items(&MacTrackpadStatus::default())[7].1, "Unknown");
}

#[test]
fn property_edge_cases() {
    let block = "\"A\" = \"open\n\"N\" = 4294967295\n\"Big\" = 4294967296\n\"Z\" = 0007x\n\"E\" = none";
    assert_eq!(read_string_property(block, "A"), Some("open\n".to_string()));
    assert_eq!(read_string_property("\"A\" = \"unterminated", "A"), None);
    assert_eq!(read_u32_property(block, "N"), Some(u32::MAX));
    assert_eq!(read_u32_property(block, "Big"), None);
    assert_eq!(read_u32_property(block, "Z"), Some(7));
    assert_eq!(read_u32_property(block, "E"), None);
    assert_eq!(read_u32_property(block, "Missing"), None);
    assert_eq!(read_string_property(block, "Missing"), None);
    assert_eq!(read_string_property("\"K\" = \"v\"", "K"), Some("v".to_string()));
}

#[test]
fn product_names_and_unknown_values() {
    assert!(is_magic_trackpad_product(0x0324));
    assert!(!is_magic_trackpad_product(0x0266));
    assert_eq!(fallback_product_name(0x0265), "Magic Trackpad 2");
    assert_eq!(fallback_product_name(0x0324), "Magic Trackpad USB-C");
    assert_eq!(fallback_product_name(1), "Magic Trackpad");
    assert_eq!(value_or_unknown(""), "Unknown");
    assert_eq!(value_or_unknown(" \t\u{3000}"), "Unknown");
    assert_eq!(value_or_unknown(" x "), " x ");
}

const LISTING: &str = "+-o Root  <class IORegistryEntry>\n  {\n    \"ProductID\" = 600\n  }\n  \n+-o Trackpad  <class AppleDeviceManagementHIDEventService>\n    {\n      \"Product\" = \"  \"\n      \"Transport\" = \"USB\"\n      \"ProductID\" = 804\n      \"BatteryPercent\" = 300\n      \"BTFW Version\" = 77\n      \"HIDPointerAccelerationMultiplier\" = 12\n    }\n";

#[test]
fn splits_ioreg_listing() {
    let objects = split_ioreg_objects(LISTING);
    assert_eq!(objects.len(), 2);
    assert!(objects[0].starts_with("+-o Root"));
    assert!(objects[1].starts_with("Trackpad"));
    assert_eq!(split_ioreg_objects(" \n\n+-o \n+-o a").len(), 1);
    assert_eq!(split_ioreg_objects(""), Vec::<&str>::new());
}

#[test]
fn reads_devices_from_listing() {
    let d = read_trackpad_management_device(LISTING).unwrap();
    assert_eq!(
        d,
        ManagementDevice {
            product: "  ".to_string(),
            transport: "USB".to_string(),
            battery_percent: None,
            serial_number: String::new(),
            product_id: 804,
            firmware: "77".to_string(),
        }
    );
    let m = read_multitouch_device(LISTING).unwrap();
    assert_eq!(
        m,
        MultitouchDevice {
            product: "  ".to_string(),
            transport: "USB".to_string(),
            serial_number: String::new(),
            product_id: 804,
            pointer_multiplier: "12".to_string(),
        }
    );
    assert_eq!(read_trackpad_management_device("+-o x {\"ProductID\" = 1}"), None);
    assert_eq!(read_multitouch_device(""), None);
}

#[test]
fn load_combines_sources() {
    let none = MacTrackpadStatus::load(None, None, "Unknown".to_string(), None, None);
    assert!(!none.detected);
    assert_eq!(none.name, "Magic Trackpad");
    assert_eq!(none.transport, "Unknown");
    assert_eq!(none.click_mode, "Unknown");
    assert_eq!(none.tap_to_click, "Unknown");
    assert_eq!(none.scroll_mode, "Unknown");

    let management = ManagementDevice {
        product: " ".to_string(),
        transport: "Bluetooth".to_string(),
        battery_percent: Some(80),
        serial_number: String::new(),
        product_id: 0x0265,
        firmware: "9".to_string(),
    };
    let multitouch = MultitouchDevice {
        product: "Other".to_string(),
        transport: "USB".to_string(),
        serial_number: "SN".to_string(),
        product_id: 1,
        pointer_multiplier: "5".to_string(),
    };
    let s = MacTrackpadStatus::load(
        Some("1".to_string()),
        Some("0".to_string()),
        "Unknown".to_string(),
        Some(management),
        Some(multitouch.clone()),
    );
    assert!(s.detected);
    assert_eq!(s.name, "Magic Trackpad 2");
    assert_eq!(s.transport, "Bluetooth");
    assert_eq!(s.battery_percent, Some(80));
    assert_eq!(s.serial_number, "SN");
    assert_eq!(s.product_id, Some(0x0265));
    assert_eq!(s.firmware, "9");
    assert_eq!(s.tracking_speed, "Acceleration multiplier 5");
    assert_eq!(s.click_mode, "Tap/click enabled");
    assert_eq!(s.tap_to_click, "On");
    assert_eq!(s.scroll_mode, "Off");

    let only_mt = MacTrackpadStatus::load(
        Some("0".to_string()),
        None,
        "Tracking speed 1".to_string(),
        None,
        Some(multitouch),
    );
    assert!(only_mt.detected);
    assert_eq!(only_mt.name, "Other");
    assert_eq!(only_mt.transport, "USB");
    assert_eq!(only_mt.product_id, Some(1));
    assert_eq!(only_mt.tracking_speed, "Tracking speed 1");
    assert_eq!(only_mt.click_mode, "Physical click");
    assert_eq!(only_mt.tap_to_click, "Off");
}

#[test]
fn speed_and_defaults_text() {
    assert_eq!(
        read_tracking_speed(Some(" 1.5\n".to_string()), Some("3".to_string())),
        "Tracking speed 1.5"
    );
    assert_eq!(read_tracking_speed(None, Some("3\n".to_string())), "Pointer speed 3");
    assert_eq!(read_tracking_speed(None, None), "Unknown");
    assert_eq!(read_trackpad_default(Some("1\n".to_string())), Some("1".to_string()));
    assert_eq!(read_trackpad_default(None), None);
}

#[test]
fn text_helpers() {
    assert_eq!(trim("\u{a0} a b \u{2029}"), "a b");
    assert_eq!(trim("   "), "");
    assert_eq!(decimal_string(0), "0");
    assert_eq!(decimal_string(u64::MAX), u64::MAX.to_string());
    assert_eq!(signed_decimal_string(i64::MIN), i64::MIN.to_string());
    assert_eq!(signed_decimal_string(-7), "-7");
    assert_eq!(padded_hex_string(0xab, 4), "00ab");
    assert_eq!(padded_hex_string(0, 0), "0");
    for n in [0u64, 9, 10, 4095, 1 << 40] {
        assert_eq!(decimal_string(n).parse::<u64>().unwrap(), n);
        assert_eq!(padded_hex_string(n, 4), format!("{n:04x}"));
    }
}
