use mt2::control::{
    button_action, button_message, command_id, plan_command, require_windows, ButtonAction,
    ControlAction, ID_DEFAULTS, ID_DISABLED, ID_FIRM, ID_LIGHT, ID_MAXIMUM, ID_MEDIUM, ID_SILENT,
    ID_TOUCHPAD_SETTINGS,
};
use mt2::settings::{
    preset_settings, registry_write_failure, registry_writes, save_settings, Settings,
    HID_FILTER_KEY, USB_DRIVER_KEY,
};

#[test]
fn default_matches_original_control_panel() {
    let settings = Settings::default();

    assert_eq!(settings.feedback_click, 0x060617);
    assert_eq!(settings.feedback_release, 0x000014);
    assert_eq!(settings.stop_pressure, 0);
    assert_eq!(settings.stop_size, -1);
}

#[test]
fn maps_presets() {
    let disabled = preset_settings("disabled").unwrap();
    let firm = preset_settings("macos-firm").unwrap();

    assert_eq!(disabled.button_disabled, 1);
    assert_eq!(disabled.feedback_click, 0);
    assert_eq!(firm.feedback_click, 0x08081e);
    assert_eq!(firm.feedback_release, 0x020218);
}

#[test]
fn every_preset_and_unknown_names() {
    let d = Settings::default();
    assert_eq!(preset_settings("macos-medium"), Ok(d));
    let light = preset_settings("macos-light").unwrap();
    assert_eq!((light.feedback_click, light.feedback_release), (0x040415, 0x000010));
    let silent = preset_settings("silent").unwrap();
    assert_eq!((silent.feedback_click, silent.feedback_release), (0x000017, 0x000014));
    let max = preset_settings("maximum").unwrap();
    assert_eq!((max.feedback_click, max.feedback_release), (0x00ff_ffff, 0x00ff_ffff));
    for name in ["macos-light", "macos-medium", "macos-firm", "silent", "disabled", "maximum"] {
        let s = preset_settings(name).unwrap();
        assert_eq!(s.stop_pressure, d.stop_pressure);
        assert_eq!(s.stop_size, d.stop_size);
        assert_eq!(s.ignore_button_finger, d.ignore_button_finger);
        assert_eq!(s.ignore_near_fingers, d.ignore_near_fingers);
        assert_eq!(s.palm_rejection, d.palm_rejection);
        assert_eq!(s.button_disabled == 1, name == "disabled");
    }
    assert_eq!(preset_settings("loud"), Err("unknown preset: loud".to_string()));
    assert_eq!(preset_settings(""), Err("unknown preset: ".to_string()));
    assert_eq!(preset_settings("Silent"), Err("unknown preset: Silent".to_string()));
}

#[test]
fn registry_writes_cover_both_keys() {
    let plan = registry_writes(Settings::default());
    assert_eq!(plan.len(), 16);
    let expected = [
        ("ButtonDisabled", "0"),
        ("FeedbackClick", "394775"),
        ("FeedbackRelease", "20"),
        ("StopPressure", "0"),
        ("StopSize", "-1"),
        ("IgnoreButtonFinger", "1"),
        ("IgnoreNearFingers", "1"),
        ("PalmRejection", "1"),
    ];
    for (i, w) in plan.iter().enumerate() {
        let key = if i < 8 { USB_DRIVER_KEY } else { HID_FILTER_KEY };
        assert_eq!(w.key, key);
        assert_eq!(w.name, expected[i % 8].0);
        assert_eq!(w.value, expected[i % 8].1);
    }
    assert_eq!(
        plan[8].key,
        "HKLM\\SYSTEM\\CurrentControlSet\\Services\\AmtPtpHidFilter\\Parameters"
    );
    let max = registry_writes(preset_settings("maximum").unwrap());
    assert_eq!(max[1].value, "16777215");
    let extreme = registry_writes(Settings { stop_size: i32::MIN, stop_pressure: i32::MAX, ..Settings::default() });
    assert_eq!(extreme[4].value, "-2147483648");
    assert_eq!(extreme[3].value, "2147483647");
}

#[test]
fn save_settings_only_on_windows() {
    assert_eq!(
        save_settings(Settings::default(), false),
        Err("driver settings can be saved only on Windows".to_string())
    );
    assert_eq!(save_settings(Settings::default(), true), Ok(registry_writes(Settings::default())));
    let plan = registry_writes(Settings::default());
    assert_eq!(
        registry_write_failure(&plan[0]),
        format!("reg.exe failed while writing {}\\ButtonDisabled", USB_DRIVER_KEY)
    );
}

#[test]
fn command_line_plans() {
    assert_eq!(plan_command(None, None, false), Ok(ControlAction::ShowHelp));
    for help in ["help", "--help", "-h"] {
        assert_eq!(plan_command(Some(help), None, false), Ok(ControlAction::ShowHelp));
    }
    let windows_only = Err("mt2-control can change settings only on Windows".to_string());
    assert_eq!(require_windows(false), Err("mt2-control can change settings only on Windows".to_string()));
    assert_eq!(require_windows(true), Ok(()));
    assert_eq!(plan_command(Some("preset"), Some("silent"), false), windows_only);
    assert_eq!(plan_command(Some("defaults"), None, false), windows_only);
    assert_eq!(
        plan_command(Some("preset"), None, true),
        Err("missing preset name".to_string())
    );
    assert_eq!(
        plan_command(Some("preset"), Some("macos-firm"), true),
        Ok(ControlAction::Save(preset_settings("macos-firm").unwrap()))
    );
    assert_eq!(
        plan_command(Some("preset"), Some("nope"), true),
        Err("unknown preset: nope".to_string())
    );
    assert_eq!(
        plan_command(Some("defaults"), Some("ignored"), true),
        Ok(ControlAction::Save(Settings::default()))
    );
    assert_eq!(plan_command(Some("reset"), None, true), Err("unknown command: reset".to_string()));
}

#[test]
fn desktop_buttons() {
    assert_eq!(button_action(ID_DEFAULTS), Ok(ButtonAction::Save(Settings::default())));
    let pairs = [
        (ID_LIGHT, "macos-light"),
        (ID_MEDIUM, "macos-medium"),
        (ID_FIRM, "macos-firm"),
        (ID_SILENT, "silent"),
        (ID_DISABLED, "disabled"),
        (ID_MAXIMUM, "maximum"),
    ];
    for (id, name) in pairs {
        assert_eq!(button_action(id), Ok(ButtonAction::Save(preset_settings(name).unwrap())));
    }
    assert_eq!(button_action(ID_TOUCHPAD_SETTINGS), Ok(ButtonAction::OpenTouchpadSettings));
    assert_eq!(button_action(42), Ok(ButtonAction::Ignore));
    assert_eq!(command_id(0x1234_03e9), 1001);
    assert_eq!(button_message(ID_FIRM, Ok(())), Some("Settings saved.".to_string()));
    assert_eq!(button_message(ID_TOUCHPAD_SETTINGS, Ok(())), None);
    assert_eq!(button_message(ID_FIRM, Err("boom".to_string())), Some("boom".to_string()));
}
