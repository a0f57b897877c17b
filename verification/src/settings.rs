//! Driver settings: the defaults, the named haptic presets and the
//! registry values that store them.

use vstd::prelude::*;
use crate::text::{
    decimal, decimal_string, decimal_value, join, law_decimal_round_trip, law_signed_round_trip,
    signed_decimal, signed_decimal_string, signed_value, str_eq,
};

verus! {

broadcast use vstd::string::group_string_axioms;

/// The values the Windows driver reads from its `Parameters` registry keys.
#[derive(Clone, Copy, Debug, PartialEq, Eq, Structural)]
pub struct Settings {
    pub button_disabled: u32,
    pub feedback_click: u32,
    pub feedback_release: u32,
    pub stop_pressure: i32,
    pub stop_size: i32,
    pub ignore_button_finger: u32,
    pub ignore_near_fingers: u32,
    pub palm_rejection: u32,
}

/// The settings the driver uses when none are stored.
pub open spec fn default_settings() -> Settings {
    Settings {
        button_disabled: 0,
        feedback_click: 0x060617,
        feedback_release: 0x000014,
        stop_pressure: 0,
        stop_size: -1i32,
        ignore_button_finger: 1,
        ignore_near_fingers: 1,
        palm_rejection: 1,
    }
}

impl Default for Settings {
    fn default() -> (r: Self)
        ensures
            r == default_settings(),
    {
        Settings {
            button_disabled: 0,
            feedback_click: 0x060617,
            feedback_release: 0x000014,
            stop_pressure: 0,
            stop_size: -1,
            ignore_button_finger: 1,
            ignore_near_fingers: 1,
            palm_rejection: 1,
        }
    }
}

/// The defaults with the given click feedback.
pub open spec fn with_feedback(click: u32, release: u32) -> Settings {
    Settings { feedback_click: click, feedback_release: release, ..default_settings() }
}

/// The settings of the preset called `name`, if there is one.
pub open spec fn spec_preset(name: Seq<char>) -> Option<Settings> {
    if name == "macos-light"@ {
        Some(with_feedback(0x040415, 0x000010))
    } else if name == "macos-medium"@ {
        Some(default_settings())
    } else if name == "macos-firm"@ {
        Some(with_feedback(0x08081e, 0x020218))
    } else if name == "silent"@ {
        Some(with_feedback(0x000017, 0x000014))
    } else if name == "disabled"@ {
        Some(Settings { button_disabled: 1, ..with_feedback(0, 0) })
    } else if name == "maximum"@ {
        Some(with_feedback(0x00ff_ffff, 0x00ff_ffff))
    } else {
        None
    }
}

/// The settings of a named preset; an unknown name is refused with
/// `unknown preset: <name>`.
pub fn preset_settings(name: &str) -> (r: Result<Settings, String>)
    ensures
        match spec_preset(name@) {
            Some(s) => r == Ok::<Settings, String>(s),
            None => r matches Err(e) && e@ == "unknown preset: "@ + name@,
        },
{
    let mut settings = Settings::default();
    if str_eq(name, "macos-light") {
        settings.feedback_click = 0x040415;
        settings.feedback_release = 0x000010;
    } else if str_eq(name, "macos-medium") {
    } else if str_eq(name, "macos-firm") {
        settings.feedback_click = 0x08081e;
        settings.feedback_release = 0x020218;
    } else if str_eq(name, "silent") {
        settings.feedback_click = 0x000017;
        settings.feedback_release = 0x000014;
    } else if str_eq(name, "disabled") {
        settings.button_disabled = 1;
        settings.feedback_click = 0;
        settings.feedback_release = 0;
    } else if str_eq(name, "maximum") {
        settings.feedback_click = 0x00ff_ffff;
        settings.feedback_release = 0x00ff_ffff;
    } else {
        return Err(join("unknown preset: ", name));
    }
    Ok(settings)
}

// ---------------------------------------------------------------------
// Registry values
// ---------------------------------------------------------------------

/// One `REG_DWORD` value to write: key, value name and decimal data.
#[derive(Clone, Debug, PartialEq, Eq)]
pub struct RegistryWrite {
    pub key: String,
    pub name: String,
    pub value: String,
}

impl View for RegistryWrite {
    type V = (Seq<char>, Seq<char>, Seq<char>);

    open spec fn view(&self) -> Self::V {
        (self.key@, self.name@, self.value@)
    }
}

/// Parameters key of the USB driver service.
pub const USB_DRIVER_KEY: &'static str =
    "HKLM\\SOFTWARE\\Microsoft\\Windows NT\\CurrentVersion\\WUDF\\Services\\AmtPtpDeviceUsbUm\\Parameters";

/// Parameters key of the HID filter driver service.
pub const HID_FILTER_KEY: &'static str =
    "HKLM\\SYSTEM\\CurrentControlSet\\Services\\AmtPtpHidFilter\\Parameters";

/// The eight values of `s`, by name, in the order they are written.
pub open spec fn settings_values(s: Settings) -> Seq<(Seq<char>, Seq<char>)> {
    seq![
        ("ButtonDisabled"@, decimal(s.button_disabled as nat)),
        ("FeedbackClick"@, decimal(s.feedback_click as nat)),
        ("FeedbackRelease"@, decimal(s.feedback_release as nat)),
        ("StopPressure"@, signed_decimal(s.stop_pressure as int)),
        ("StopSize"@, signed_decimal(s.stop_size as int)),
        ("IgnoreButtonFinger"@, decimal(s.ignore_button_finger as nat)),
        ("IgnoreNearFingers"@, decimal(s.ignore_near_fingers as nat)),
        ("PalmRejection"@, decimal(s.palm_rejection as nat)),
    ]
}

/// The writes that store `s`: all eight values under the USB driver key,
/// then all eight under the HID filter key.
pub open spec fn registry_plan(s: Settings) -> Seq<(Seq<char>, Seq<char>, Seq<char>)> {
    Seq::new(
        16,
        |i: int|
            (
                if i < 8 {
                    USB_DRIVER_KEY@
                } else {
                    HID_FILTER_KEY@
                },
                settings_values(s)[i % 8].0,
                settings_values(s)[i % 8].1,
            ),
    )
}

fn push_write(plan: &mut Vec<RegistryWrite>, key: &str, name: &str, value: String)
    ensures
        final(plan)@.len() == old(plan)@.len() + 1,
        forall|i: int| 0 <= i < old(plan)@.len() ==> #[trigger] final(plan)@[i] == old(plan)@[i],
        final(plan)@[old(plan)@.len() as int]@ == (key@, name@, value@),
{
    plan.push(RegistryWrite { key: key.to_owned(), name: name.to_owned(), value });
}

/// The writes that store `s` under one key.
fn push_key_writes(plan: &mut Vec<RegistryWrite>, key: &str, s: Settings)
    ensures
        final(plan)@.len() == old(plan)@.len() + 8,
        forall|i: int| 0 <= i < old(plan)@.len() ==> #[trigger] final(plan)@[i] == old(plan)@[i],
        forall|k: int|
            0 <= k < 8 ==> #[trigger] final(plan)@[old(plan)@.len() + k]@ == (
                key@,
                settings_values(s)[k].0,
                settings_values(s)[k].1,
            ),
{
    let ghost start = plan@.len();
    push_write(plan, key, "ButtonDisabled", decimal_string(s.button_disabled as u64));
    push_write(plan, key, "FeedbackClick", decimal_string(s.feedback_click as u64));
    push_write(plan, key, "FeedbackRelease", decimal_string(s.feedback_release as u64));
    push_write(plan, key, "StopPressure", signed_decimal_string(s.stop_pressure as i64));
    push_write(plan, key, "StopSize", signed_decimal_string(s.stop_size as i64));
    push_write(plan, key, "IgnoreButtonFinger", decimal_string(s.ignore_button_finger as u64));
    push_write(plan, key, "IgnoreNearFingers", decimal_string(s.ignore_near_fingers as u64));
    push_write(plan, key, "PalmRejection", decimal_string(s.palm_rejection as u64));
}

/// The registry writes that store `s`, in the order they are made.
pub fn registry_writes(s: Settings) -> (plan: Vec<RegistryWrite>)
    ensures
        plan@.len() == 16,
        forall|i: int| 0 <= i < 16 ==> #[trigger] plan@[i]@ == registry_plan(s)[i],
{
    let mut plan: Vec<RegistryWrite> = Vec::new();
    push_key_writes(&mut plan, USB_DRIVER_KEY, s);
    push_key_writes(&mut plan, HID_FILTER_KEY, s);
    assert forall|i: int| 0 <= i < 16 implies #[trigger] plan@[i]@ == registry_plan(s)[i] by {
        if i < 8 {
            assert(plan@[0 + i]@ == (USB_DRIVER_KEY@, settings_values(s)[i].0, settings_values(s)[i].1));
        } else {
            assert(plan@[8 + (i - 8)]@ == (HID_FILTER_KEY@, settings_values(s)[i - 8].0, settings_values(s)[i - 8].1));
        }
    }
    plan
}

/// Message for saving on a system other than Windows.
pub open spec fn not_windows_message() -> Seq<char> {
    "driver settings can be saved only on Windows"@
}

/// Saving `settings`: on Windows, the registry writes to make, in order,
/// stopping at the first that fails; elsewhere the refusal message.
pub fn save_settings(settings: Settings, on_windows: bool) -> (r: Result<Vec<RegistryWrite>, String>)
    ensures
        on_windows ==> (r matches Ok(plan) && plan@.len() == 16 && forall|i: int|
            0 <= i < 16 ==> #[trigger] plan@[i]@ == registry_plan(settings)[i]),
        !on_windows ==> (r matches Err(e) && e@ == "driver settings can be saved only on Windows"@),
{
    if on_windows {
        Ok(registry_writes(settings))
    } else {
        Err("driver settings can be saved only on Windows".to_owned())
    }
}

/// The message for a registry write that `reg.exe` reported as failed.
pub fn registry_write_failure(write: &RegistryWrite) -> (r: String)
    ensures
        r@ == "reg.exe failed while writing "@ + write.key@ + "\\"@ + write.name@,
{
    let r = join("reg.exe failed while writing ", write.key.as_str());
    let r = join(r.as_str(), "\\");
    join(r.as_str(), write.name.as_str())
}

} // verus!

verus! {

/// The medium preset is the default settings.
pub proof fn law_medium_preset_is_default()
    ensures
        spec_preset("macos-medium"@) == Some(default_settings()),
{
    reveal_strlit("macos-light");
    reveal_strlit("macos-medium");
    assert("macos-medium"@.len() != "macos-light"@.len());
}

/// A preset changes only the click feedback and, for the `disabled`
/// preset alone, the button: pressure, size and finger options keep their
/// defaults.
pub proof fn law_presets_change_only_click_settings(name: Seq<char>)
    ensures
        spec_preset(name) matches Some(s) ==> {
            &&& s.stop_pressure == default_settings().stop_pressure
            &&& s.stop_size == default_settings().stop_size
            &&& s.ignore_button_finger == default_settings().ignore_button_finger
            &&& s.ignore_near_fingers == default_settings().ignore_near_fingers
            &&& s.palm_rejection == default_settings().palm_rejection
            &&& (s.button_disabled == 1 <==> name == "disabled"@)
            &&& (s.button_disabled == 0 <==> name != "disabled"@)
        },
{
    reveal_strlit("macos-light");
    reveal_strlit("macos-medium");
    reveal_strlit("macos-firm");
    reveal_strlit("silent");
    reveal_strlit("disabled");
    reveal_strlit("maximum");
    assert("disabled"@.len() == 8);
    assert("macos-light"@.len() == 11);
    assert("macos-medium"@.len() == 12);
    assert("macos-firm"@.len() == 10);
    assert("silent"@.len() == 6);
}

/// Both driver keys receive the same eight values.
pub proof fn law_both_keys_get_same_values(s: Settings)
    ensures
        forall|k: int|
            0 <= k < 8 ==> (#[trigger] registry_plan(s)[k]).1 == registry_plan(s)[k + 8].1
                && registry_plan(s)[k].2 == registry_plan(s)[k + 8].2,
{
}

/// The settings of each named preset, value by value, and that no other
/// name is a preset. The `disabled` preset turns the button and all
/// haptic feedback off; every preset keeps pressure 0, size -1 and the
/// three finger options on.
pub proof fn law_preset_values(name: Seq<char>)
    ensures
        name == "macos-light"@ ==> spec_preset(name) == Some(
            Settings {
                button_disabled: 0,
                feedback_click: 0x040415,
                feedback_release: 0x000010,
                stop_pressure: 0,
                stop_size: -1i32,
                ignore_button_finger: 1,
                ignore_near_fingers: 1,
                palm_rejection: 1,
            },
        ),
        name == "macos-medium"@ ==> spec_preset(name) == Some(
            Settings {
                button_disabled: 0,
                feedback_click: 0x060617,
                feedback_release: 0x000014,
                stop_pressure: 0,
                stop_size: -1i32,
                ignore_button_finger: 1,
                ignore_near_fingers: 1,
                palm_rejection: 1,
            },
        ),
        name == "macos-firm"@ ==> spec_preset(name) == Some(
            Settings {
                button_disabled: 0,
                feedback_click: 0x08081e,
                feedback_release: 0x020218,
                stop_pressure: 0,
                stop_size: -1i32,
                ignore_button_finger: 1,
                ignore_near_fingers: 1,
                palm_rejection: 1,
            },
        ),
        name == "silent"@ ==> spec_preset(name) == Some(
            Settings {
                button_disabled: 0,
                feedback_click: 0x000017,
                feedback_release: 0x000014,
                stop_pressure: 0,
                stop_size: -1i32,
                ignore_button_finger: 1,
                ignore_near_fingers: 1,
                palm_rejection: 1,
            },
        ),
        name == "disabled"@ ==> spec_preset(name) == Some(
            Settings {
                button_disabled: 1,
                feedback_click: 0,
                feedback_release: 0,
                stop_pressure: 0,
                stop_size: -1i32,
                ignore_button_finger: 1,
                ignore_near_fingers: 1,
                palm_rejection: 1,
            },
        ),
        name == "maximum"@ ==> spec_preset(name) == Some(
            Settings {
                button_disabled: 0,
                feedback_click: 0xff_ffff,
                feedback_release: 0xff_ffff,
                stop_pressure: 0,
                stop_size: -1i32,
                ignore_button_finger: 1,
                ignore_near_fingers: 1,
                palm_rejection: 1,
            },
        ),
        name != "macos-light"@ && name != "macos-medium"@ && name != "macos-firm"@ && name
            != "silent"@ && name != "disabled"@ && name != "maximum"@ ==> spec_preset(name) is None,
{
    reveal_strlit("macos-light");
    reveal_strlit("macos-medium");
    reveal_strlit("macos-firm");
    reveal_strlit("silent");
    reveal_strlit("disabled");
    reveal_strlit("maximum");
    assert("disabled"@.len() == 8);
    assert("macos-light"@.len() == 11);
    assert("macos-medium"@.len() == 12);
    assert("macos-firm"@.len() == 10);
    assert("silent"@.len() == 6);
    assert("maximum"@.len() == 7);
}

/// The default settings, value by value.
pub proof fn law_default_values()
    ensures
        default_settings() == (Settings {
            button_disabled: 0,
            feedback_click: 0x060617,
            feedback_release: 0x000014,
            stop_pressure: 0,
            stop_size: -1i32,
            ignore_button_finger: 1,
            ignore_near_fingers: 1,
            palm_rejection: 1,
        }),
{
}

/// Every registry write names the value it stores, under the USB driver
/// key for the first eight and the HID filter key for the rest, and its
/// data reads back as that value of the settings.
pub proof fn law_registry_writes_read_back(s: Settings)
    ensures
        forall|k: int| 0 <= k < 8 ==> (#[trigger] registry_plan(s)[k]).0 == USB_DRIVER_KEY@,
        forall|k: int| 8 <= k < 16 ==> (#[trigger] registry_plan(s)[k]).0 == HID_FILTER_KEY@,
        registry_plan(s)[0].1 == "ButtonDisabled"@ && decimal_value(registry_plan(s)[0].2)
            == s.button_disabled,
        registry_plan(s)[1].1 == "FeedbackClick"@ && decimal_value(registry_plan(s)[1].2)
            == s.feedback_click,
        registry_plan(s)[2].1 == "FeedbackRelease"@ && decimal_value(registry_plan(s)[2].2)
            == s.feedback_release,
        registry_plan(s)[3].1 == "StopPressure"@ && signed_value(registry_plan(s)[3].2)
            == s.stop_pressure,
        registry_plan(s)[4].1 == "StopSize"@ && signed_value(registry_plan(s)[4].2) == s.stop_size,
        registry_plan(s)[5].1 == "IgnoreButtonFinger"@ && decimal_value(registry_plan(s)[5].2)
            == s.ignore_button_finger,
        registry_plan(s)[6].1 == "IgnoreNearFingers"@ && decimal_value(registry_plan(s)[6].2)
            == s.ignore_near_fingers,
        registry_plan(s)[7].1 == "PalmRejection"@ && decimal_value(registry_plan(s)[7].2)
            == s.palm_rejection,
{
    law_decimal_round_trip(s.button_disabled as nat);
    law_decimal_round_trip(s.feedback_click as nat);
    law_decimal_round_trip(s.feedback_release as nat);
    law_decimal_round_trip(s.ignore_button_finger as nat);
    law_decimal_round_trip(s.ignore_near_fingers as nat);
    law_decimal_round_trip(s.palm_rejection as nat);
    law_signed_round_trip(s.stop_pressure as int);
    law_signed_round_trip(s.stop_size as int);
    assert(registry_plan(s)[0].2 == settings_values(s)[0].1);
}

} // verus!
