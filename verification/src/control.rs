//! Decisions of the settings tools: which settings a command line or a
//! desktop button applies, and what the user is told afterwards.

use vstd::prelude::*;
use crate::settings::{default_settings, preset_settings, spec_preset, Settings};
use crate::text::{join, str_eq};

verus! {

broadcast use vstd::string::group_string_axioms;

/// What the command-line tool does after reading its arguments.
#[derive(Clone, Copy, Debug, PartialEq, Eq, Structural)]
pub enum ControlAction {
    /// Print the usage text.
    ShowHelp,
    /// Store these settings in the driver's registry keys.
    Save(Settings),
}

/// Message for a settings change asked for on a system other than Windows.
pub open spec fn windows_only_message() -> Seq<char> {
    "mt2-control can change settings only on Windows"@
}

/// Refuses, with a message, unless running on Windows.
pub fn require_windows(on_windows: bool) -> (r: Result<(), String>)
    ensures
        on_windows ==> r is Ok,
        !on_windows ==> (r matches Err(e) && e@ == "mt2-control can change settings only on Windows"@),
{
    if on_windows {
        Ok(())
    } else {
        Err("mt2-control can change settings only on Windows".to_owned())
    }
}

/// The view of an optional argument.
pub open spec fn arg_view(a: Option<&str>) -> Option<Seq<char>> {
    match a {
        Some(s) => Some(s@),
        None => None,
    }
}

/// What the tool does for a command and the argument after it:
/// `Ok(action)`, or `Err(message)`.
pub open spec fn spec_plan(
    command: Option<Seq<char>>,
    preset: Option<Seq<char>>,
    on_windows: bool,
) -> Result<ControlAction, Seq<char>> {
    match command {
        None => Ok(ControlAction::ShowHelp),
        Some(c) => if c == "help"@ || c == "--help"@ || c == "-h"@ {
            Ok(ControlAction::ShowHelp)
        } else if c == "preset"@ {
            if !on_windows {
                Err(windows_only_message())
            } else {
                match preset {
                    None => Err("missing preset name"@),
                    Some(p) => match spec_preset(p) {
                        Some(s) => Ok(ControlAction::Save(s)),
                        None => Err("unknown preset: "@ + p),
                    },
                }
            }
        } else if c == "defaults"@ {
            if !on_windows {
                Err(windows_only_message())
            } else {
                Ok(ControlAction::Save(default_settings()))
            }
        } else {
            Err("unknown command: "@ + c)
        },
    }
}

/// `r` is the outcome `spec` describes.
pub open spec fn plan_matches(r: Result<ControlAction, String>, spec: Result<ControlAction, Seq<char>>) -> bool {
    match (r, spec) {
        (Ok(a), Ok(b)) => a == b,
        (Err(e), Err(m)) => e@ == m,
        _ => false,
    }
}

/// Decides what the command-line tool does for its first argument
/// `command` and the argument `preset` after it.
pub fn plan_command(command: Option<&str>, preset: Option<&str>, on_windows: bool) -> (r: Result<
    ControlAction,
    String,
>)
    ensures
        plan_matches(r, spec_plan(arg_view(command), arg_view(preset), on_windows)),
{
    match command {
        None => Ok(ControlAction::ShowHelp),
        Some(c) => {
            if str_eq(c, "help") || str_eq(c, "--help") || str_eq(c, "-h") {
                Ok(ControlAction::ShowHelp)
            } else if str_eq(c, "preset") {
                if let Err(e) = require_windows(on_windows) {
                    return Err(e);
                }
                match preset {
                    None => Err("missing preset name".to_owned()),
                    Some(p) => match preset_settings(p) {
                        Ok(s) => Ok(ControlAction::Save(s)),
                        Err(e) => Err(e),
                    },
                }
            } else if str_eq(c, "defaults") {
                if let Err(e) = require_windows(on_windows) {
                    return Err(e);
                }
                Ok(ControlAction::Save(Settings::default()))
            } else {
                Err(join("unknown command: ", c))
            }
        },
    }
}

// ---------------------------------------------------------------------
// Desktop buttons
// ---------------------------------------------------------------------

pub const ID_DEFAULTS: usize = 1001;
pub const ID_LIGHT: usize = 1002;
pub const ID_MEDIUM: usize = 1003;
pub const ID_FIRM: usize = 1004;
pub const ID_SILENT: usize = 1005;
pub const ID_DISABLED: usize = 1006;
pub const ID_MAXIMUM: usize = 1007;
pub const ID_TOUCHPAD_SETTINGS: usize = 1008;

/// What pressing a desktop button does.
#[derive(Clone, Copy, Debug, PartialEq, Eq, Structural)]
pub enum ButtonAction {
    /// Store these settings.
    Save(Settings),
    /// Open the system touchpad settings page.
    OpenTouchpadSettings,
    /// Nothing.
    Ignore,
}

/// The preset applied by each preset button.
pub open spec fn button_preset_name(id: usize) -> Seq<char> {
    if id == ID_LIGHT {
        "macos-light"@
    } else if id == ID_MEDIUM {
        "macos-medium"@
    } else if id == ID_FIRM {
        "macos-firm"@
    } else if id == ID_SILENT {
        "silent"@
    } else if id == ID_DISABLED {
        "disabled"@
    } else {
        "maximum"@
    }
}

/// The settings of the preset that button `id` applies.
fn preset_of_button(id: usize) -> (r: Result<Settings, String>)
    requires
        ID_LIGHT <= id <= ID_MAXIMUM,
    ensures
        match spec_preset(button_preset_name(id)) {
            Some(s) => r == Ok::<Settings, String>(s),
            None => r matches Err(e) && e@ == "unknown preset: "@ + button_preset_name(id),
        },
{
    if id == ID_LIGHT {
        preset_settings("macos-light")
    } else if id == ID_MEDIUM {
        preset_settings("macos-medium")
    } else if id == ID_FIRM {
        preset_settings("macos-firm")
    } else if id == ID_SILENT {
        preset_settings("silent")
    } else if id == ID_DISABLED {
        preset_settings("disabled")
    } else {
        preset_settings("maximum")
    }
}

/// What the button with command id `id` does: the defaults button and the
/// six preset buttons save settings, the touchpad button opens the system
/// page, and any other id does nothing.
pub fn button_action(id: usize) -> (r: Result<ButtonAction, String>)
    ensures
        id == ID_DEFAULTS ==> r == Ok::<ButtonAction, String>(ButtonAction::Save(default_settings())),
        ID_LIGHT <= id <= ID_MAXIMUM ==> match spec_preset(button_preset_name(id)) {
            Some(s) => r == Ok::<ButtonAction, String>(ButtonAction::Save(s)),
            None => r matches Err(e) && e@ == "unknown preset: "@ + button_preset_name(id),
        },
        id == ID_TOUCHPAD_SETTINGS ==> r == Ok::<ButtonAction, String>(ButtonAction::OpenTouchpadSettings),
        !(ID_DEFAULTS <= id <= ID_TOUCHPAD_SETTINGS) ==> r == Ok::<ButtonAction, String>(ButtonAction::Ignore),
{
    if id == ID_DEFAULTS {
        Ok(ButtonAction::Save(Settings::default()))
    } else if ID_LIGHT <= id && id <= ID_MAXIMUM {
        match preset_of_button(id) {
            Ok(s) => Ok(ButtonAction::Save(s)),
            Err(e) => Err(e),
        }
    } else if id == ID_TOUCHPAD_SETTINGS {
        Ok(ButtonAction::OpenTouchpadSettings)
    } else {
        Ok(ButtonAction::Ignore)
    }
}

/// The command id carried in the low word of a `WM_COMMAND` parameter.
pub fn command_id(w_param: usize) -> (r: usize)
    ensures
        r == w_param % 0x10000,
{
    let r = w_param & 0xffff;
    assert(r == w_param % 0x10000) by (bit_vector)
        requires
            r == w_param & 0xffff,
    ;
    r
}

/// What the user is told after button `id` was handled with `outcome`:
/// a confirmation after saving, the error after a failure, and nothing
/// after opening the system page.
pub fn button_message(id: usize, outcome: Result<(), String>) -> (r: Option<String>)
    ensures
        outcome is Ok && id != ID_TOUCHPAD_SETTINGS ==> (r matches Some(m) && m@ == "Settings saved."@),
        outcome is Ok && id == ID_TOUCHPAD_SETTINGS ==> r is None,
        outcome matches Err(e) ==> (r matches Some(m) && m@ == e@),
{
    match outcome {
        Ok(()) => if id != ID_TOUCHPAD_SETTINGS {
            Some("Settings saved.".to_owned())
        } else {
            None
        },
        Err(e) => Some(e),
    }
}

/// What the command line does: no command or a help word shows the
/// usage; off Windows both `preset` and `defaults` are refused with the
/// Windows-only message; on Windows `defaults` saves the default settings,
/// `preset <name>` saves that preset, a missing name or an unknown preset
/// is refused; any other command is refused as unknown.
pub proof fn law_command_line(command: Option<Seq<char>>, preset: Option<Seq<char>>, on_windows: bool)
    ensures
        command is None ==> spec_plan(command, preset, on_windows) == Ok::<ControlAction, Seq<char>>(
            ControlAction::ShowHelp,
        ),
        command == Some("help"@) || command == Some("--help"@) || command == Some("-h"@)
            ==> spec_plan(command, preset, on_windows) == Ok::<ControlAction, Seq<char>>(
            ControlAction::ShowHelp,
        ),
        (command == Some("preset"@) || command == Some("defaults"@)) && !on_windows ==> spec_plan(
            command,
            preset,
            on_windows,
        ) == Err::<ControlAction, Seq<char>>(
            "mt2-control can change settings only on Windows"@,
        ),
        command == Some("defaults"@) && on_windows ==> spec_plan(command, preset, on_windows)
            == Ok::<ControlAction, Seq<char>>(
            ControlAction::Save(
                Settings {
                    button_disabled: 0,
                    feedback_click: 0x060617,
                    feedback_release: 0x000014,
                    stop_pressure: 0,
                    stop_size: -1i32,
                    ignore_button_finger: 1,
                    ignore_near_fingers: 1,
                    palm_rejection: 1,
                },
            ),
        ),
        command == Some("preset"@) && on_windows && preset is None ==> spec_plan(
            command,
            preset,
            on_windows,
        ) == Err::<ControlAction, Seq<char>>("missing preset name"@),
        preset matches Some(p) ==> (command == Some("preset"@) && on_windows ==> (
        spec_preset(p) matches Some(st) ==> spec_plan(command, preset, on_windows) == Ok::<
            ControlAction,
            Seq<char>,
        >(ControlAction::Save(st)))),
        preset matches Some(p) ==> (command == Some("preset"@) && on_windows && spec_preset(p) is None
            ==> spec_plan(command, preset, on_windows) == Err::<ControlAction, Seq<char>>(
            "unknown preset: "@ + p,
        )),
        command matches Some(c) ==> (c != "help"@ && c != "--help"@ && c != "-h"@ && c
            != "preset"@ && c != "defaults"@ ==> spec_plan(command, preset, on_windows) == Err::<
            ControlAction,
            Seq<char>,
        >("unknown command: "@ + c)),
{
    reveal_strlit("help");
    reveal_strlit("--help");
    reveal_strlit("-h");
    reveal_strlit("preset");
    reveal_strlit("defaults");
    assert("help"@.len() == 4 && "--help"@.len() == 6 && "-h"@.len() == 2);
    assert("preset"@.len() == 6 && "defaults"@.len() == 8);
    assert("preset"@ != "--help"@) by {
        assert("preset"@[0] != "--help"@[0]);
    }
}

/// The preset each desktop button applies.
pub proof fn law_button_presets()
    ensures
        button_preset_name(ID_LIGHT) == "macos-light"@,
        button_preset_name(ID_MEDIUM) == "macos-medium"@,
        button_preset_name(ID_FIRM) == "macos-firm"@,
        button_preset_name(ID_SILENT) == "silent"@,
        button_preset_name(ID_DISABLED) == "disabled"@,
        button_preset_name(ID_MAXIMUM) == "maximum"@,
{
}

} // verus!
