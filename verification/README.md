# mt2

Verified logic of the Magic Trackpad 2 tools.

- `src/report.rs`: decoding of Magic Trackpad 2 HID reports (header, finger
  records, bit fields, axis mapping) into Precision Touchpad reports.
- `src/settings.rs`: driver settings, the haptic presets and the registry
  values that store them.
- `src/control.rs`: what the command-line tool and the Windows window do for
  a command or a button.
- `src/status.rs`: reading `ioreg`/`defaults` output into the macOS status
  and the rows the status window shows.
- `src/text.rs`: trimming, searching and numerals on characters.
- `app/`: the programs around the library: the command line, the registry
  writes through `reg.exe`, the AppKit and Win32 windows.
