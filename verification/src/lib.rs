//! Verified decoding of Magic Trackpad 2 input reports into Precision
//! Touchpad reports, together with the driver settings presets, the
//! control-tool command logic and the macOS status model.

pub mod control;
pub mod report;
pub mod settings;
pub mod status;
pub mod text;
