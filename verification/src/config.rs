//! The user's configuration: which monitor to use, the hotkeys, and the
//! picture-in-picture layout to restore.

use vstd::prelude::*;

use crate::settings::{InputSource, PipMode, PipPosition, PipSize};

verus! {

/// The whole configuration.
#[derive(Debug, Clone, PartialEq, Eq)]
pub struct Config {
    pub monitor: MonitorConfig,
    pub hotkeys: HotkeysConfig,
    pub pip: PipConfig,
}

/// How to pick the monitor among the supported ones found.
#[derive(Debug, Clone, PartialEq, Eq)]
pub struct MonitorConfig {
    /// Serial number of the monitor to use; empty to use the fallback.
    pub serial: String,
    /// What to do without a serial number; only `first` is supported.
    pub fallback: String,
}

/// The global hotkeys of the daemon.
#[derive(Debug, Clone, PartialEq, Eq)]
pub struct HotkeysConfig {
    pub swap: String,
    pub pip_toggle: String,
}

/// The picture-in-picture layout that turning PIP on writes.
#[derive(Debug, Clone, Copy, PartialEq, Eq)]
pub struct PipConfig {
    pub mode: PipMode,
    pub input: InputSource,
    pub size: PipSize,
    pub position: PipPosition,
}

/// The default monitor choice: no serial number, first monitor found.
pub open spec fn default_monitor_config(m: MonitorConfig) -> bool {
    m.serial@ == Seq::<char>::empty() && m.fallback@ == "first"@
}

/// The default hotkeys.
pub open spec fn default_hotkeys_config(h: HotkeysConfig) -> bool {
    h.swap@ == "Super+Shift+P"@ && h.pip_toggle@ == "Super+Shift+O"@
}

/// The default layout: PIP mode, USB-C input, small, bottom right.
pub open spec fn default_pip_config() -> PipConfig {
    PipConfig {
        mode: PipMode::Pip,
        input: InputSource::Usbc,
        size: PipSize::Small,
        position: PipPosition::RightBottom,
    }
}

impl Default for MonitorConfig {
    fn default() -> (r: Self)
        ensures
            default_monitor_config(r),
    {
        MonitorConfig { serial: String::new(), fallback: "first".to_owned() }
    }
}

impl Default for HotkeysConfig {
    fn default() -> (r: Self)
        ensures
            default_hotkeys_config(r),
    {
        HotkeysConfig { swap: "Super+Shift+P".to_owned(), pip_toggle: "Super+Shift+O".to_owned() }
    }
}

impl Default for PipConfig {
    fn default() -> (r: Self)
        ensures
            r == default_pip_config(),
    {
        PipConfig {
            mode: PipMode::Pip,
            input: InputSource::Usbc,
            size: PipSize::Small,
            position: PipPosition::RightBottom,
        }
    }
}

impl Default for Config {
    fn default() -> (r: Self)
        ensures
            default_monitor_config(r.monitor),
            default_hotkeys_config(r.hotkeys),
            r.pip == default_pip_config(),
    {
        Config {
            monitor: MonitorConfig::default(),
            hotkeys: HotkeysConfig::default(),
            pip: PipConfig::default(),
        }
    }
}

/// The documented example configuration file; its values are the defaults.
pub const EXAMPLE_TOML: &'static str = "# pip-switch config
#
# Hotkeys use global-hotkey syntax. On Fedora/Linux, the Windows key is \"Super\".
# Examples: \"Super+Shift+P\", \"Ctrl+Alt+P\", \"Alt+P\"

[monitor]
# Leave empty to use the first detected MSI monitor.
serial = \"\"
# Possible values: \"first\"
fallback = \"first\"

[hotkeys]
swap = \"Super+Shift+P\"
pip_toggle = \"Super+Shift+O\"

[pip]
# Possible values: \"pip\", \"pbp\"
mode = \"pip\"
# Possible values: \"hdmi1\", \"hdmi2\", \"dp\", \"usbc\"
input = \"usbc\"
# Possible values: \"small\", \"medium\", \"large\"
size = \"small\"
# Possible values: \"left_top\", \"right_top\", \"left_bottom\", \"right_bottom\"
position = \"right_bottom\"
";

impl Config {
    /// The documented example configuration file.
    pub fn example_toml() -> (r: &'static str)
        ensures
            r@ == EXAMPLE_TOML@,
    {
        EXAMPLE_TOML
    }
}

} // verus!
