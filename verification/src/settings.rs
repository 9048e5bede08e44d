//! The monitor settings that the library knows, the names under which
//! users refer to them and to their values, and the three-character codes
//! that the monitor uses for those values.

use vstd::prelude::*;

use crate::error::{Error, Result};
use crate::text::{
    all_hex, ascii_lower, chars_eq_str, chars_of, hex_char, is_hex_char, lower_char,
    push_char, string_of, trimmed, trimmed_chars, upper_char, upper_text,
};

verus! {

/// A monitor setting reachable over the HID command channel.
#[derive(Debug, Clone, Copy, PartialEq, Eq, Structural)]
pub enum Setting {
    PipMode,
    PipInput,
    PbpInput,
    PipSize,
    PipPosition,
    DisplaySwitch,
    AudioSwitch,
}

/// Picture-in-picture mode.
#[derive(Debug, Clone, Copy, PartialEq, Eq, Structural)]
pub enum PipMode {
    Off,
    Pip,
    Pbp,
}

/// Video input shown in the inset picture.
#[derive(Debug, Clone, Copy, PartialEq, Eq, Structural)]
pub enum InputSource {
    Hdmi1,
    Hdmi2,
    Dp,
    Usbc,
}

/// Size of the inset picture.
#[derive(Debug, Clone, Copy, PartialEq, Eq, Structural)]
pub enum PipSize {
    Small,
    Medium,
    Large,
}

/// Corner of the screen that holds the inset picture.
#[derive(Debug, Clone, Copy, PartialEq, Eq, Structural)]
pub enum PipPosition {
    LeftTop,
    RightTop,
    LeftBottom,
    RightBottom,
}

impl Setting {
    /// The five-character command of the setting.
    pub open spec fn command_text(self) -> Seq<char> {
        match self {
            Setting::PipMode => "00600"@,
            Setting::PipInput => "00610"@,
            Setting::PbpInput => "00620"@,
            Setting::PipSize => "00630"@,
            Setting::PipPosition => "00640"@,
            Setting::DisplaySwitch => "00650"@,
            Setting::AudioSwitch => "00660"@,
        }
    }

    /// The name of the setting.
    pub open spec fn name_text(self) -> Seq<char> {
        match self {
            Setting::PipMode => "pip_mode"@,
            Setting::PipInput => "pip_input"@,
            Setting::PbpInput => "pbp_input"@,
            Setting::PipSize => "pip_size"@,
            Setting::PipPosition => "pip_position"@,
            Setting::DisplaySwitch => "display_switch"@,
            Setting::AudioSwitch => "audio_switch"@,
        }
    }

    /// The five-character command of the setting.
    pub fn command(self) -> (r: &'static str)
        ensures
            r@ == self.command_text(),
    {
        match self {
            Setting::PipMode => "00600",
            Setting::PipInput => "00610",
            Setting::PbpInput => "00620",
            Setting::PipSize => "00630",
            Setting::PipPosition => "00640",
            Setting::DisplaySwitch => "00650",
            Setting::AudioSwitch => "00660",
        }
    }

    /// The name of the setting.
    pub fn name(self) -> (r: &'static str)
        ensures
            r@ == self.name_text(),
    {
        match self {
            Setting::PipMode => "pip_mode",
            Setting::PipInput => "pip_input",
            Setting::PbpInput => "pbp_input",
            Setting::PipSize => "pip_size",
            Setting::PipPosition => "pip_position",
            Setting::DisplaySwitch => "display_switch",
            Setting::AudioSwitch => "audio_switch",
        }
    }

    /// The setting that a user's `value` names: one of its names, aliases
    /// or its command, compared after `normalized_text`.
    pub fn parse_name(value: &str) -> (res: Result<Setting>)
        ensures
            match res {
                Ok(s) => setting_named(normalized_text(value@)) == Some(s),
                Err(e) => setting_named(normalized_text(value@)) is None && (e matches Error::UnknownSetting(
                    v,
                ) && v@ == value@),
            },
    {
        let n = normalized(value);
        if chars_eq_str(&n, "pipmode") || chars_eq_str(&n, "pip_mode") || chars_eq_str(&n, "mode")
            || chars_eq_str(&n, "00600") {
            Ok(Setting::PipMode)
        } else if chars_eq_str(&n, "pipinput") || chars_eq_str(&n, "pip_input") || chars_eq_str(
            &n,
            "input",
        ) || chars_eq_str(&n, "00610") {
            Ok(Setting::PipInput)
        } else if chars_eq_str(&n, "pbpinput") || chars_eq_str(&n, "pbp_input") || chars_eq_str(
            &n,
            "00620",
        ) {
            Ok(Setting::PbpInput)
        } else if chars_eq_str(&n, "pipsize") || chars_eq_str(&n, "pip_size") || chars_eq_str(
            &n,
            "size",
        ) || chars_eq_str(&n, "00630") {
            Ok(Setting::PipSize)
        } else if chars_eq_str(&n, "pipposition") || chars_eq_str(&n, "pip_position")
            || chars_eq_str(&n, "position") || chars_eq_str(&n, "00640") {
            Ok(Setting::PipPosition)
        } else if chars_eq_str(&n, "displayswitch") || chars_eq_str(&n, "display_switch")
            || chars_eq_str(&n, "swap") || chars_eq_str(&n, "00650") {
            Ok(Setting::DisplaySwitch)
        } else if chars_eq_str(&n, "audioswitch") || chars_eq_str(&n, "audio_switch")
            || chars_eq_str(&n, "00660") {
            Ok(Setting::AudioSwitch)
        } else {
            Err(Error::UnknownSetting(value.to_owned()))
        }
    }
}

impl core::str::FromStr for Setting {
    type Err = Error;

    fn from_str(value: &str) -> (res: Result<Self>)
        ensures
            match res {
                Ok(s) => setting_named(normalized_text(value@)) == Some(s),
                Err(e) => setting_named(normalized_text(value@)) is None && (e matches Error::UnknownSetting(
                    v,
                ) && v@ == value@),
            },
    {
        Setting::parse_name(value)
    }
}

/// The character that `normalized_text` puts in place of `c`.
pub open spec fn norm_char(c: char) -> char {
    if c == '-' {
        '_'
    } else {
        ascii_lower(c)
    }
}

/// A user's name for something, trimmed, ASCII lower-cased and with `-`
/// read as `_`.
pub open spec fn normalized_text(s: Seq<char>) -> Seq<char> {
    trimmed(s).map_values(|c: char| norm_char(c))
}

/// The setting that the normalized name `n` refers to.
pub open spec fn setting_named(n: Seq<char>) -> Option<Setting> {
    if n == "pipmode"@ || n == "pip_mode"@ || n == "mode"@ || n == "00600"@ {
        Some(Setting::PipMode)
    } else if n == "pipinput"@ || n == "pip_input"@ || n == "input"@ || n == "00610"@ {
        Some(Setting::PipInput)
    } else if n == "pbpinput"@ || n == "pbp_input"@ || n == "00620"@ {
        Some(Setting::PbpInput)
    } else if n == "pipsize"@ || n == "pip_size"@ || n == "size"@ || n == "00630"@ {
        Some(Setting::PipSize)
    } else if n == "pipposition"@ || n == "pip_position"@ || n == "position"@ || n == "00640"@ {
        Some(Setting::PipPosition)
    } else if n == "displayswitch"@ || n == "display_switch"@ || n == "swap"@ || n == "00650"@ {
        Some(Setting::DisplaySwitch)
    } else if n == "audioswitch"@ || n == "audio_switch"@ || n == "00660"@ {
        Some(Setting::AudioSwitch)
    } else {
        None
    }
}

/// A value given directly as three hexadecimal characters.
pub open spec fn is_raw_value(v: Seq<char>) -> bool {
    v.len() == 3 && all_hex(v)
}

/// The code of a picture-in-picture mode name.
pub open spec fn mode_code(n: Seq<char>) -> Option<Seq<char>> {
    if n == "off"@ || n == "none"@ || n == "disable"@ || n == "disabled"@ {
        Some("000"@)
    } else if n == "pip"@ {
        Some("001"@)
    } else if n == "pbp"@ {
        Some("002"@)
    } else {
        None
    }
}

/// The code of an input name.
pub open spec fn input_code(n: Seq<char>) -> Option<Seq<char>> {
    if n == "hdmi1"@ || n == "hdmi_1"@ {
        Some("001"@)
    } else if n == "hdmi2"@ || n == "hdmi_2"@ {
        Some("002"@)
    } else if n == "dp"@ || n == "displayport"@ || n == "display_port"@ {
        Some("003"@)
    } else if n == "usbc"@ || n == "usb_c"@ || n == "typec"@ || n == "type_c"@ {
        Some("004"@)
    } else {
        None
    }
}

/// The code of a size name.
pub open spec fn size_code(n: Seq<char>) -> Option<Seq<char>> {
    if n == "small"@ {
        Some("000"@)
    } else if n == "medium"@ || n == "mid"@ {
        Some("001"@)
    } else if n == "large"@ {
        Some("002"@)
    } else {
        None
    }
}

/// The code of a position name.
pub open spec fn position_code(n: Seq<char>) -> Option<Seq<char>> {
    if n == "lefttop"@ || n == "left_top"@ || n == "top_left"@ {
        Some("000"@)
    } else if n == "righttop"@ || n == "right_top"@ || n == "top_right"@ {
        Some("001"@)
    } else if n == "leftbottom"@ || n == "left_bottom"@ || n == "bottom_left"@ {
        Some("002"@)
    } else if n == "rightbottom"@ || n == "right_bottom"@ || n == "bottom_right"@ {
        Some("003"@)
    } else {
        None
    }
}

/// The code that triggers a switch.
pub open spec fn switch_code(n: Seq<char>) -> Option<Seq<char>> {
    if n == "1"@ || n == "on"@ || n == "true"@ || n == "trigger"@ || n == "swap"@ {
        Some("001"@)
    } else {
        None
    }
}

/// The code of the normalized value name `n` for `setting`.
pub open spec fn named_code(setting: Setting, n: Seq<char>) -> Option<Seq<char>> {
    match setting {
        Setting::PipMode => mode_code(n),
        Setting::PipInput | Setting::PbpInput => input_code(n),
        Setting::PipSize => size_code(n),
        Setting::PipPosition => position_code(n),
        Setting::DisplaySwitch | Setting::AudioSwitch => switch_code(n),
    }
}

/// The code sent for the user's value `v` of `setting`: a raw hexadecimal
/// value upper-cased, else the code of its normalized name.
pub open spec fn encoded_value(setting: Setting, v: Seq<char>) -> Option<Seq<char>> {
    if is_raw_value(v) {
        Some(upper_text(v))
    } else {
        named_code(setting, normalized_text(v))
    }
}

/// The setting named in the error for an unsupported value of `setting`
/// (the input table is shared, and reported as `pip_input`).
pub open spec fn reported_setting(setting: Setting) -> Setting {
    match setting {
        Setting::PbpInput => Setting::PipInput,
        _ => setting,
    }
}

/// The readable form of the monitor's `raw` value of `setting`: the name of
/// a known code, else the trimmed raw value.
pub open spec fn decoded_value(setting: Setting, raw: Seq<char>) -> Seq<char> {
    let r = trimmed(raw);
    match setting {
        Setting::PipMode => if r == "000"@ {
            "off"@
        } else if r == "001"@ {
            "pip"@
        } else if r == "002"@ {
            "pbp"@
        } else {
            r
        },
        Setting::PipInput | Setting::PbpInput => if r == "001"@ {
            "hdmi1"@
        } else if r == "002"@ {
            "hdmi2"@
        } else if r == "003"@ {
            "dp"@
        } else if r == "004"@ {
            "usbc"@
        } else {
            r
        },
        Setting::PipSize => if r == "000"@ {
            "small"@
        } else if r == "001"@ {
            "medium"@
        } else if r == "002"@ {
            "large"@
        } else {
            r
        },
        Setting::PipPosition => if r == "000"@ {
            "left_top"@
        } else if r == "001"@ {
            "right_top"@
        } else if r == "002"@ {
            "left_bottom"@
        } else if r == "003"@ {
            "right_bottom"@
        } else {
            r
        },
        Setting::DisplaySwitch | Setting::AudioSwitch => r,
    }
}

/// The user's name `value` normalized: trimmed, ASCII lower-cased and with
/// `-` read as `_`.
fn normalized(value: &str) -> (r: Vec<char>)
    ensures
        r@ == normalized_text(value@),
{
    let t = trimmed_chars(value);
    let mut r: Vec<char> = Vec::new();
    let mut i: usize = 0;
    while i < t.len()
        invariant
            i <= t@.len(),
            r@ == t@.take(i as int).map_values(|c: char| norm_char(c)),
        decreases t@.len() - i,
    {
        let c = t[i];
        let d = if c == '-' {
            '_'
        } else {
            lower_char(c)
        };
        r.push(d);
        i = i + 1;
        assert(r@ =~= t@.take(i as int).map_values(|c: char| norm_char(c)));
    }
    assert(t@.take(t@.len() as int) =~= t@);
    r
}

/// The error for a value that `setting` does not accept.
fn unsupported(setting: Setting, value: &str) -> (res: Result<String>)
    ensures
        res matches Err(e) && (e matches Error::UnsupportedValue { setting: n, value: v } && n@
            == setting.name_text() && v@ == value@),
{
    Err(Error::UnsupportedValue { setting: setting.name(), value: value.to_owned() })
}

/// The code of a mode name.
fn encode_pip_mode(value: &str) -> (res: Result<String>)
    ensures
        match res {
            Ok(c) => mode_code(normalized_text(value@)) == Some(c@),
            Err(e) => mode_code(normalized_text(value@)) is None && (e matches Error::UnsupportedValue {
                setting: n,
                value: v,
            } && n@ == Setting::PipMode.name_text() && v@ == value@),
        },
{
    let n = normalized(value);
    if chars_eq_str(&n, "off") || chars_eq_str(&n, "none") || chars_eq_str(&n, "disable")
        || chars_eq_str(&n, "disabled") {
        Ok("000".to_owned())
    } else if chars_eq_str(&n, "pip") {
        Ok("001".to_owned())
    } else if chars_eq_str(&n, "pbp") {
        Ok("002".to_owned())
    } else {
        unsupported(Setting::PipMode, value)
    }
}

/// The code of an input name.
fn encode_input(value: &str) -> (res: Result<String>)
    ensures
        match res {
            Ok(c) => input_code(normalized_text(value@)) == Some(c@),
            Err(e) => input_code(normalized_text(value@)) is None && (e matches Error::UnsupportedValue {
                setting: n,
                value: v,
            } && n@ == Setting::PipInput.name_text() && v@ == value@),
        },
{
    let n = normalized(value);
    if chars_eq_str(&n, "hdmi1") || chars_eq_str(&n, "hdmi_1") {
        Ok("001".to_owned())
    } else if chars_eq_str(&n, "hdmi2") || chars_eq_str(&n, "hdmi_2") {
        Ok("002".to_owned())
    } else if chars_eq_str(&n, "dp") || chars_eq_str(&n, "displayport") || chars_eq_str(
        &n,
        "display_port",
    ) {
        Ok("003".to_owned())
    } else if chars_eq_str(&n, "usbc") || chars_eq_str(&n, "usb_c") || chars_eq_str(&n, "typec")
        || chars_eq_str(&n, "type_c") {
        Ok("004".to_owned())
    } else {
        unsupported(Setting::PipInput, value)
    }
}

/// The code of a size name.
fn encode_size(value: &str) -> (res: Result<String>)
    ensures
        match res {
            Ok(c) => size_code(normalized_text(value@)) == Some(c@),
            Err(e) => size_code(normalized_text(value@)) is None && (e matches Error::UnsupportedValue {
                setting: n,
                value: v,
            } && n@ == Setting::PipSize.name_text() && v@ == value@),
        },
{
    let n = normalized(value);
    if chars_eq_str(&n, "small") {
        Ok("000".to_owned())
    } else if chars_eq_str(&n, "medium") || chars_eq_str(&n, "mid") {
        Ok("001".to_owned())
    } else if chars_eq_str(&n, "large") {
        Ok("002".to_owned())
    } else {
        unsupported(Setting::PipSize, value)
    }
}

/// The code of a position name.
fn encode_position(value: &str) -> (res: Result<String>)
    ensures
        match res {
            Ok(c) => position_code(normalized_text(value@)) == Some(c@),
            Err(e) => position_code(normalized_text(value@)) is None && (
            e matches Error::UnsupportedValue { setting: n, value: v } && n@
                == Setting::PipPosition.name_text() && v@ == value@),
        },
{
    let n = normalized(value);
    if chars_eq_str(&n, "lefttop") || chars_eq_str(&n, "left_top") || chars_eq_str(
        &n,
        "top_left",
    ) {
        Ok("000".to_owned())
    } else if chars_eq_str(&n, "righttop") || chars_eq_str(&n, "right_top") || chars_eq_str(
        &n,
        "top_right",
    ) {
        Ok("001".to_owned())
    } else if chars_eq_str(&n, "leftbottom") || chars_eq_str(&n, "left_bottom") || chars_eq_str(
        &n,
        "bottom_left",
    ) {
        Ok("002".to_owned())
    } else if chars_eq_str(&n, "rightbottom") || chars_eq_str(&n, "right_bottom")
        || chars_eq_str(&n, "bottom_right") {
        Ok("003".to_owned())
    } else {
        unsupported(Setting::PipPosition, value)
    }
}

/// The code that the monitor expects for the user's `value` of `setting`.
pub fn encode_setting_value(setting: Setting, value: &str) -> (res: Result<String>)
    ensures
        match res {
            Ok(c) => encoded_value(setting, value@) == Some(c@),
            Err(e) => encoded_value(setting, value@) is None && (e matches Error::UnsupportedValue {
                setting: n,
                value: v,
            } && n@ == reported_setting(setting).name_text() && v@ == value@),
        },
{
    let vs = chars_of(value);
    if vs.len() == 3 && hex_char(vs[0]) && hex_char(vs[1]) && hex_char(vs[2]) {
        assert(all_hex(value@));
        let mut up = String::new();
        let mut i: usize = 0;
        while i < 3
            invariant
                i <= 3,
                vs@.len() == 3,
                up@ == upper_text(vs@.take(i as int)),
            decreases 3 - i,
        {
            push_char(&mut up, upper_char(vs[i]));
            i = i + 1;
            assert(up@ =~= upper_text(vs@.take(i as int)));
        }
        assert(vs@.take(3) =~= vs@);
        return Ok(up);
    }
    assert(!is_raw_value(value@)) by {
        if value@.len() == 3 {
            assert(vs@.len() == 3);
            if !is_hex_char(vs@[0]) {
                assert(!is_hex_char(value@[0]));
            } else if !is_hex_char(vs@[1]) {
                assert(!is_hex_char(value@[1]));
            } else {
                assert(!is_hex_char(value@[2]));
            }
        }
    }
    match setting {
        Setting::PipMode => encode_pip_mode(value),
        Setting::PipInput | Setting::PbpInput => encode_input(value),
        Setting::PipSize => encode_size(value),
        Setting::PipPosition => encode_position(value),
        Setting::DisplaySwitch | Setting::AudioSwitch => {
            let n = normalized(value);
            if chars_eq_str(&n, "1") || chars_eq_str(&n, "on") || chars_eq_str(&n, "true")
                || chars_eq_str(&n, "trigger") || chars_eq_str(&n, "swap") {
                Ok("001".to_owned())
            } else {
                unsupported(setting, value)
            }
        },
    }
}

/// The readable form of the monitor's `raw` value of `setting`.
pub fn decode_setting_value(setting: Setting, raw: &str) -> (r: String)
    ensures
        r@ == decoded_value(setting, raw@),
{
    let t = trimmed_chars(raw);
    let n = t.len();
    assert(t@.subrange(0, n as int) =~= t@);
    match setting {
        Setting::PipMode => if chars_eq_str(&t, "000") {
            "off".to_owned()
        } else if chars_eq_str(&t, "001") {
            "pip".to_owned()
        } else if chars_eq_str(&t, "002") {
            "pbp".to_owned()
        } else {
            string_of(&t, 0, n)
        },
        Setting::PipInput | Setting::PbpInput => if chars_eq_str(&t, "001") {
            "hdmi1".to_owned()
        } else if chars_eq_str(&t, "002") {
            "hdmi2".to_owned()
        } else if chars_eq_str(&t, "003") {
            "dp".to_owned()
        } else if chars_eq_str(&t, "004") {
            "usbc".to_owned()
        } else {
            string_of(&t, 0, n)
        },
        Setting::PipSize => if chars_eq_str(&t, "000") {
            "small".to_owned()
        } else if chars_eq_str(&t, "001") {
            "medium".to_owned()
        } else if chars_eq_str(&t, "002") {
            "large".to_owned()
        } else {
            string_of(&t, 0, n)
        },
        Setting::PipPosition => if chars_eq_str(&t, "000") {
            "left_top".to_owned()
        } else if chars_eq_str(&t, "001") {
            "right_top".to_owned()
        } else if chars_eq_str(&t, "002") {
            "left_bottom".to_owned()
        } else if chars_eq_str(&t, "003") {
            "right_bottom".to_owned()
        } else {
            string_of(&t, 0, n)
        },
        Setting::DisplaySwitch | Setting::AudioSwitch => string_of(&t, 0, n),
    }
}

impl PipMode {
    /// The name of the mode, as configuration files and decoded readings spell it.
    pub open spec fn name_text(self) -> Seq<char> {
        match self {
            PipMode::Off => "off"@,
            PipMode::Pip => "pip"@,
            PipMode::Pbp => "pbp"@,
        }
    }

    /// The monitor's code for the mode.
    pub open spec fn code_text(self) -> Seq<char> {
        match self {
            PipMode::Off => "000"@,
            PipMode::Pip => "001"@,
            PipMode::Pbp => "002"@,
        }
    }

    /// The monitor's code for the mode.
    pub fn encoded(self) -> (r: &'static str)
        ensures
            r@ == self.code_text(),
    {
        match self {
            PipMode::Off => "000",
            PipMode::Pip => "001",
            PipMode::Pbp => "002",
        }
    }
}

impl InputSource {
    /// The name of the input, as configuration files and decoded readings spell it.
    pub open spec fn name_text(self) -> Seq<char> {
        match self {
            InputSource::Hdmi1 => "hdmi1"@,
            InputSource::Hdmi2 => "hdmi2"@,
            InputSource::Dp => "dp"@,
            InputSource::Usbc => "usbc"@,
        }
    }

    /// The monitor's code for the input.
    pub open spec fn code_text(self) -> Seq<char> {
        match self {
            InputSource::Hdmi1 => "001"@,
            InputSource::Hdmi2 => "002"@,
            InputSource::Dp => "003"@,
            InputSource::Usbc => "004"@,
        }
    }

    /// The monitor's code for the input.
    pub fn encoded(self) -> (r: &'static str)
        ensures
            r@ == self.code_text(),
    {
        match self {
            InputSource::Hdmi1 => "001",
            InputSource::Hdmi2 => "002",
            InputSource::Dp => "003",
            InputSource::Usbc => "004",
        }
    }
}

impl PipSize {
    /// The name of the size, as configuration files and decoded readings spell it.
    pub open spec fn name_text(self) -> Seq<char> {
        match self {
            PipSize::Small => "small"@,
            PipSize::Medium => "medium"@,
            PipSize::Large => "large"@,
        }
    }

    /// The monitor's code for the size.
    pub open spec fn code_text(self) -> Seq<char> {
        match self {
            PipSize::Small => "000"@,
            PipSize::Medium => "001"@,
            PipSize::Large => "002"@,
        }
    }

    /// The monitor's code for the size.
    pub fn encoded(self) -> (r: &'static str)
        ensures
            r@ == self.code_text(),
    {
        match self {
            PipSize::Small => "000",
            PipSize::Medium => "001",
            PipSize::Large => "002",
        }
    }
}

impl PipPosition {
    /// The name of the position, as configuration files and decoded readings spell it.
    pub open spec fn name_text(self) -> Seq<char> {
        match self {
            PipPosition::LeftTop => "left_top"@,
            PipPosition::RightTop => "right_top"@,
            PipPosition::LeftBottom => "left_bottom"@,
            PipPosition::RightBottom => "right_bottom"@,
        }
    }

    /// The monitor's code for the position.
    pub open spec fn code_text(self) -> Seq<char> {
        match self {
            PipPosition::LeftTop => "000"@,
            PipPosition::RightTop => "001"@,
            PipPosition::LeftBottom => "002"@,
            PipPosition::RightBottom => "003"@,
        }
    }

    /// The monitor's code for the position.
    pub fn encoded(self) -> (r: &'static str)
        ensures
            r@ == self.code_text(),
    {
        match self {
            PipPosition::LeftTop => "000",
            PipPosition::RightTop => "001",
            PipPosition::LeftBottom => "002",
            PipPosition::RightBottom => "003",
        }
    }
}

} // verus!
