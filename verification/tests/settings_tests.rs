use pip_switch_core::{
    decode_setting_value, encode_setting_value, Error, InputSource, PipMode, PipPosition, PipSize,
    Setting,
};

#[test]
fn parses_setting_names() {
    assert_eq!("pip-mode".parse::<Setting>().unwrap(), Setting::PipMode);
    assert_eq!("00650".parse::<Setting>().unwrap(), Setting::DisplaySwitch);
}

#[test]
fn encodes_and_decodes_values() {
    assert_eq!(
        encode_setting_value(Setting::PipMode, "pip").unwrap(),
        "001"
    );
    assert_eq!(
        encode_setting_value(Setting::PipInput, "usbc").unwrap(),
        "004"
    );
    assert_eq!(
        decode_setting_value(Setting::PipPosition, "001"),
        "right_top"
    );
}

const ALL: [Setting; 7] = [
    Setting::PipMode,
    Setting::PipInput,
    Setting::PbpInput,
    Setting::PipSize,
    Setting::PipPosition,
    Setting::DisplaySwitch,
    Setting::AudioSwitch,
];

#[test]
fn names_and_commands_parse_back() {
    for setting in ALL {
        assert_eq!(setting.name().parse::<Setting>().unwrap(), setting);
        assert_eq!(setting.command().parse::<Setting>().unwrap(), setting);
        assert_eq!(Setting::parse_name(setting.name()).unwrap(), setting);
    }
}

#[test]
fn setting_aliases_are_normalized() {
    assert_eq!("  Display-Switch \t".parse::<Setting>().unwrap(), Setting::DisplaySwitch);
    assert_eq!("SWAP".parse::<Setting>().unwrap(), Setting::DisplaySwitch);
    assert_eq!("position".parse::<Setting>().unwrap(), Setting::PipPosition);
    assert_eq!("PBPINPUT".parse::<Setting>().unwrap(), Setting::PbpInput);
    match "volume".parse::<Setting>() {
        Err(Error::UnknownSetting(v)) => assert_eq!(v, "volume"),
        other => panic!("unexpected {other:?}"),
    }
}

#[test]
fn raw_hex_values_pass_through_upper_cased() {
    assert_eq!(encode_setting_value(Setting::PipSize, "0af").unwrap(), "0AF");
    assert_eq!(encode_setting_value(Setting::AudioSwitch, "abc").unwrap(), "ABC");
    assert_eq!(encode_setting_value(Setting::PipMode, "002").unwrap(), "002");
}

#[test]
fn value_aliases_encode() {
    assert_eq!(encode_setting_value(Setting::PipMode, " Disabled ").unwrap(), "000");
    assert_eq!(encode_setting_value(Setting::PbpInput, "Display-Port").unwrap(), "003");
    assert_eq!(encode_setting_value(Setting::PipInput, "type-c").unwrap(), "004");
    assert_eq!(encode_setting_value(Setting::PipSize, "MID").unwrap(), "001");
    assert_eq!(encode_setting_value(Setting::PipPosition, "bottom-right").unwrap(), "003");
    assert_eq!(encode_setting_value(Setting::DisplaySwitch, "Trigger").unwrap(), "001");
    assert_eq!(encode_setting_value(Setting::AudioSwitch, "1").unwrap(), "001");
}

#[test]
fn unsupported_values_name_the_setting() {
    match encode_setting_value(Setting::PbpInput, "vga") {
        Err(Error::UnsupportedValue { setting, value }) => {
            assert_eq!(setting, "pip_input");
            assert_eq!(value, "vga");
        }
        other => panic!("unexpected {other:?}"),
    }
    match encode_setting_value(Setting::AudioSwitch, "off") {
        Err(Error::UnsupportedValue { setting, value }) => {
            assert_eq!(setting, "audio_switch");
            assert_eq!(value, "off");
        }
        other => panic!("unexpected {other:?}"),
    }
    match encode_setting_value(Setting::PipMode, "00g") {
        Err(Error::UnsupportedValue { setting, .. }) => assert_eq!(setting, "pip_mode"),
        other => panic!("unexpected {other:?}"),
    }
}

#[test]
fn decodes_known_codes_and_keeps_others() {
    assert_eq!(decode_setting_value(Setting::PipMode, " 000 "), "off");
    assert_eq!(decode_setting_value(Setting::PbpInput, "003"), "dp");
    assert_eq!(decode_setting_value(Setting::PipSize, "002"), "large");
    assert_eq!(decode_setting_value(Setting::PipInput, "009"), "009");
    assert_eq!(decode_setting_value(Setting::DisplaySwitch, " 001\n"), "001");
}

#[test]
fn decoded_values_encode_back() {
    for setting in ALL {
        for raw in ["000", "001", "002", "003", "004", "00A", "FFF"] {
            let decoded = decode_setting_value(setting, raw);
            assert_eq!(encode_setting_value(setting, &decoded).unwrap(), raw);
        }
    }
}

#[test]
fn layout_codes() {
    assert_eq!(PipMode::Off.encoded(), "000");
    assert_eq!(PipMode::Pbp.encoded(), "002");
    assert_eq!(InputSource::Hdmi1.encoded(), "001");
    assert_eq!(InputSource::Dp.encoded(), "003");
    assert_eq!(PipSize::Large.encoded(), "002");
    assert_eq!(PipPosition::LeftBottom.encoded(), "002");
    assert_eq!(
        decode_setting_value(Setting::PipPosition, PipPosition::RightBottom.encoded()),
        "right_bottom"
    );
}
