use pip_switch_core::{
    build_read_packet, build_write_packet, decode_setting_value, encode_setting_value,
    parse_read_response, parse_write_ack, InputSource, PipMode, PipPosition, PipSize, Setting,
};

const ALL: [Setting; 7] = [
    Setting::PipMode,
    Setting::PipInput,
    Setting::PbpInput,
    Setting::PipSize,
    Setting::PipPosition,
    Setting::DisplaySwitch,
    Setting::AudioSwitch,
];

#[test]
fn every_setting_command_builds_packets() {
    for setting in ALL {
        assert!(build_read_packet(setting.command()).is_ok());
        assert!(build_write_packet(setting.command(), "001").is_ok());
    }
}

#[test]
fn encoding_is_idempotent_and_writable() {
    let inputs = ["pip", "off", "hdmi-2", "Type_C", "mid", "top-right", "swap", "1", "0fa", "ABC"];
    for setting in ALL {
        for input in inputs {
            if let Ok(code) = encode_setting_value(setting, input) {
                assert_eq!(encode_setting_value(setting, &code).unwrap(), code);
                assert!(build_write_packet(setting.command(), &code).is_ok());
                assert_eq!(code.len(), 3);
            }
        }
    }
}

#[test]
fn layout_codes_round_trip() {
    for mode in [PipMode::Off, PipMode::Pip, PipMode::Pbp] {
        let name = decode_setting_value(Setting::PipMode, mode.encoded());
        assert_eq!(encode_setting_value(Setting::PipMode, &name).unwrap(), mode.encoded());
    }
    for input in [InputSource::Hdmi1, InputSource::Hdmi2, InputSource::Dp, InputSource::Usbc] {
        for setting in [Setting::PipInput, Setting::PbpInput] {
            let name = decode_setting_value(setting, input.encoded());
            assert_eq!(encode_setting_value(setting, &name).unwrap(), input.encoded());
        }
    }
    for size in [PipSize::Small, PipSize::Medium, PipSize::Large] {
        let name = decode_setting_value(Setting::PipSize, size.encoded());
        assert_eq!(encode_setting_value(Setting::PipSize, &name).unwrap(), size.encoded());
    }
    for position in [
        PipPosition::LeftTop,
        PipPosition::RightTop,
        PipPosition::LeftBottom,
        PipPosition::RightBottom,
    ] {
        let name = decode_setting_value(Setting::PipPosition, position.encoded());
        assert_eq!(
            encode_setting_value(Setting::PipPosition, &name).unwrap(),
            position.encoded()
        );
    }
}

#[test]
fn read_replies_carry_their_value() {
    for tag in ["5a", "5A", "5b", "5B"] {
        for value in ["", "001", "V20", "a b"] {
            let reply = format!("\x01{tag}00640{value}\r");
            assert_eq!(parse_read_response("00640", reply.as_bytes()).unwrap(), value);
        }
    }
}

#[test]
fn write_requests_read_back_as_their_value() {
    for value in ["001", "x", "hello world", ""] {
        let packet = build_write_packet("00650", value).unwrap();
        assert_eq!(parse_read_response("00650", &packet).unwrap(), value);
    }
}

#[test]
fn ack_replies_are_accepted() {
    for rest in ["", "+", "+ ok"] {
        let reply = format!("\x015600{rest}\r");
        assert_eq!(parse_write_ack(reply.as_bytes()).unwrap(), format!("5600{rest}"));
    }
}
