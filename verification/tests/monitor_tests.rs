use std::collections::{HashMap, VecDeque};
use std::sync::{Arc, Mutex};

use pip_switch_core::monitor::{pip_mode_is_off, read_outcome, select_device, write_ack_outcome};
use pip_switch_core::{
    Config, Error, HidConnection, HidDeviceInfo, HidFault, HidTransport, IoErrorKind,
    MonitorClient, MonitorConfig, MonitorSelection, PipConfig, PipMode, PipPosition, PipSize,
    InputSource, Result, Setting,
};

#[derive(Debug, Clone, Default)]
struct MockTransport {
    state: Arc<Mutex<MockState>>,
}

#[derive(Debug, Default)]
struct MockState {
    devices: Vec<HidDeviceInfo>,
    responses: HashMap<String, VecDeque<MockRead>>,
    writes: Vec<Vec<u8>>,
}

#[derive(Debug)]
enum MockRead {
    Response(Vec<u8>),
    Error(Error),
}

impl MockTransport {
    fn new(devices: Vec<HidDeviceInfo>) -> Self {
        let state = MockState {
            devices,
            ..MockState::default()
        };
        Self {
            state: Arc::new(Mutex::new(state)),
        }
    }

    fn push_response(&self, path: impl Into<String>, response: impl Into<Vec<u8>>) {
        let mut state = self.state.lock().expect("mock mutex poisoned");
        state
            .responses
            .entry(path.into())
            .or_default()
            .push_back(MockRead::Response(response.into()));
    }

    fn push_read_error(&self, path: impl Into<String>, error: Error) {
        let mut state = self.state.lock().expect("mock mutex poisoned");
        state
            .responses
            .entry(path.into())
            .or_default()
            .push_back(MockRead::Error(error));
    }

    fn writes(&self) -> Vec<Vec<u8>> {
        self.state
            .lock()
            .expect("mock mutex poisoned")
            .writes
            .clone()
    }
}

impl HidTransport for MockTransport {
    fn devices(&self) -> Result<Vec<HidDeviceInfo>> {
        Ok(self
            .state
            .lock()
            .expect("mock mutex poisoned")
            .devices
            .clone())
    }

    fn open_path(&self, path: &str) -> Result<Box<dyn HidConnection>> {
        Ok(Box::new(MockConnection {
            path: path.to_string(),
            state: Arc::clone(&self.state),
        }))
    }
}

struct MockConnection {
    path: String,
    state: Arc<Mutex<MockState>>,
}

impl HidConnection for MockConnection {
    fn write(&mut self, bytes: &[u8]) -> Result<usize> {
        self.state
            .lock()
            .expect("mock mutex poisoned")
            .writes
            .push(bytes.to_vec());
        Ok(bytes.len())
    }

    fn read_timeout(&mut self, bytes: &mut [u8], _timeout_ms: i32) -> Result<usize> {
        let mut state = self.state.lock().expect("mock mutex poisoned");
        let read = state
            .responses
            .get_mut(&self.path)
            .and_then(VecDeque::pop_front)
            .unwrap_or_else(|| MockRead::Response(b"\x015600\r".to_vec()));
        let response = match read {
            MockRead::Response(response) => response,
            MockRead::Error(error) => return Err(error),
        };
        let count = response.len().min(bytes.len());
        bytes[..count].copy_from_slice(&response[..count]);
        Ok(count)
    }
}

fn msi_device(path: &str, serial: Option<&str>) -> HidDeviceInfo {
    HidDeviceInfo {
        path: path.to_string(),
        vendor_id: 0x1462,
        product_id: 0x3fa4,
        manufacturer: Some("MSI".to_string()),
        product: Some("MSI Gaming Controller".to_string()),
        serial: serial.map(ToOwned::to_owned),
    }
}

#[test]
fn lists_supported_devices() {
    let transport = MockTransport::new(vec![
        msi_device("a", None),
        HidDeviceInfo {
            path: "b".to_string(),
            vendor_id: 1,
            product_id: 2,
            manufacturer: None,
            product: None,
            serial: None,
        },
    ]);
    let client = MonitorClient::new(transport, Config::default());
    assert_eq!(client.list().unwrap().len(), 1);
}

#[test]
fn reads_setting() {
    let transport = MockTransport::new(vec![msi_device("a", None)]);
    transport.push_response("a", b"\x015a00600001\r".to_vec());
    let client = MonitorClient::new(transport, Config::default());
    assert_eq!(client.read_setting(Setting::PipMode).unwrap(), "001");
}

#[test]
fn writes_swap() {
    let transport = MockTransport::new(vec![msi_device("a", None)]);
    let client = MonitorClient::new(transport.clone(), Config::default());
    client.swap().unwrap();
    let writes = transport.writes();
    assert_eq!(&writes[0][..12], b"\x015b00650001\r");
}

#[test]
fn swap_tolerates_post_write_disconnect() {
    let transport = MockTransport::new(vec![msi_device("a", None)]);
    transport.push_read_error(
        "a",
        Error::Hid(HidFault::Api {
            message: "unexpected poll error (device disconnected)".to_string(),
        }),
    );
    let client = MonitorClient::new(transport.clone(), Config::default());

    client.swap().unwrap();

    let writes = transport.writes();
    assert_eq!(&writes[0][..12], b"\x015b00650001\r");
}

#[test]
fn raw_write_keeps_post_write_disconnect_strict() {
    let transport = MockTransport::new(vec![msi_device("a", None)]);
    transport.push_read_error(
        "a",
        Error::Hid(HidFault::Api {
            message: "unexpected poll error (device disconnected)".to_string(),
        }),
    );
    let client = MonitorClient::new(transport, Config::default());

    assert!(client.raw_write("00650", "001").is_err());
}

#[test]
fn toggles_pip_off_when_currently_on() {
    let transport = MockTransport::new(vec![msi_device("a", None)]);
    transport.push_response("a", b"\x015a00600001\r".to_vec());
    transport.push_response("a", b"\x015600\r".to_vec());
    let client = MonitorClient::new(transport.clone(), Config::default());
    client.pip_toggle().unwrap();
    let writes = transport.writes();
    assert_eq!(&writes[1][..12], b"\x015b00600000\r");
}

#[test]
fn pip_on_tolerates_empty_layout_write_acks() {
    let transport = MockTransport::new(vec![msi_device("a", None)]);
    transport.push_response("a", Vec::new());
    transport.push_response("a", Vec::new());
    transport.push_response("a", b"\x015600+\r".to_vec());
    transport.push_response("a", b"\x015600+\r".to_vec());

    let client = MonitorClient::new(transport.clone(), Config::default());
    client.pip_on().unwrap();

    let writes = transport.writes();
    assert_eq!(&writes[0][..12], b"\x015b00610004\r");
    assert_eq!(&writes[1][..12], b"\x015b00630000\r");
    assert_eq!(&writes[2][..12], b"\x015b00640003\r");
    assert_eq!(&writes[3][..12], b"\x015b00600001\r");
}

#[test]
fn toggles_pip_on_when_currently_off() {
    let transport = MockTransport::new(vec![msi_device("a", None)]);
    transport.push_response("a", b"\x015a00600000\r".to_vec());
    let mut config = Config::default();
    config.pip = PipConfig {
        mode: PipMode::Pbp,
        input: InputSource::Hdmi2,
        size: PipSize::Large,
        position: PipPosition::LeftTop,
    };
    let client = MonitorClient::new(transport.clone(), config);
    client.pip_toggle().unwrap();
    let writes = transport.writes();
    assert_eq!(writes.len(), 5);
    assert_eq!(&writes[0][..9], b"\x015800600\r");
    assert_eq!(&writes[1][..12], b"\x015b00610002\r");
    assert_eq!(&writes[2][..12], b"\x015b00630002\r");
    assert_eq!(&writes[3][..12], b"\x015b00640000\r");
    assert_eq!(&writes[4][..12], b"\x015b00600002\r");
}

#[test]
fn pip_off_writes_mode_off() {
    let transport = MockTransport::new(vec![msi_device("a", None)]);
    let client = MonitorClient::new(transport.clone(), Config::default());
    client.pip_off().unwrap();
    assert_eq!(&transport.writes()[0][..12], b"\x015b00600000\r");
}

#[test]
fn pip_on_fails_on_rejected_write() {
    let transport = MockTransport::new(vec![msi_device("a", None)]);
    transport.push_response("a", b"\x015601\r".to_vec());
    let client = MonitorClient::new(transport.clone(), Config::default());
    assert!(matches!(client.pip_on(), Err(Error::WriteRejected(t)) if t == "5601"));
    assert_eq!(transport.writes().len(), 1);
}

#[test]
fn no_monitor_is_an_error() {
    let client = MonitorClient::new(MockTransport::new(Vec::new()), Config::default());
    assert!(matches!(client.select(), Err(Error::NoMonitor)));
    assert!(matches!(client.swap(), Err(Error::NoMonitor)));
}

#[test]
fn selects_by_serial_and_reports_missing_serial() {
    let devices = vec![msi_device("a", Some("S1")), msi_device("b", Some("S2"))];
    let mut config = Config::default();
    config.monitor.serial = "  S2 ".to_string();
    let client = MonitorClient::new(MockTransport::new(devices.clone()), config.clone());
    let selection = client.select().unwrap();
    assert_eq!(selection.device.path, "b");
    assert!(!selection.multiple_without_serial);

    config.monitor.serial = "S3".to_string();
    let client = MonitorClient::new(MockTransport::new(devices), config);
    match client.select() {
        Err(Error::SerialNotFound(s)) => assert_eq!(s, "S3"),
        other => panic!("unexpected {other:?}"),
    }
}

#[test]
fn selects_first_and_flags_several() {
    let devices = vec![msi_device("a", None), msi_device("b", None)];
    let client = MonitorClient::new(MockTransport::new(devices), Config::default());
    assert_eq!(
        client.select().unwrap(),
        MonitorSelection {
            device: msi_device("a", None),
            multiple_without_serial: true,
        }
    );
}

#[test]
fn unsupported_fallback_is_reported() {
    let monitor = MonitorConfig {
        serial: String::new(),
        fallback: "last".to_string(),
    };
    match select_device(vec![msi_device("a", None)], &monitor) {
        Err(Error::Message(m)) => assert_eq!(
            m,
            "unsupported monitor fallback \"last\"; only \"first\" is currently supported"
        ),
        other => panic!("unexpected {other:?}"),
    }
}

#[test]
fn identifies_monitor() {
    let transport = MockTransport::new(vec![msi_device("a", Some("X"))]);
    transport.push_response("a", b"\x015a0014000\xa0\r".to_vec());
    transport.push_response("a", b"\x015a00150V20\r".to_vec());
    let client = MonitorClient::new(transport.clone(), Config::default()).with_timeout_ms(10);
    let identity = client.identify().unwrap();
    assert_eq!(identity.device, msi_device("a", Some("X")));
    assert_eq!(identity.model_raw.as_deref(), Some("00\u{fffd}"));
    assert_eq!(identity.firmware_raw.as_deref(), Some("V20"));
    let writes = transport.writes();
    assert_eq!(&writes[0][..9], b"\x015800140\r");
    assert_eq!(&writes[1][..9], b"\x015800150\r");
}

#[test]
fn identify_keeps_going_without_answers() {
    let transport = MockTransport::new(vec![msi_device("a", None)]);
    transport.push_response("a", Vec::new());
    transport.push_response("a", Vec::new());
    let client = MonitorClient::new(transport, Config::default());
    let identity = client.identify().unwrap();
    assert_eq!(identity.model_raw, None);
    assert_eq!(identity.firmware_raw, None);
}

#[test]
fn probes_pip_settings_in_order() {
    let transport = MockTransport::new(vec![msi_device("a", None)]);
    for reply in [
        &b"\x015a00600001\r"[..],
        b"\x015a00610004\r",
        b"\x015a00620002\r",
        b"\x015a00630000\r",
        b"\x015a00640003\r",
    ] {
        transport.push_response("a", reply.to_vec());
    }
    let client = MonitorClient::new(transport, Config::default());
    let probe = client.probe_pip().unwrap();
    let expected = [
        (Setting::PipMode, "001", "pip"),
        (Setting::PipInput, "004", "usbc"),
        (Setting::PbpInput, "002", "hdmi2"),
        (Setting::PipSize, "000", "small"),
        (Setting::PipPosition, "003", "right_bottom"),
    ];
    assert_eq!(probe.len(), expected.len());
    for ((setting, raw, decoded), (s, r, d)) in probe.iter().zip(expected) {
        assert_eq!(*setting, s);
        assert_eq!(raw, r);
        assert_eq!(decoded, d);
    }
}

#[test]
fn raw_write_returns_ack_and_write_setting_validates() {
    let transport = MockTransport::new(vec![msi_device("a", None)]);
    transport.push_response("a", b"\x015600+\r".to_vec());
    let client = MonitorClient::new(transport, Config::default());
    assert_eq!(client.raw_write("00650", "001").unwrap(), "5600+");
    assert!(matches!(
        client.write_setting(Setting::PipMode, "\u{e9}"),
        Err(Error::InvalidValue(_))
    ));
}

#[test]
fn raw_write_with_empty_answer_is_an_empty_response() {
    let transport = MockTransport::new(vec![msi_device("a", None)]);
    transport.push_response("a", Vec::new());
    let client = MonitorClient::new(transport, Config::default());
    assert!(matches!(client.raw_write("00650", "001"), Err(Error::EmptyResponse)));
}

#[test]
fn raw_read_rejects_invalid_command_and_cut_characters() {
    let transport = MockTransport::new(vec![msi_device("a", None)]);
    transport.push_response("a", "x\u{e9}".as_bytes().to_vec());
    let client = MonitorClient::new(transport, Config::default());
    assert!(matches!(client.raw_read("00600"), Err(Error::Message(_))));
    assert!(matches!(client.raw_read("zz"), Err(Error::InvalidCommand(_))));
}

#[test]
fn ack_outcomes() {
    let ack = b"\x015600\r";
    assert_eq!(write_ack_outcome(Ok(ack.len()), ack, false).unwrap(), Some("5600".to_string()));
    assert_eq!(write_ack_outcome(Ok(0), ack, true).unwrap(), None);
    assert!(matches!(write_ack_outcome(Ok(0), ack, false), Err(Error::EmptyResponse)));
    assert_eq!(write_ack_outcome(Ok(2), b"\x01\r", true).unwrap(), None);
    let lost = Error::Hid(HidFault::Io {
        kind: IoErrorKind::BrokenPipe,
        message: "broken pipe".to_string(),
    });
    assert_eq!(write_ack_outcome(Err(lost), ack, true).unwrap(), None);
    let other = Error::Hid(HidFault::Io {
        kind: IoErrorKind::Other,
        message: "device disconnected".to_string(),
    });
    assert!(matches!(
        write_ack_outcome(Err(other), ack, true),
        Err(Error::Hid(HidFault::Io { kind: IoErrorKind::Other, .. }))
    ));
    let poll = Error::Hid(HidFault::Api {
        message: "Unexpected POLL ERROR".to_string(),
    });
    assert_eq!(write_ack_outcome(Err(poll), ack, true).unwrap(), None);
    let api = Error::Hid(HidFault::Api {
        message: "timeout".to_string(),
    });
    assert!(matches!(write_ack_outcome(Err(api), ack, true), Err(Error::Hid(_))));
    assert!(matches!(
        write_ack_outcome(Ok(6), b"\x015601\r", true),
        Err(Error::WriteRejected(t)) if t == "5601"
    ));
}

#[test]
fn pip_on_writes_layout_then_mode() {
    let pip = PipConfig {
        mode: PipMode::Pbp,
        input: InputSource::Dp,
        size: PipSize::Medium,
        position: PipPosition::LeftBottom,
    };
    assert_eq!(
        pip_switch_core::monitor::pip_on_writes(pip),
        vec![
            (Setting::PipInput, "003"),
            (Setting::PipSize, "001"),
            (Setting::PipPosition, "002"),
            (Setting::PipMode, "002"),
        ]
    );
}

#[test]
fn fallback_message_wraps_the_quoted_name() {
    assert_eq!(
        pip_switch_core::monitor::fallback_message_with("\"x\\ty\""),
        "unsupported monitor fallback \"x\\ty\"; only \"first\" is currently supported"
    );
    let monitor = MonitorConfig {
        serial: " \t".to_string(),
        fallback: "a\tb".to_string(),
    };
    match select_device(vec![msi_device("a", None)], &monitor) {
        Err(Error::Message(m)) => assert_eq!(
            m,
            "unsupported monitor fallback \"a\\tb\"; only \"first\" is currently supported"
        ),
        other => panic!("unexpected {other:?}"),
    }
}

#[test]
fn unsupported_fallback_makes_every_operation_fail() {
    let mut config = Config::default();
    config.monitor.fallback = "last".to_string();
    let transport = MockTransport::new(vec![msi_device("a", None)]);
    let client = MonitorClient::new(transport.clone(), config);
    assert!(matches!(client.swap(), Err(Error::Message(_))));
    assert!(matches!(client.pip_on(), Err(Error::Message(_))));
    assert!(matches!(client.pip_toggle(), Err(Error::Message(_))));
    assert!(transport.writes().is_empty());
}

#[test]
fn pip_mode_reads_off() {
    assert!(pip_mode_is_off(" 000 "));
    assert!(pip_mode_is_off("off"));
    assert!(!pip_mode_is_off("001"));
    assert!(!pip_mode_is_off("0000"));
}

#[test]
fn read_outcomes() {
    assert_eq!(read_outcome("00600", b"\x015a00600002\r").unwrap(), "002");
    assert!(matches!(read_outcome("0060", b"\x015a00600002\r"), Err(Error::InvalidCommand(c)) if c == "0060"));
    assert!(matches!(read_outcome("00600", b"\x01\r"), Err(Error::EmptyResponse)));
    assert!(matches!(
        read_outcome("00600", "x\u{e9}".as_bytes()),
        Err(Error::Message(m)) if m == "the monitor's response cannot be cut after its first two bytes"
    ));
}
