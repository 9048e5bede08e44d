use std::sync::{Arc, Mutex};

use pip_switch_core::{
    execute, hotkey_action, tray_action, tray_icon_rgba, Action, Config, HidConnection,
    HidDeviceInfo, HidTransport, Result, Setting,
};

#[test]
fn tray_entries_map_to_actions() {
    assert_eq!(tray_action("swap"), Some(Action::Swap));
    assert_eq!(tray_action("pip_toggle"), Some(Action::PipToggle));
    assert_eq!(tray_action("probe"), Some(Action::Probe));
    assert_eq!(tray_action("open_config"), Some(Action::OpenConfig));
    assert_eq!(tray_action("quit"), Some(Action::Quit));
    assert_eq!(tray_action("Quit"), None);
    assert_eq!(tray_action(""), None);
}

#[test]
fn hotkey_presses_map_to_actions() {
    assert_eq!(hotkey_action(true, 7, 7, 9), Some(Action::Swap));
    assert_eq!(hotkey_action(true, 9, 7, 9), Some(Action::PipToggle));
    assert_eq!(hotkey_action(false, 7, 7, 9), None);
    assert_eq!(hotkey_action(true, 8, 7, 9), None);
    assert_eq!(hotkey_action(true, 5, 5, 5), Some(Action::Swap));
}

#[test]
fn icon_has_border_inset_and_background() {
    let rgba = tray_icon_rgba();
    assert_eq!(rgba.len(), 16 * 16 * 4);
    let pixel = |x: usize, y: usize| &rgba[(y * 16 + x) * 4..(y * 16 + x) * 4 + 4];
    assert_eq!(pixel(0, 5), [32, 38, 46, 255]);
    assert_eq!(pixel(15, 15), [32, 38, 46, 255]);
    assert_eq!(pixel(9, 3), [20, 184, 166, 255]);
    assert_eq!(pixel(13, 7), [20, 184, 166, 255]);
    assert_eq!(pixel(14, 7), [245, 247, 250, 255]);
    assert_eq!(pixel(5, 5), [245, 247, 250, 255]);
}

#[derive(Clone, Default)]
struct Recorder {
    writes: Arc<Mutex<Vec<Vec<u8>>>>,
}

struct RecorderConnection {
    writes: Arc<Mutex<Vec<Vec<u8>>>>,
    reply: Vec<u8>,
}

impl HidTransport for Recorder {
    fn devices(&self) -> Result<Vec<HidDeviceInfo>> {
        Ok(vec![HidDeviceInfo {
            path: "p".to_string(),
            vendor_id: 0x1462,
            product_id: 0x3fa4,
            manufacturer: None,
            product: None,
            serial: None,
        }])
    }

    fn open_path(&self, _path: &str) -> Result<Box<dyn HidConnection>> {
        Ok(Box::new(RecorderConnection {
            writes: Arc::clone(&self.writes),
            reply: Vec::new(),
        }))
    }
}

impl HidConnection for RecorderConnection {
    fn write(&mut self, bytes: &[u8]) -> Result<usize> {
        self.writes.lock().unwrap().push(bytes.to_vec());
        self.reply = if bytes[2] == b'8' {
            let mut reply = b"\x015a".to_vec();
            reply.extend_from_slice(&bytes[3..8]);
            reply.extend_from_slice(b"001\r");
            reply
        } else {
            b"\x015600+\r".to_vec()
        };
        Ok(bytes.len())
    }

    fn read_timeout(&mut self, bytes: &mut [u8], _timeout_ms: i32) -> Result<usize> {
        let reply = self.reply.clone();
        let count = reply.len().min(bytes.len());
        bytes[..count].copy_from_slice(&reply[..count]);
        Ok(count)
    }
}

#[test]
fn executes_actions() {
    let recorder = Recorder::default();
    assert!(execute(recorder.clone(), Config::default(), Action::Quit)
        .unwrap()
        .is_empty());
    assert!(execute(recorder.clone(), Config::default(), Action::OpenConfig)
        .unwrap()
        .is_empty());
    assert!(recorder.writes.lock().unwrap().is_empty());

    let probe = execute(recorder.clone(), Config::default(), Action::Probe).unwrap();
    assert_eq!(probe.len(), 5);
    assert_eq!(probe[0].0, Setting::PipMode);
    assert_eq!(probe[0].1, "001");
    assert_eq!(probe[0].2, "pip");
    assert_eq!(probe[4].0, Setting::PipPosition);
    assert_eq!(probe[4].2, "right_top");

    assert!(execute(recorder.clone(), Config::default(), Action::Swap)
        .unwrap()
        .is_empty());
    let writes = recorder.writes.lock().unwrap();
    assert_eq!(&writes[writes.len() - 1][..12], b"\x015b00650001\r");
}
