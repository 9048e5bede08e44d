//! Control of the picture-in-picture features of MSI monitors over their
//! USB HID command channel: packet framing, response parsing, the table of
//! settings and their values, monitor selection and the monitor client.

pub mod config;
pub mod daemon;
pub mod error;
pub mod laws;
pub mod monitor;
pub mod protocol;
pub mod settings;
pub mod text;
pub mod transport;

pub use config::{Config, HotkeysConfig, MonitorConfig, PipConfig};
pub use daemon::{execute, hotkey_action, tray_action, tray_icon_rgba, Action};
pub use error::{Error, HidFault, IoErrorKind, Result};
pub use monitor::{Identity, MonitorClient, MonitorSelection};
pub use protocol::{
    build_read_packet, build_write_packet, decode_response_text, parse_read_response,
    parse_write_ack, PACKET_SIZE, REPORT_ID,
};
pub use settings::{
    decode_setting_value, encode_setting_value, InputSource, PipMode, PipPosition, PipSize, Setting,
};
pub use transport::{HidConnection, HidDeviceInfo, HidTransport, MSI_PRODUCT_ID, MSI_VENDOR_ID};
