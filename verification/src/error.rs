//! The library's error type.

use vstd::prelude::*;

verus! {

/// The kind of an operating-system I/O failure behind a HID error, as far
/// as the library tells kinds apart.
#[derive(Debug, Clone, Copy, PartialEq, Eq)]
pub enum IoErrorKind {
    NotConnected,
    ConnectionAborted,
    ConnectionReset,
    BrokenPipe,
    Other,
}

/// A failure reported by the HID layer.
#[derive(Debug, PartialEq, Eq)]
pub enum HidFault {
    /// The HID library reported an error with this message.
    Api { message: String },
    /// An operating-system I/O error of this kind, with its description.
    Io { kind: IoErrorKind, message: String },
    /// Any other HID failure, by its description.
    Other { message: String },
}

/// Everything that can go wrong while talking to a monitor.
#[derive(Debug)]
pub enum Error {
    /// The HID layer failed.
    Hid(HidFault),
    /// A command was not five ASCII hexadecimal characters.
    InvalidCommand(String),
    /// A value held a non-ASCII or NUL character, or did not fit a packet.
    InvalidValue(String),
    /// No supported monitor was found.
    NoMonitor,
    /// No supported monitor carries the configured serial number.
    SerialNotFound(String),
    /// The monitor's response held no text.
    EmptyResponse,
    /// The monitor answered a write with something other than an ack.
    WriteRejected(String),
    /// A setting name was not recognised.
    UnknownSetting(String),
    /// A value is not one that the setting accepts.
    UnsupportedValue { setting: &'static str, value: String },
    /// Any other failure, by its description.
    Message(String),
}

/// The library's result type.
pub type Result<T> = core::result::Result<T, Error>;

} // verus!
