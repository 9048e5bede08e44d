//! The monitor client: picks the monitor to talk to, reads and writes its
//! settings, and carries out the picture-in-picture actions.

use vstd::prelude::*;

use crate::config::{Config, MonitorConfig, PipConfig};
use crate::error::{Error, HidFault, IoErrorKind, Result};
use crate::protocol::{
    ack_prefix, build_read_packet, build_write_packet, is_request_packet,
    parse_read_response_checked, parse_write_ack, read_frame, read_value, read_value_cut_fails,
    response_text, valid_command, valid_value, value_fits, write_frame, zero_pad, PACKET_SIZE,
};
use crate::settings::{decode_setting_value, decoded_value, PipMode, Setting};
use crate::text::{
    chars_contain, chars_eq_str, chars_of, contains_text, has_prefix, lower_text, lowered_chars,
    string_of, trimmed, trimmed_chars,
};
use crate::transport::{filter_supported, is_supported, HidDeviceInfo, HidTransport};

verus! {

/// The monitor chosen for an operation.
#[derive(Debug, Clone, PartialEq, Eq)]
pub struct MonitorSelection {
    pub device: HidDeviceInfo,
    /// Several supported monitors were found and no serial number chose one.
    pub multiple_without_serial: bool,
}

/// What a monitor says about itself.
#[derive(Debug, Clone, PartialEq, Eq)]
pub struct Identity {
    pub device: HidDeviceInfo,
    pub model_raw: Option<String>,
    pub firmware_raw: Option<String>,
}

/// Talks to the configured monitor through a HID stack `T`.
pub struct MonitorClient<T> {
    transport: T,
    config: Config,
    read_timeout_ms: i32,
}

/// The device carries the serial number `serial`.
pub open spec fn has_serial(d: HidDeviceInfo, serial: Seq<char>) -> bool {
    d.serial matches Some(s) && s@ == serial
}

/// `i` is the first position in `devs` of a device with serial number `serial`.
pub open spec fn first_with_serial(devs: Seq<HidDeviceInfo>, serial: Seq<char>, i: int) -> bool {
    &&& 0 <= i < devs.len()
    &&& has_serial(devs[i], serial)
    &&& forall|j: int| 0 <= j < i ==> !has_serial(#[trigger] devs[j], serial)
}

/// `sel` is the choice that the configuration `m` makes among the supported
/// monitors `devs`: the first with the configured serial number when one is
/// set, else the first monitor.
pub open spec fn selection_made(
    devs: Seq<HidDeviceInfo>,
    m: MonitorConfig,
    sel: MonitorSelection,
) -> bool {
    &&& devs.len() > 0
    &&& if trimmed(m.serial@).len() > 0 {
        &&& exists|i: int| first_with_serial(devs, trimmed(m.serial@), i) && sel.device == devs[i]
        &&& !sel.multiple_without_serial
    } else {
        &&& m.fallback@ == "first"@
        &&& sel.device == devs[0]
        &&& sel.multiple_without_serial == (devs.len() > 1)
    }
}

/// The configuration `m` chooses a monitor among some supported monitors:
/// one with the configured serial number, or, without one, the first under
/// the `first` fallback.
pub open spec fn monitor_chosen(m: MonitorConfig) -> bool {
    exists|devs: Seq<HidDeviceInfo>, sel: MonitorSelection|
        (forall|i: int| 0 <= i < devs.len() ==> is_supported(#[trigger] devs[i])) && selection_made(
            devs,
            m,
            sel,
        )
}

/// Without a serial number and with a fallback other than `first`, the
/// configuration chooses no monitor, so every operation on a monitor fails.
pub proof fn lemma_unsupported_fallback_chooses_nothing(m: MonitorConfig)
    requires
        trimmed(m.serial@).len() == 0,
        m.fallback@ != "first"@,
    ensures
        !monitor_chosen(m),
{
}

/// What `format!("{:?}", s)` makes of a text: the text quoted, with its
/// special characters escaped.
pub uninterp spec fn debug_text(s: Seq<char>) -> Seq<char>;

/// The message that reports an unsupported fallback `fallback`.
pub open spec fn fallback_error_text(fallback: Seq<char>) -> Seq<char> {
    "unsupported monitor fallback "@ + debug_text(fallback) + "; only \"first\" is currently supported"@
}

/// `e` is the error with which the configuration `m` finds no monitor among
/// the supported monitors `devs`.
pub open spec fn selection_refused(devs: Seq<HidDeviceInfo>, m: MonitorConfig, e: Error) -> bool {
    if devs.len() == 0 {
        e is NoMonitor
    } else if trimmed(m.serial@).len() > 0 {
        &&& forall|i: int| 0 <= i < devs.len() ==> !has_serial(#[trigger] devs[i], trimmed(m.serial@))
        &&& e matches Error::SerialNotFound(s) && s@ == trimmed(m.serial@)
    } else {
        &&& m.fallback@ != "first"@
        &&& e matches Error::Message(t) && t@ == fallback_error_text(m.fallback@)
    }
}

/// `v` is the value that some response of at most one packet to a read of
/// `cmd` carries.
pub open spec fn read_reply(cmd: Seq<char>, v: Seq<char>) -> bool {
    exists|b: Seq<u8>|
        #![trigger response_text(b)]
        b.len() <= PACKET_SIZE && response_text(b).len() > 0 && !read_value_cut_fails(
            cmd,
            response_text(b),
        ) && v == read_value(cmd, response_text(b))
}

/// `a` is the acknowledgement text of some response of at most one packet.
pub open spec fn ack_reply(a: Seq<char>) -> bool {
    &&& a.len() > 0
    &&& has_prefix(a, ack_prefix())
    &&& exists|b: Seq<u8>| #![trigger response_text(b)] b.len() <= PACKET_SIZE && a == response_text(b)
}

/// A failure after a write that means the monitor dropped the connection
/// instead of acknowledging: a HID error whose message mentions a poll
/// error or a disconnected device, or a lost-connection I/O error.
pub open spec fn is_missing_ack(e: Error) -> bool {
    match e {
        Error::Hid(HidFault::Api { message }) => contains_text(
            lower_text(message@),
            "poll error"@,
        ) || contains_text(lower_text(message@), "device disconnected"@),
        Error::Hid(HidFault::Io { kind, message: _ }) => match kind {
            IoErrorKind::NotConnected | IoErrorKind::ConnectionAborted
            | IoErrorKind::ConnectionReset | IoErrorKind::BrokenPipe => true,
            IoErrorKind::Other => false,
        },
        _ => false,
    }
}

/// Whether `error` means that the monitor dropped the connection after a write.
fn is_post_write_missing_ack_error(error: &Error) -> (r: bool)
    ensures
        r == is_missing_ack(*error),
{
    match error {
        Error::Hid(HidFault::Api { message }) => {
            let lowered = lowered_chars(message.as_str());
            chars_contain(&lowered, &chars_of("poll error")) || chars_contain(
                &lowered,
                &chars_of("device disconnected"),
            )
        },
        Error::Hid(HidFault::Io { kind, message: _ }) => match kind {
            IoErrorKind::NotConnected | IoErrorKind::ConnectionAborted
            | IoErrorKind::ConnectionReset | IoErrorKind::BrokenPipe => true,
            IoErrorKind::Other => false,
        },
        _ => false,
    }
}

/// Calls `format!` with `{:?}` on `s`. Claimed: the text is a function of
/// `s` alone, named `debug_text`; the quoting and escaping that `{:?}`
/// applies are left unsaid.
#[verifier::external_body]
fn debug_quoted(s: &str) -> (r: String)
    ensures
        r@ == debug_text(s@),
{
    format!("{:?}", s)
}

/// The message that reports an unsupported fallback, given the fallback's
/// `{:?}` form `quoted`.
pub fn fallback_message_with(quoted: &str) -> (r: String)
    ensures
        r@ == "unsupported monitor fallback "@ + quoted@ + "; only \"first\" is currently supported"@,
{
    let mut message = String::from_str("unsupported monitor fallback ");
    message.append(quoted);
    message.append("; only \"first\" is currently supported");
    message
}

/// The message that reports the unsupported fallback `fallback`.
fn unsupported_fallback_message(fallback: &str) -> (r: String)
    ensures
        r@ == fallback_error_text(fallback@),
{
    fallback_message_with(debug_quoted(fallback).as_str())
}

/// The monitor that the configuration `monitor` chooses among the supported
/// monitors `devices`.
pub fn select_device(devices: Vec<HidDeviceInfo>, monitor: &MonitorConfig) -> (res: Result<
    MonitorSelection,
>)
    ensures
        match res {
            Ok(sel) => selection_made(devices@, *monitor, sel),
            Err(e) => selection_refused(devices@, *monitor, e),
        },
{
    let ghost devs = devices@;
    let mut pool = devices;
    if pool.len() == 0 {
        return Err(Error::NoMonitor);
    }
    let serial = trimmed_chars(monitor.serial.as_str());
    if serial.len() > 0 {
        let mut i: usize = 0;
        while i < pool.len()
            invariant
                pool@ == devs,
                devs == devices@,
                i <= devs.len(),
                serial@ == trimmed(monitor.serial@),
                serial@.len() > 0,
                forall|j: int| 0 <= j < i ==> !has_serial(#[trigger] devs[j], serial@),
            decreases devs.len() - i,
        {
            let found = match &pool[i].serial {
                Some(s) => chars_eq_str(&serial, s.as_str()),
                None => false,
            };
            if found {
                let device = pool.remove(i);
                let sel = MonitorSelection { device, multiple_without_serial: false };
                assert(has_serial(devs[i as int], serial@));
                assert(first_with_serial(devs, trimmed(monitor.serial@), i as int) && sel.device
                    == devs[i as int]);
                assert(selection_made(devs, *monitor, sel));
                return Ok(sel);
            }
            i = i + 1;
        }
        let n = serial.len();
        assert(serial@.subrange(0, n as int) =~= serial@);
        return Err(Error::SerialNotFound(string_of(&serial, 0, n)));
    }
    if !chars_eq_str(&chars_of(monitor.fallback.as_str()), "first") {
        return Err(Error::Message(unsupported_fallback_message(monitor.fallback.as_str())));
    }
    let multiple_without_serial = pool.len() > 1;
    let device = pool.remove(0);
    Ok(MonitorSelection { device, multiple_without_serial })
}

/// What a write has come to, given the outcome `read` of reading the
/// monitor's answer into `response`: the acknowledgement text, `None` for a
/// missing acknowledgement where one is tolerated, or the error.
pub fn write_ack_outcome(read: Result<usize>, response: &[u8], allow_empty_ack: bool) -> (res:
    Result<Option<String>>)
    requires
        read matches Ok(n) ==> n <= response@.len(),
    ensures
        match read {
            Err(e) => if allow_empty_ack && is_missing_ack(e) {
                res matches Ok(None)
            } else {
                res matches Err(f) && f == e
            },
            Ok(n) => {
                let t = response_text(response@.take(n as int));
                if allow_empty_ack && n == 0 {
                    res matches Ok(None)
                } else if t.len() == 0 {
                    if allow_empty_ack {
                        res matches Ok(None)
                    } else {
                        res matches Err(f) && f is EmptyResponse
                    }
                } else if has_prefix(t, ack_prefix()) {
                    res matches Ok(Some(a)) && a@ == t
                } else {
                    res matches Err(f) && (f matches Error::WriteRejected(x) && x@ == t)
                }
            },
        },
{
    let count = match read {
        Ok(count) => count,
        Err(error) => {
            if allow_empty_ack && is_post_write_missing_ack_error(&error) {
                return Ok(None);
            }
            return Err(error);
        },
    };
    if count == 0 && allow_empty_ack {
        return Ok(None);
    }
    let reply = vstd::slice::slice_subrange(response, 0, count);
    assert(reply@ =~= response@.take(count as int));
    match parse_write_ack(reply) {
        Ok(ack) => Ok(Some(ack)),
        Err(Error::EmptyResponse) if allow_empty_ack => Ok(None),
        Err(error) => Err(error),
    }
}

/// Whether the raw PIP mode `raw` reads as off, so that toggling turns
/// picture-in-picture on.
pub fn pip_mode_is_off(raw: &str) -> (r: bool)
    ensures
        r == (trimmed(raw@) == PipMode::Off.code_text() || decoded_value(Setting::PipMode, raw@)
            == "off"@),
{
    let t = trimmed_chars(raw);
    if chars_eq_str(&t, PipMode::Off.encoded()) {
        return true;
    }
    let decoded = decode_setting_value(Setting::PipMode, raw);
    chars_eq_str(&chars_of(decoded.as_str()), "off")
}

/// The message for a reply whose text would have to be cut inside a character.
pub open spec fn cut_reply_message() -> Seq<char> {
    "the monitor's response cannot be cut after its first two bytes"@
}

/// What a read of `command` comes to, given the monitor's `reply`: the value
/// it carries, or the error.
pub fn read_outcome(command: &str, reply: &[u8]) -> (res: Result<String>)
    ensures
        match res {
            Ok(v) => valid_command(command@) && response_text(reply@).len() > 0
                && !read_value_cut_fails(command@, response_text(reply@)) && v@ == read_value(
                command@,
                response_text(reply@),
            ),
            Err(e) => if !valid_command(command@) {
                e matches Error::InvalidCommand(c) && c@ == command@
            } else if response_text(reply@).len() == 0 {
                e is EmptyResponse
            } else {
                read_value_cut_fails(command@, response_text(reply@)) && (e matches Error::Message(
                    m,
                ) && m@ == cut_reply_message())
            },
        },
{
    match parse_read_response_checked(command, reply) {
        Some(result) => result,
        None => Err(
            Error::Message("the monitor's response cannot be cut after its first two bytes".to_owned()),
        ),
    }
}

/// The writes that turn picture-in-picture on with the layout `pip`, in
/// order: input, size and position, then the mode.
pub open spec fn pip_on_plan(pip: PipConfig) -> Seq<(Setting, Seq<char>)> {
    seq![
        (Setting::PipInput, pip.input.code_text()),
        (Setting::PipSize, pip.size.code_text()),
        (Setting::PipPosition, pip.position.code_text()),
        (Setting::PipMode, pip.mode.code_text()),
    ]
}

/// The settings and codes that turning picture-in-picture on with the
/// layout `pip` writes, in order.
pub fn pip_on_writes(pip: PipConfig) -> (r: Vec<(Setting, &'static str)>)
    ensures
        r@.len() == pip_on_plan(pip).len(),
        forall|k: int|
            0 <= k < r@.len() ==> (#[trigger] r@[k]).0 == pip_on_plan(pip)[k].0 && r@[k].1@
                == pip_on_plan(pip)[k].1,
{
    let mut writes: Vec<(Setting, &'static str)> = Vec::new();
    writes.push((Setting::PipInput, pip.input.encoded()));
    writes.push((Setting::PipSize, pip.size.encoded()));
    writes.push((Setting::PipPosition, pip.position.encoded()));
    writes.push((Setting::PipMode, pip.mode.encoded()));
    writes
}

/// The settings that `probe_pip` reads, in order.
pub open spec fn probe_order() -> Seq<Setting> {
    seq![
        Setting::PipMode,
        Setting::PipInput,
        Setting::PbpInput,
        Setting::PipSize,
        Setting::PipPosition,
    ]
}

impl<T: HidTransport> MonitorClient<T> {
    /// The configuration the client works with.
    pub closed spec fn configuration(&self) -> Config {
        self.config
    }

    /// How long the client waits for each answer, in milliseconds.
    pub closed spec fn timeout_ms(&self) -> i32 {
        self.read_timeout_ms
    }

    /// A client for `transport` and `config` that waits one second for answers.
    pub fn new(transport: T, config: Config) -> (r: Self)
        ensures
            r.configuration() == config,
            r.timeout_ms() == 1000,
    {
        MonitorClient { transport, config, read_timeout_ms: 1_000 }
    }

    /// The same client, waiting `timeout_ms` for answers.
    pub fn with_timeout_ms(self, timeout_ms: i32) -> (r: Self)
        ensures
            r.configuration() == self.configuration(),
            r.timeout_ms() == timeout_ms,
    {
        let mut client = self;
        client.read_timeout_ms = timeout_ms;
        client
    }

    /// The supported monitors present.
    pub fn list(&self) -> (res: Result<Vec<HidDeviceInfo>>)
        ensures
            res matches Ok(v) ==> forall|i: int| 0 <= i < v@.len() ==> is_supported(#[trigger] v@[i]),
    {
        let devices = self.transport.devices()?;
        Ok(filter_supported(devices))
    }

    /// The monitor that the configuration chooses among those present.
    pub fn select(&self) -> (res: Result<MonitorSelection>)
        ensures
            res matches Ok(sel) ==> exists|devs: Seq<HidDeviceInfo>|
                (forall|i: int| 0 <= i < devs.len() ==> is_supported(#[trigger] devs[i]))
                    && selection_made(devs, self.configuration().monitor, sel),
            res is Ok ==> monitor_chosen(self.configuration().monitor),
    {
        let devices = self.list()?;
        let ghost devs = devices@;
        let selection = select_device(devices, &self.config.monitor);
        let ghost outcome = selection;
        proof {
            if let Ok(sel) = outcome {
                assert((forall|i: int| 0 <= i < devs.len() ==> is_supported(#[trigger] devs[i]))
                    && selection_made(devs, self.configuration().monitor, sel));
                assert(monitor_chosen(self.configuration().monitor));
            }
        }
        selection
    }

    /// The chosen monitor, with its model and firmware identification as far
    /// as the monitor answers them.
    pub fn identify(&self) -> (res: Result<Identity>)
        ensures
            res matches Ok(id) ==> (exists|devs: Seq<HidDeviceInfo>, sel: MonitorSelection|
                (forall|i: int| 0 <= i < devs.len() ==> is_supported(#[trigger] devs[i]))
                    && selection_made(devs, self.configuration().monitor, sel) && sel.device
                    == id.device) && (id.model_raw matches Some(m) ==> read_reply("00140"@, m@)) && (
            id.firmware_raw matches Some(f) ==> read_reply("00150"@, f@)),
    {
        let selection = self.select()?;
        let ghost chosen = selection;
        let device = selection.device;
        assert(chosen.device == device);
        let model_raw = self.try_raw_read_from(&device, "00140").ok();
        let firmware_raw = self.try_raw_read_from(&device, "00150").ok();
        Ok(Identity { device, model_raw, firmware_raw })
    }

    /// The value of `setting`.
    pub fn read_setting(&self, setting: Setting) -> (res: Result<String>)
        ensures
            res matches Ok(v) ==> read_reply(setting.command_text(), v@),
            res is Ok ==> monitor_chosen(self.configuration().monitor),
    {
        self.raw_read(setting.command())
    }

    /// Writes the code `value` to `setting` and returns the acknowledgement.
    pub fn write_setting(&self, setting: Setting, value: &str) -> (res: Result<String>)
        ensures
            res matches Ok(a) ==> valid_value(value@) && value_fits(value@) && ack_reply(a@),
            res is Ok ==> monitor_chosen(self.configuration().monitor),
    {
        self.raw_write(setting.command(), value)
    }

    /// The value of the raw command `command`.
    pub fn raw_read(&self, command: &str) -> (res: Result<String>)
        ensures
            res matches Ok(v) ==> valid_command(command@) && read_reply(command@, v@),
            res is Ok ==> monitor_chosen(self.configuration().monitor),
    {
        let selection = self.select()?;
        self.try_raw_read_from(&selection.device, command)
    }

    /// Writes `value` to the raw command `command` and returns the
    /// acknowledgement, which must be there.
    pub fn raw_write(&self, command: &str, value: &str) -> (res: Result<String>)
        ensures
            res matches Ok(a) ==> valid_command(command@) && valid_value(value@) && value_fits(
                value@,
            ) && ack_reply(a@),
            res is Ok ==> monitor_chosen(self.configuration().monitor),
    {
        match self.raw_write_impl(command, value, false)? {
            Some(ack) => Ok(ack),
            None => Err(Error::EmptyResponse),
        }
    }

    fn raw_write_allow_missing_ack(&self, command: &str, value: &str) -> (res: Result<()>)
        ensures
            res is Ok ==> valid_command(command@) && valid_value(value@) && value_fits(value@),
            res is Ok ==> monitor_chosen(self.configuration().monitor),
    {
        self.raw_write_impl(command, value, true)?;
        Ok(())
    }

    fn raw_write_impl(&self, command: &str, value: &str, allow_empty_ack: bool) -> (res: Result<
        Option<String>,
    >)
        ensures
            res is Ok ==> valid_command(command@) && valid_value(value@) && value_fits(value@),
            res matches Ok(Some(a)) ==> ack_reply(a@),
            !allow_empty_ack ==> !(res matches Ok(None)),
            res is Ok ==> monitor_chosen(self.configuration().monitor),
    {
        let selection = self.select()?;
        let mut connection = self.transport.open_path(selection.device.path.as_str())?;
        let packet = build_write_packet(command, value)?;
        assert(is_request_packet(packet@)) by {
            assert(valid_command(command@) && valid_value(value@) && value_fits(value@) && packet@
                == zero_pad(write_frame(command@, value@)));
        }
        connection.write(packet.as_slice())?;
        let mut response = [0u8; PACKET_SIZE];
        let read = connection.read_timeout(&mut response, self.read_timeout_ms);
        let ghost read_result = read;
        let outcome = write_ack_outcome(read, response.as_slice(), allow_empty_ack);
        let ghost result = outcome;
        proof {
            if let Ok(Some(a)) = result {
                if let Ok(n) = read_result {
                    assert(response@.take(n as int).len() <= PACKET_SIZE);
                    assert(a@ == response_text(response@.take(n as int)));
                }
            }
        }
        outcome
    }

    /// Triggers the monitor's PIP/PBP display switch.
    pub fn swap(&self) -> (res: Result<()>)
        ensures
            res is Ok ==> monitor_chosen(self.configuration().monitor),
    {
        self.raw_write_allow_missing_ack(Setting::DisplaySwitch.command(), "001")?;
        Ok(())
    }

    /// Writes the configured input, size and position, then the configured mode.
    pub fn pip_on(&self) -> (res: Result<()>)
        ensures
            res is Ok ==> monitor_chosen(self.configuration().monitor),
    {
        let writes = pip_on_writes(self.config.pip);
        let mut i: usize = 0;
        while i < writes.len()
            invariant
                writes@.len() == 4,
                i <= writes@.len(),
                i > 0 ==> monitor_chosen(self.configuration().monitor),
            decreases writes@.len() - i,
        {
            let (setting, code) = writes[i];
            self.raw_write_allow_missing_ack(setting.command(), code)?;
            i = i + 1;
        }
        Ok(())
    }

    /// Turns picture-in-picture off.
    pub fn pip_off(&self) -> (res: Result<()>)
        ensures
            res is Ok ==> monitor_chosen(self.configuration().monitor),
    {
        self.raw_write_allow_missing_ack(Setting::PipMode.command(), PipMode::Off.encoded())?;
        Ok(())
    }

    /// Turns picture-in-picture on with the configured layout when the
    /// monitor reports it off, and off otherwise.
    pub fn pip_toggle(&self) -> (res: Result<()>)
        ensures
            res is Ok ==> monitor_chosen(self.configuration().monitor),
    {
        let raw = self.read_setting(Setting::PipMode)?;
        if pip_mode_is_off(raw.as_str()) {
            self.pip_on()
        } else {
            self.pip_off()
        }
    }

    /// The raw and decoded values of the picture-in-picture settings.
    pub fn probe_pip(&self) -> (res: Result<Vec<(Setting, String, String)>>)
        ensures
            res is Ok ==> monitor_chosen(self.configuration().monitor),
            res matches Ok(v) ==> v@.len() == probe_order().len() && forall|k: int|
                0 <= k < v@.len() ==> {
                    let (s, raw, decoded) = #[trigger] v@[k];
                    &&& s == probe_order()[k]
                    &&& read_reply(s.command_text(), raw@)
                    &&& decoded@ == decoded_value(s, raw@)
                },
    {
        let order = [
            Setting::PipMode,
            Setting::PipInput,
            Setting::PbpInput,
            Setting::PipSize,
            Setting::PipPosition,
        ];
        assert(order@ =~= probe_order());
        let mut out: Vec<(Setting, String, String)> = Vec::new();
        let mut i: usize = 0;
        while i < 5
            invariant
                i <= 5,
                order@ == probe_order(),
                out@.len() == i,
                i > 0 ==> monitor_chosen(self.configuration().monitor),
                forall|k: int|
                    0 <= k < i ==> {
                        let (s, raw, decoded) = #[trigger] out@[k];
                        &&& s == probe_order()[k]
                        &&& read_reply(s.command_text(), raw@)
                        &&& decoded@ == decoded_value(s, raw@)
                    },
            decreases 5 - i,
        {
            let setting = order[i];
            let raw = self.read_setting(setting)?;
            let decoded = decode_setting_value(setting, raw.as_str());
            out.push((setting, raw, decoded));
            i = i + 1;
        }
        Ok(out)
    }

    fn try_raw_read_from(&self, device: &HidDeviceInfo, command: &str) -> (res: Result<String>)
        ensures
            res matches Ok(v) ==> valid_command(command@) && read_reply(command@, v@),
    {
        let mut connection = self.transport.open_path(device.path.as_str())?;
        let packet = build_read_packet(command)?;
        assert(is_request_packet(packet@)) by {
            assert(valid_command(command@) && packet@ == zero_pad(read_frame(command@)));
        }
        connection.write(packet.as_slice())?;
        let mut response = [0u8; PACKET_SIZE];
        let count = connection.read_timeout(&mut response, self.read_timeout_ms)?;
        let reply = vstd::slice::slice_subrange(response.as_slice(), 0, count);
        assert(reply@.len() <= PACKET_SIZE);
        let result = read_outcome(command, reply);
        let ghost outcome = result;
        proof {
            if let Ok(v) = outcome {
                assert(response_text(reply@).len() > 0 && !read_value_cut_fails(
                    command@,
                    response_text(reply@),
                ) && v@ == read_value(command@, response_text(reply@)));
            }
        }
        result
    }
}

} // verus!
