//! What the library needs from a HID stack: the list of devices, and
//! connections that write and read reports. Users plug in a real HID
//! stack or a simulated one by implementing the two traits.

use vstd::prelude::*;

use crate::error::Result;
use crate::protocol::{is_request_packet, PACKET_SIZE};
use crate::text::{chars_contain, chars_of, contains_text};

verus! {

/// USB vendor id of MSI.
pub const MSI_VENDOR_ID: u16 = 0x1462;

/// USB product id of the monitors' HID control interface.
pub const MSI_PRODUCT_ID: u16 = 0x3fa4;

/// A HID device as the HID stack lists it.
#[derive(Debug, Clone, PartialEq, Eq)]
pub struct HidDeviceInfo {
    pub path: String,
    pub vendor_id: u16,
    pub product_id: u16,
    pub manufacturer: Option<String>,
    pub product: Option<String>,
    pub serial: Option<String>,
}

/// The product string that the control interface reports.
pub open spec fn msi_product_text() -> Seq<char> {
    "MSI Gaming Controller"@
}

/// A device is a supported monitor: MSI's vendor and product ids, and a
/// product string, if any, that contains `MSI Gaming Controller`.
pub open spec fn is_supported(d: HidDeviceInfo) -> bool {
    &&& d.vendor_id == MSI_VENDOR_ID
    &&& d.product_id == MSI_PRODUCT_ID
    &&& match d.product {
        Some(p) => contains_text(p@, msi_product_text()),
        None => true,
    }
}

/// The supported devices of `devs`, in their order.
pub open spec fn supported_only(devs: Seq<HidDeviceInfo>) -> Seq<HidDeviceInfo>
    decreases devs.len(),
{
    if devs.len() == 0 {
        Seq::empty()
    } else {
        let rest = supported_only(devs.drop_last());
        if is_supported(devs.last()) {
            rest.push(devs.last())
        } else {
            rest
        }
    }
}

impl HidDeviceInfo {
    /// Whether the device is a supported monitor.
    pub fn is_supported_msi_monitor(&self) -> (r: bool)
        ensures
            r == is_supported(*self),
    {
        if self.vendor_id != MSI_VENDOR_ID || self.product_id != MSI_PRODUCT_ID {
            return false;
        }
        match &self.product {
            Some(product) => chars_contain(
                &chars_of(product.as_str()),
                &chars_of("MSI Gaming Controller"),
            ),
            None => true,
        }
    }
}

/// The supported devices among `devices`, in their order.
pub fn filter_supported(devices: Vec<HidDeviceInfo>) -> (r: Vec<HidDeviceInfo>)
    ensures
        r@ == supported_only(devices@),
        forall|i: int| 0 <= i < r@.len() ==> is_supported(#[trigger] r@[i]),
{
    let ghost orig = devices@;
    let mut rest = devices;
    let mut out: Vec<HidDeviceInfo> = Vec::new();
    assert(orig.take(0) =~= Seq::<HidDeviceInfo>::empty());
    while rest.len() > 0
        invariant
            rest@.len() <= orig.len(),
            rest@ == orig.skip(orig.len() - rest@.len()),
            out@ == supported_only(orig.take(orig.len() - rest@.len())),
        decreases rest@.len(),
    {
        let ghost i = orig.len() - rest@.len();
        let d = rest.remove(0);
        assert(d == orig[i]);
        assert(orig.take(i + 1).drop_last() =~= orig.take(i));
        if d.is_supported_msi_monitor() {
            out.push(d);
        }
        assert(rest@ =~= orig.skip(i + 1));
    }
    assert(orig.take(orig.len() as int) =~= orig);
    proof {
        lemma_supported_only_all_supported(orig);
    }
    out
}

proof fn lemma_supported_only_all_supported(devs: Seq<HidDeviceInfo>)
    ensures
        forall|i: int|
            0 <= i < supported_only(devs).len() ==> is_supported(#[trigger] supported_only(devs)[i]),
    decreases devs.len(),
{
    if devs.len() > 0 {
        let rest = supported_only(devs.drop_last());
        lemma_supported_only_all_supported(devs.drop_last());
        if is_supported(devs.last()) {
            assert forall|i: int| 0 <= i < rest.push(devs.last()).len() implies is_supported(
                #[trigger] rest.push(devs.last())[i],
            ) by {
                if i < rest.len() {
                    assert(rest.push(devs.last())[i] == rest[i]);
                }
            }
        }
    }
}

/// An open connection to one HID device.
pub trait HidConnection {
    /// Sends one report. The library only sends full-size read or write
    /// requests.
    fn write(&mut self, bytes: &[u8]) -> Result<usize>
        requires
            bytes@.len() == PACKET_SIZE,
            is_request_packet(bytes@),
    ;

    /// Waits up to `timeout_ms` for one report, stores it at the start of
    /// `bytes` and returns its length. The library passes a buffer of one
    /// report; implementations keep the buffer's length and return no more
    /// than it.
    fn read_timeout(&mut self, bytes: &mut [u8], timeout_ms: i32) -> (r: Result<usize>)
        requires
            old(bytes)@.len() == PACKET_SIZE,
        ensures
            final(bytes)@.len() == old(bytes)@.len(),
            r matches Ok(n) ==> n <= old(bytes)@.len(),
    ;
}

/// A HID stack: lists devices and opens them by path.
pub trait HidTransport {
    /// All HID devices present.
    fn devices(&self) -> Result<Vec<HidDeviceInfo>>;

    /// Opens the device at `path`.
    fn open_path(&self, path: &str) -> Result<Box<dyn HidConnection>>;
}

} // verus!
