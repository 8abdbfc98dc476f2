//! The device locator and transfer driver.
//!
//! The locator enumerates the attached USB devices and selects the first
//! whose (vendor id, product id) pair matches a supported identity; the
//! transfer driver runs the verified session guard over a real device:
//! claims interfaces 0 and 1, sends the three encoded packets as control
//! transfers, and releases everything on every exit path.
//!
//! All USB I/O goes through `rusb`; every call into it stands behind a
//! trusted wrapper or an assumed specification below, and everything the
//! library decides — which device matches, in what order interfaces are
//! claimed and released, what bytes are sent — is verified.

use vstd::prelude::*;

use crate::config::Config;
use crate::packet::{build_buttons_packet, build_debounce_packet, build_main_packet};
use crate::session::{begin_session, session_step, SessionCommand, SessionEvent, SessionGuard};

verus! {

#[verifier::external_type_specification]
#[verifier::external_body]
pub struct ExRusbError(rusb::Error);

/// An attached USB device, as found by enumeration.
///
/// `rusb::Device` is generic over an outside trait, which Verus cannot
/// declare, so the device is held opaquely in a hidden field and every
/// operation on it goes through a trusted wrapper.
#[verifier::external_body]
pub struct UsbDevice {
    device: rusb::Device<rusb::GlobalContext>,
}

/// An open handle to a USB device; all control transfers and interface
/// operations go through it.
///
/// Held opaquely for the same reason as [`UsbDevice`].
#[verifier::external_body]
pub struct UsbHandle {
    handle: rusb::DeviceHandle<rusb::GlobalContext>,
}

/// Relies on rusb::supports_detach_kernel_driver: whether the running
/// libusb can detach a kernel driver from an interface.
pub assume_specification[ rusb::supports_detach_kernel_driver ]() -> bool;

/// Relies on rusb::devices, rusb::Device::device_descriptor and
/// rusb::DeviceDescriptor::{vendor_id, product_id}: lists the attached USB
/// devices, each with its vendor and product id.
#[verifier::external_body]
fn list_devices() -> Result<Vec<(UsbDevice, u16, u16)>, rusb::Error> {
    let list = rusb::devices()?;
    let mut out = Vec::new();
    for device in list.iter() {
        let descriptor = device.device_descriptor()?;
        let ids = (descriptor.vendor_id(), descriptor.product_id());
        out.push((UsbDevice { device }, ids.0, ids.1));
    }
    Ok(out)
}

/// Relies on rusb::Device::open: opens the device for I/O.
#[verifier::external_body]
fn open_device(device: &UsbDevice) -> Result<UsbHandle, rusb::Error> {
    device.device.open().map(|handle| UsbHandle { handle })
}

/// Relies on rusb::DeviceHandle::kernel_driver_active: whether a kernel
/// driver is bound to the interface; an error on platforms without
/// kernel-driver support.
#[verifier::external_body]
fn kernel_driver_active(handle: &UsbHandle, iface: u8) -> Result<bool, rusb::Error> {
    handle.handle.kernel_driver_active(iface)
}

/// Relies on rusb::DeviceHandle::detach_kernel_driver: detaches the kernel
/// driver from the interface.
#[verifier::external_body]
fn detach_kernel_driver(handle: &UsbHandle, iface: u8) -> Result<(), rusb::Error> {
    handle.handle.detach_kernel_driver(iface)
}

/// Relies on rusb::DeviceHandle::attach_kernel_driver: reattaches the
/// kernel driver to the interface.
#[verifier::external_body]
fn attach_kernel_driver(handle: &UsbHandle, iface: u8) -> Result<(), rusb::Error> {
    handle.handle.attach_kernel_driver(iface)
}

/// Relies on rusb::DeviceHandle::claim_interface: claims the interface for
/// exclusive use by this process.
#[verifier::external_body]
fn claim_interface(handle: &UsbHandle, iface: u8) -> Result<(), rusb::Error> {
    handle.handle.claim_interface(iface)
}

/// Relies on rusb::DeviceHandle::release_interface: releases a claimed
/// interface.
#[verifier::external_body]
fn release_interface(handle: &UsbHandle, iface: u8) -> Result<(), rusb::Error> {
    handle.handle.release_interface(iface)
}

/// Relies on rusb::DeviceHandle::write_control: performs one host-to-device
/// control transfer with the given timeout in seconds; returns how many
/// bytes were transferred.
#[verifier::external_body]
fn write_control(
    handle: &UsbHandle,
    request_type: u8,
    request: u8,
    value: u16,
    index: u16,
    buf: &[u8],
    timeout_secs: u64,
) -> Result<usize, rusb::Error> {
    handle.handle.write_control(
        request_type,
        request,
        value,
        index,
        buf,
        std::time::Duration::from_secs(timeout_secs),
    )
}

/// Why applying a configuration to the hardware failed.
#[derive(Clone, Copy, Debug, PartialEq, Eq, Structural)]
pub enum ApplyError {
    /// The USB device list could not be read.
    Enumeration,
    /// No supported device is attached.
    DeviceNotFound,
    /// The device could not be opened.
    Open,
    /// A claim, transfer, or release step failed; every claimed interface
    /// was still released on a best-effort basis.
    Session,
}

impl ApplyError {
    /// A human-readable description of the failure.
    pub fn message(&self) -> (r: &'static str)
        ensures
            self is Enumeration ==> r@ == "could not load usb device list"@,
            self is DeviceNotFound ==> r@ == "could not find usb device"@,
            self is Open ==> r@ == "could not open usb device"@,
            self is Session ==> r@ == "usb session failed"@,
    {
        match self {
            ApplyError::Enumeration => "could not load usb device list",
            ApplyError::DeviceNotFound => "could not find usb device",
            ApplyError::Open => "could not open usb device",
            ApplyError::Session => "usb session failed",
        }
    }
}

/// Whether (vendor, product) is one of the supported device identities.
pub open spec fn is_target_device(vendor: u16, product: u16) -> bool {
    vendor == 0x258a && (product == 0x0033 || product == 0x0036)
}

/// Returns whether (vendor, product) is a supported device identity.
pub fn matches_target_device(vendor: u16, product: u16) -> (r: bool)
    ensures
        r == is_target_device(vendor, product),
{
    vendor == 0x258a && (product == 0x0033 || product == 0x0036)
}

/// Selects the first device identity matching the supported list, in
/// enumeration order.
pub fn find_target_index(ids: &Vec<(u16, u16)>) -> (r: Option<usize>)
    ensures
        match r {
            Some(i) => {
                &&& i < ids@.len()
                &&& is_target_device(ids@[i as int].0, ids@[i as int].1)
                &&& forall|j: int|
                    0 <= j < i ==> !is_target_device((#[trigger] ids@[j]).0, ids@[j].1)
            },
            None => forall|j: int|
                0 <= j < ids@.len() ==> !is_target_device((#[trigger] ids@[j]).0, ids@[j].1),
        },
{
    let n = ids.len();
    let mut i: usize = 0;
    while i < n
        invariant
            i <= n,
            n == ids@.len(),
            forall|j: int| 0 <= j < i ==> !is_target_device((#[trigger] ids@[j]).0, ids@[j].1),
        decreases n - i,
    {
        let pair = ids[i];
        if matches_target_device(pair.0, pair.1) {
            return Some(i);
        }
        i += 1;
    }
    None
}

/// Extracts the (vendor id, product id) pairs from an enumerated device
/// list.
fn device_ids(devices: &Vec<(UsbDevice, u16, u16)>) -> (r: Vec<(u16, u16)>)
    ensures
        r@.len() == devices@.len(),
        forall|i: int|
            0 <= i < devices@.len() ==> #[trigger] r@[i] == ((devices@[i].1, devices@[i].2)),
{
    let n = devices.len();
    let mut ids: Vec<(u16, u16)> = Vec::new();
    let mut i: usize = 0;
    while i < n
        invariant
            i <= n,
            n == devices@.len(),
            ids@.len() == i,
            forall|j: int|
                0 <= j < i ==> #[trigger] ids@[j] == ((devices@[j].1, devices@[j].2)),
        decreases n - i,
    {
        let entry = &devices[i];
        ids.push((entry.1, entry.2));
        i += 1;
    }
    ids
}

/// The parameters of one control transfer of the configuration session.
pub struct ControlTransfer<'a> {
    pub request_type: u8,
    pub request: u8,
    pub value: u16,
    pub index: u16,
    pub buf: &'a Vec<u8>,
    pub timeout_secs: u64,
}

/// The parameters of transfer step `pkt`, in the fixed order the firmware
/// expects: the main packet, then the buttons packet (both `wValue`
/// 0x0304), then the debounce packet (`wValue` 0x0305) — every transfer a
/// class interface SET_REPORT request (0x21/0x09) to interface 1 with a
/// five-second timeout.
pub fn transfer_args<'a>(
    pkt: usize,
    main_packet: &'a Vec<u8>,
    buttons_packet: &'a Vec<u8>,
    debounce_packet: &'a Vec<u8>,
) -> (r: ControlTransfer<'a>)
    requires
        pkt < 3,
    ensures
        r.request_type == 0x21,
        r.request == 0x09,
        r.index == 0x1,
        r.timeout_secs == 5,
        pkt == 0 ==> r.buf@ == main_packet@ && r.value == 0x0304,
        pkt == 1 ==> r.buf@ == buttons_packet@ && r.value == 0x0304,
        pkt == 2 ==> r.buf@ == debounce_packet@ && r.value == 0x0305,
{
    let (buf, value): (&Vec<u8>, u16) = if pkt == 0 {
        (main_packet, 0x0304)
    } else if pkt == 1 {
        (buttons_packet, 0x0304)
    } else {
        (debounce_packet, 0x0305)
    };
    ControlTransfer { request_type: 0x21, request: 0x09, value, index: 0x1, buf, timeout_secs: 5 }
}

/// Runs the verified session guard over the opened device: claims
/// interfaces 0 and 1 (detaching kernel drivers where bound), sends the
/// three packets as control transfers in the fixed order given by
/// [`transfer_args`], and releases every claimed interface — reattaching
/// detached drivers — on every exit path, success or failure.
///
/// The final guard state comes back as a ghost value: it is a finished
/// machine whose invariant holds, so [`crate::session::lemma_guard_releases_all`]
/// yields the release guarantee, and the result is `Ok` exactly when no
/// step of the session failed.
fn run_session(
    handle: &UsbHandle,
    main_packet: &Vec<u8>,
    buttons_packet: &Vec<u8>,
    debounce_packet: &Vec<u8>,
) -> (r: (Result<(), ApplyError>, Ghost<SessionGuard>))
    ensures
        r.1@.inv(),
        r.1@.phase is Finished,
        r.1@.interfaces@ == seq![0u8, 1u8],
        r.1@.packet_count == 3,
        r.0 is Ok <==> !r.1@.failed,
        r.0 is Err ==> r.0 matches Err(ApplyError::Session),
{
    let mut interfaces: Vec<u8> = Vec::new();
    interfaces.push(0);
    interfaces.push(1);
    proof {
        assert(interfaces@ =~= seq![0u8, 1u8]);
    }
    let supports_detach = rusb::supports_detach_kernel_driver();
    let (mut guard, mut cmd) = begin_session(interfaces, supports_detach, 3);
    loop
        invariant
            guard.inv(),
            guard.interfaces@ == seq![0u8, 1u8],
            guard.packet_count == 3,
            (cmd is Finish) <==> (guard.phase is Finished),
            cmd matches SessionCommand::Finish(ok) ==> (ok <==> !guard.failed),
            cmd matches SessionCommand::SendPacket(k) ==> k < 3,
        decreases guard.measure(),
    {
        let event: SessionEvent = match cmd {
            SessionCommand::Finish(ok) => {
                if ok {
                    return (Ok(()), Ghost(guard));
                } else {
                    return (Err(ApplyError::Session), Ghost(guard));
                }
            },
            SessionCommand::QueryDriver(iface) => {
                match kernel_driver_active(handle, iface) {
                    Ok(active) => SessionEvent::DriverStatus(active),
                    Err(_) => SessionEvent::Failed,
                }
            },
            SessionCommand::DetachDriver(iface) => {
                match detach_kernel_driver(handle, iface) {
                    Ok(_) => SessionEvent::Done,
                    Err(_) => SessionEvent::Failed,
                }
            },
            SessionCommand::ClaimInterface(iface) => {
                match claim_interface(handle, iface) {
                    Ok(_) => SessionEvent::Done,
                    Err(_) => SessionEvent::Failed,
                }
            },
            SessionCommand::SendPacket(pkt) => {
                let args = transfer_args(pkt, main_packet, buttons_packet, debounce_packet);
                match write_control(
                    handle,
                    args.request_type,
                    args.request,
                    args.value,
                    args.index,
                    args.buf.as_slice(),
                    args.timeout_secs,
                ) {
                    Ok(_) => SessionEvent::Done,
                    Err(_) => SessionEvent::Failed,
                }
            },
            SessionCommand::ReleaseInterface(iface) => {
                // best effort: a failed release still moves the session on,
                // though the guard records the failure
                match release_interface(handle, iface) {
                    Ok(_) => SessionEvent::Done,
                    Err(_) => SessionEvent::Failed,
                }
            },
            SessionCommand::AttachDriver(iface) => {
                match attach_kernel_driver(handle, iface) {
                    Ok(_) => SessionEvent::Done,
                    Err(_) => SessionEvent::Failed,
                }
            },
        };
        let (next_guard, next_cmd) = session_step(guard, event);
        guard = next_guard;
        cmd = next_cmd;
    }
}

/// Applies the configuration to a connected supported device: locates it,
/// encodes the three packets, and sends them under the interface session
/// guard.
///
/// The caller must have established the configuration invariant — at least
/// one DPI slot enabled and the selected slot among them.
///
/// The second component is the final session guard, as a ghost value: it
/// is `Some` exactly when a session ran (the device was found and opened),
/// and then it is a finished machine over interfaces 0 and 1 and three
/// packets whose invariant holds — so by
/// [`crate::session::lemma_guard_releases_all`] every interface claimed
/// during the session had a release issued, and every detached kernel
/// driver a reattach, on the success path and on every failure path alike.
pub fn apply_config(config: &Config) -> (r: (Result<(), ApplyError>, Ghost<Option<SessionGuard>>))
    requires
        config.valid(),
    ensures
        r.1@ is Some <==> (r.0 is Ok || r.0 matches Err(ApplyError::Session)),
        r.1@ matches Some(g) ==> {
            &&& g.inv()
            &&& g.phase is Finished
            &&& g.interfaces@ == seq![0u8, 1u8]
            &&& g.packet_count == 3
            &&& (r.0 is Ok <==> !g.failed)
        },
{
    let devices = match list_devices() {
        Ok(d) => d,
        Err(_) => {
            return (Err(ApplyError::Enumeration), Ghost(None));
        },
    };
    let ids = device_ids(&devices);
    let idx = match find_target_index(&ids) {
        Some(i) => i,
        None => {
            return (Err(ApplyError::DeviceNotFound), Ghost(None));
        },
    };
    let main_packet = build_main_packet(config);
    let buttons_packet = build_buttons_packet(config);
    let debounce_packet = build_debounce_packet(config);
    let handle = match open_device(&devices[idx].0) {
        Ok(h) => h,
        Err(_) => {
            return (Err(ApplyError::Open), Ghost(None));
        },
    };
    let (result, guard) = run_session(&handle, &main_packet, &buttons_packet, &debounce_packet);
    (result, Ghost(Some(guard@)))
}

} // verus!
