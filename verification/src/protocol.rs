//! Vocabulary of the DFU 1.1 class: class codes, request codes, device
//! capabilities, status codes and the host-visible state.

use vstd::prelude::*;

verus! {

/// Interface class code of Device Firmware Upgrade.
pub const USB_CLASS_DFU: u8 = 0xFE;

/// Interface subclass code of Device Firmware Upgrade.
pub const USB_SUB_CLASS_DFU: u8 = 0x01;

/// Interface protocol of the runtime variant.
pub const USB_DFU_RUNTIME_PROTOCOL: u8 = 0x01;

/// Interface protocol of the DFU mode variant.
pub const USB_DFU_MODE_PROTOCOL: u8 = 0x02;

/// Descriptor type of the DFU functional descriptor.
pub const DFU_FUNCTIONAL: u8 = 0x21;

/// `bcdDFUVersion` advertised in the functional descriptor.
pub const DFU_VERSION: u16 = 0x0100;

/// What a device is able to do, fixed at build time and advertised in the
/// functional descriptor.
pub trait Capabilities {
    /// If true, the device generates a detach-attach sequence on its own upon receipt of a detach
    /// request. Otherwise the device waits for a USB reset until a time out expires.
    const WILL_DETACH: bool;

    /// If true, the device is able to handle other DFU task after a download has completed.
    /// Otherwise the device expects a USB reset.
    const IS_MANIFESTATION_TOLERANT: bool;

    /// True if the device can send its current firmware to the host.
    const CAN_UPLOAD: bool;

    /// True if the device can receive a firmware from the host.
    const CAN_DOWNLOAD: bool;

    /// Time, in milliseconds, that the device will wait after receipt of the detach request. If
    /// this time elapses without a USB reset, then the device will terminate the reconfiguration
    /// phase and revert back to normal operation.
    const DETACH_TIMEOUT: u16;

    /// Maximum number of bytes the device can accept per control-write transaction.
    const TRANSFER_SIZE: u16;
}

/// Codes of the class requests (`bRequest`).
pub struct Request;

impl Request {
    pub const DFU_DETACH: u8 = 0;

    pub const DFU_DNLOAD: u8 = 1;

    pub const DFU_UPLOAD: u8 = 2;

    pub const DFU_GETSTATUS: u8 = 3;

    pub const DFU_CLRSTATUS: u8 = 4;

    pub const DFU_GETSTATE: u8 = 5;

    pub const DFU_ABORT: u8 = 6;
}

/// Type field of `bmRequestType`.
#[derive(Debug, Clone, Copy, PartialEq, Eq, Structural)]
pub enum RequestType {
    Standard,
    Class,
    Vendor,
    Reserved,
}

/// Recipient field of `bmRequestType`.
#[derive(Debug, Clone, Copy, PartialEq, Eq, Structural)]
pub enum Recipient {
    Device,
    Interface,
    Endpoint,
    Other,
    Reserved,
}

/// A decoded SETUP packet.
#[derive(Debug, Clone, Copy, PartialEq, Eq, Structural)]
pub struct ControlRequest {
    pub request_type: RequestType,
    pub recipient: Recipient,
    /// `bRequest`
    pub request: u8,
    /// `wValue`
    pub value: u16,
    /// `wIndex`
    pub index: u16,
    /// `wLength`: for OUT transfers the length of the data stage, for IN
    /// transfers the most the host accepts.
    pub length: u16,
}

impl ControlRequest {
    /// A class request to the interface numbered `interface_number`.
    pub open spec fn is_for_interface(self, interface_number: u8) -> bool {
        &&& self.request_type == RequestType::Class
        &&& self.recipient == Recipient::Interface
        &&& self.index == interface_number
    }

    /// Whether this is a class request addressed to interface
    /// `interface_number`; the classes ignore all others.
    pub fn addressed_to(&self, interface_number: u8) -> (r: bool)
        ensures
            r == self.is_for_interface(interface_number),
    {
        self.request_type == RequestType::Class && self.recipient == Recipient::Interface
            && self.index == interface_number as u16
    }
}

/// What is done with a control IN transfer.
#[derive(Debug, PartialEq, Eq)]
pub enum InReply {
    /// The transfer is not for this interface and is left alone.
    Ignored,
    /// The endpoint is stalled.
    Rejected,
    /// The transfer is accepted with these bytes as its data stage.
    Data(Vec<u8>),
}

impl InReply {
    /// The transfer is accepted with `bytes`.
    pub open spec fn is_data(self, bytes: Seq<u8>) -> bool {
        self matches InReply::Data(data) && data@ == bytes
    }

    /// The number of bytes of the data stage; none if there is no data.
    pub open spec fn data_len(self) -> nat {
        match self {
            InReply::Data(data) => data@.len(),
            _ => 0,
        }
    }
}

/// What is done with a control OUT transfer.
#[derive(Debug, Clone, Copy, PartialEq, Eq, Structural)]
pub enum OutReply {
    /// The transfer is not for this interface and is left alone.
    Ignored,
    /// The endpoint is stalled.
    Rejected,
    /// The transfer is accepted.
    Accepted,
}

/// Status codes of DFU 1.1, table 6.1 (`bStatus` other than OK).
#[derive(Debug, Clone, Copy, PartialEq, Eq, Structural)]
pub enum Error {
    /// File is not targeted for use by this device.
    Target,
    /// File is for this device but fails some vendor-specific verification test.
    File,
    /// Device is unable to write memory.
    Write,
    /// Memory erase function failed
    Erase,
    /// Memory erase check failed.
    CheckErased,
    /// Program memory function failed.
    Programming,
    /// Programmed memory failed verification.
    Verify,
    /// Cannot program memory due to received address that is out of range.
    Address,
    /// Received DFU_DNLOAD with wLength = 0, but device does not think it has all of the data yet.
    NotDone,
    /// Device's firmware is corrupt. It cannot return to run-time (non-DFU) operations.
    Firmware,
    /// iString indicates a vendor-specific error.
    Vendor,
    /// Device detected unexpected USB reset signaling.
    UsbReset,
    /// Device detected unexpected power on reset.
    PowerOnReset,
    /// Something went wrong, but the device does not know what it was.
    Unknown,
    /// Device stalled an unexpected request.
    StalledPkt,
}

impl Error {
    /// The wire encoding of the status.
    pub open spec fn code(self) -> u8 {
        match self {
            Error::Target => 0x01,
            Error::File => 0x02,
            Error::Write => 0x03,
            Error::Erase => 0x04,
            Error::CheckErased => 0x05,
            Error::Programming => 0x06,
            Error::Verify => 0x07,
            Error::Address => 0x08,
            Error::NotDone => 0x09,
            Error::Firmware => 0x0A,
            Error::Vendor => 0x0B,
            Error::UsbReset => 0x0C,
            Error::PowerOnReset => 0x0D,
            Error::Unknown => 0x0E,
            Error::StalledPkt => 0x0F,
        }
    }
}

impl From<Error> for u8 {
    fn from(err: Error) -> (code: u8) {
        match err {
            Error::Target => 0x01,
            Error::File => 0x02,
            Error::Write => 0x03,
            Error::Erase => 0x04,
            Error::CheckErased => 0x05,
            Error::Programming => 0x06,
            Error::Verify => 0x07,
            Error::Address => 0x08,
            Error::NotDone => 0x09,
            Error::Firmware => 0x0A,
            Error::Vendor => 0x0B,
            Error::UsbReset => 0x0C,
            Error::PowerOnReset => 0x0D,
            Error::Unknown => 0x0E,
            Error::StalledPkt => 0x0F,
        }
    }
}

impl vstd::std_specs::convert::FromSpecImpl<Error> for u8 {
    open spec fn obeys_from_spec() -> bool {
        true
    }

    open spec fn from_spec(err: Error) -> u8 {
        err.code()
    }
}

/// The state of the device as the host sees it.
#[derive(Debug, Clone, Copy, PartialEq, Eq, Structural)]
pub enum State {
    AppIdle,
    /// Milliseconds left before the detach request lapses.
    AppDetach(u32),
    DfuIdle,
    DfuDnloadSync,
    /// Milliseconds left before the device looks at the download again.
    DfuDnloadBusy(u32),
    DfuDnloadIdle,
    DfuManifestSync,
    /// Milliseconds left before the device looks at the manifestation again.
    DfuManifest(u32),
    DfuManifestWaitReset,
    DfuUploadIdle,
    DfuError(Error),
}

impl State {
    /// The wire encoding of the state (DFU 1.1, section 6.1.2).
    pub open spec fn code(self) -> u8 {
        match self {
            State::AppIdle => 0,
            State::AppDetach(_) => 1,
            State::DfuIdle => 2,
            State::DfuDnloadSync => 3,
            State::DfuDnloadBusy(_) => 4,
            State::DfuDnloadIdle => 5,
            State::DfuManifestSync => 6,
            State::DfuManifest(_) => 7,
            State::DfuManifestWaitReset => 8,
            State::DfuUploadIdle => 9,
            State::DfuError(_) => 10,
        }
    }

    /// `bStatus` reported together with this state: the error's code in
    /// `DfuError`, OK (0) in every other state.
    pub open spec fn status_code(self) -> u8 {
        match self {
            State::DfuError(e) => e.code(),
            _ => 0,
        }
    }
}

impl From<State> for u8 {
    fn from(state: State) -> (code: u8) {
        match state {
            State::AppIdle => 0,
            State::AppDetach(_) => 1,
            State::DfuIdle => 2,
            State::DfuDnloadSync => 3,
            State::DfuDnloadBusy(_) => 4,
            State::DfuDnloadIdle => 5,
            State::DfuManifestSync => 6,
            State::DfuManifest(_) => 7,
            State::DfuManifestWaitReset => 8,
            State::DfuUploadIdle => 9,
            State::DfuError(_) => 10,
        }
    }
}

impl vstd::std_specs::convert::FromSpecImpl<State> for u8 {
    open spec fn obeys_from_spec() -> bool {
        true
    }

    open spec fn from_spec(state: State) -> u8 {
        state.code()
    }
}

/// The six bytes of a `GETSTATUS` reply: the status, the poll timeout in
/// three bytes, least significant first, the state, and no string.
pub open spec fn status_reply(state: State, poll_timeout: u32) -> Seq<u8> {
    seq![
        state.status_code(),
        (poll_timeout % 0x100) as u8,
        (poll_timeout / 0x100 % 0x100) as u8,
        (poll_timeout / 0x1_0000 % 0x100) as u8,
        state.code(),
        0u8,
    ]
}

/// The reply to `GETSTATUS` in `state`.
pub fn get_status_reply(state: State, poll_timeout: u32) -> (reply: Vec<u8>)
    ensures
        reply@ == status_reply(state, poll_timeout),
{
    let status: u8 = match state {
        State::DfuError(e) => u8::from(e),
        _ => 0,
    };
    let reply: Vec<u8> = vec![
        status,
        (poll_timeout % 0x100) as u8,
        (poll_timeout / 0x100 % 0x100) as u8,
        (poll_timeout / 0x1_0000 % 0x100) as u8,
        u8::from(state),
        0u8,
    ];
    assert(reply@ =~= status_reply(state, poll_timeout));
    reply
}

/// The reply to `GETSTATE` in `state`.
pub fn get_state_reply(state: State) -> (reply: Vec<u8>)
    ensures
        reply@ == seq![state.code()],
{
    let reply: Vec<u8> = vec![u8::from(state)];
    assert(reply@ =~= seq![state.code()]);
    reply
}

/// The seven bytes of the DFU functional descriptor that follow its header,
/// as a sequence: attributes, `wDetachTimeOut`, `wTransferSize` and
/// `bcdDFUVersion`, the three words little-endian.
pub open spec fn functional_descriptor_bytes(
    will_detach: bool,
    manifestation_tolerant: bool,
    can_upload: bool,
    can_download: bool,
    detach_timeout: u16,
    transfer_size: u16,
) -> Seq<u8> {
    seq![
        ((if will_detach { 8int } else { 0 }) + (if manifestation_tolerant { 4int } else { 0 })
            + (if can_upload { 2int } else { 0 }) + (if can_download { 1int } else { 0 })) as u8,
        (detach_timeout % 256) as u8,
        (detach_timeout / 256) as u8,
        (transfer_size % 256) as u8,
        (transfer_size / 256) as u8,
        (DFU_VERSION % 256) as u8,
        (DFU_VERSION / 256) as u8,
    ]
}

/// The body of the functional descriptor of a device with capabilities `H`.
pub fn functional_descriptor<H: Capabilities>() -> (descriptor: [u8; 7])
    ensures
        descriptor@ == functional_descriptor_bytes(
            H::WILL_DETACH,
            H::IS_MANIFESTATION_TOLERANT,
            H::CAN_UPLOAD,
            H::CAN_DOWNLOAD,
            H::DETACH_TIMEOUT,
            H::TRANSFER_SIZE,
        ),
{
    let attributes: u8 = (if H::WILL_DETACH { 8u8 } else { 0u8 })
        + (if H::IS_MANIFESTATION_TOLERANT { 4u8 } else { 0u8 })
        + (if H::CAN_UPLOAD { 2u8 } else { 0u8 })
        + (if H::CAN_DOWNLOAD { 1u8 } else { 0u8 });
    let descriptor: [u8; 7] = [
        attributes,
        (H::DETACH_TIMEOUT % 256) as u8,
        (H::DETACH_TIMEOUT / 256) as u8,
        (H::TRANSFER_SIZE % 256) as u8,
        (H::TRANSFER_SIZE / 256) as u8,
        (DFU_VERSION % 256) as u8,
        (DFU_VERSION / 256) as u8,
    ];
    assert(descriptor@ =~= functional_descriptor_bytes(
        H::WILL_DETACH,
        H::IS_MANIFESTATION_TOLERANT,
        H::CAN_UPLOAD,
        H::CAN_DOWNLOAD,
        H::DETACH_TIMEOUT,
        H::TRANSFER_SIZE,
    ));
    descriptor
}

} // verus!
