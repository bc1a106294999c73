use usbd_dfu::mode::{
    after_download, after_end_of_download, after_manifestation_check, after_tick,
    after_transfer_check, after_upload, after_validity_check, DFUModeClass, DeviceFirmwareUpgrade,
};
use usbd_dfu::protocol::{
    Capabilities, ControlRequest, Error, InReply, OutReply, Recipient, Request, RequestType, State,
};

/// A handler that answers what it is told to.
struct Scripted {
    valid: bool,
    transfer: Result<bool, Error>,
    manifestation: Result<bool, Error>,
    poll: Result<(), Error>,
    upload: Result<usize, Error>,
    download: Result<(), Error>,
    downloads: Vec<(u16, Vec<u8>)>,
    uploads: Vec<(u16, usize)>,
    polls: usize,
}

impl Scripted {
    fn new() -> Self {
        Scripted {
            valid: true,
            transfer: Ok(true),
            manifestation: Ok(false),
            poll: Ok(()),
            upload: Ok(0),
            download: Ok(()),
            downloads: Vec::new(),
            uploads: Vec::new(),
            polls: 0,
        }
    }
}

impl Capabilities for Scripted {
    const WILL_DETACH: bool = false;
    const IS_MANIFESTATION_TOLERANT: bool = true;
    const CAN_UPLOAD: bool = true;
    const CAN_DOWNLOAD: bool = true;
    const DETACH_TIMEOUT: u16 = 50;
    const TRANSFER_SIZE: u16 = 128;
}

impl DeviceFirmwareUpgrade for Scripted {
    const POLL_TIMEOUT: u32 = 10;

    fn is_firmware_valid(&mut self) -> bool {
        self.valid
    }

    fn is_transfer_complete(&mut self) -> Result<bool, Error> {
        self.transfer
    }

    fn is_manifestation_in_progress(&mut self) -> Result<bool, Error> {
        self.manifestation
    }

    fn poll(&mut self) -> Result<(), Error> {
        self.polls += 1;
        self.poll
    }

    fn upload(&mut self, block_number: u16, buf: &mut [u8]) -> Result<usize, Error> {
        self.uploads.push((block_number, buf.len()));
        match self.upload {
            Ok(n) => {
                let n = n.min(buf.len());
                for b in buf[..n].iter_mut() {
                    *b = 0x5A;
                }
                Ok(n)
            }
            Err(e) => Err(e),
        }
    }

    fn download(&mut self, block_number: u16, buf: &[u8]) -> Result<(), Error> {
        self.downloads.push((block_number, buf.to_vec()));
        self.download
    }
}

fn class_request(request: u8, value: u16, length: u16) -> ControlRequest {
    ControlRequest {
        request_type: RequestType::Class,
        recipient: Recipient::Interface,
        request,
        value,
        index: 0,
        length,
    }
}

#[test]
fn starts_idle_with_a_valid_firmware() {
    let class = DFUModeClass::new(0, Scripted::new());
    assert_eq!(class.state(), State::DfuIdle);
}

#[test]
fn starts_in_error_without_a_valid_firmware() {
    let mut handler = Scripted::new();
    handler.valid = false;
    let class = DFUModeClass::new(0, handler);
    assert_eq!(class.state(), State::DfuError(Error::Firmware));
}

#[test]
fn upload_longer_than_a_transfer_stalls() {
    let mut class = DFUModeClass::new(0, Scripted::new());
    let reply = class.control_in(&class_request(Request::DFU_UPLOAD, 0, 129));
    assert_eq!(reply, InReply::Rejected);
    assert_eq!(class.state(), State::DfuError(Error::StalledPkt));
    let reply = class.control_in(&class_request(Request::DFU_GETSTATE, 0, 1));
    assert_eq!(reply, InReply::Data(vec![10]));
    let reply = class.control_in(&class_request(Request::DFU_GETSTATUS, 0, 6));
    assert_eq!(reply, InReply::Data(vec![0x0F, 1, 0, 0, 10, 0]));
    assert!(class.handler_ref().uploads.is_empty());
}

#[test]
fn clear_status_leaves_the_error_state() {
    let mut class = DFUModeClass::new(0, Scripted::new());
    class.control_in(&class_request(Request::DFU_UPLOAD, 0, 129));
    let reply = class.control_out(&class_request(Request::DFU_CLRSTATUS, 0, 0), &[]);
    assert_eq!(reply, OutReply::Accepted);
    assert_eq!(class.state(), State::DfuIdle);
}

/// A handler for a device that is not manifestation tolerant and can
/// neither upload nor download.
struct Limited {
    manifestation: Result<bool, Error>,
    polls: usize,
    calls: usize,
}

impl Capabilities for Limited {
    const WILL_DETACH: bool = false;
    const IS_MANIFESTATION_TOLERANT: bool = false;
    const CAN_UPLOAD: bool = false;
    const CAN_DOWNLOAD: bool = false;
    const DETACH_TIMEOUT: u16 = 50;
    const TRANSFER_SIZE: u16 = 64;
}

impl DeviceFirmwareUpgrade for Limited {
    const POLL_TIMEOUT: u32 = 0x0001_0203;

    fn is_firmware_valid(&mut self) -> bool {
        true
    }

    fn is_transfer_complete(&mut self) -> Result<bool, Error> {
        self.calls += 1;
        Ok(true)
    }

    fn is_manifestation_in_progress(&mut self) -> Result<bool, Error> {
        self.calls += 1;
        self.manifestation
    }

    fn poll(&mut self) -> Result<(), Error> {
        self.polls += 1;
        Ok(())
    }

    fn upload(&mut self, _block_number: u16, _buf: &mut [u8]) -> Result<usize, Error> {
        self.calls += 1;
        Ok(0)
    }

    fn download(&mut self, _block_number: u16, _buf: &[u8]) -> Result<(), Error> {
        self.calls += 1;
        Ok(())
    }
}

fn get_status() -> ControlRequest {
    class_request(Request::DFU_GETSTATUS, 0, 6)
}

fn get_state() -> ControlRequest {
    class_request(Request::DFU_GETSTATE, 0, 1)
}

fn dnload(block: u16, length: u16) -> ControlRequest {
    class_request(Request::DFU_DNLOAD, block, length)
}

fn upload(block: u16, length: u16) -> ControlRequest {
    class_request(Request::DFU_UPLOAD, block, length)
}

/// A class that is in `DfuDnloadIdle` after one block.
fn class_after_a_block(handler: Scripted) -> DFUModeClass<Scripted> {
    let mut class = DFUModeClass::new(0, handler);
    assert_eq!(class.control_out(&dnload(0, 4), &[1, 2, 3, 4]), OutReply::Accepted);
    assert_eq!(class.state(), State::DfuDnloadSync);
    assert_eq!(class.control_in(&get_status()), InReply::Data(vec![0, 10, 0, 0, 5, 0]));
    assert_eq!(class.state(), State::DfuDnloadIdle);
    class
}

/// A class that is in `DfuManifestSync`.
fn class_at_the_end_of_a_download(handler: Scripted) -> DFUModeClass<Scripted> {
    let mut class = class_after_a_block(handler);
    assert_eq!(class.control_out(&dnload(1, 0), &[]), OutReply::Accepted);
    assert_eq!(class.state(), State::DfuManifestSync);
    class
}

#[test]
fn requests_to_others_are_ignored() {
    let mut class = DFUModeClass::new(4, Scripted::new());
    let mut other = get_status();
    other.index = 5;
    assert_eq!(class.control_in(&other), InReply::Ignored);
    let mut standard = upload(0, 300);
    standard.index = 4;
    standard.request_type = RequestType::Standard;
    assert_eq!(class.control_in(&standard), InReply::Ignored);
    let mut device = dnload(0, 0);
    device.index = 4;
    device.recipient = Recipient::Device;
    assert_eq!(class.control_out(&device, &[]), OutReply::Ignored);
    let mut vendor = class_request(Request::DFU_DETACH, 0, 0);
    vendor.index = 4;
    vendor.request_type = RequestType::Vendor;
    assert_eq!(class.control_out(&vendor, &[]), OutReply::Ignored);
    assert_eq!(class.state(), State::DfuIdle);
    let mut own = get_state();
    own.index = 4;
    assert_eq!(class.control_in(&own), InReply::Data(vec![2]));
}

#[test]
fn idle_answers_status_and_state() {
    let mut class = DFUModeClass::new(0, Scripted::new());
    assert_eq!(class.control_in(&get_status()), InReply::Data(vec![0, 1, 0, 0, 2, 0]));
    assert_eq!(class.control_in(&get_state()), InReply::Data(vec![2]));
    assert_eq!(class.state(), State::DfuIdle);
}

#[test]
fn idle_stalls_what_it_does_not_know() {
    for request in [
        Request::DFU_DETACH,
        Request::DFU_DNLOAD,
        Request::DFU_CLRSTATUS,
        Request::DFU_ABORT,
        7,
        255,
    ] {
        let mut class = DFUModeClass::new(0, Scripted::new());
        assert_eq!(class.control_in(&class_request(request, 0, 0)), InReply::Rejected);
        assert_eq!(class.state(), State::DfuError(Error::StalledPkt));
    }
    for request in [
        Request::DFU_DETACH,
        Request::DFU_UPLOAD,
        Request::DFU_GETSTATUS,
        Request::DFU_CLRSTATUS,
        Request::DFU_GETSTATE,
        7,
        255,
    ] {
        let mut class = DFUModeClass::new(0, Scripted::new());
        assert_eq!(class.control_out(&class_request(request, 0, 0), &[]), OutReply::Rejected);
        assert_eq!(class.state(), State::DfuError(Error::StalledPkt));
    }
}

#[test]
fn idle_accepts_abort() {
    let mut class = DFUModeClass::new(0, Scripted::new());
    assert_eq!(
        class.control_out(&class_request(Request::DFU_ABORT, 0, 0), &[]),
        OutReply::Accepted,
    );
    assert_eq!(class.state(), State::DfuIdle);
}

#[test]
fn a_block_goes_to_the_handler() {
    let mut class = DFUModeClass::new(0, Scripted::new());
    assert_eq!(class.control_out(&dnload(7, 3), &[9, 8, 7]), OutReply::Accepted);
    assert_eq!(class.state(), State::DfuDnloadSync);
    assert_eq!(class.handler_ref().downloads, vec![(7, vec![9, 8, 7])]);
}

#[test]
fn a_block_of_a_whole_transfer_goes_to_the_handler() {
    let mut class = DFUModeClass::new(0, Scripted::new());
    assert_eq!(class.control_out(&dnload(0, 128), &[0x11; 128]), OutReply::Accepted);
    assert_eq!(class.state(), State::DfuDnloadSync);
    assert_eq!(class.handler_ref().downloads, vec![(0, vec![0x11; 128])]);
}

#[test]
fn a_block_longer_than_a_transfer_is_stalled() {
    let mut class = DFUModeClass::new(0, Scripted::new());
    assert_eq!(class.control_out(&dnload(0, 129), &[0x11; 129]), OutReply::Rejected);
    assert_eq!(class.state(), State::DfuError(Error::StalledPkt));
    assert!(class.handler_ref().downloads.is_empty());
    let mut class = class_after_a_block(Scripted::new());
    assert_eq!(class.control_out(&dnload(1, 129), &[0x11; 129]), OutReply::Rejected);
    assert_eq!(class.state(), State::DfuError(Error::StalledPkt));
    assert_eq!(class.handler_ref().downloads.len(), 1);
}

#[test]
fn an_empty_block_in_idle_is_stalled() {
    let mut class = DFUModeClass::new(0, Scripted::new());
    assert_eq!(class.control_out(&dnload(0, 0), &[]), OutReply::Rejected);
    assert_eq!(class.state(), State::DfuError(Error::StalledPkt));
    assert!(class.handler_ref().downloads.is_empty());
}

#[test]
fn a_block_that_the_handler_refuses_is_accepted_and_reported() {
    let mut handler = Scripted::new();
    handler.download = Err(Error::Address);
    let mut class = DFUModeClass::new(0, handler);
    assert_eq!(class.control_out(&dnload(0, 2), &[1, 2]), OutReply::Accepted);
    assert_eq!(class.state(), State::DfuError(Error::Address));
    assert_eq!(class.control_in(&get_status()), InReply::Data(vec![0x08, 1, 0, 0, 10, 0]));
    assert_eq!(
        class.control_out(&class_request(Request::DFU_CLRSTATUS, 0, 0), &[]),
        OutReply::Accepted,
    );
    assert_eq!(class.state(), State::DfuIdle);
}

#[test]
fn a_device_that_cannot_download_stalls_a_block() {
    let mut class = DFUModeClass::new(0, Limited { manifestation: Ok(false), polls: 0, calls: 0 });
    assert_eq!(class.control_out(&dnload(0, 2), &[1, 2]), OutReply::Rejected);
    assert_eq!(class.state(), State::DfuError(Error::StalledPkt));
    assert_eq!(class.handler_ref().calls, 0);
}

#[test]
fn a_device_that_cannot_upload_stalls_an_upload() {
    let mut class = DFUModeClass::new(0, Limited { manifestation: Ok(false), polls: 0, calls: 0 });
    assert_eq!(class.control_in(&upload(0, 16)), InReply::Rejected);
    assert_eq!(class.state(), State::DfuError(Error::StalledPkt));
    assert_eq!(class.handler_ref().calls, 0);
}

#[test]
fn download_sync_reports_a_block_that_is_written() {
    let mut class = DFUModeClass::new(0, Scripted::new());
    class.control_out(&dnload(0, 1), &[1]);
    assert_eq!(class.control_in(&get_state()), InReply::Data(vec![3]));
    assert_eq!(class.state(), State::DfuDnloadSync);
    assert_eq!(class.control_in(&get_status()), InReply::Data(vec![0, 10, 0, 0, 5, 0]));
    assert_eq!(class.state(), State::DfuDnloadIdle);
}

#[test]
fn download_sync_reports_a_block_that_is_being_written() {
    let mut handler = Scripted::new();
    handler.transfer = Ok(false);
    let mut class = DFUModeClass::new(0, handler);
    class.control_out(&dnload(0, 1), &[1]);
    assert_eq!(class.control_in(&get_status()), InReply::Data(vec![0, 10, 0, 0, 4, 0]));
    assert_eq!(class.state(), State::DfuDnloadBusy(10));
}

#[test]
fn download_sync_reports_an_error() {
    let mut handler = Scripted::new();
    handler.transfer = Err(Error::Verify);
    let mut class = DFUModeClass::new(0, handler);
    class.control_out(&dnload(0, 1), &[1]);
    assert_eq!(class.control_in(&get_status()), InReply::Data(vec![0x07, 10, 0, 0, 10, 0]));
    assert_eq!(class.state(), State::DfuError(Error::Verify));
}

#[test]
fn download_sync_stalls_anything_else() {
    let mut class = DFUModeClass::new(0, Scripted::new());
    class.control_out(&dnload(0, 1), &[1]);
    assert_eq!(class.control_in(&upload(0, 8)), InReply::Rejected);
    assert_eq!(class.state(), State::DfuError(Error::StalledPkt));
    let mut class = DFUModeClass::new(0, Scripted::new());
    class.control_out(&dnload(0, 1), &[1]);
    assert_eq!(class.control_out(&dnload(1, 1), &[1]), OutReply::Rejected);
    assert_eq!(class.state(), State::DfuError(Error::StalledPkt));
    assert_eq!(class.handler_ref().downloads.len(), 1);
}

#[test]
fn download_busy_counts_the_time_down_and_lets_the_handler_work() {
    let mut handler = Scripted::new();
    handler.transfer = Ok(false);
    let mut class = DFUModeClass::new(0, handler);
    class.control_out(&dnload(0, 1), &[1]);
    class.control_in(&get_status());
    assert_eq!(class.state(), State::DfuDnloadBusy(10));
    class.poll(1);
    assert_eq!(class.state(), State::DfuDnloadBusy(9));
    class.poll(0);
    assert_eq!(class.state(), State::DfuDnloadBusy(9));
    class.poll(8);
    assert_eq!(class.state(), State::DfuDnloadBusy(1));
    class.poll(1);
    assert_eq!(class.state(), State::DfuDnloadSync);
    assert_eq!(class.handler_ref().polls, 4);
    class.poll(1);
    assert_eq!(class.state(), State::DfuDnloadSync);
    assert_eq!(class.handler_ref().polls, 4);
}

#[test]
fn download_busy_ends_when_more_time_passed_than_was_left() {
    let mut handler = Scripted::new();
    handler.transfer = Ok(false);
    let mut class = DFUModeClass::new(0, handler);
    class.control_out(&dnload(0, 1), &[1]);
    class.control_in(&get_status());
    class.poll(u32::MAX);
    assert_eq!(class.state(), State::DfuDnloadSync);
}

#[test]
fn download_busy_reports_an_error_of_the_handler() {
    let mut handler = Scripted::new();
    handler.transfer = Ok(false);
    handler.poll = Err(Error::Programming);
    let mut class = DFUModeClass::new(0, handler);
    class.control_out(&dnload(0, 1), &[1]);
    class.control_in(&get_status());
    class.poll(1);
    assert_eq!(class.state(), State::DfuError(Error::Programming));
    assert_eq!(class.control_in(&get_status()), InReply::Data(vec![0x06, 1, 0, 0, 10, 0]));
}

#[test]
fn download_busy_stalls_every_request() {
    let mut handler = Scripted::new();
    handler.transfer = Ok(false);
    let mut class = DFUModeClass::new(0, handler);
    class.control_out(&dnload(0, 1), &[1]);
    class.control_in(&get_status());
    assert_eq!(class.control_in(&get_status()), InReply::Rejected);
    assert_eq!(class.state(), State::DfuError(Error::StalledPkt));
}

#[test]
fn download_idle_answers_status_and_state() {
    let mut class = class_after_a_block(Scripted::new());
    assert_eq!(class.control_in(&get_status()), InReply::Data(vec![0, 10, 0, 0, 5, 0]));
    assert_eq!(class.control_in(&get_state()), InReply::Data(vec![5]));
    assert_eq!(class.state(), State::DfuDnloadIdle);
}

#[test]
fn download_idle_takes_the_next_block() {
    let mut class = class_after_a_block(Scripted::new());
    assert_eq!(class.control_out(&dnload(1, 2), &[5, 6]), OutReply::Accepted);
    assert_eq!(class.state(), State::DfuDnloadSync);
    assert_eq!(class.handler_ref().downloads, vec![(0, vec![1, 2, 3, 4]), (1, vec![5, 6])]);
}

#[test]
fn an_empty_block_ends_the_download() {
    let mut class = class_after_a_block(Scripted::new());
    assert_eq!(class.control_out(&dnload(1, 0), &[]), OutReply::Accepted);
    assert_eq!(class.state(), State::DfuManifestSync);
    assert_eq!(class.handler_ref().downloads.len(), 1);
}

#[test]
fn an_empty_block_is_stalled_while_the_block_before_is_written() {
    // a handler that changes its mind after the status was read
    let mut undecided = DFUModeClass::new(0, Flipping { answers: vec![Ok(true), Ok(false)] });
    assert_eq!(undecided.control_out(&dnload(0, 1), &[1]), OutReply::Accepted);
    assert_eq!(undecided.control_in(&get_status()), InReply::Data(vec![0, 10, 0, 0, 5, 0]));
    assert_eq!(undecided.control_out(&dnload(1, 0), &[]), OutReply::Rejected);
    assert_eq!(undecided.state(), State::DfuError(Error::StalledPkt));
}

#[test]
fn an_empty_block_is_stalled_when_the_handler_reports_an_error() {
    let mut class = DFUModeClass::new(0, Flipping { answers: vec![Ok(true), Err(Error::Verify)] });
    assert_eq!(class.control_out(&dnload(0, 1), &[1]), OutReply::Accepted);
    assert_eq!(class.control_in(&get_status()), InReply::Data(vec![0, 10, 0, 0, 5, 0]));
    assert_eq!(class.control_out(&dnload(1, 0), &[]), OutReply::Rejected);
    assert_eq!(class.state(), State::DfuError(Error::StalledPkt));
}

/// A handler whose answers to `is_transfer_complete` are given one by one.
struct Flipping {
    answers: Vec<Result<bool, Error>>,
}

impl Capabilities for Flipping {
    const WILL_DETACH: bool = false;
    const IS_MANIFESTATION_TOLERANT: bool = true;
    const CAN_UPLOAD: bool = true;
    const CAN_DOWNLOAD: bool = true;
    const DETACH_TIMEOUT: u16 = 50;
    const TRANSFER_SIZE: u16 = 128;
}

impl DeviceFirmwareUpgrade for Flipping {
    const POLL_TIMEOUT: u32 = 10;

    fn is_firmware_valid(&mut self) -> bool {
        true
    }

    fn is_transfer_complete(&mut self) -> Result<bool, Error> {
        self.answers.remove(0)
    }

    fn is_manifestation_in_progress(&mut self) -> Result<bool, Error> {
        Ok(false)
    }

    fn poll(&mut self) -> Result<(), Error> {
        Ok(())
    }

    fn upload(&mut self, _block_number: u16, _buf: &mut [u8]) -> Result<usize, Error> {
        Ok(0)
    }

    fn download(&mut self, _block_number: u16, _buf: &[u8]) -> Result<(), Error> {
        Ok(())
    }
}

#[test]
fn download_idle_stalls_abort_and_other_requests() {
    for request in [
        Request::DFU_DETACH,
        Request::DFU_UPLOAD,
        Request::DFU_GETSTATUS,
        Request::DFU_CLRSTATUS,
        Request::DFU_GETSTATE,
        Request::DFU_ABORT,
        9,
    ] {
        let mut class = class_after_a_block(Scripted::new());
        assert_eq!(class.control_out(&class_request(request, 0, 0), &[]), OutReply::Rejected);
        assert_eq!(class.state(), State::DfuError(Error::StalledPkt));
    }
    let mut class = class_after_a_block(Scripted::new());
    assert_eq!(class.control_in(&upload(0, 8)), InReply::Rejected);
    assert_eq!(class.state(), State::DfuError(Error::StalledPkt));
}

#[test]
fn manifest_sync_starts_the_manifestation() {
    let mut handler = Scripted::new();
    handler.manifestation = Ok(true);
    let mut class = class_at_the_end_of_a_download(handler);
    assert_eq!(class.control_in(&get_state()), InReply::Data(vec![6]));
    assert_eq!(class.control_in(&get_status()), InReply::Data(vec![0, 10, 0, 0, 7, 0]));
    assert_eq!(class.state(), State::DfuManifest(10));
}

#[test]
fn manifest_sync_of_a_tolerant_device_returns_to_idle() {
    let mut class = class_at_the_end_of_a_download(Scripted::new());
    assert_eq!(class.control_in(&get_status()), InReply::Data(vec![0, 10, 0, 0, 2, 0]));
    assert_eq!(class.state(), State::DfuIdle);
}

#[test]
fn manifest_sync_reports_an_error() {
    let mut handler = Scripted::new();
    handler.manifestation = Err(Error::Write);
    let mut class = class_at_the_end_of_a_download(handler);
    assert_eq!(class.control_in(&get_status()), InReply::Data(vec![0x03, 10, 0, 0, 10, 0]));
    assert_eq!(class.state(), State::DfuError(Error::Write));
}

#[test]
fn manifest_sync_stalls_anything_else() {
    let mut class = class_at_the_end_of_a_download(Scripted::new());
    assert_eq!(class.control_in(&upload(0, 8)), InReply::Rejected);
    assert_eq!(class.state(), State::DfuError(Error::StalledPkt));
    let mut class = class_at_the_end_of_a_download(Scripted::new());
    assert_eq!(
        class.control_out(&class_request(Request::DFU_ABORT, 0, 0), &[]),
        OutReply::Rejected,
    );
    assert_eq!(class.state(), State::DfuError(Error::StalledPkt));
}

#[test]
fn manifest_counts_the_time_down_and_returns_to_manifest_sync() {
    let mut handler = Scripted::new();
    handler.manifestation = Ok(true);
    let mut class = class_at_the_end_of_a_download(handler);
    class.control_in(&get_status());
    class.poll(4);
    assert_eq!(class.state(), State::DfuManifest(6));
    class.poll(5);
    assert_eq!(class.state(), State::DfuManifest(1));
    class.poll(1);
    assert_eq!(class.state(), State::DfuManifestSync);
    assert_eq!(class.handler_ref().polls, 3);
}

#[test]
fn manifest_reports_an_error_of_the_handler() {
    let mut handler = Scripted::new();
    handler.manifestation = Ok(true);
    handler.poll = Err(Error::Erase);
    let mut class = class_at_the_end_of_a_download(handler);
    class.control_in(&get_status());
    class.poll(1);
    assert_eq!(class.state(), State::DfuError(Error::Erase));
}

#[test]
fn manifest_stalls_every_request() {
    let mut handler = Scripted::new();
    handler.manifestation = Ok(true);
    let mut class = class_at_the_end_of_a_download(handler);
    class.control_in(&get_status());
    assert_eq!(class.control_in(&get_state()), InReply::Rejected);
    assert_eq!(class.state(), State::DfuError(Error::StalledPkt));
}

/// A class on a device that is not manifestation tolerant, in
/// `DfuManifestSync`.
fn limited_at_the_end_of_a_download(
    manifestation: Result<bool, Error>,
) -> DFUModeClass<LimitedDownload> {
    let mut class = DFUModeClass::new(0, LimitedDownload { manifestation });
    assert_eq!(class.control_out(&dnload(0, 4), &[1, 2, 3, 4]), OutReply::Accepted);
    assert_eq!(class.control_in(&get_status()), InReply::Data(vec![0, 0x03, 0x02, 0x01, 5, 0]));
    assert_eq!(class.control_out(&dnload(1, 0), &[]), OutReply::Accepted);
    assert_eq!(class.state(), State::DfuManifestSync);
    class
}

/// A handler for a device that is not manifestation tolerant.
struct LimitedDownload {
    manifestation: Result<bool, Error>,
}

impl Capabilities for LimitedDownload {
    const WILL_DETACH: bool = false;
    const IS_MANIFESTATION_TOLERANT: bool = false;
    const CAN_UPLOAD: bool = true;
    const CAN_DOWNLOAD: bool = true;
    const DETACH_TIMEOUT: u16 = 50;
    const TRANSFER_SIZE: u16 = 64;
}

impl DeviceFirmwareUpgrade for LimitedDownload {
    const POLL_TIMEOUT: u32 = 0x0001_0203;

    fn is_firmware_valid(&mut self) -> bool {
        true
    }

    fn is_transfer_complete(&mut self) -> Result<bool, Error> {
        Ok(true)
    }

    fn is_manifestation_in_progress(&mut self) -> Result<bool, Error> {
        self.manifestation
    }

    fn poll(&mut self) -> Result<(), Error> {
        Ok(())
    }

    fn upload(&mut self, _block_number: u16, buf: &mut [u8]) -> Result<usize, Error> {
        Ok(buf.len())
    }

    fn download(&mut self, _block_number: u16, _buf: &[u8]) -> Result<(), Error> {
        Ok(())
    }
}

#[test]
fn manifest_of_a_device_that_is_not_tolerant_waits_for_a_reset() {
    let mut class = limited_at_the_end_of_a_download(Ok(true));
    assert_eq!(class.control_in(&get_status()), InReply::Data(vec![0, 0x03, 0x02, 0x01, 7, 0]));
    assert_eq!(class.state(), State::DfuManifest(0x0001_0203));
    class.poll(0x0001_0202);
    assert_eq!(class.state(), State::DfuManifest(1));
    class.poll(1);
    assert_eq!(class.state(), State::DfuManifestWaitReset);
    // every transfer is accepted, nothing changes
    assert_eq!(class.control_in(&get_status()), InReply::Data(vec![]));
    assert_eq!(class.control_in(&get_state()), InReply::Data(vec![]));
    assert_eq!(class.control_in(&upload(0, 8)), InReply::Data(vec![]));
    assert_eq!(class.control_out(&dnload(0, 1), &[1]), OutReply::Accepted);
    assert_eq!(
        class.control_out(&class_request(Request::DFU_CLRSTATUS, 0, 0), &[]),
        OutReply::Accepted,
    );
    class.poll(100);
    assert_eq!(class.state(), State::DfuManifestWaitReset);
}

#[test]
fn manifest_sync_of_a_device_that_is_not_tolerant_stalls_when_nothing_is_in_progress() {
    let mut class = limited_at_the_end_of_a_download(Ok(false));
    assert_eq!(class.control_in(&get_status()), InReply::Rejected);
    assert_eq!(class.state(), State::DfuError(Error::StalledPkt));
}

#[test]
fn a_transfer_of_a_device_with_smaller_transfers() {
    let mut class = DFUModeClass::new(0, LimitedDownload { manifestation: Ok(false) });
    assert_eq!(class.control_in(&upload(0, 65)), InReply::Rejected);
    assert_eq!(class.state(), State::DfuError(Error::StalledPkt));
    let mut class = DFUModeClass::new(0, LimitedDownload { manifestation: Ok(false) });
    assert_eq!(class.control_in(&upload(0, 64)), InReply::Data(vec![0; 64]));
    assert_eq!(class.state(), State::DfuUploadIdle);
    // in the middle of an upload a longer request gets a whole transfer,
    // which is less than was asked for and ends the upload
    assert_eq!(class.control_in(&upload(1, 100)), InReply::Data(vec![0; 64]));
    assert_eq!(class.state(), State::DfuIdle);
    assert_eq!(class.control_out(&dnload(0, 65), &[0; 65]), OutReply::Rejected);
    assert_eq!(class.state(), State::DfuError(Error::StalledPkt));
}

#[test]
fn an_upload_that_fills_the_request_goes_on() {
    let mut handler = Scripted::new();
    handler.upload = Ok(128);
    let mut class = DFUModeClass::new(0, handler);
    assert_eq!(class.control_in(&upload(0, 16)), InReply::Data(vec![0x5A; 16]));
    assert_eq!(class.state(), State::DfuUploadIdle);
    assert_eq!(class.control_in(&upload(1, 128)), InReply::Data(vec![0x5A; 128]));
    assert_eq!(class.state(), State::DfuUploadIdle);
    assert_eq!(class.control_in(&get_status()), InReply::Data(vec![0, 1, 0, 0, 9, 0]));
    assert_eq!(class.control_in(&get_state()), InReply::Data(vec![9]));
    assert_eq!(class.handler_ref().uploads, vec![(0, 16), (1, 128)]);
}

#[test]
fn an_upload_that_gives_less_than_was_asked_ends() {
    let mut handler = Scripted::new();
    handler.upload = Ok(5);
    let mut class = DFUModeClass::new(0, handler);
    assert_eq!(class.control_in(&upload(0, 16)), InReply::Data(vec![0x5A; 5]));
    assert_eq!(class.state(), State::DfuIdle);
}

#[test]
fn an_upload_of_nothing_ends() {
    let mut class = DFUModeClass::new(0, Scripted::new());
    assert_eq!(class.control_in(&upload(0, 16)), InReply::Data(vec![]));
    assert_eq!(class.state(), State::DfuIdle);
}

#[test]
fn an_upload_of_length_zero_goes_on() {
    let mut class = DFUModeClass::new(0, Scripted::new());
    assert_eq!(class.control_in(&upload(0, 0)), InReply::Data(vec![]));
    assert_eq!(class.state(), State::DfuUploadIdle);
    assert_eq!(class.handler_ref().uploads, vec![(0, 0)]);
}

#[test]
fn an_upload_that_fails_is_accepted_without_data_and_reported() {
    let mut handler = Scripted::new();
    handler.upload = Err(Error::Unknown);
    let mut class = DFUModeClass::new(0, handler);
    assert_eq!(class.control_in(&upload(0, 16)), InReply::Data(vec![]));
    assert_eq!(class.state(), State::DfuError(Error::Unknown));
    assert_eq!(class.control_in(&get_status()), InReply::Data(vec![0x0E, 1, 0, 0, 10, 0]));
}

#[test]
fn upload_idle_accepts_abort() {
    let mut handler = Scripted::new();
    handler.upload = Ok(128);
    let mut class = DFUModeClass::new(0, handler);
    class.control_in(&upload(0, 16));
    assert_eq!(
        class.control_out(&class_request(Request::DFU_ABORT, 0, 0), &[]),
        OutReply::Accepted,
    );
    assert_eq!(class.state(), State::DfuIdle);
}

#[test]
fn upload_idle_stalls_anything_else() {
    let mut handler = Scripted::new();
    handler.upload = Ok(128);
    let mut class = DFUModeClass::new(0, handler);
    class.control_in(&upload(0, 16));
    assert_eq!(class.control_out(&dnload(0, 1), &[1]), OutReply::Rejected);
    assert_eq!(class.state(), State::DfuError(Error::StalledPkt));
    let mut handler = Scripted::new();
    handler.upload = Ok(128);
    let mut class = DFUModeClass::new(0, handler);
    class.control_in(&upload(0, 16));
    assert_eq!(class.control_in(&class_request(Request::DFU_CLRSTATUS, 0, 0)), InReply::Rejected);
    assert_eq!(class.state(), State::DfuError(Error::StalledPkt));
}

#[test]
fn error_answers_status_and_state_and_rejects_the_rest() {
    let mut handler = Scripted::new();
    handler.valid = false;
    let mut class = DFUModeClass::new(0, handler);
    assert_eq!(class.control_in(&get_status()), InReply::Data(vec![0x0A, 1, 0, 0, 10, 0]));
    assert_eq!(class.control_in(&get_state()), InReply::Data(vec![10]));
    assert_eq!(class.control_in(&upload(0, 8)), InReply::Rejected);
    assert_eq!(class.state(), State::DfuError(Error::Firmware));
    assert_eq!(class.control_out(&dnload(0, 1), &[1]), OutReply::Rejected);
    assert_eq!(
        class.control_out(&class_request(Request::DFU_ABORT, 0, 0), &[]),
        OutReply::Rejected,
    );
    assert_eq!(
        class.control_out(&class_request(Request::DFU_DETACH, 0, 0), &[]),
        OutReply::Rejected,
    );
    assert_eq!(class.state(), State::DfuError(Error::Firmware));
    assert!(class.handler_ref().downloads.is_empty());
    assert!(class.handler_ref().uploads.is_empty());
    class.poll(1000);
    assert_eq!(class.state(), State::DfuError(Error::Firmware));
    assert_eq!(class.handler_ref().polls, 0);
}

#[test]
fn clear_status_twice_stalls_the_second_and_a_third_clears_again() {
    let mut handler = Scripted::new();
    handler.valid = false;
    let mut class = DFUModeClass::new(0, handler);
    let clear = class_request(Request::DFU_CLRSTATUS, 0, 0);
    assert_eq!(class.control_out(&clear, &[]), OutReply::Accepted);
    assert_eq!(class.state(), State::DfuIdle);
    assert_eq!(class.control_out(&clear, &[]), OutReply::Rejected);
    assert_eq!(class.state(), State::DfuError(Error::StalledPkt));
    assert_eq!(class.control_out(&clear, &[]), OutReply::Accepted);
    assert_eq!(class.state(), State::DfuIdle);
}

#[test]
fn clear_status_does_not_depend_on_the_error() {
    for error in [Error::Write, Error::Address, Error::Unknown, Error::Verify] {
        let mut handler = Scripted::new();
        handler.download = Err(error);
        let mut class = DFUModeClass::new(0, handler);
        class.control_out(&dnload(0, 1), &[1]);
        assert_eq!(class.state(), State::DfuError(error));
        assert_eq!(
            class.control_out(&class_request(Request::DFU_CLRSTATUS, 0, 0), &[]),
            OutReply::Accepted,
        );
        assert_eq!(class.state(), State::DfuIdle);
    }
}

#[test]
fn every_status_reply_reports_the_state_after_the_request() {
    let mut handler = Scripted::new();
    handler.transfer = Ok(false);
    handler.manifestation = Ok(true);
    let mut class = DFUModeClass::new(0, handler);
    let mut seen = Vec::new();
    let steps: Vec<(bool, ControlRequest, Vec<u8>, u32)> = vec![
        (true, get_status(), vec![], 0),
        (false, dnload(0, 2), vec![1, 2], 0),
        (true, get_status(), vec![], 20),
        (true, get_status(), vec![], 0),
        (true, get_status(), vec![], 0),
        (false, class_request(Request::DFU_CLRSTATUS, 0, 0), vec![], 0),
        (true, upload(0, 200), vec![], 0),
        (true, get_status(), vec![], 0),
    ];
    for (inward, request, data, elapsed) in steps {
        if inward {
            let reply = class.control_in(&request);
            if request.request == Request::DFU_GETSTATUS {
                if let InReply::Data(bytes) = reply {
                    assert_eq!(bytes.len(), 6);
                    assert_eq!(bytes[4], u8::from(class.state()));
                    let status = match class.state() {
                        State::DfuError(e) => u8::from(e),
                        _ => 0,
                    };
                    assert_eq!(bytes[0], status);
                    seen.push(bytes[4]);
                }
            }
        } else {
            class.control_out(&request, &data);
        }
        class.poll(elapsed);
    }
    assert_eq!(seen, vec![2, 4, 4, 10]);
}

#[test]
fn decisions_after_the_handler_answered() {
    assert_eq!(after_validity_check(true), State::DfuIdle);
    assert_eq!(after_validity_check(false), State::DfuError(Error::Firmware));
    assert_eq!(after_download(Ok(())), State::DfuDnloadSync);
    assert_eq!(after_download(Err(Error::Address)), State::DfuError(Error::Address));
    assert_eq!(after_end_of_download(Ok(true)), State::DfuManifestSync);
    assert_eq!(after_end_of_download(Ok(false)), State::DfuError(Error::StalledPkt));
    assert_eq!(after_end_of_download(Err(Error::Unknown)), State::DfuError(Error::StalledPkt));
    assert_eq!(after_transfer_check(Ok(true), 7), State::DfuDnloadIdle);
    assert_eq!(after_transfer_check(Ok(false), 7), State::DfuDnloadBusy(7));
    assert_eq!(after_transfer_check(Err(Error::Erase), 7), State::DfuError(Error::Erase));
    assert_eq!(after_manifestation_check(Ok(true), true, 7), State::DfuManifest(7));
    assert_eq!(after_manifestation_check(Ok(true), false, 7), State::DfuManifest(7));
    assert_eq!(after_manifestation_check(Ok(false), true, 7), State::DfuIdle);
    assert_eq!(after_manifestation_check(Ok(false), false, 7), State::DfuError(Error::StalledPkt));
    assert_eq!(
        after_manifestation_check(Err(Error::Write), true, 7),
        State::DfuError(Error::Write),
    );
    assert_eq!(after_upload(Ok(16), 16), State::DfuUploadIdle);
    assert_eq!(after_upload(Ok(15), 16), State::DfuIdle);
    assert_eq!(after_upload(Ok(0), 0), State::DfuUploadIdle);
    assert_eq!(after_upload(Err(Error::Unknown), 16), State::DfuError(Error::Unknown));
    assert_eq!(after_tick(State::DfuDnloadBusy(10), Ok(()), 3, true), State::DfuDnloadBusy(7));
    assert_eq!(after_tick(State::DfuDnloadBusy(10), Ok(()), 10, true), State::DfuDnloadSync);
    assert_eq!(after_tick(State::DfuDnloadBusy(10), Ok(()), 11, false), State::DfuDnloadSync);
    assert_eq!(
        after_tick(State::DfuDnloadBusy(10), Err(Error::Verify), 1, true),
        State::DfuError(Error::Verify),
    );
    assert_eq!(after_tick(State::DfuManifest(10), Ok(()), 3, true), State::DfuManifest(7));
    assert_eq!(after_tick(State::DfuManifest(10), Ok(()), 10, true), State::DfuManifestSync);
    assert_eq!(after_tick(State::DfuManifest(10), Ok(()), 10, false), State::DfuManifestWaitReset);
    assert_eq!(
        after_tick(State::DfuManifest(10), Err(Error::Erase), 1, false),
        State::DfuError(Error::Erase),
    );
    assert_eq!(after_tick(State::DfuIdle, Err(Error::Erase), 1, false), State::DfuIdle);
    assert_eq!(after_tick(State::DfuDnloadSync, Ok(()), 100, true), State::DfuDnloadSync);
}
