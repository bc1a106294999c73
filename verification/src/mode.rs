//! The DFU mode variant of the class: the state machine that takes the
//! class requests of a download or an upload and asks a handler to do the
//! work.

use vstd::prelude::*;
use crate::protocol::{
    get_state_reply,
    get_status_reply,
    status_reply,
    Capabilities,
    ControlRequest,
    Error,
    InReply,
    OutReply,
    Request,
    State,
};

verus! {

/// What does the work of a firmware upgrade for the state machine.
///
/// Each method has a relation beside it that says what the method may
/// answer and leave behind; the state machine's contracts are stated over
/// these relations. A handler that says nothing of itself keeps the
/// relations as they are here, true of every answer.
pub trait DeviceFirmwareUpgrade: Capabilities {
    /// Milliseconds that the host is told to wait before it asks for the
    /// status again.
    const POLL_TIMEOUT: u32;

    /// What holds of a handler between two calls.
    open spec fn inv(&self) -> bool {
        true
    }

    /// What `is_firmware_valid` may answer and leave behind.
    open spec fn validity_answer(&self, after: &Self, valid: bool) -> bool {
        true
    }

    /// What `is_transfer_complete` may answer and leave behind.
    open spec fn transfer_answer(&self, after: &Self, r: Result<bool, Error>) -> bool {
        true
    }

    /// What `is_manifestation_in_progress` may answer and leave behind.
    open spec fn manifestation_answer(&self, after: &Self, r: Result<bool, Error>) -> bool {
        true
    }

    /// What `poll` may answer and leave behind.
    open spec fn poll_answer(&self, after: &Self, r: Result<(), Error>) -> bool {
        true
    }

    /// What `upload` may answer and leave behind, in the handler and in
    /// the buffer, which held `space` and holds `filled`.
    open spec fn upload_answer(
        &self,
        block_number: u16,
        space: Seq<u8>,
        after: &Self,
        filled: Seq<u8>,
        r: Result<usize, Error>,
    ) -> bool {
        true
    }

    /// What `download` may answer and leave behind.
    open spec fn download_answer(
        &self,
        block_number: u16,
        block: Seq<u8>,
        after: &Self,
        r: Result<(), Error>,
    ) -> bool {
        true
    }

    /// Whether the device holds an application that can run.
    fn is_firmware_valid(&mut self) -> (valid: bool)
        requires
            old(self).inv(),
        ensures
            final(self).inv(),
            old(self).validity_answer(final(self), valid),
    ;

    /// Whether the block that was handed over last is written.
    fn is_transfer_complete(&mut self) -> (r: Result<bool, Error>)
        requires
            old(self).inv(),
        ensures
            final(self).inv(),
            old(self).transfer_answer(final(self), r),
    ;

    /// Whether the image is still being sealed; asked first at the end of
    /// a download, which starts the sealing.
    fn is_manifestation_in_progress(&mut self) -> (r: Result<bool, Error>)
        requires
            old(self).inv(),
        ensures
            final(self).inv(),
            old(self).manifestation_answer(final(self), r),
    ;

    /// Lets the handler go on with its work.
    fn poll(&mut self) -> (r: Result<(), Error>)
        requires
            old(self).inv(),
        ensures
            final(self).inv(),
            old(self).poll_answer(final(self), r),
    ;

    /// Puts the next bytes of the firmware at the start of `buf` and
    /// returns their number; 0 at the end.
    fn upload(&mut self, block_number: u16, buf: &mut [u8]) -> (r: Result<usize, Error>)
        requires
            old(self).inv(),
        ensures
            final(self).inv(),
            final(buf)@.len() == old(buf)@.len(),
            r matches Ok(n) ==> n <= old(buf)@.len(),
            old(self).upload_answer(block_number, old(buf)@, final(self), final(buf)@, r),
    ;

    /// Takes the next block of the firmware.
    fn download(&mut self, block_number: u16, buf: &[u8]) -> (r: Result<(), Error>)
        requires
            old(self).inv(),
            0 < buf@.len() <= Self::TRANSFER_SIZE,
        ensures
            final(self).inv(),
            old(self).download_answer(block_number, buf@, final(self), r),
    ;
}

/// The state that the class starts in: ready if the firmware is valid,
/// else in error.
pub open spec fn initial_state(firmware_is_valid: bool) -> State {
    if firmware_is_valid {
        State::DfuIdle
    } else {
        State::DfuError(Error::Firmware)
    }
}

/// The state after the handler took or refused a block.
pub open spec fn download_outcome(res: Result<(), Error>) -> State {
    match res {
        Ok(_) => State::DfuDnloadSync,
        Err(e) => State::DfuError(e),
    }
}

/// The state after the host ended the download and the handler said
/// whether the last block is written: on to the manifestation if it is,
/// else the request is stalled.
pub open spec fn end_of_download_outcome(res: Result<bool, Error>) -> State {
    if res == Ok::<bool, Error>(true) {
        State::DfuManifestSync
    } else {
        State::DfuError(Error::StalledPkt)
    }
}

/// The state after the handler said whether the block is written.
pub open spec fn transfer_outcome(res: Result<bool, Error>, poll_timeout: u32) -> State {
    match res {
        Ok(true) => State::DfuDnloadIdle,
        Ok(false) => State::DfuDnloadBusy(poll_timeout),
        Err(e) => State::DfuError(e),
    }
}

/// The state after the handler said whether the image is still being
/// sealed. A device that is not manifestation tolerant stalls the request
/// when the sealing has ended.
pub open spec fn manifestation_outcome(
    res: Result<bool, Error>,
    manifestation_tolerant: bool,
    poll_timeout: u32,
) -> State {
    match res {
        Ok(true) => State::DfuManifest(poll_timeout),
        Ok(false) => if manifestation_tolerant {
            State::DfuIdle
        } else {
            State::DfuError(Error::StalledPkt)
        },
        Err(e) => State::DfuError(e),
    }
}

/// The state after the handler gave `res` bytes where the host asked for
/// `length`: fewer end the upload.
pub open spec fn upload_outcome(res: Result<usize, Error>, length: usize) -> State {
    match res {
        Ok(n) => if n < length {
            State::DfuIdle
        } else {
            State::DfuUploadIdle
        },
        Err(e) => State::DfuError(e),
    }
}

/// The state after `elapsed` milliseconds in which the handler went on
/// with `res`, for the two states in which it is asked to.
pub open spec fn tick_outcome(
    state: State,
    res: Result<(), Error>,
    elapsed: u32,
    manifestation_tolerant: bool,
) -> State {
    match state {
        State::DfuDnloadBusy(timeout) => match res {
            Ok(_) => if timeout <= elapsed {
                State::DfuDnloadSync
            } else {
                State::DfuDnloadBusy((timeout - elapsed) as u32)
            },
            Err(e) => State::DfuError(e),
        },
        State::DfuManifest(timeout) => match res {
            Ok(_) => if timeout > elapsed {
                State::DfuManifest((timeout - elapsed) as u32)
            } else if manifestation_tolerant {
                State::DfuManifestSync
            } else {
                State::DfuManifestWaitReset
            },
            Err(e) => State::DfuError(e),
        },
        _ => state,
    }
}

/// See `initial_state`.
pub fn after_validity_check(firmware_is_valid: bool) -> (state: State)
    ensures
        state == initial_state(firmware_is_valid),
{
    if firmware_is_valid {
        State::DfuIdle
    } else {
        State::DfuError(Error::Firmware)
    }
}

/// See `download_outcome`.
pub fn after_download(res: Result<(), Error>) -> (state: State)
    ensures
        state == download_outcome(res),
{
    match res {
        Ok(_) => State::DfuDnloadSync,
        Err(e) => State::DfuError(e),
    }
}

/// See `end_of_download_outcome`.
pub fn after_end_of_download(res: Result<bool, Error>) -> (state: State)
    ensures
        state == end_of_download_outcome(res),
{
    match res {
        Ok(true) => State::DfuManifestSync,
        _ => State::DfuError(Error::StalledPkt),
    }
}

/// See `transfer_outcome`.
pub fn after_transfer_check(res: Result<bool, Error>, poll_timeout: u32) -> (state: State)
    ensures
        state == transfer_outcome(res, poll_timeout),
{
    match res {
        Ok(true) => State::DfuDnloadIdle,
        Ok(false) => State::DfuDnloadBusy(poll_timeout),
        Err(e) => State::DfuError(e),
    }
}

/// See `manifestation_outcome`.
pub fn after_manifestation_check(
    res: Result<bool, Error>,
    manifestation_tolerant: bool,
    poll_timeout: u32,
) -> (state: State)
    ensures
        state == manifestation_outcome(res, manifestation_tolerant, poll_timeout),
{
    match res {
        Ok(true) => State::DfuManifest(poll_timeout),
        Ok(false) => if manifestation_tolerant {
            State::DfuIdle
        } else {
            State::DfuError(Error::StalledPkt)
        },
        Err(e) => State::DfuError(e),
    }
}

/// See `upload_outcome`.
pub fn after_upload(res: Result<usize, Error>, length: usize) -> (state: State)
    ensures
        state == upload_outcome(res, length),
{
    match res {
        Ok(n) => if n < length {
            State::DfuIdle
        } else {
            State::DfuUploadIdle
        },
        Err(e) => State::DfuError(e),
    }
}

/// See `tick_outcome`.
pub fn after_tick(state: State, res: Result<(), Error>, elapsed: u32, manifestation_tolerant: bool)
    -> (next: State)
    ensures
        next == tick_outcome(state, res, elapsed, manifestation_tolerant),
{
    match state {
        State::DfuDnloadBusy(timeout) => match res {
            Ok(_) => {
                let remaining = timeout.saturating_sub(elapsed);
                if remaining == 0 {
                    State::DfuDnloadSync
                } else {
                    State::DfuDnloadBusy(remaining)
                }
            },
            Err(e) => State::DfuError(e),
        },
        State::DfuManifest(timeout) => match res {
            Ok(_) => {
                let remaining = timeout.saturating_sub(elapsed);
                if remaining != 0 {
                    State::DfuManifest(remaining)
                } else if manifestation_tolerant {
                    State::DfuManifestSync
                } else {
                    State::DfuManifestWaitReset
                }
            },
            Err(e) => State::DfuError(e),
        },
        _ => state,
    }
}

/// The request is stalled and the state machine reports it.
pub open spec fn stalled(next: State, rejected: bool) -> bool {
    next == State::DfuError(Error::StalledPkt) && rejected
}

/// An upload of up to `length` bytes was answered.
pub open spec fn upload_answered(length: u16, next: State, reply: InReply) -> bool {
    &&& reply matches InReply::Data(data)
    &&& {
        ||| next == State::DfuUploadIdle && data@.len() == length
        ||| next == State::DfuIdle && data@.len() < length
        ||| next is DfuError && data@.len() == 0
    }
}

/// What a control IN request to the interface may lead to: the state
/// `next` and the reply `reply` to the request `request` with `wLength`
/// `length`, received in `state`, for a device with these capabilities.
/// Where the handler is asked, each of its answers leads to one of the
/// outcomes that are allowed.
pub open spec fn control_in_allows(
    state: State,
    request: u8,
    length: u16,
    can_upload: bool,
    manifestation_tolerant: bool,
    transfer_size: u16,
    poll_timeout: u32,
    next: State,
    reply: InReply,
) -> bool {
    let get_state = next == state && reply.is_data(seq![state.code()]);
    let get_status = next == state && reply.is_data(status_reply(state, 1));
    let get_status_timed = next == state && reply.is_data(status_reply(state, poll_timeout));
    let stall = stalled(next, reply is Rejected);
    match state {
        State::DfuIdle => if request == Request::DFU_UPLOAD && can_upload && length
            <= transfer_size {
            upload_answered(length, next, reply)
        } else if request == Request::DFU_GETSTATUS {
            get_status
        } else if request == Request::DFU_GETSTATE {
            get_state
        } else {
            stall
        },
        State::DfuDnloadSync => if request == Request::DFU_GETSTATE {
            get_state
        } else if request == Request::DFU_GETSTATUS {
            &&& next == State::DfuDnloadIdle || next == State::DfuDnloadBusy(poll_timeout) || next
                is DfuError
            &&& reply.is_data(status_reply(next, poll_timeout))
        } else {
            stall
        },
        State::DfuDnloadIdle => if request == Request::DFU_GETSTATE {
            get_state
        } else if request == Request::DFU_GETSTATUS {
            get_status_timed
        } else {
            stall
        },
        State::DfuManifestSync => if request == Request::DFU_GETSTATE {
            get_state
        } else if request == Request::DFU_GETSTATUS {
            ||| {
                &&& next == State::DfuManifest(poll_timeout) || (manifestation_tolerant && next
                    == State::DfuIdle) || next is DfuError
                &&& reply.is_data(status_reply(next, poll_timeout))
            }
            ||| !manifestation_tolerant && stall
        } else {
            stall
        },
        State::DfuManifestWaitReset => next == state && reply.is_data(Seq::<u8>::empty()),
        State::DfuUploadIdle => if request == Request::DFU_UPLOAD {
            upload_answered(length, next, reply)
        } else if request == Request::DFU_GETSTATUS {
            get_status
        } else if request == Request::DFU_GETSTATE {
            get_state
        } else {
            stall
        },
        State::DfuError(_) => if request == Request::DFU_GETSTATE {
            get_state
        } else if request == Request::DFU_GETSTATUS {
            get_status
        } else {
            next == state && reply is Rejected
        },
        _ => stall,
    }
}

/// A block of `length` bytes was handed to the handler.
pub open spec fn download_answered(next: State, reply: OutReply) -> bool {
    &&& reply == OutReply::Accepted
    &&& next == State::DfuDnloadSync || next is DfuError
}

/// What a control OUT request to the interface may lead to: the state
/// `next` and the reply `reply` to the request `request` with `length`
/// bytes of data, received in `state`, for a device with these
/// capabilities. Where the handler is asked, each of its answers leads to
/// one of the outcomes that are allowed.
pub open spec fn control_out_allows(
    state: State,
    request: u8,
    length: u16,
    can_download: bool,
    transfer_size: u16,
    next: State,
    reply: OutReply,
) -> bool {
    let stall = stalled(next, reply == OutReply::Rejected);
    match state {
        State::DfuIdle => if request == Request::DFU_DNLOAD && can_download && 0 < length
            <= transfer_size {
            download_answered(next, reply)
        } else if request == Request::DFU_ABORT {
            next == state && reply == OutReply::Accepted
        } else {
            stall
        },
        State::DfuDnloadIdle => if request == Request::DFU_DNLOAD && 0 < length <= transfer_size {
            download_answered(next, reply)
        } else if request == Request::DFU_DNLOAD && length == 0 {
            (next == State::DfuManifestSync && reply == OutReply::Accepted) || stall
        } else {
            stall
        },
        State::DfuManifestWaitReset => next == state && reply == OutReply::Accepted,
        State::DfuUploadIdle => if request == Request::DFU_ABORT {
            next == State::DfuIdle && reply == OutReply::Accepted
        } else {
            stall
        },
        State::DfuError(_) => if request == Request::DFU_CLRSTATUS {
            next == State::DfuIdle && reply == OutReply::Accepted
        } else {
            next == state && reply == OutReply::Rejected
        },
        _ => stall,
    }
}

/// A `GETSTATUS` that is answered reports the state that the state machine
/// is in once it has answered, and that state's status: no state is passed
/// through that the host is not told of.
pub proof fn lemma_get_status_reports_final_state(
    state: State,
    length: u16,
    can_upload: bool,
    manifestation_tolerant: bool,
    transfer_size: u16,
    poll_timeout: u32,
    next: State,
    reply: InReply,
)
    requires
        control_in_allows(
            state,
            Request::DFU_GETSTATUS,
            length,
            can_upload,
            manifestation_tolerant,
            transfer_size,
            poll_timeout,
            next,
            reply,
        ),
        !(state is DfuManifestWaitReset),
    ensures
        reply matches InReply::Data(data) ==> data@.len() == 6 && data@[4] == next.code()
            && data@[0] == next.status_code() && data@[5] == 0,
        reply is Rejected ==> next is DfuError,
        !(reply is Ignored),
{
}

/// `CLRSTATUS` leaves the error state for `DfuIdle`, whatever the error
/// was. A second `CLRSTATUS` is then a request that `DfuIdle` does not
/// know: it is stalled and reported as `StalledPkt`, and a third leaves
/// the error state again.
pub proof fn lemma_clear_status(
    error: Error,
    length: u16,
    can_download: bool,
    transfer_size: u16,
    first: State,
    first_reply: OutReply,
    second: State,
    second_reply: OutReply,
    third: State,
    third_reply: OutReply,
)
    requires
        control_out_allows(
            State::DfuError(error),
            Request::DFU_CLRSTATUS,
            length,
            can_download,
            transfer_size,
            first,
            first_reply,
        ),
        control_out_allows(
            first,
            Request::DFU_CLRSTATUS,
            length,
            can_download,
            transfer_size,
            second,
            second_reply,
        ),
        control_out_allows(
            second,
            Request::DFU_CLRSTATUS,
            length,
            can_download,
            transfer_size,
            third,
            third_reply,
        ),
    ensures
        first == State::DfuIdle,
        first_reply == OutReply::Accepted,
        second == State::DfuError(Error::StalledPkt),
        second_reply == OutReply::Rejected,
        third == first,
        third_reply == first_reply,
{
}

/// The error state is left by `CLRSTATUS` and by nothing else: every other
/// request leaves the state machine in the error that it reports.
pub proof fn lemma_error_is_left_by_clear_status_only(
    error: Error,
    request: u8,
    length: u16,
    can_upload: bool,
    can_download: bool,
    manifestation_tolerant: bool,
    transfer_size: u16,
    poll_timeout: u32,
    next: State,
    reply_in: InReply,
    reply_out: OutReply,
)
    ensures
        control_in_allows(
            State::DfuError(error),
            request,
            length,
            can_upload,
            manifestation_tolerant,
            transfer_size,
            poll_timeout,
            next,
            reply_in,
        ) ==> next == State::DfuError(error),
        control_out_allows(
            State::DfuError(error),
            request,
            length,
            can_download,
            transfer_size,
            next,
            reply_out,
        ) ==> next == if request == Request::DFU_CLRSTATUS {
            State::DfuIdle
        } else {
            State::DfuError(error)
        },
        tick_outcome(State::DfuError(error), Ok(()), poll_timeout, manifestation_tolerant)
            == State::DfuError(error),
{
}

/// The number of bytes that the handler is asked for when the host asks
/// for `length`: no more than a transfer holds.
pub open spec fn upload_size(length: u16, transfer_size: u16) -> nat {
    if length <= transfer_size {
        length as nat
    } else {
        transfer_size as nat
    }
}

/// `size` zeros.
pub open spec fn zeros(size: nat) -> Seq<u8> {
    Seq::new(size, |i: int| 0u8)
}

/// A buffer of `size` zeros.
fn zeroed(size: usize) -> (buf: Vec<u8>)
    ensures
        buf@ == zeros(size as nat),
{
    let mut buf: Vec<u8> = Vec::new();
    while buf.len() < size
        invariant
            buf@.len() <= size,
            forall|i: int| 0 <= i < buf@.len() ==> buf@[i] == 0u8,
        decreases size - buf@.len(),
    {
        buf.push(0u8);
    }
    assert(buf@ =~= zeros(size as nat));
    buf
}

/// The DFU mode variant of the class.
pub struct DFUModeClass<H: DeviceFirmwareUpgrade> {
    interface_number: u8,
    handler: H,
    state: State,
}

impl<H: DeviceFirmwareUpgrade> DFUModeClass<H> {
    /// The state as the host sees it.
    pub closed spec fn current(&self) -> State {
        self.state
    }

    /// The handler.
    pub closed spec fn handler(&self) -> H {
        self.handler
    }

    /// The number of the interface that the class answers for.
    pub closed spec fn interface(&self) -> u8 {
        self.interface_number
    }

    /// The handler is in order.
    pub open spec fn wf(&self) -> bool {
        self.handler().inv()
    }

    /// The request is answered with the state; nothing changes.
    pub open spec fn tells_state(&self, after: &Self, reply: InReply) -> bool {
        &&& after.current() == self.current()
        &&& after.handler() == self.handler()
        &&& reply.is_data(seq![self.current().code()])
    }

    /// The request is answered with the status; nothing changes.
    pub open spec fn tells_status(&self, poll_timeout: u32, after: &Self, reply: InReply) -> bool {
        &&& after.current() == self.current()
        &&& after.handler() == self.handler()
        &&& reply.is_data(status_reply(self.current(), poll_timeout))
    }

    /// The request is stalled and reported; the handler is left alone.
    pub open spec fn stalls(&self, after: &Self, rejected: bool) -> bool {
        &&& after.current() == State::DfuError(Error::StalledPkt)
        &&& after.handler() == self.handler()
        &&& rejected
    }

    /// The handler is asked for the bytes of an upload, into a buffer of
    /// zeros as long as the request allows and no longer than a transfer.
    /// The reply holds the bytes that it gave, none after an error, and
    /// the state follows `upload_outcome`.
    pub open spec fn uploads(&self, req: &ControlRequest, after: &Self, reply: InReply) -> bool {
        let size = upload_size(req.length, H::TRANSFER_SIZE);
        exists|r: Result<usize, Error>, filled: Seq<u8>|
            {
                &&& #[trigger] self.handler().upload_answer(
                    req.value,
                    zeros(upload_size(req.length, H::TRANSFER_SIZE)),
                    &after.handler(),
                    filled,
                    r,
                )
                &&& filled.len() == size
                &&& r matches Ok(n) ==> n <= size
                &&& after.current() == upload_outcome(r, req.length as usize)
                &&& reply.is_data(
                    match r {
                        Ok(n) => filled.subrange(0, n as int),
                        Err(_) => Seq::empty(),
                    },
                )
            }
    }

    /// The handler is given the block with the number in `wValue`; the
    /// transfer is accepted and the state follows `download_outcome`.
    pub open spec fn downloads(
        &self,
        req: &ControlRequest,
        data: Seq<u8>,
        after: &Self,
        reply: OutReply,
    ) -> bool {
        &&& reply == OutReply::Accepted
        &&& exists|r: Result<(), Error>|
            {
                &&& #[trigger] self.handler().download_answer(req.value, data, &after.handler(), r)
                &&& after.current() == download_outcome(r)
            }
    }

    /// The handler is asked whether the block is written; the reply is the
    /// status and the state follows `transfer_outcome`.
    pub open spec fn checks_transfer(&self, after: &Self, reply: InReply) -> bool {
        &&& reply.is_data(status_reply(after.current(), H::POLL_TIMEOUT))
        &&& exists|r: Result<bool, Error>|
            {
                &&& #[trigger] self.handler().transfer_answer(&after.handler(), r)
                &&& after.current() == transfer_outcome(r, H::POLL_TIMEOUT)
            }
    }

    /// The handler is asked whether the last block is written; the state
    /// follows `end_of_download_outcome`, and the transfer is accepted if
    /// the manifestation begins, else stalled.
    pub open spec fn ends_download(&self, after: &Self, reply: OutReply) -> bool {
        exists|r: Result<bool, Error>|
            {
                &&& #[trigger] self.handler().transfer_answer(&after.handler(), r)
                &&& after.current() == end_of_download_outcome(r)
                &&& reply == if r == Ok::<bool, Error>(true) {
                    OutReply::Accepted
                } else {
                    OutReply::Rejected
                }
            }
    }

    /// The handler is asked whether the image is still being sealed; the
    /// state follows `manifestation_outcome`, and the reply is the status,
    /// but that the request is stalled when nothing is in progress on a
    /// device that is not manifestation tolerant.
    pub open spec fn checks_manifestation(&self, after: &Self, reply: InReply) -> bool {
        exists|r: Result<bool, Error>|
            {
                &&& #[trigger] self.handler().manifestation_answer(&after.handler(), r)
                &&& after.current() == manifestation_outcome(
                    r,
                    H::IS_MANIFESTATION_TOLERANT,
                    H::POLL_TIMEOUT,
                )
                &&& if r == Ok::<bool, Error>(false) && !H::IS_MANIFESTATION_TOLERANT {
                    reply is Rejected
                } else {
                    reply.is_data(status_reply(after.current(), H::POLL_TIMEOUT))
                }
            }
    }

    /// What a control IN request to the interface does: the state, the
    /// handler and the reply after the request `req`.
    pub open spec fn in_step(&self, req: &ControlRequest, after: &Self, reply: InReply) -> bool {
        let request = req.request;
        match self.current() {
            State::DfuIdle => if request == Request::DFU_UPLOAD && H::CAN_UPLOAD && req.length
                <= H::TRANSFER_SIZE {
                self.uploads(req, after, reply)
            } else if request == Request::DFU_GETSTATUS {
                self.tells_status(1, after, reply)
            } else if request == Request::DFU_GETSTATE {
                self.tells_state(after, reply)
            } else {
                self.stalls(after, reply is Rejected)
            },
            State::DfuDnloadSync => if request == Request::DFU_GETSTATE {
                self.tells_state(after, reply)
            } else if request == Request::DFU_GETSTATUS {
                self.checks_transfer(after, reply)
            } else {
                self.stalls(after, reply is Rejected)
            },
            State::DfuDnloadIdle => if request == Request::DFU_GETSTATE {
                self.tells_state(after, reply)
            } else if request == Request::DFU_GETSTATUS {
                self.tells_status(H::POLL_TIMEOUT, after, reply)
            } else {
                self.stalls(after, reply is Rejected)
            },
            State::DfuManifestSync => if request == Request::DFU_GETSTATE {
                self.tells_state(after, reply)
            } else if request == Request::DFU_GETSTATUS {
                self.checks_manifestation(after, reply)
            } else {
                self.stalls(after, reply is Rejected)
            },
            State::DfuManifestWaitReset => after.current() == self.current() && after.handler()
                == self.handler() && reply.is_data(Seq::<u8>::empty()),
            State::DfuUploadIdle => if request == Request::DFU_UPLOAD {
                self.uploads(req, after, reply)
            } else if request == Request::DFU_GETSTATUS {
                self.tells_status(1, after, reply)
            } else if request == Request::DFU_GETSTATE {
                self.tells_state(after, reply)
            } else {
                self.stalls(after, reply is Rejected)
            },
            State::DfuError(_) => if request == Request::DFU_GETSTATE {
                self.tells_state(after, reply)
            } else if request == Request::DFU_GETSTATUS {
                self.tells_status(1, after, reply)
            } else {
                after.current() == self.current() && after.handler() == self.handler() && reply
                    is Rejected
            },
            _ => self.stalls(after, reply is Rejected),
        }
    }

    /// What a control OUT request to the interface does: the state, the
    /// handler and the reply after the request `req` with the data `data`.
    pub open spec fn out_step(
        &self,
        req: &ControlRequest,
        data: Seq<u8>,
        after: &Self,
        reply: OutReply,
    ) -> bool {
        let request = req.request;
        let rejected = reply == OutReply::Rejected;
        let kept = after.current() == self.current() && after.handler() == self.handler();
        match self.current() {
            State::DfuIdle => if request == Request::DFU_DNLOAD && H::CAN_DOWNLOAD && 0 < req.length
                <= H::TRANSFER_SIZE {
                self.downloads(req, data, after, reply)
            } else if request == Request::DFU_ABORT {
                kept && reply == OutReply::Accepted
            } else {
                self.stalls(after, rejected)
            },
            State::DfuDnloadIdle => if request == Request::DFU_DNLOAD && 0 < req.length
                <= H::TRANSFER_SIZE {
                self.downloads(req, data, after, reply)
            } else if request == Request::DFU_DNLOAD && req.length == 0 {
                self.ends_download(after, reply)
            } else {
                self.stalls(after, rejected)
            },
            State::DfuManifestWaitReset => kept && reply == OutReply::Accepted,
            State::DfuUploadIdle => if request == Request::DFU_ABORT {
                after.current() == State::DfuIdle && after.handler() == self.handler() && reply
                    == OutReply::Accepted
            } else {
                self.stalls(after, rejected)
            },
            State::DfuError(_) => if request == Request::DFU_CLRSTATUS {
                after.current() == State::DfuIdle && after.handler() == self.handler() && reply
                    == OutReply::Accepted
            } else {
                kept && rejected
            },
            _ => self.stalls(after, rejected),
        }
    }

    /// What `elapsed` milliseconds do: in `DfuDnloadBusy` and in
    /// `DfuManifest` the handler goes on with its work and the state
    /// follows `tick_outcome`; in the other states nothing happens.
    pub open spec fn tick(&self, elapsed: u32, after: &Self) -> bool {
        if self.current() is DfuDnloadBusy || self.current() is DfuManifest {
            exists|r: Result<(), Error>|
                {
                    &&& #[trigger] self.handler().poll_answer(&after.handler(), r)
                    &&& after.current() == tick_outcome(
                        self.current(),
                        r,
                        elapsed,
                        H::IS_MANIFESTATION_TOLERANT,
                    )
                }
        } else {
            after.current() == self.current() && after.handler() == self.handler()
        }
    }

    /// A step of the state machine leads to a state and a reply that
    /// `control_in_allows` allows.
    pub proof fn lemma_in_step_allowed(&self, req: &ControlRequest, after: &Self, reply: InReply)
        requires
            self.in_step(req, after, reply),
        ensures
            Self::in_allowed(self.current(), req, after.current(), reply),
    {
    }

    /// A step of the state machine leads to a state and a reply that
    /// `control_out_allows` allows.
    pub proof fn lemma_out_step_allowed(
        &self,
        req: &ControlRequest,
        data: Seq<u8>,
        after: &Self,
        reply: OutReply,
    )
        requires
            self.out_step(req, data, after, reply),
        ensures
            Self::out_allowed(self.current(), req, after.current(), reply),
    {
    }

    /// The class on interface `interface_number`: the handler is asked
    /// whether the firmware is valid, and the state follows
    /// `initial_state`.
    pub fn new(interface_number: u8, handler: H) -> (class: Self)
        requires
            handler.inv(),
        ensures
            class.wf(),
            class.interface() == interface_number,
            exists|valid: bool|
                {
                    &&& #[trigger] handler.validity_answer(&class.handler(), valid)
                    &&& class.current() == initial_state(valid)
                },
    {
        let ghost before = handler;
        let mut handler = handler;
        let firmware_is_valid = handler.is_firmware_valid();
        assert(before.validity_answer(&handler, firmware_is_valid));
        let class = Self {
            interface_number,
            handler,
            state: after_validity_check(firmware_is_valid),
        };
        assert(before.validity_answer(&class.handler(), firmware_is_valid));
        assert(class.current() == initial_state(firmware_is_valid));
        class
    }

    /// The state as the host sees it.
    pub fn state(&self) -> (state: State)
        ensures
            state == self.current(),
    {
        self.state
    }

    /// The handler, to look at.
    pub fn handler_ref(&self) -> (handler: &H)
        ensures
            *handler == self.handler(),
    {
        &self.handler
    }

    fn accept_get_state(&self) -> (reply: InReply)
        ensures
            reply.is_data(seq![self.current().code()]),
    {
        InReply::Data(get_state_reply(self.state))
    }

    fn accept_get_status(&self, poll_timeout: u32) -> (reply: InReply)
        ensures
            reply.is_data(status_reply(self.current(), poll_timeout)),
    {
        InReply::Data(get_status_reply(self.state, poll_timeout))
    }

    fn stall_in(&mut self) -> (reply: InReply)
        ensures
            old(self).stalls(final(self), reply is Rejected),
            final(self).interface() == old(self).interface(),
    {
        self.state = State::DfuError(Error::StalledPkt);
        InReply::Rejected
    }

    fn stall_out(&mut self) -> (reply: OutReply)
        ensures
            old(self).stalls(final(self), reply == OutReply::Rejected),
            final(self).interface() == old(self).interface(),
    {
        self.state = State::DfuError(Error::StalledPkt);
        OutReply::Rejected
    }

    /// Asks the handler for up to `wLength` bytes, and for no more than a
    /// transfer holds. Fewer end the upload; an error is reported with an
    /// empty reply.
    fn accept_upload(&mut self, req: &ControlRequest) -> (reply: InReply)
        requires
            old(self).wf(),
        ensures
            final(self).wf(),
            final(self).interface() == old(self).interface(),
            old(self).uploads(req, final(self), reply),
    {
        let block_number = req.value;
        let length: usize = req.length as usize;
        let size: usize = if req.length <= H::TRANSFER_SIZE {
            length
        } else {
            H::TRANSFER_SIZE as usize
        };
        let mut buf = zeroed(size);
        let ghost space = zeros(upload_size(req.length, H::TRANSFER_SIZE));
        let res = self.handler.upload(block_number, buf.as_mut_slice());
        let ghost filled = buf@;
        self.state = after_upload(res, length);
        let reply = match res {
            Ok(sz) => {
                buf.truncate(sz);
                InReply::Data(buf)
            },
            Err(_) => InReply::Data(Vec::new()),
        };
        proof {
            assert(old(self).handler().upload_answer(
                req.value,
                space,
                &self.handler(),
                filled,
                res,
            ));
            assert(reply.is_data(
                match res {
                    Ok(n) => filled.subrange(0, n as int),
                    Err(_) => Seq::empty(),
                },
            ));
        }
        reply
    }

    /// Hands the block to the handler.
    fn accept_download(&mut self, req: &ControlRequest, data: &[u8]) -> (reply: OutReply)
        requires
            old(self).wf(),
            0 < data@.len() <= H::TRANSFER_SIZE,
        ensures
            final(self).wf(),
            final(self).interface() == old(self).interface(),
            old(self).downloads(req, data@, final(self), reply),
    {
        let block_number = req.value;
        let res = self.handler.download(block_number, data);
        self.state = after_download(res);
        assert(old(self).handler().download_answer(req.value, data@, &self.handler(), res));
        OutReply::Accepted
    }

    fn idle_in(&mut self, req: &ControlRequest) -> (reply: InReply)
        requires
            old(self).wf(),
            old(self).current() == State::DfuIdle,
        ensures
            final(self).wf(),
            final(self).interface() == old(self).interface(),
            old(self).in_step(req, final(self), reply),
    {
        if req.request == Request::DFU_UPLOAD && H::CAN_UPLOAD && req.length <= H::TRANSFER_SIZE {
            self.accept_upload(req)
        } else if req.request == Request::DFU_GETSTATUS {
            self.accept_get_status(1)
        } else if req.request == Request::DFU_GETSTATE {
            self.accept_get_state()
        } else {
            self.stall_in()
        }
    }

    fn idle_out(&mut self, req: &ControlRequest, data: &[u8]) -> (reply: OutReply)
        requires
            old(self).wf(),
            old(self).current() == State::DfuIdle,
            data@.len() == req.length,
        ensures
            final(self).wf(),
            final(self).interface() == old(self).interface(),
            old(self).out_step(req, data@, final(self), reply),
    {
        if req.request == Request::DFU_DNLOAD && H::CAN_DOWNLOAD && req.length > 0 && req.length
            <= H::TRANSFER_SIZE {
            self.accept_download(req, data)
        } else if req.request == Request::DFU_ABORT {
            OutReply::Accepted
        } else {
            self.stall_out()
        }
    }

    fn download_sync_in(&mut self, req: &ControlRequest) -> (reply: InReply)
        requires
            old(self).wf(),
            old(self).current() == State::DfuDnloadSync,
        ensures
            final(self).wf(),
            final(self).interface() == old(self).interface(),
            old(self).in_step(req, final(self), reply),
    {
        if req.request == Request::DFU_GETSTATE {
            self.accept_get_state()
        } else if req.request == Request::DFU_GETSTATUS {
            let res = self.handler.is_transfer_complete();
            self.state = after_transfer_check(res, H::POLL_TIMEOUT);
            assert(old(self).handler().transfer_answer(&self.handler(), res));
            self.accept_get_status(H::POLL_TIMEOUT)
        } else {
            self.stall_in()
        }
    }

    fn download_idle_in(&mut self, req: &ControlRequest) -> (reply: InReply)
        requires
            old(self).wf(),
            old(self).current() == State::DfuDnloadIdle,
        ensures
            final(self).wf(),
            final(self).interface() == old(self).interface(),
            old(self).in_step(req, final(self), reply),
    {
        if req.request == Request::DFU_GETSTATE {
            self.accept_get_state()
        } else if req.request == Request::DFU_GETSTATUS {
            self.accept_get_status(H::POLL_TIMEOUT)
        } else {
            self.stall_in()
        }
    }

    fn download_idle_out(&mut self, req: &ControlRequest, data: &[u8]) -> (reply: OutReply)
        requires
            old(self).wf(),
            old(self).current() == State::DfuDnloadIdle,
            data@.len() == req.length,
        ensures
            final(self).wf(),
            final(self).interface() == old(self).interface(),
            old(self).out_step(req, data@, final(self), reply),
    {
        if req.request == Request::DFU_DNLOAD && req.length > 0 && req.length <= H::TRANSFER_SIZE {
            self.accept_download(req, data)
        } else if req.request == Request::DFU_DNLOAD && req.length == 0 {
            let res = self.handler.is_transfer_complete();
            self.state = after_end_of_download(res);
            assert(old(self).handler().transfer_answer(&self.handler(), res));
            match res {
                Ok(true) => OutReply::Accepted,
                _ => OutReply::Rejected,
            }
        } else {
            self.stall_out()
        }
    }

    fn manifest_sync_in(&mut self, req: &ControlRequest) -> (reply: InReply)
        requires
            old(self).wf(),
            old(self).current() == State::DfuManifestSync,
        ensures
            final(self).wf(),
            final(self).interface() == old(self).interface(),
            old(self).in_step(req, final(self), reply),
    {
        if req.request == Request::DFU_GETSTATE {
            self.accept_get_state()
        } else if req.request == Request::DFU_GETSTATUS {
            let res = self.handler.is_manifestation_in_progress();
            self.state = after_manifestation_check(
                res,
                H::IS_MANIFESTATION_TOLERANT,
                H::POLL_TIMEOUT,
            );
            assert(old(self).handler().manifestation_answer(&self.handler(), res));
            match res {
                Ok(false) => if H::IS_MANIFESTATION_TOLERANT {
                    self.accept_get_status(H::POLL_TIMEOUT)
                } else {
                    InReply::Rejected
                },
                _ => self.accept_get_status(H::POLL_TIMEOUT),
            }
        } else {
            self.stall_in()
        }
    }

    fn upload_in(&mut self, req: &ControlRequest) -> (reply: InReply)
        requires
            old(self).wf(),
            old(self).current() == State::DfuUploadIdle,
        ensures
            final(self).wf(),
            final(self).interface() == old(self).interface(),
            old(self).in_step(req, final(self), reply),
    {
        if req.request == Request::DFU_UPLOAD {
            self.accept_upload(req)
        } else if req.request == Request::DFU_GETSTATUS {
            self.accept_get_status(1)
        } else if req.request == Request::DFU_GETSTATE {
            self.accept_get_state()
        } else {
            self.stall_in()
        }
    }

    fn upload_out(&mut self, req: &ControlRequest, data: &[u8]) -> (reply: OutReply)
        requires
            old(self).current() == State::DfuUploadIdle,
        ensures
            final(self).interface() == old(self).interface(),
            old(self).out_step(req, data@, final(self), reply),
    {
        if req.request == Request::DFU_ABORT {
            self.state = State::DfuIdle;
            OutReply::Accepted
        } else {
            self.stall_out()
        }
    }

    fn error_in(&mut self, req: &ControlRequest) -> (reply: InReply)
        requires
            old(self).current() is DfuError,
        ensures
            final(self).interface() == old(self).interface(),
            old(self).in_step(req, final(self), reply),
    {
        if req.request == Request::DFU_GETSTATE {
            self.accept_get_state()
        } else if req.request == Request::DFU_GETSTATUS {
            self.accept_get_status(1)
        } else {
            InReply::Rejected
        }
    }

    fn error_out(&mut self, req: &ControlRequest, data: &[u8]) -> (reply: OutReply)
        requires
            old(self).current() is DfuError,
        ensures
            final(self).interface() == old(self).interface(),
            old(self).out_step(req, data@, final(self), reply),
    {
        if req.request == Request::DFU_CLRSTATUS {
            self.state = State::DfuIdle;
            OutReply::Accepted
        } else {
            OutReply::Rejected
        }
    }

    /// `control_in_allows` for this device.
    pub open spec fn in_allowed(state: State, req: &ControlRequest, next: State, reply: InReply)
        -> bool {
        control_in_allows(
            state,
            req.request,
            req.length,
            H::CAN_UPLOAD,
            H::IS_MANIFESTATION_TOLERANT,
            H::TRANSFER_SIZE,
            H::POLL_TIMEOUT,
            next,
            reply,
        )
    }

    /// `control_out_allows` for this device.
    pub open spec fn out_allowed(state: State, req: &ControlRequest, next: State, reply: OutReply)
        -> bool {
        control_out_allows(
            state,
            req.request,
            req.length,
            H::CAN_DOWNLOAD,
            H::TRANSFER_SIZE,
            next,
            reply,
        )
    }

    /// Lets `elapsed` milliseconds pass. In `DfuDnloadBusy` and in
    /// `DfuManifest` the handler goes on with its work and the time left is
    /// counted down; in the other states nothing happens.
    pub fn poll(&mut self, elapsed: u32)
        requires
            old(self).wf(),
        ensures
            final(self).wf(),
            final(self).interface() == old(self).interface(),
            old(self).tick(elapsed, final(self)),
    {
        match self.state {
            State::DfuDnloadBusy(_) => {
                let res = self.handler.poll();
                self.state = after_tick(self.state, res, elapsed, H::IS_MANIFESTATION_TOLERANT);
                assert(old(self).handler().poll_answer(&self.handler(), res));
            },
            State::DfuManifest(_) => {
                let res = self.handler.poll();
                self.state = after_tick(self.state, res, elapsed, H::IS_MANIFESTATION_TOLERANT);
                assert(old(self).handler().poll_answer(&self.handler(), res));
            },
            _ => {},
        }
    }

    /// Answers a control IN transfer. One that is not a class request to
    /// this interface is ignored; any other is answered as `in_step` says,
    /// which leads to a state and a reply that `control_in_allows` allows.
    pub fn control_in(&mut self, req: &ControlRequest) -> (reply: InReply)
        requires
            old(self).wf(),
        ensures
            final(self).wf(),
            final(self).interface() == old(self).interface(),
            !req.is_for_interface(old(self).interface()) ==> reply is Ignored,
            !req.is_for_interface(old(self).interface()) ==> final(self).current()
                == old(self).current() && final(self).handler() == old(self).handler(),
            req.is_for_interface(old(self).interface()) ==> old(self).in_step(
                req,
                final(self),
                reply,
            ) && Self::in_allowed(old(self).current(), req, final(self).current(), reply),
    {
        if !req.addressed_to(self.interface_number) {
            return InReply::Ignored;
        }
        let reply = match self.state {
            State::DfuIdle => self.idle_in(req),
            State::DfuDnloadSync => self.download_sync_in(req),
            State::DfuDnloadIdle => self.download_idle_in(req),
            State::DfuManifestSync => self.manifest_sync_in(req),
            State::DfuManifestWaitReset => InReply::Data(Vec::new()),
            State::DfuUploadIdle => self.upload_in(req),
            State::DfuError(_) => self.error_in(req),
            _ => self.stall_in(),
        };
        proof {
            old(self).lemma_in_step_allowed(req, &*self, reply);
        }
        reply
    }

    /// Answers a control OUT transfer with the data `data`. One that is not
    /// a class request to this interface is ignored; any other is answered
    /// as `out_step` says, which leads to a state and a reply that
    /// `control_out_allows` allows.
    pub fn control_out(&mut self, req: &ControlRequest, data: &[u8]) -> (reply: OutReply)
        requires
            old(self).wf(),
            data@.len() == req.length,
        ensures
            final(self).wf(),
            final(self).interface() == old(self).interface(),
            !req.is_for_interface(old(self).interface()) ==> reply == OutReply::Ignored,
            !req.is_for_interface(old(self).interface()) ==> final(self).current()
                == old(self).current() && final(self).handler() == old(self).handler(),
            req.is_for_interface(old(self).interface()) ==> old(self).out_step(
                req,
                data@,
                final(self),
                reply,
            ) && Self::out_allowed(old(self).current(), req, final(self).current(), reply),
    {
        if !req.addressed_to(self.interface_number) {
            return OutReply::Ignored;
        }
        let reply = match self.state {
            State::DfuIdle => self.idle_out(req, data),
            State::DfuDnloadIdle => self.download_idle_out(req, data),
            State::DfuManifestWaitReset => OutReply::Accepted,
            State::DfuUploadIdle => self.upload_out(req, data),
            State::DfuError(_) => self.error_out(req, data),
            _ => self.stall_out(),
        };
        proof {
            old(self).lemma_out_step_allowed(req, data@, &*self, reply);
        }
        reply
    }
}

} // verus!
