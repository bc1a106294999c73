//! The runtime variant of the class: it lives beside the device's normal
//! function and does no more than take the request to detach.

use vstd::prelude::*;
use crate::protocol::{
    get_state_reply,
    get_status_reply,
    status_reply,
    Capabilities,
    ControlRequest,
    InReply,
    OutReply,
    Request,
    State,
};

verus! {

/// What the device does when the host asks it to leave for the bootloader.
///
/// Each method has a relation beside it that says what the method may
/// leave behind; the class's contracts are stated over these relations. A
/// handler that says nothing of itself keeps them as they are here, true
/// of everything.
pub trait DeviceFirmwareUpgrade: Capabilities {
    /// What `on_reset` may leave behind.
    open spec fn reset_answer(&self, after: &Self) -> bool {
        true
    }

    /// What `on_detach_request` may leave behind.
    open spec fn detach_answer(&self, timeout_ms: u16, after: &Self) -> bool {
        true
    }

    /// Called when the host resets the bus after a detach request.
    fn on_reset(&mut self)
        ensures
            old(self).reset_answer(final(self)),
    ;

    /// Called when a detach request is received by the device. If `WILL_DETACH` is true, the
    /// device must initiate the detach-attach sequence now.
    fn on_detach_request(&mut self, timeout_ms: u16)
        ensures
            old(self).detach_answer(timeout_ms, final(self)),
    ;
}

/// The state after `elapsed_ms` milliseconds: a detach request lapses when
/// its time is used up.
pub open spec fn after_elapsed(state: State, elapsed_ms: u32) -> State {
    match state {
        State::AppDetach(remaining) => if remaining <= elapsed_ms {
            State::AppIdle
        } else {
            State::AppDetach((remaining - elapsed_ms) as u32)
        },
        _ => state,
    }
}

/// The state and the reply after the control IN request `request`: the
/// state and the status are read; anything else is stalled and ends a
/// detach request.
pub open spec fn runtime_in_allows(state: State, request: u8, next: State, reply: InReply) -> bool {
    if request == Request::DFU_GETSTATE {
        next == state && reply.is_data(seq![state.code()])
    } else if request == Request::DFU_GETSTATUS {
        next == state && reply.is_data(status_reply(state, 1))
    } else {
        next == State::AppIdle && reply is Rejected
    }
}

/// The state after the control OUT request `request` with `wValue`
/// `value`: a detach request starts its time; anything else is stalled and
/// ends a detach request.
pub open spec fn runtime_out_next(request: u8, value: u16) -> State {
    if request == Request::DFU_DETACH {
        State::AppDetach(value as u32)
    } else {
        State::AppIdle
    }
}

/// The runtime variant of the class.
pub struct DFURuntimeClass<H: DeviceFirmwareUpgrade> {
    handler: H,
    interface_number: u8,
    state: State,
}

impl<H: DeviceFirmwareUpgrade> DFURuntimeClass<H> {
    /// The state as the host sees it.
    pub closed spec fn current(&self) -> State {
        self.state
    }

    /// The handler.
    pub closed spec fn handler(&self) -> H {
        self.handler
    }

    /// The number of the interface that the class answers for.
    pub closed spec fn interface(&self) -> u8 {
        self.interface_number
    }

    /// The class on interface `interface_number`, in `AppIdle`.
    pub fn new(interface_number: u8, handler: H) -> (class: Self)
        ensures
            class.current() == State::AppIdle,
            class.interface() == interface_number,
            class.handler() == handler,
    {
        Self { handler, interface_number, state: State::AppIdle }
    }

    /// The state as the host sees it.
    pub fn state(&self) -> (state: State)
        ensures
            state == self.current(),
    {
        self.state
    }

    /// The handler, to look at.
    pub fn handler_ref(&self) -> (handler: &H)
        ensures
            *handler == self.handler(),
    {
        &self.handler
    }

    /// Lets `elapsed_ms` milliseconds pass. Ideally this is called once
    /// every millisecond.
    pub fn poll(&mut self, elapsed_ms: u32)
        ensures
            final(self).current() == after_elapsed(old(self).current(), elapsed_ms),
            final(self).handler() == old(self).handler(),
            final(self).interface() == old(self).interface(),
    {
        if let State::AppDetach(remaining) = self.state {
            let rem = remaining.saturating_sub(elapsed_ms);
            if rem == 0 {
                self.state = State::AppIdle;
            } else {
                self.state = State::AppDetach(rem);
            }
        }
    }

    /// The host has reset the bus: the handler is told if a detach request
    /// is pending, and only then.
    pub fn reset(&mut self)
        ensures
            final(self).current() == old(self).current(),
            final(self).interface() == old(self).interface(),
            if old(self).current() is AppDetach {
                old(self).handler().reset_answer(&final(self).handler())
            } else {
                final(self).handler() == old(self).handler()
            },
    {
        if let State::AppDetach(_) = self.state {
            self.handler.on_reset();
        }
    }

    /// Answers a control IN transfer. One that is not a class request to
    /// this interface is ignored; any other is answered as
    /// `runtime_in_allows` says.
    pub fn control_in(&mut self, req: &ControlRequest) -> (reply: InReply)
        ensures
            final(self).handler() == old(self).handler(),
            final(self).interface() == old(self).interface(),
            !req.is_for_interface(old(self).interface()) ==> reply is Ignored,
            !req.is_for_interface(old(self).interface()) ==> final(self).current()
                == old(self).current(),
            req.is_for_interface(old(self).interface()) ==> runtime_in_allows(
                old(self).current(),
                req.request,
                final(self).current(),
                reply,
            ),
    {
        if !req.addressed_to(self.interface_number) {
            return InReply::Ignored;
        }
        if req.request == Request::DFU_GETSTATE {
            InReply::Data(get_state_reply(self.state))
        } else if req.request == Request::DFU_GETSTATUS {
            InReply::Data(get_status_reply(self.state, 1))
        } else {
            self.state = State::AppIdle;
            InReply::Rejected
        }
    }

    /// Answers a control OUT transfer. One that is not a class request to
    /// this interface is ignored. A detach request is accepted, its time
    /// starts to run and the handler is told; anything else is stalled and
    /// ends a detach request.
    pub fn control_out(&mut self, req: &ControlRequest) -> (reply: OutReply)
        ensures
            final(self).interface() == old(self).interface(),
            !req.is_for_interface(old(self).interface()) ==> reply == OutReply::Ignored,
            !req.is_for_interface(old(self).interface()) ==> final(self).current()
                == old(self).current(),
            req.is_for_interface(old(self).interface()) ==> final(self).current()
                == runtime_out_next(req.request, req.value),
            req.is_for_interface(old(self).interface()) ==> reply == if req.request
                == Request::DFU_DETACH {
                OutReply::Accepted
            } else {
                OutReply::Rejected
            },
            if req.is_for_interface(old(self).interface()) && req.request == Request::DFU_DETACH {
                old(self).handler().detach_answer(req.value, &final(self).handler())
            } else {
                final(self).handler() == old(self).handler()
            },
    {
        if !req.addressed_to(self.interface_number) {
            return OutReply::Ignored;
        }
        if req.request == Request::DFU_DETACH {
            let timeout_ms = req.value;
            self.state = State::AppDetach(timeout_ms as u32);
            self.handler.on_detach_request(timeout_ms);
            OutReply::Accepted
        } else {
            self.state = State::AppIdle;
            OutReply::Rejected
        }
    }
}

} // verus!
