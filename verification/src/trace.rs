//! The message that a panic leaves behind for the next boot, and the
//! buffer that holds the trace of the firmware.

use vstd::prelude::*;
use vstd::string::StringSliceAdditionalSpecFns;

verus! {

/// `core::fmt::Error`, the error of formatting; nothing is known of it.
#[verifier::external_type_specification]
#[verifier::external_body]
pub struct ExFmtError(core::fmt::Error);

/// Number of bytes that a message can have.
pub const MESSAGE_CAPACITY: usize = 1024;

/// What `write_str` adds for a string of these bytes: all of them, or as
/// many as the whole buffer holds.
pub open spec fn added(bytes: Seq<u8>) -> Seq<u8> {
    if bytes.len() < MESSAGE_CAPACITY {
        bytes
    } else {
        bytes.subrange(0, MESSAGE_CAPACITY as int)
    }
}

/// A message in a buffer that survives a reset.
pub struct LastPanicMessage {
    /// Number of bytes of the message.
    pub len: usize,
    pub buffer: [u8; 1024],
}

impl LastPanicMessage {
    /// The message.
    pub open spec fn message(self) -> Seq<u8> {
        self.buffer@.subrange(0, self.len as int)
    }

    /// An empty message in a buffer of zeros.
    pub fn new() -> (message: Self)
        ensures
            message.len == 0,
            message.message() == Seq::<u8>::empty(),
            message.buffer@ == Seq::new(MESSAGE_CAPACITY as nat, |i: int| 0u8),
    {
        let message = Self { len: 0, buffer: [0u8; 1024] };
        assert(message.message() =~= Seq::<u8>::empty());
        assert(message.buffer@ =~= Seq::new(MESSAGE_CAPACITY as nat, |i: int| 0u8));
        message
    }

    /// Adds `s` to the message, or as much of `s` as the whole buffer
    /// would hold. What is added must fit behind the message; the buffer
    /// behind what is added stays as it is.
    pub fn write_str(&mut self, s: &str) -> (r: Result<(), core::fmt::Error>)
        requires
            old(self).len + added(s.spec_bytes()).len() <= MESSAGE_CAPACITY,
        ensures
            r is Ok,
            final(self).len == old(self).len + added(s.spec_bytes()).len(),
            final(self).message() == old(self).message() + added(s.spec_bytes()),
            final(self).buffer@.subrange(final(self).len as int, MESSAGE_CAPACITY as int)
                == old(self).buffer@.subrange(final(self).len as int, MESSAGE_CAPACITY as int),
    {
        let bytes = s.as_bytes();
        let len = if bytes.len() < MESSAGE_CAPACITY {
            bytes.len()
        } else {
            MESSAGE_CAPACITY
        };
        let start = self.len;
        let end = start + len;
        let mut i: usize = 0;
        while i < len
            invariant
                i <= len <= bytes@.len(),
                start == old(self).len,
                start + len <= MESSAGE_CAPACITY,
                self.len == old(self).len,
                forall|j: int| 0 <= j < start ==> self.buffer@[j] == old(self).buffer@[j],
                forall|j: int| 0 <= j < i ==> self.buffer@[start + j] == bytes@[j],
                forall|j: int|
                    start + i <= j < MESSAGE_CAPACITY ==> self.buffer@[j] == old(self).buffer@[j],
            decreases len - i,
        {
            self.buffer[start + i] = bytes[i];
            i += 1;
        }
        self.len = end;
        assert(self.message() =~= old(self).message() + added(s.spec_bytes()));
        assert(self.buffer@.subrange(end as int, MESSAGE_CAPACITY as int)
            =~= old(self).buffer@.subrange(end as int, MESSAGE_CAPACITY as int));
        Ok(())
    }
}

/// What `DbgWriter::write_str` adds for a string of these bytes where
/// `room` bytes are free: all of them, or as many as there is room for.
pub open spec fn written(room: int, bytes: Seq<u8>) -> Seq<u8> {
    if room < bytes.len() {
        bytes.subrange(0, room)
    } else {
        bytes
    }
}

/// A trace that is written into a buffer and drained from its start.
pub struct DbgWriter {
    buffer: &'static mut [u8],
    len: usize,
}

impl DbgWriter {
    /// What the buffer holds, used or not.
    pub closed spec fn held(&self) -> Seq<u8> {
        self.buffer@
    }

    /// The number of bytes of the buffer that are in use.
    pub closed spec fn count(&self) -> usize {
        self.len
    }

    /// Where `write_str` starts to write: behind what is in use, or at the
    /// start of the buffer if the count is beyond the buffer.
    pub open spec fn start(&self) -> int {
        if self.count() > self.held().len() {
            0
        } else {
            self.count() as int
        }
    }

    /// An empty trace in `buffer`.
    pub fn using_buffer(buffer: &'static mut [u8]) -> (writer: Self)
        ensures
            writer.held() == old(buffer)@,
            writer.count() == 0,
    {
        Self { buffer, len: 0 }
    }

    /// The number of bytes in use.
    pub fn len(&self) -> (len: usize)
        ensures
            len == self.count(),
    {
        self.len
    }

    /// The bytes in use.
    pub fn pending(&self) -> (bytes: &[u8])
        requires
            self.count() <= self.held().len(),
        ensures
            bytes@ == self.held().subrange(0, self.count() as int),
    {
        vstd::slice::slice_subrange(&*self.buffer, 0, self.len)
    }

    /// Adds `s`, or as much of `s` as the buffer has room for.
    pub fn write_str(&mut self, s: &str) -> (r: Result<(), core::fmt::Error>)
        ensures
            r is Ok,
            final(self).held().len() == old(self).held().len(),
            final(self).count() == old(self).start() + written(
                old(self).held().len() - old(self).start(),
                s.spec_bytes(),
            ).len(),
            final(self).held() == old(self).held().subrange(0, old(self).start()) + written(
                old(self).held().len() - old(self).start(),
                s.spec_bytes(),
            ) + old(self).held().subrange(
                final(self).count() as int,
                old(self).held().len() as int,
            ),
    {
        if self.len > self.buffer.len() {
            self.len = 0;
        }
        let bytes = s.as_bytes();
        let capacity = self.buffer.len();
        let room = capacity - self.len;
        let len = if room < bytes.len() {
            room
        } else {
            bytes.len()
        };
        let from = self.len;
        let mut i: usize = 0;
        while i < len
            invariant
                i <= len <= bytes@.len(),
                from + len <= capacity,
                capacity == self.buffer@.len(),
                self.buffer@.len() == old(self).buffer@.len(),
                self.len == from,
                from == old(self).start(),
                forall|j: int| 0 <= j < from ==> self.buffer@[j] == old(self).buffer@[j],
                forall|j: int| 0 <= j < i ==> self.buffer@[from + j] == bytes@[j],
                forall|j: int|
                    from + i <= j < self.buffer@.len() ==> self.buffer@[j] == old(self).buffer@[j],
            decreases len - i,
        {
            self.buffer[from + i] = bytes[i];
            i += 1;
        }
        self.len = from + len;
        assert(self.held() =~= old(self).held().subrange(0, old(self).start()) + written(
            old(self).held().len() - old(self).start(),
            s.spec_bytes(),
        ) + old(self).held().subrange(self.count() as int, old(self).held().len() as int));
        Ok(())
    }

    /// Takes `consumed` bytes off the count, and moves as many bytes from
    /// behind the new count to the start of the buffer.
    pub fn consume(&mut self, consumed: usize)
        requires
            consumed <= old(self).count() <= old(self).held().len(),
        ensures
            final(self).count() == old(self).count() - consumed,
            final(self).held() == old(self).held().subrange(
                old(self).count() - consumed,
                old(self).count() as int,
            ) + old(self).held().subrange(consumed as int, old(self).held().len() as int),
    {
        let len = self.len;
        let capacity = self.buffer.len();
        self.len = len - consumed;
        let from = self.len;
        let mut i: usize = 0;
        while i < consumed
            invariant
                i <= consumed,
                from + consumed == len,
                len <= capacity,
                capacity == self.buffer@.len(),
                self.len == from,
                self.buffer@.len() == old(self).buffer@.len(),
                forall|j: int| 0 <= j < i ==> self.buffer@[j] == old(self).buffer@[from + j],
                forall|j: int|
                    i <= j < self.buffer@.len() ==> self.buffer@[j] == old(self).buffer@[j],
            decreases consumed - i,
        {
            let byte = self.buffer[from + i];
            self.buffer[i] = byte;
            i += 1;
        }
        assert(self.held() =~= old(self).held().subrange(
            old(self).count() - consumed,
            old(self).count() as int,
        ) + old(self).held().subrange(consumed as int, old(self).held().len() as int));
    }
}

} // verus!
