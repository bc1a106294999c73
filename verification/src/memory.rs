//! The flash engine: unlock, erase one sector, program one word, check.
//! One operation at a time; `erase` and `program` start an operation and
//! `poll` looks whether it has ended, without ever waiting.

use vstd::prelude::*;
use crate::flash::{Flash, Status};
use crate::layout::{bytes_at, is_blank, same_outside, FLASH_END, FLASH_SIZE, FLASH_START};
use crate::protocol::Error;
use crate::sector::{sector_length, sector_start, Sector};

verus! {

/// Whether something that was started has ended, and how.
#[derive(Debug, PartialEq, Eq)]
pub enum Poll<T> {
    Ready(T),
    Pending,
}

/// What the engine is doing.
#[derive(Debug, Clone, Copy)]
pub enum MemoryState {
    Erasing(Sector),
    Programming {
        /// Where the word goes.
        addr: usize,
        /// The word's width in bytes: 1, 2 or 4.
        to_write: usize,
        /// The word, in its first `to_write` bytes.
        src: [u8; 4],
    },
    Idle,
}

/// The width in bytes of the word that is programmed at `addr` when `len`
/// bytes are left: a byte at an odd address or when one byte is left, a
/// half-word at an address that is not a multiple of four or when fewer
/// than four bytes are left, else a word.
pub open spec fn word_width(addr: int, len: int) -> int {
    if addr % 2 == 1 || len == 1 {
        1
    } else if addr % 4 == 2 || len < 4 {
        2
    } else {
        4
    }
}

/// How an erasure of a sector ended, from the status read once the
/// controller is no longer busy and from whether the sector now reads
/// erased.
pub open spec fn erase_outcome(status: Status, erased: bool) -> Result<usize, Error> {
    if status.write_protection_error {
        Err(Error::Write)
    } else if status.operation_error {
        Err(Error::Erase)
    } else if !erased {
        Err(Error::CheckErased)
    } else {
        Ok(0)
    }
}

/// How the programming of a word of `width` bytes ended, from the status
/// read once the controller is no longer busy and from whether the flash
/// now reads what was to be written.
pub open spec fn program_outcome(status: Status, verified: bool, width: usize) -> Result<
    usize,
    Error,
> {
    if status.write_protection_error {
        Err(Error::Write)
    } else if status.operation_error {
        Err(Error::Programming)
    } else if !verified {
        Err(Error::Verify)
    } else {
        Ok(width)
    }
}

/// How the operation of `state` ended on a flash that holds `contents`,
/// from the status read once the controller is no longer busy.
pub open spec fn poll_outcome(state: MemoryState, status: Status, contents: Seq<u8>) -> Result<
    usize,
    Error,
> {
    match state {
        MemoryState::Idle => Ok(0),
        MemoryState::Erasing(sector) => erase_outcome(
            status,
            is_blank(
                contents,
                sector_start(sector.index()),
                sector_start(sector.index()) + sector_length(sector.index()),
            ),
        ),
        MemoryState::Programming { addr, to_write, src } => program_outcome(
            status,
            bytes_at(contents, addr as int, to_write as int) == src@.subrange(0, to_write as int),
            to_write,
        ),
    }
}

/// What `poll` answers while an operation is under way, from the status
/// that it reads: `Pending` while the controller is busy, else how the
/// operation ended.
pub open spec fn poll_result(state: MemoryState, status: Status, contents: Seq<u8>) -> Poll<
    Result<usize, Error>,
> {
    if status.busy {
        Poll::Pending
    } else {
        Poll::Ready(poll_outcome(state, status, contents))
    }
}

/// `after` is `before` with the sector numbered `index` erased.
pub open spec fn erased_from(before: Seq<u8>, after: Seq<u8>, index: int) -> bool {
    &&& same_outside(
        before,
        after,
        sector_start(index),
        sector_start(index) + sector_length(index),
    )
    &&& is_blank(after, sector_start(index), sector_start(index) + sector_length(index))
}

/// Erasing a sector that has just been erased changes nothing: after
/// `erase` and a `poll` that reports success, the flash is the flash from
/// before with the sector erased, and a second such round leaves it as the
/// first did.
pub proof fn lemma_erase_twice(first: Seq<u8>, second: Seq<u8>, third: Seq<u8>, index: int)
    requires
        first.len() == FLASH_SIZE,
        0 <= index < crate::sector::SECTOR_COUNT,
        erased_from(first, second, index),
        erased_from(second, third, index),
    ensures
        third == second,
{
    let start = sector_start(index);
    let end = start + sector_length(index);
    assert forall|i: int| 0 <= i < second.len() implies third[i] == second[i] by {
        let a = FLASH_START + i;
        if start <= a < end {
            assert(crate::layout::byte_at(second, a) == 0xFF);
            assert(crate::layout::byte_at(third, a) == 0xFF);
        } else {
            assert(crate::layout::byte_at(third, a) == crate::layout::byte_at(second, a));
        }
    }
    assert(third =~= second);
}

/// The engine is programming at `addr` the word that `data` starts with.
pub open spec fn is_programming(state: MemoryState, addr: usize, data: Seq<u8>) -> bool {
    &&& state matches MemoryState::Programming { addr: a, to_write, src }
    &&& a == addr
    &&& to_write == word_width(addr as int, data.len() as int)
    &&& src@.subrange(0, to_write as int) == data.subrange(0, to_write as int)
}

/// The width in bytes of the word to program at `addr` when `len` bytes are
/// left to write.
pub fn program_width(addr: usize, len: usize) -> (width: usize)
    requires
        len >= 1,
    ensures
        width == word_width(addr as int, len as int),
        width == 1 || width == 2 || width == 4,
        width <= len,
        addr % width == 0,
{
    assert((addr & 1 == 1) == (addr % 2 == 1)) by (bit_vector);
    assert((addr & 2 == 2) == (addr % 4 == 2 || addr % 4 == 3)) by (bit_vector);
    if addr & 1 == 1 || len == 1 {
        1
    } else if addr & 2 == 2 || len < 4 {
        2
    } else {
        4
    }
}

/// How an erasure ended: see `erase_outcome`.
pub fn erase_result(status: Status, erased: bool) -> (r: Result<usize, Error>)
    ensures
        r == erase_outcome(status, erased),
{
    if status.write_protection_error {
        Err(Error::Write)
    } else if status.operation_error {
        Err(Error::Erase)
    } else if !erased {
        Err(Error::CheckErased)
    } else {
        Ok(0)
    }
}

/// How the programming of a word ended: see `program_outcome`.
pub fn program_result(status: Status, verified: bool, width: usize) -> (r: Result<usize, Error>)
    ensures
        r == program_outcome(status, verified, width),
{
    if status.write_protection_error {
        Err(Error::Write)
    } else if status.operation_error {
        Err(Error::Programming)
    } else if !verified {
        Err(Error::Verify)
    } else {
        Ok(width)
    }
}

/// The flash engine. It owns the controller.
pub struct Memory<F: Flash> {
    flash: F,
    state: MemoryState,
}

impl<F: Flash> Memory<F> {
    /// What the engine is doing.
    pub closed spec fn state(&self) -> MemoryState {
        self.state
    }

    /// The controller.
    pub closed spec fn controller(&self) -> F {
        self.flash
    }

    /// What the flash holds.
    pub open spec fn contents(&self) -> Seq<u8> {
        self.controller().contents()
    }

    /// The controller is locked.
    pub open spec fn locked(&self) -> bool {
        self.controller().locked()
    }

    /// What `unlock` does to the controller: a locked one gets the key
    /// sequence, one that is not locked is left alone.
    pub open spec fn unlocks(before: F, after: F) -> bool {
        if before.locked() {
            before.unlock_answer(&after)
        } else {
            after == before
        }
    }

    /// Whether an operation is started on a controller: it is if and only
    /// if `unlock` leaves the controller unlocked.
    pub open spec fn can_start(before: F, started: bool) -> bool {
        exists|unlocked: F|
            {
                &&& #[trigger] Self::unlocks(before, unlocked)
                &&& started == !unlocked.locked()
            }
    }

    /// The flash has its size and a word in flight has a width and a place.
    pub open spec fn wf(&self) -> bool {
        &&& self.contents().len() == FLASH_SIZE
        &&& match self.state() {
            MemoryState::Erasing(sector) => sector.wf(),
            MemoryState::Programming { addr, to_write, src } => {
                &&& to_write == 1 || to_write == 2 || to_write == 4
                &&& FLASH_START <= addr
                &&& addr + to_write <= FLASH_END
            },
            MemoryState::Idle => true,
        }
    }

    /// An idle engine on `flash`.
    pub fn new(flash: F) -> (memory: Self)
        requires
            flash.contents().len() == FLASH_SIZE,
        ensures
            memory.wf(),
            memory.state() is Idle,
            memory.controller() == flash,
    {
        Self { flash, state: MemoryState::Idle }
    }

    /// The controller, to read the flash through.
    pub fn flash(&self) -> (flash: &F)
        ensures
            *flash == self.controller(),
    {
        &self.flash
    }

    /// Whether no operation is under way.
    pub fn is_idle(&self) -> (idle: bool)
        ensures
            idle == (self.state() is Idle),
    {
        match self.state {
            MemoryState::Idle => true,
            _ => false,
        }
    }

    /// Unlocks the controller if it is locked. `Write` if it is still
    /// locked afterwards. A controller that is not locked is left alone, so
    /// that unlocking twice is unlocking once.
    pub fn unlock(&mut self) -> (r: Result<(), Error>)
        ensures
            final(self).contents() == old(self).contents(),
            final(self).state() == old(self).state(),
            Self::unlocks(old(self).controller(), final(self).controller()),
            !old(self).locked() ==> *final(self) == *old(self),
            r is Ok <==> !final(self).locked(),
            r is Err ==> r == Err::<(), Error>(Error::Write),
    {
        if self.flash.is_locked() {
            self.flash.unlock();
            if self.flash.is_locked() {
                return Err(Error::Write);
            }
        }
        Ok(())
    }

    /// The operation that the engine is busy with was started on a
    /// controller that was `before`: that controller was unlocked and then
    /// given the one command.
    pub open spec fn started_on(&self, before: F) -> bool {
        exists|unlocked: F|
            {
                &&& #[trigger] Self::unlocks(before, unlocked)
                &&& !unlocked.locked()
                &&& match self.state() {
                    MemoryState::Erasing(sector) => unlocked.erase_answer(
                        sector.index() as u8,
                        &self.controller(),
                    ),
                    MemoryState::Programming { addr, to_write, src } => unlocked.program_answer(
                        addr,
                        src,
                        to_write,
                        &self.controller(),
                    ),
                    MemoryState::Idle => false,
                }
            }
    }

    /// Starts the erasure of `sector`. `Ready(Write)`, with nothing
    /// started, if the controller cannot be unlocked.
    pub fn erase(&mut self, sector: Sector) -> (r: Poll<Error>)
        requires
            old(self).wf(),
            old(self).state() is Idle,
        ensures
            final(self).wf(),
            r is Pending <==> !final(self).locked(),
            r is Pending ==> final(self).state() == MemoryState::Erasing(sector),
            r is Ready ==> r == Poll::Ready(Error::Write) && final(self).state() is Idle
                && final(self).contents() == old(self).contents(),
            same_outside(
                old(self).contents(),
                final(self).contents(),
                sector_start(sector.index()),
                sector_start(sector.index()) + sector_length(sector.index()),
            ),
            exists|unlocked: F|
                {
                    &&& #[trigger] Self::unlocks(old(self).controller(), unlocked)
                    &&& if unlocked.locked() {
                        r is Ready && final(self).controller() == unlocked
                    } else {
                        r is Pending && final(self).state() == MemoryState::Erasing(sector)
                            && unlocked.erase_answer(
                            sector.index() as u8,
                            &final(self).controller(),
                        )
                    }
                },
            Self::can_start(old(self).controller(), r is Pending),
            r is Pending ==> final(self).started_on(old(self).controller()),
    {
        match self.unlock() {
            Ok(()) => {},
            Err(e) => {
                assert(Self::unlocks(old(self).controller(), self.controller()));
                return Poll::Ready(e);
            },
        }
        proof {
            use_type_invariant(&sector);
        }
        let ghost unlocked = self.flash;
        assert(Self::unlocks(old(self).controller(), unlocked));
        self.flash.start_erase(sector.number());
        self.state = MemoryState::Erasing(sector);
        Poll::Pending
    }

    /// Starts programming one word at `addr`, taken from the start of
    /// `src`; its width is `word_width(addr, src.len())`. The word is
    /// copied: `src` is free again when this returns. `Ready(Write)`, with
    /// nothing started, if the controller cannot be unlocked.
    pub fn program(&mut self, addr: usize, src: &[u8]) -> (r: Poll<Error>)
        requires
            old(self).wf(),
            old(self).state() is Idle,
            src@.len() >= 1,
            FLASH_START <= addr,
            addr + word_width(addr as int, src@.len() as int) <= FLASH_END,
        ensures
            final(self).wf(),
            r is Pending <==> !final(self).locked(),
            r is Pending ==> is_programming(final(self).state(), addr, src@),
            r is Ready ==> r == Poll::Ready(Error::Write) && final(self).state() is Idle
                && final(self).contents() == old(self).contents(),
            same_outside(
                old(self).contents(),
                final(self).contents(),
                addr as int,
                addr + word_width(addr as int, src@.len() as int),
            ),
            exists|unlocked: F|
                {
                    &&& #[trigger] Self::unlocks(old(self).controller(), unlocked)
                    &&& if unlocked.locked() {
                        r is Ready && final(self).controller() == unlocked
                    } else {
                        &&& r is Pending
                        &&& final(self).state() matches MemoryState::Programming {
                            addr: place,
                            to_write,
                            src: word,
                        }
                        &&& unlocked.program_answer(
                            place,
                            word,
                            to_write,
                            &final(self).controller(),
                        )
                    }
                },
            Self::can_start(old(self).controller(), r is Pending),
            r is Pending ==> final(self).started_on(old(self).controller()),
    {
        match self.unlock() {
            Ok(()) => {},
            Err(e) => {
                assert(Self::unlocks(old(self).controller(), self.controller()));
                return Poll::Ready(e);
            },
        }
        let ghost unlocked = self.flash;
        assert(Self::unlocks(old(self).controller(), unlocked));
        let to_write = program_width(addr, src.len());
        let mut src_owned: [u8; 4] = [0u8; 4];
        let mut i: usize = 0;
        while i < to_write
            invariant
                i <= to_write <= 4,
                to_write <= src@.len(),
                forall|j: int| 0 <= j < i ==> src_owned@[j] == src@[j],
            decreases to_write - i,
        {
            src_owned[i] = src[i];
            i += 1;
        }
        assert(src_owned@.subrange(0, to_write as int) =~= src@.subrange(0, to_write as int));
        self.flash.start_program(addr, src_owned, to_write);
        self.state = MemoryState::Programming { addr, to_write, src: src_owned };
        Poll::Pending
    }

    /// Whether the flash holds the first `to_write` bytes of `src` at `addr`.
    fn verify(&self, addr: usize, to_write: usize, src: &[u8; 4]) -> (same: bool)
        requires
            self.contents().len() == FLASH_SIZE,
            to_write <= 4,
            FLASH_START <= addr,
            addr + to_write <= FLASH_END,
        ensures
            same == (bytes_at(self.contents(), addr as int, to_write as int) == src@.subrange(
                0,
                to_write as int,
            )),
    {
        let stored = self.flash.read(addr, to_write);
        let mut i: usize = 0;
        while i < to_write
            invariant
                i <= to_write <= 4,
                stored@ == bytes_at(self.contents(), addr as int, to_write as int),
                stored@.len() == to_write,
                forall|j: int| 0 <= j < i ==> stored@[j] == src@[j],
            decreases to_write - i,
        {
            if stored[i] != src[i] {
                assert(src@.subrange(0, to_write as int)[i as int] == src@[i as int]);
                return false;
            }
            i += 1;
        }
        assert(stored@ =~= src@.subrange(0, to_write as int));
        true
    }

    /// Looks whether the operation under way has ended. `Pending` while the
    /// controller is busy. Once it is not, the engine is idle again and the
    /// result is `poll_outcome` of the status that was read: the error that
    /// the controller flagged, else `CheckErased` or `Verify` if the flash
    /// does not read as it should, else the number of bytes written, 0
    /// after an erasure. `Ready(Ok(0))` when nothing was under way.
    pub fn poll(&mut self) -> (r: Poll<Result<usize, Error>>)
        requires
            old(self).wf(),
        ensures
            final(self).wf(),
            final(self).controller() == old(self).controller(),
            r is Pending ==> *final(self) == *old(self),
            r is Ready ==> final(self).state() is Idle,
            old(self).state() is Idle ==> r == Poll::Ready(Ok::<usize, Error>(0)),
            !(old(self).state() is Idle) ==> exists|status: Status|
                {
                    &&& #[trigger] old(self).controller().status_answer(status)
                    &&& r == poll_result(old(self).state(), status, old(self).contents())
                },
            r is Ready ==> exists|status: Status|
                !status.busy && r->Ready_0 == #[trigger] poll_outcome(
                    old(self).state(),
                    status,
                    old(self).contents(),
                ),
    {
        match self.state {
            MemoryState::Idle => {
                let ghost status = Status {
                    busy: false,
                    write_protection_error: false,
                    operation_error: false,
                };
                assert(Ok::<usize, Error>(0) == poll_outcome(
                    old(self).state(),
                    status,
                    old(self).contents(),
                ));
                Poll::Ready(Ok(0))
            },
            MemoryState::Erasing(sector) => {
                let status = self.flash.status();
                assert(old(self).controller().status_answer(status));
                if status.busy {
                    Poll::Pending
                } else {
                    let erased = if status.write_protection_error || status.operation_error {
                        false
                    } else {
                        sector.is_erased(&self.flash)
                    };
                    let res = erase_result(status, erased);
                    assert(res == poll_outcome(old(self).state(), status, old(self).contents()));
                    self.state = MemoryState::Idle;
                    Poll::Ready(res)
                }
            },
            MemoryState::Programming { addr, to_write, src } => {
                let status = self.flash.status();
                assert(old(self).controller().status_answer(status));
                if status.busy {
                    Poll::Pending
                } else {
                    let verified = if status.write_protection_error || status.operation_error {
                        false
                    } else {
                        self.verify(addr, to_write, &src)
                    };
                    let res = program_result(status, verified, to_write);
                    assert(res == poll_outcome(old(self).state(), status, old(self).contents()));
                    self.state = MemoryState::Idle;
                    Poll::Ready(res)
                }
            },
        }
    }
}

} // verus!
