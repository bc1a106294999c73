//! The flash controller as the engine sees it.

use vstd::prelude::*;
use crate::layout::{bytes_at, same_outside, FLASH_START};
use crate::sector::{sector_length, sector_start};

verus! {

/// The controller's status register, read once.
#[derive(Debug, Clone, Copy, PartialEq, Eq, Structural)]
pub struct Status {
    /// An operation is still running.
    pub busy: bool,
    /// The last operation hit a write-protected part.
    pub write_protection_error: bool,
    /// The last operation failed.
    pub operation_error: bool,
}

/// A flash controller with its memory.
///
/// `contents` is what reads of the flash return, byte by byte from
/// `FLASH_START` on. An operation changes it at the moment it is started,
/// and only where the operation is aimed; what it changes it to is the
/// hardware's business, which is why the engine checks after each
/// operation. What the status register shows is not modelled: it changes
/// by itself.
///
/// Each method that the hardware answers has a relation beside it that
/// says what it may answer and leave behind; the engine's contracts are
/// stated over these relations.
///
/// `RamFlash` keeps these contracts, and is verified to. For a controller
/// that is driven from outside the verified crate they are what the
/// engine takes for granted: such an implementation cannot say what its
/// flash holds and leaves `contents`, `locked` and the relations as they
/// are here.
pub trait Flash {
    /// What reads of the flash return.
    open spec fn contents(&self) -> Seq<u8> {
        arbitrary()
    }

    /// The control register is locked against commands.
    open spec fn locked(&self) -> bool {
        arbitrary()
    }

    /// What `unlock` may leave behind.
    open spec fn unlock_answer(&self, after: &Self) -> bool {
        true
    }

    /// What `status` may show.
    open spec fn status_answer(&self, status: Status) -> bool {
        true
    }

    /// What `start_erase` may leave behind.
    open spec fn erase_answer(&self, sector: u8, after: &Self) -> bool {
        true
    }

    /// What `start_program` may leave behind.
    open spec fn program_answer(&self, addr: usize, word: [u8; 4], width: usize, after: &Self)
        -> bool {
        true
    }

    /// Whether the control register is locked against commands.
    fn is_locked(&self) -> (locked: bool)
        ensures
            locked == self.locked(),
    ;

    /// Writes the key sequence to the key register. Whether that opens the
    /// lock is for `is_locked` to tell.
    fn unlock(&mut self)
        ensures
            final(self).contents() == old(self).contents(),
            old(self).unlock_answer(final(self)),
    ;

    /// Reads the status register.
    fn status(&self) -> (status: Status)
        ensures
            self.status_answer(status),
    ;

    /// Starts the erasure of the sector numbered `sector`.
    fn start_erase(&mut self, sector: u8)
        requires
            !old(self).locked(),
            sector < 8,
            sector_start(sector as int) + sector_length(sector as int) - FLASH_START
                <= old(self).contents().len(),
        ensures
            final(self).locked() == old(self).locked(),
            same_outside(
                old(self).contents(),
                final(self).contents(),
                sector_start(sector as int),
                sector_start(sector as int) + sector_length(sector as int),
            ),
            old(self).erase_answer(sector, final(self)),
    ;

    /// Starts programming the first `width` bytes of `word` at `addr`.
    fn start_program(&mut self, addr: usize, word: [u8; 4], width: usize)
        requires
            !old(self).locked(),
            width == 1 || width == 2 || width == 4,
            addr % width == 0,
            FLASH_START <= addr,
            addr + width <= FLASH_START + old(self).contents().len(),
        ensures
            final(self).locked() == old(self).locked(),
            same_outside(old(self).contents(), final(self).contents(), addr as int, addr + width),
            old(self).program_answer(addr, word, width, final(self)),
    ;

    /// The `len` bytes from `addr` on, as the flash holds them.
    fn read(&self, addr: usize, len: usize) -> (bytes: &[u8])
        requires
            FLASH_START <= addr,
            addr + len <= FLASH_START + self.contents().len(),
        ensures
            bytes@ == bytes_at(self.contents(), addr as int, len as int),
    ;
}

} // verus!
