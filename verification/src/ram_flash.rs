//! A flash in memory: a controller that ends every operation at once and
//! a memory that behaves as NOR flash does. An erasure sets every bit of a
//! sector; programming clears bits and sets none.

use vstd::prelude::*;
use vstd::slice::slice_subrange;
use crate::flash::{Flash, Status};
use crate::layout::{byte_at, bytes_at, is_blank, same_outside, FLASH_END, FLASH_SIZE, FLASH_START};
use crate::sector::{sector_length, sector_start};

verus! {

/// A flash in memory.
pub struct RamFlash {
    mem: Vec<u8>,
    locked: bool,
    jammed: bool,
    status: Status,
}

/// First address of the sector numbered `sector`.
fn start_of(sector: u8) -> (start: usize)
    requires
        sector < 8,
    ensures
        start == sector_start(sector as int),
{
    if sector < 4 {
        0x0800_0000 + (sector as usize) * 0x4000
    } else if sector == 4 {
        0x0801_0000
    } else {
        0x0802_0000 + (sector as usize - 5) * 0x2_0000
    }
}

/// Number of bytes of the sector numbered `sector`.
fn length_of(sector: u8) -> (length: usize)
    requires
        sector < 8,
    ensures
        length == sector_length(sector as int),
{
    if sector < 4 {
        0x4000
    } else if sector == 4 {
        0x1_0000
    } else {
        0x2_0000
    }
}

impl RamFlash {
    /// What the status register shows.
    pub closed spec fn shown(&self) -> Status {
        self.status
    }

    /// The key sequence does not open the lock.
    pub closed spec fn jammed(&self) -> bool {
        self.jammed
    }

    /// An erased flash with a locked controller that shows no error.
    pub fn new() -> (flash: Self)
        ensures
            flash.contents().len() == FLASH_SIZE,
            is_blank(flash.contents(), FLASH_START as int, FLASH_END as int),
            flash.locked(),
            !flash.jammed(),
            flash.shown() == (Status {
                busy: false,
                write_protection_error: false,
                operation_error: false,
            }),
    {
        let flash = Self {
            mem: vec![0xFFu8; FLASH_SIZE],
            locked: true,
            jammed: false,
            status: Status { busy: false, write_protection_error: false, operation_error: false },
        };
        assert forall|a: int| FLASH_START <= a < FLASH_END implies #[trigger] byte_at(
            flash.contents(),
            a,
        ) == 0xFF by {}
        flash
    }

    /// Makes the status register show `status` from now on.
    pub fn set_status(&mut self, status: Status)
        ensures
            final(self).shown() == status,
            final(self).contents() == old(self).contents(),
            final(self).locked() == old(self).locked(),
            final(self).jammed() == old(self).jammed(),
    {
        self.status = status;
    }

    /// Locks the controller for good: the key sequence no longer opens it.
    pub fn jam(&mut self)
        ensures
            final(self).locked(),
            final(self).jammed(),
            final(self).shown() == old(self).shown(),
            final(self).contents() == old(self).contents(),
    {
        self.locked = true;
        self.jammed = true;
    }

    /// Puts `bytes` at `addr`, whatever was there, as a probe on the chip
    /// would.
    pub fn load(&mut self, addr: usize, bytes: &[u8])
        requires
            FLASH_START <= addr,
            addr + bytes@.len() <= FLASH_START + old(self).contents().len(),
        ensures
            final(self).locked() == old(self).locked(),
            final(self).jammed() == old(self).jammed(),
            final(self).shown() == old(self).shown(),
            same_outside(
                old(self).contents(),
                final(self).contents(),
                addr as int,
                addr + bytes@.len(),
            ),
            bytes_at(final(self).contents(), addr as int, bytes@.len() as int) == bytes@,
    {
        let offset: usize = addr - FLASH_START;
        let total: usize = self.mem.len();
        let mut i: usize = 0;
        while i < bytes.len()
            invariant
                i <= bytes@.len(),
                total == self.mem@.len(),
                offset == addr - FLASH_START,
                offset + bytes@.len() <= self.mem@.len(),
                self.mem@.len() == old(self).mem@.len(),
                self.locked == old(self).locked,
                self.jammed == old(self).jammed,
                self.status == old(self).status,
                forall|j: int| 0 <= j < i ==> self.mem@[offset + j] == bytes@[j],
                forall|j: int|
                    0 <= j < self.mem@.len() && !(offset <= j < offset + bytes@.len())
                        ==> self.mem@[j] == old(self).mem@[j],
            decreases bytes@.len() - i,
        {
            self.mem[offset + i] = bytes[i];
            i += 1;
        }
        assert(bytes_at(self.contents(), addr as int, bytes@.len() as int) =~= bytes@);
        assert forall|a: int|
            FLASH_START <= a < FLASH_START + old(self).contents().len() && !(addr <= a < addr
                + bytes@.len()) implies #[trigger] byte_at(self.contents(), a) == byte_at(
            old(self).contents(),
            a,
        ) by {
            assert(self.mem@[a - FLASH_START] == old(self).mem@[a - FLASH_START]);
        }
    }
}

impl Flash for RamFlash {
    closed spec fn contents(&self) -> Seq<u8> {
        self.mem@
    }

    closed spec fn locked(&self) -> bool {
        self.locked
    }

    /// The lock opens unless it is jammed; nothing else changes.
    open spec fn unlock_answer(&self, after: &Self) -> bool {
        &&& after.locked() == self.jammed()
        &&& after.jammed() == self.jammed()
        &&& after.shown() == self.shown()
        &&& after.contents() == self.contents()
    }

    /// The status is what was set to be shown.
    open spec fn status_answer(&self, status: Status) -> bool {
        status == self.shown()
    }

    /// The sector is erased; nothing else changes.
    open spec fn erase_answer(&self, sector: u8, after: &Self) -> bool {
        &&& after.locked() == self.locked()
        &&& after.jammed() == self.jammed()
        &&& after.shown() == self.shown()
        &&& same_outside(
            self.contents(),
            after.contents(),
            sector_start(sector as int),
            sector_start(sector as int) + sector_length(sector as int),
        )
        &&& is_blank(
            after.contents(),
            sector_start(sector as int),
            sector_start(sector as int) + sector_length(sector as int),
        )
    }

    /// In the `width` bytes at `addr` the bits that are clear in `word`
    /// are cleared; nothing else changes.
    open spec fn program_answer(&self, addr: usize, word: [u8; 4], width: usize, after: &Self)
        -> bool {
        &&& after.locked() == self.locked()
        &&& after.jammed() == self.jammed()
        &&& after.shown() == self.shown()
        &&& same_outside(self.contents(), after.contents(), addr as int, addr + width)
        &&& forall|k: int|
            0 <= k < width ==> #[trigger] byte_at(after.contents(), addr + k) == byte_at(
                self.contents(),
                addr + k,
            ) & word@[k]
    }

    fn is_locked(&self) -> (locked: bool) {
        self.locked
    }

    /// Opens the lock, unless it is jammed.
    fn unlock(&mut self) {
        self.locked = self.jammed;
    }

    /// What was set to be shown.
    fn status(&self) -> (status: Status) {
        self.status
    }

    /// Erases the sector at once.
    fn start_erase(&mut self, sector: u8) {
        if self.locked {
            // a locked controller takes no command
            return ;
        }
        let start: usize = start_of(sector) - FLASH_START;
        let length: usize = length_of(sector);
        let total: usize = self.mem.len();
        let mut i: usize = 0;
        while i < length
            invariant
                i <= length,
                total == self.mem@.len(),
                start + length <= self.mem@.len(),
                self.mem@.len() == old(self).mem@.len(),
                self.locked == old(self).locked,
                self.jammed == old(self).jammed,
                self.status == old(self).status,
                forall|j: int| start <= j < start + i ==> self.mem@[j] == 0xFF,
                forall|j: int|
                    0 <= j < self.mem@.len() && !(start <= j < start + length) ==> self.mem@[j]
                        == old(self).mem@[j],
            decreases length - i,
        {
            self.mem[start + i] = 0xFF;
            i += 1;
        }
        proof {
            let first = sector_start(sector as int);
            assert forall|a: int| first <= a < first + length implies #[trigger] byte_at(
                self.contents(),
                a,
            ) == 0xFF by {
                assert(self.mem@[a - FLASH_START] == 0xFF);
            }
            assert forall|a: int|
                FLASH_START <= a < FLASH_START + old(self).contents().len() && !(first <= a < first
                    + length) implies #[trigger] byte_at(self.contents(), a) == byte_at(
                old(self).contents(),
                a,
            ) by {
                assert(self.mem@[a - FLASH_START] == old(self).mem@[a - FLASH_START]);
            }
        }
    }

    /// Clears at once, in the `width` bytes at `addr`, the bits that are
    /// clear in `word`.
    fn start_program(&mut self, addr: usize, word: [u8; 4], width: usize) {
        if self.locked {
            // a locked controller takes no command
            return ;
        }
        let offset: usize = addr - FLASH_START;
        let total: usize = self.mem.len();
        let mut i: usize = 0;
        while i < width
            invariant
                i <= width <= 4,
                total == self.mem@.len(),
                offset == addr - FLASH_START,
                offset + width <= self.mem@.len(),
                self.mem@.len() == old(self).mem@.len(),
                self.locked == old(self).locked,
                self.jammed == old(self).jammed,
                self.status == old(self).status,
                forall|j: int|
                    0 <= j < i ==> self.mem@[offset + j] == old(self).mem@[offset + j] & word@[j],
                forall|j: int|
                    0 <= j < self.mem@.len() && !(offset <= j < offset + i) ==> self.mem@[j]
                        == old(self).mem@[j],
            decreases width - i,
        {
            let stored: u8 = self.mem[offset + i];
            self.mem[offset + i] = stored & word[i];
            i += 1;
        }
        proof {
            assert forall|k: int| 0 <= k < width implies #[trigger] byte_at(
                self.contents(),
                addr + k,
            ) == byte_at(old(self).contents(), addr + k) & word@[k] by {
                assert(self.mem@[offset + k] == old(self).mem@[offset + k] & word@[k]);
            }
            assert forall|a: int|
                FLASH_START <= a < FLASH_START + old(self).contents().len() && !(addr <= a < addr
                    + width) implies #[trigger] byte_at(self.contents(), a) == byte_at(
                old(self).contents(),
                a,
            ) by {
                assert(self.mem@[a - FLASH_START] == old(self).mem@[a - FLASH_START]);
            }
        }
    }

    fn read(&self, addr: usize, len: usize) -> (bytes: &[u8]) {
        let total: usize = self.mem.len();
        let offset: usize = addr - FLASH_START;
        slice_subrange(self.mem.as_slice(), offset, offset + len)
    }
}

} // verus!
