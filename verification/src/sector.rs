//! The erase geometry of the flash: eight sectors of 4 x 16, 64 and
//! 3 x 128 KiB.

use vstd::prelude::*;
use crate::flash::Flash;
use crate::layout::{byte_at, bytes_at, is_blank, FLASH_END, FLASH_SIZE, FLASH_START};
use crate::protocol::Error;

verus! {

/// Number of sectors.
pub const SECTOR_COUNT: usize = 8;

/// First address of the sector numbered `index`.
pub open spec fn sector_start(index: int) -> int {
    if index < 4 {
        0x0800_0000 + index * 0x4000
    } else if index == 4 {
        0x0801_0000
    } else {
        0x0802_0000 + (index - 5) * 0x2_0000
    }
}

/// Number of bytes of the sector numbered `index`.
pub open spec fn sector_length(index: int) -> int {
    if index < 4 {
        0x4000
    } else if index == 4 {
        0x1_0000
    } else {
        0x2_0000
    }
}

/// The sector numbered `index` holds address `addr`.
pub open spec fn sector_contains(index: int, addr: int) -> bool {
    sector_start(index) <= addr < sector_start(index) + sector_length(index)
}

/// The number of the sector that holds `addr`, an address of the flash.
pub open spec fn sector_index(addr: int) -> int {
    if addr < 0x0801_0000 {
        (addr - 0x0800_0000) / 0x4000
    } else if addr < 0x0802_0000 {
        4
    } else {
        5 + (addr - 0x0802_0000) / 0x2_0000
    }
}

/// Each address of the flash lies in the sector that `sector_index` names
/// and in no other: the sectors do not overlap and leave no gap.
pub proof fn lemma_sector_of_unique(addr: int, index: int)
    requires
        FLASH_START <= addr < FLASH_END,
        0 <= index < SECTOR_COUNT,
    ensures
        0 <= sector_index(addr) < SECTOR_COUNT,
        sector_contains(sector_index(addr), addr),
        sector_contains(index, addr) <==> index == sector_index(addr),
{
}

/// The sectors follow each other from `FLASH_START` to `FLASH_END`.
pub proof fn lemma_sectors_contiguous(index: int)
    requires
        0 <= index < SECTOR_COUNT,
    ensures
        sector_start(0) == FLASH_START,
        sector_length(index) > 0,
        sector_length(index) % 4 == 0,
        sector_start(index) % 4 == 0,
        index + 1 < SECTOR_COUNT ==> sector_start(index + 1) == sector_start(index) + sector_length(
            index,
        ),
        index + 1 == SECTOR_COUNT ==> sector_start(index) + sector_length(index) == FLASH_END,
{
}

/// An erase unit of the flash, by its number.
#[derive(Debug, PartialEq, Eq, Copy, Clone, Structural)]
pub struct Sector(usize);

impl Sector {
    /// The sector's number.
    pub closed spec fn index(self) -> int {
        self.0 as int
    }

    #[verifier::type_invariant]
    pub closed spec fn wf(self) -> bool {
        self.0 < SECTOR_COUNT
    }

    /// A valid sector has one of the numbers 0 to 7.
    pub proof fn lemma_wf(self)
        ensures
            self.wf() <==> 0 <= self.index() < SECTOR_COUNT,
    {
    }

    /// Two sectors with the same number are the same sector.
    pub proof fn lemma_same_index(self, other: Sector)
        requires
            self.index() == other.index(),
        ensures
            self == other,
    {
    }

    /// The sector that holds `address`; `Address` if the flash does not.
    pub fn try_from(address: usize) -> (r: Result<Sector, Error>)
        ensures
            FLASH_START <= address < FLASH_END ==> r is Ok && r->Ok_0.wf() && r->Ok_0.index()
                == sector_index(address as int),
            !(FLASH_START <= address < FLASH_END) ==> r == Err::<Sector, Error>(Error::Address),
    {
        if address < 0x0800_0000 {
            Err(Error::Address)
        } else if address < 0x0801_0000 {
            let id: usize = (address >> 14) & 0x0F;
            assert(id == (address - 0x0800_0000) / 0x4000) by (bit_vector)
                requires
                    id == (address >> 14) & 0x0F,
                    0x0800_0000 <= address < 0x0801_0000,
            ;
            Ok(Sector(id))
        } else if address < 0x0802_0000 {
            Ok(Sector(4))
        } else if address < 0x0808_0000 {
            assert((address >> 17) & 0x0F == 1 + (address - 0x0802_0000) / 0x2_0000) by (bit_vector)
                requires
                    0x0802_0000 <= address < 0x0808_0000,
            ;
            let id: usize = ((address >> 17) & 0x0F) + 4;
            Ok(Sector(id))
        } else {
            Err(Error::Address)
        }
    }

    /// The number of the sector, as the controller wants it.
    pub fn number(&self) -> (n: u8)
        ensures
            n == self.index(),
            n < SECTOR_COUNT,
    {
        proof {
            use_type_invariant(self);
        }
        self.0 as u8
    }

    /// The first address of the sector.
    pub fn start(&self) -> (start: usize)
        ensures
            start == sector_start(self.index()),
    {
        proof {
            use_type_invariant(self);
        }
        if self.0 < 4 {
            0x0800_0000 + self.0 * 0x4000
        } else if self.0 == 4 {
            0x0801_0000
        } else {
            0x0802_0000 + (self.0 - 5) * 0x2_0000
        }
    }

    /// The number of bytes of the sector.
    pub fn length(&self) -> (length: usize)
        ensures
            length == sector_length(self.index()),
    {
        if self.0 < 4 {
            0x4000
        } else if self.0 == 4 {
            0x1_0000
        } else {
            0x2_0000
        }
    }

    /// The first address and the number of bytes of the sector.
    pub fn region(&self) -> (region: (usize, usize))
        ensures
            region.0 == sector_start(self.index()),
            region.1 == sector_length(self.index()),
            FLASH_START <= region.0,
            region.0 + region.1 <= FLASH_END,
    {
        proof {
            use_type_invariant(self);
        }
        (self.start(), self.length())
    }

    /// Moves on to the sector that follows and returns it; stays and
    /// returns `None` at the last sector.
    pub fn next(&mut self) -> (r: Option<Sector>)
        ensures
            old(self).index() + 1 < SECTOR_COUNT ==> final(self).index() == old(self).index() + 1
                && r == Some(*final(self)),
            old(self).index() + 1 >= SECTOR_COUNT ==> *final(self) == *old(self) && r.is_none(),
    {
        proof {
            use_type_invariant(&*self);
        }
        if self.0 < 7 {
            self.0 += 1;
            Some(Sector(self.0))
        } else {
            None
        }
    }

    /// Whether every byte of the sector reads `0xFF`.
    pub fn is_erased<F: Flash>(&self, flash: &F) -> (erased: bool)
        requires
            flash.contents().len() == FLASH_SIZE,
        ensures
            erased == is_blank(
                flash.contents(),
                sector_start(self.index()),
                sector_start(self.index()) + sector_length(self.index()),
            ),
    {
        let (start, length) = self.region();
        let bytes = flash.read(start, length);
        let mut i: usize = 0;
        while i < length
            invariant
                i <= length,
                FLASH_START <= start,
                start + length <= FLASH_END,
                start == sector_start(self.index()),
                length == sector_length(self.index()),
                flash.contents().len() == FLASH_SIZE,
                bytes@ == bytes_at(flash.contents(), start as int, length as int),
                is_blank(flash.contents(), start as int, start + i),
            decreases length - i,
        {
            assert(bytes@[i as int] == byte_at(flash.contents(), start + i));
            if bytes[i] != 0xFF {
                return false;
            }
            i += 1;
        }
        true
    }
}

} // verus!
