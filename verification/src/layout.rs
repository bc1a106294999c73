//! Where things are in the address space: the flash, the application
//! region inside it, the manifest slot at its end, and the SRAM.
//!
//! ```text
//! [APPLICATION_REGION_START .. + length)       image bytes
//! [.. + length .. MANIFEST_REGION_START)       erased (all 0xFF)
//! [MANIFEST_REGION_START .. + MANIFEST_SIZE)   length (u32, little-endian), then the hash
//! [.. FLASH_END)                               padding
//! ```

use vstd::prelude::*;

verus! {

/// First address of the flash.
pub const FLASH_START: usize = 0x0800_0000;

/// First address after the flash.
pub const FLASH_END: usize = 0x0808_0000;

/// Number of bytes of flash.
pub const FLASH_SIZE: usize = 0x8_0000;

/// First address of the application region.
pub const APPLICATION_REGION_START: usize = 0x0800_8000;

/// Number of bytes of a hash.
pub const HASH_LENGTH: usize = 20;

/// Number of bytes of a stored manifest.
pub const MANIFEST_SIZE: usize = 24;

/// The manifest's size rounded up to the largest unit that is programmed at once.
pub const MANIFEST_SIZE_ALIGNED: usize = 128;

/// Address of the manifest; the application region ends here.
pub const MANIFEST_REGION_START: usize = 0x0807_FF80;

/// The most bytes an application image can have.
pub const APPLICATION_LENGTH: usize = 0x7_7F80;

/// First address of the on-chip SRAM.
pub const SRAM_START: usize = 0x2000_0000;

/// First address after the on-chip SRAM.
pub const SRAM_END: usize = 0x2002_0000;

/// The constants agree with each other.
pub proof fn lemma_layout()
    ensures
        FLASH_SIZE == FLASH_END - FLASH_START,
        MANIFEST_SIZE == 4 + HASH_LENGTH,
        MANIFEST_SIZE_ALIGNED % 128 == 0,
        MANIFEST_SIZE <= MANIFEST_SIZE_ALIGNED < MANIFEST_SIZE + 128,
        MANIFEST_REGION_START == FLASH_END - MANIFEST_SIZE_ALIGNED,
        APPLICATION_LENGTH == MANIFEST_REGION_START - APPLICATION_REGION_START,
        FLASH_START <= APPLICATION_REGION_START < MANIFEST_REGION_START < FLASH_END,
{
}

/// The byte that the flash holds at address `addr`, where `contents` is the
/// whole flash from `FLASH_START` on.
pub open spec fn byte_at(contents: Seq<u8>, addr: int) -> u8 {
    contents[addr - FLASH_START]
}

/// The `len` bytes that the flash holds from address `addr` on.
pub open spec fn bytes_at(contents: Seq<u8>, addr: int, len: int) -> Seq<u8> {
    contents.subrange(addr - FLASH_START, addr - FLASH_START + len)
}

/// Every byte in `[start, end)` is erased.
pub open spec fn is_blank(contents: Seq<u8>, start: int, end: int) -> bool {
    forall|a: int| start <= a < end ==> #[trigger] byte_at(contents, a) == 0xFF
}

/// `after` is as long as `before` and differs from it at most in `[start, end)`.
pub open spec fn same_outside(before: Seq<u8>, after: Seq<u8>, start: int, end: int) -> bool {
    &&& after.len() == before.len()
    &&& forall|a: int|
        FLASH_START <= a < FLASH_START + before.len() && !(start <= a < end) ==> #[trigger] byte_at(
            after,
            a,
        ) == byte_at(before, a)
}

/// The 32-bit little-endian word at address `addr`.
pub open spec fn word_at(contents: Seq<u8>, addr: int) -> int {
    byte_at(contents, addr) + 0x100 * byte_at(contents, addr + 1) + 0x1_0000 * byte_at(
        contents,
        addr + 2,
    ) + 0x100_0000 * byte_at(contents, addr + 3)
}


/// What lies apart from `[start, end)` reads the same in `after` as in `before`.
pub proof fn lemma_frame_bytes(
    before: Seq<u8>,
    after: Seq<u8>,
    start: int,
    end: int,
    addr: int,
    len: int,
)
    requires
        same_outside(before, after, start, end),
        FLASH_START <= addr,
        0 <= len,
        addr + len <= FLASH_START + before.len(),
        addr + len <= start || end <= addr,
    ensures
        bytes_at(after, addr, len) == bytes_at(before, addr, len),
{
    assert forall|i: int| 0 <= i < len implies bytes_at(after, addr, len)[i] == bytes_at(
        before,
        addr,
        len,
    )[i] by {
        assert(byte_at(after, addr + i) == byte_at(before, addr + i));
    }
    assert(bytes_at(after, addr, len) =~= bytes_at(before, addr, len));
}

/// What was erased apart from `[start, end)` is erased in `after` too.
pub proof fn lemma_frame_blank(
    before: Seq<u8>,
    after: Seq<u8>,
    start: int,
    end: int,
    from: int,
    to: int,
)
    requires
        same_outside(before, after, start, end),
        is_blank(before, from, to),
        FLASH_START <= from,
        to <= FLASH_START + before.len(),
        to <= start || end <= from,
    ensures
        is_blank(after, from, to),
{
    assert forall|a: int| from <= a < to implies #[trigger] byte_at(after, a) == 0xFF by {
        assert(byte_at(before, a) == 0xFF);
    }
}

/// Two stretches that follow each other read as one.
pub proof fn lemma_bytes_concat(contents: Seq<u8>, addr: int, first: int, second: int)
    requires
        FLASH_START <= addr,
        0 <= first,
        0 <= second,
        addr + first + second <= FLASH_START + contents.len(),
    ensures
        bytes_at(contents, addr, first + second) == bytes_at(contents, addr, first) + bytes_at(
            contents,
            addr + first,
            second,
        ),
{
    assert(bytes_at(contents, addr, first + second) =~= bytes_at(contents, addr, first) + bytes_at(
        contents,
        addr + first,
        second,
    ));
}

/// Two erased stretches that follow each other are one erased stretch.
pub proof fn lemma_blank_concat(contents: Seq<u8>, from: int, mid: int, to: int)
    requires
        is_blank(contents, from, mid),
        is_blank(contents, mid, to),
    ensures
        is_blank(contents, from, to),
{
}

} // verus!
