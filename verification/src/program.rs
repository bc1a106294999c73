//! The programming of one image: sector by sector, word by word, then the
//! manifest that seals it.
//!
//! A `Program` asks the engine for one operation at a time and moves on
//! when `poll` finds the operation ended. A sector is erased before the
//! first word is written to it; after the last block, the sectors that
//! follow are erased and the manifest is written.

use vstd::prelude::*;
use vstd::slice::slice_subrange;
use crate::flash::{Flash, Status};
use crate::layout::{
    bytes_at,
    is_blank,
    lemma_blank_concat,
    lemma_bytes_concat,
    lemma_frame_blank,
    lemma_frame_bytes,
    same_outside,
    APPLICATION_LENGTH,
    APPLICATION_REGION_START,
    FLASH_END,
    FLASH_START,
    MANIFEST_REGION_START,
    MANIFEST_SIZE,
};
use crate::manifest::{
    application_bytes,
    manifest_bytes,
    sha1_digest,
    stored_hash,
    stored_length,
    ApplicationRef,
    Manifest,
};
use crate::memory::{
    is_programming,
    poll_outcome,
    poll_result,
    word_width,
    Memory,
    MemoryState,
    Poll,
};
use crate::protocol::Error;
use crate::sector::{
    lemma_sector_of_unique,
    lemma_sectors_contiguous,
    sector_index,
    sector_length,
    sector_start,
    Sector,
    SECTOR_COUNT,
};

verus! {

/// The most bytes a block can have.
pub const BLOCK_SIZE: usize = 128;

/// Where the programming of an image stands.
#[derive(Clone, Copy, Debug)]
#[allow(inconsistent_fields)]
pub enum ProgramState {
    /// The engine is idle; the next block is awaited.
    AwaitData,
    /// The engine erases the sector that `data[wr_ptr..data_len]` goes to.
    AwaitEraseBeforeProgram { data: [u8; 128], data_len: usize, wr_ptr: usize },
    /// The engine writes the word that `data[wr_ptr..data_len]` starts with.
    AwaitProgram { data: [u8; 128], data_len: usize, wr_ptr: usize },
    /// The engine erases a sector that follows the image.
    AwaitErase,
    /// The engine writes the word that `data[wr_ptr..]` starts with.
    AwaitProgramManifest { data: [u8; 24], wr_ptr: usize },
    /// The image is sealed.
    Done,
}

impl ProgramState {
    /// Blocks are still taken.
    pub open spec fn downloading(self) -> bool {
        self is AwaitData || self is AwaitEraseBeforeProgram || self is AwaitProgram
    }

    /// The image is being sealed.
    pub open spec fn manifesting(self) -> bool {
        self is AwaitErase || self is AwaitProgramManifest
    }
}

/// The flash holds `image` at the start of the application region and
/// nothing after it.
pub open spec fn holds_image(contents: Seq<u8>, image: Seq<u8>) -> bool {
    &&& image.len() <= APPLICATION_LENGTH
    &&& bytes_at(contents, APPLICATION_REGION_START as int, image.len() as int) == image
    &&& is_blank(contents, APPLICATION_REGION_START + image.len(), MANIFEST_REGION_START as int)
}

/// The flash holds `image` and the manifest that seals it.
pub open spec fn sealed(contents: Seq<u8>, image: Seq<u8>) -> bool {
    &&& holds_image(contents, image)
    &&& bytes_at(contents, MANIFEST_REGION_START as int, MANIFEST_SIZE as int) == manifest_bytes(
        image.len() as u32,
        sha1_digest(image),
    )
}

/// A flash that holds `image` and the manifest that seals it holds the
/// image at the start of the application region, nothing but erased bytes
/// from there to the manifest, and a manifest with the image's length and
/// hash, which is the hash that a check of the firmware computes.
pub proof fn lemma_sealed(contents: Seq<u8>, image: Seq<u8>)
    requires
        sealed(contents, image),
        contents.len() == FLASH_END - FLASH_START,
    ensures
        bytes_at(contents, APPLICATION_REGION_START as int, image.len() as int) == image,
        is_blank(contents, APPLICATION_REGION_START + image.len(), MANIFEST_REGION_START as int),
        stored_length(contents) == image.len(),
        stored_hash(contents) == sha1_digest(image),
        application_bytes(contents, stored_length(contents)) == image,
{
    let stored = bytes_at(contents, MANIFEST_REGION_START as int, MANIFEST_SIZE as int);
    let length = image.len() as u32;
    assert(stored[0] == crate::layout::byte_at(contents, MANIFEST_REGION_START as int));
    assert(stored[1] == crate::layout::byte_at(contents, MANIFEST_REGION_START + 1));
    assert(stored[2] == crate::layout::byte_at(contents, MANIFEST_REGION_START + 2));
    assert(stored[3] == crate::layout::byte_at(contents, MANIFEST_REGION_START + 3));
    assert(stored[0] == crate::manifest::le_bytes(length)[0]);
    assert(stored[1] == crate::manifest::le_bytes(length)[1]);
    assert(stored[2] == crate::manifest::le_bytes(length)[2]);
    assert(stored[3] == crate::manifest::le_bytes(length)[3]);
    let digest = sha1_digest(image);
    assert(stored.len() == MANIFEST_SIZE);
    assert(stored == crate::manifest::le_bytes(length) + digest);
    assert(digest.len() == 20);
    assert(stored_hash(contents) =~= stored.subrange(4, MANIFEST_SIZE as int));
    assert(digest =~= stored.subrange(4, MANIFEST_SIZE as int));
}

/// The programming of one image.
#[derive(Clone, Copy)]
pub struct Program {
    /// The sector that was erased last.
    pub current_sector: Sector,
    /// Where the next word goes.
    pub addr: usize,
    pub state: ProgramState,
    /// The bytes of all blocks taken so far.
    pub image: Ghost<Seq<u8>>,
}

/// A word at `addr` ends before `bound` if `addr` lies before it and
/// `bound` is a multiple of four.
pub proof fn lemma_word_fits(addr: int, len: int, bound: int)
    requires
        0 <= addr < bound,
        bound % 4 == 0,
        len >= 1,
    ensures
        1 <= word_width(addr, len) <= 4,
        word_width(addr, len) <= len,
        addr + word_width(addr, len) <= bound,
{
}

/// The buffer that holds a block: the bytes of the block, then zeros.
pub open spec fn padded(block: Seq<u8>) -> Seq<u8> {
    Seq::new(BLOCK_SIZE as nat, |i: int| if i < block.len() { block[i] } else { 0u8 })
}

/// A buffer that holds the bytes of `buf`, then zeros.
fn copy_block(buf: &[u8]) -> (data: [u8; 128])
    requires
        buf@.len() <= BLOCK_SIZE,
    ensures
        data@ == padded(buf@),
        data@.subrange(0, buf@.len() as int) == buf@,
{
    let mut data: [u8; 128] = [0u8; 128];
    let mut i: usize = 0;
    while i < buf.len()
        invariant
            i <= buf@.len() <= BLOCK_SIZE,
            forall|j: int| 0 <= j < i ==> data@[j] == buf@[j],
            forall|j: int| i <= j < BLOCK_SIZE ==> data@[j] == 0u8,
        decreases buf@.len() - i,
    {
        data[i] = buf[i];
        i += 1;
    }
    assert(data@.subrange(0, buf@.len() as int) =~= buf@);
    assert(data@ =~= padded(buf@));
    data
}

impl Program {
    /// The first address after the current sector.
    pub open spec fn sector_end(self) -> int {
        sector_start(self.current_sector.index()) + sector_length(self.current_sector.index())
    }

    /// The write pointer stays within the data and the address within the
    /// application region while blocks are written, within the manifest
    /// while it is written.
    pub open spec fn bounds(self) -> bool {
        match self.state {
            ProgramState::AwaitData => APPLICATION_REGION_START <= self.addr
                <= MANIFEST_REGION_START,
            ProgramState::AwaitEraseBeforeProgram { data, data_len, wr_ptr } => wr_ptr <= data_len
                <= BLOCK_SIZE && APPLICATION_REGION_START <= self.addr <= MANIFEST_REGION_START,
            ProgramState::AwaitProgram { data, data_len, wr_ptr } => wr_ptr <= data_len
                <= BLOCK_SIZE && APPLICATION_REGION_START <= self.addr <= MANIFEST_REGION_START,
            ProgramState::AwaitErase => APPLICATION_REGION_START <= self.addr
                <= MANIFEST_REGION_START,
            ProgramState::AwaitProgramManifest { data, wr_ptr } => wr_ptr <= MANIFEST_SIZE
                && self.addr == MANIFEST_REGION_START + wr_ptr,
            ProgramState::Done => self.addr == MANIFEST_REGION_START + MANIFEST_SIZE,
        }
    }

    /// The flash holds, from the start of the application region up to
    /// `addr`, the bytes taken so far.
    pub open spec fn written(self, contents: Seq<u8>) -> bool {
        &&& self.addr - APPLICATION_REGION_START <= self.image@.len()
        &&& bytes_at(
            contents,
            APPLICATION_REGION_START as int,
            self.addr - APPLICATION_REGION_START,
        ) == self.image@.subrange(0, self.addr - APPLICATION_REGION_START)
    }

    /// The bytes taken and not yet written are `data[wr_ptr..data_len]`.
    pub open spec fn pending(self, data: Seq<u8>, data_len: usize, wr_ptr: usize) -> bool {
        &&& wr_ptr < data_len <= BLOCK_SIZE
        &&& self.image@.len() == self.addr - APPLICATION_REGION_START + data_len - wr_ptr
        &&& self.image@.subrange(
            self.addr - APPLICATION_REGION_START,
            self.image@.len() as int,
        ) == data.subrange(wr_ptr as int, data_len as int)
    }

    /// What holds between a program, the engine and the flash.
    pub open spec fn inv<F: Flash>(self, memory: &Memory<F>) -> bool {
        let contents = memory.contents();
        let start = sector_start(self.current_sector.index());
        let end = self.sector_end();
        &&& memory.wf()
        &&& self.current_sector.wf()
        &&& self.bounds()
        &&& match self.state {
            ProgramState::AwaitData => {
                &&& memory.state() is Idle
                &&& start <= self.addr <= end
                &&& self.image@.len() == self.addr - APPLICATION_REGION_START
                &&& self.written(contents)
                &&& is_blank(contents, self.addr as int, end)
            },
            ProgramState::AwaitEraseBeforeProgram { data, data_len, wr_ptr } => {
                &&& memory.state() == MemoryState::Erasing(self.current_sector)
                &&& self.addr == start
                &&& self.addr < MANIFEST_REGION_START
                &&& self.written(contents)
                &&& self.pending(data@, data_len, wr_ptr)
            },
            ProgramState::AwaitProgram { data, data_len, wr_ptr } => {
                &&& start <= self.addr < end
                &&& self.addr < MANIFEST_REGION_START
                &&& self.pending(data@, data_len, wr_ptr)
                &&& is_programming(
                    memory.state(),
                    self.addr,
                    data@.subrange(wr_ptr as int, data_len as int),
                )
                &&& self.written(contents)
                &&& is_blank(
                    contents,
                    self.addr + word_width(self.addr as int, data_len - wr_ptr),
                    end,
                )
            },
            ProgramState::AwaitErase => {
                &&& memory.state() == MemoryState::Erasing(self.current_sector)
                &&& self.addr <= start
                &&& self.image@.len() == self.addr - APPLICATION_REGION_START
                &&& self.written(contents)
                &&& is_blank(contents, self.addr as int, start)
            },
            ProgramState::AwaitProgramManifest { data, wr_ptr } => {
                &&& self.current_sector.index() == SECTOR_COUNT - 1
                &&& wr_ptr < MANIFEST_SIZE
                &&& wr_ptr % 4 == 0
                &&& holds_image(contents, self.image@)
                &&& data@ == manifest_bytes(self.image@.len() as u32, sha1_digest(self.image@))
                &&& is_programming(
                    memory.state(),
                    self.addr,
                    data@.subrange(wr_ptr as int, MANIFEST_SIZE as int),
                )
                &&& bytes_at(contents, MANIFEST_REGION_START as int, wr_ptr as int)
                    == data@.subrange(0, wr_ptr as int)
            },
            ProgramState::Done => {
                &&& memory.state() is Idle
                &&& sealed(contents, self.image@)
            },
        }
    }

    /// In every state of a program the write pointer is at most the length
    /// of the data. While blocks are written and while the sectors after
    /// the image are erased, the address lies in the application region or
    /// at its end; while the manifest is written, it lies as far into the
    /// manifest as the write pointer.
    pub proof fn lemma_bounds<F: Flash>(self, memory: &Memory<F>)
        requires
            self.inv(memory),
        ensures
            self.state matches ProgramState::AwaitEraseBeforeProgram { data, data_len, wr_ptr }
                ==> wr_ptr <= data_len,
            self.state matches ProgramState::AwaitProgram { data, data_len, wr_ptr } ==> wr_ptr
                <= data_len,
            self.state matches ProgramState::AwaitProgramManifest { data, wr_ptr } ==> wr_ptr
                <= data@.len() && self.addr == MANIFEST_REGION_START + wr_ptr,
            self.state.downloading() || self.state is AwaitErase ==> APPLICATION_REGION_START
                <= self.addr <= MANIFEST_REGION_START,
    {
    }

    /// What a program is that was begun with `block`: it stands at the
    /// start of the application region, holds the whole block to write,
    /// and the engine is erasing the first sector of the region.
    pub open spec fn begins<F: Flash>(self, block: Seq<u8>, memory: Memory<F>) -> bool {
        &&& self.addr == APPLICATION_REGION_START
        &&& self.current_sector.index() == sector_index(APPLICATION_REGION_START as int)
        &&& self.image@ == block
        &&& self.state matches ProgramState::AwaitEraseBeforeProgram { data, data_len, wr_ptr }
        &&& data@ == padded(block)
        &&& data_len == block.len()
        &&& wr_ptr == 0
        &&& memory.state() == MemoryState::Erasing(self.current_sector)
    }

    /// Starts the programming of an image with the block `buf`: the first
    /// sector of the application region is being erased when this returns.
    /// `Write`, with nothing started, if the controller cannot be unlocked.
    pub fn new<F: Flash>(memory: &mut Memory<F>, buf: &[u8]) -> (r: Result<Program, Error>)
        requires
            old(memory).wf(),
            old(memory).state() is Idle,
            0 < buf@.len() <= BLOCK_SIZE,
        ensures
            final(memory).wf(),
            r is Ok <==> !final(memory).locked(),
            Memory::<F>::can_start(old(memory).controller(), r is Ok),
            r is Ok ==> final(memory).started_on(old(memory).controller()),
            r matches Ok(program) ==> program.inv(final(memory)) && program.begins(
                buf@,
                *final(memory),
            ),
            r is Err ==> r == Err::<Program, Error>(Error::Write) && final(memory).state() is Idle
                && final(memory).contents() == old(memory).contents(),
            same_outside(
                old(memory).contents(),
                final(memory).contents(),
                APPLICATION_REGION_START as int,
                sector_start(sector_index(APPLICATION_REGION_START as int)) + sector_length(
                    sector_index(APPLICATION_REGION_START as int),
                ),
            ),
    {
        let data_len = buf.len();
        let data = copy_block(buf);
        let current_sector = match Sector::try_from(APPLICATION_REGION_START) {
            Ok(sector) => sector,
            Err(e) => {
                return Err(e);
            },
        };
        match memory.erase(current_sector) {
            Poll::Ready(e) => {
                return Err(e);
            },
            Poll::Pending => {},
        }
        let program = Program {
            current_sector,
            addr: APPLICATION_REGION_START,
            state: ProgramState::AwaitEraseBeforeProgram { data, data_len, wr_ptr: 0 },
            image: Ghost(buf@),
        };
        proof {
            lemma_frame_bytes(
                old(memory).contents(),
                memory.contents(),
                sector_start(current_sector.index()),
                sector_start(current_sector.index()) + sector_length(current_sector.index()),
                APPLICATION_REGION_START as int,
                0,
            );
            assert(program.image@.subrange(0, 0) =~= bytes_at(
                memory.contents(),
                APPLICATION_REGION_START as int,
                0,
            ));
            assert(program.image@.subrange(0, program.image@.len() as int) =~= data@.subrange(
                0,
                data_len as int,
            ));
        }
        Ok(program)
    }

    /// Takes the next block, `buf`, and starts writing it. `Unknown` unless
    /// the block before is written; `Address` if the application region is
    /// full; `Write` if the controller cannot be unlocked.
    pub fn update<F: Flash>(&mut self, memory: &mut Memory<F>, buf: &[u8]) -> (r: Poll<Error>)
        requires
            old(self).inv(old(memory)),
            0 < buf@.len() <= BLOCK_SIZE,
        ensures
            final(memory).wf(),
            !(old(self).state is AwaitData) ==> r == Poll::Ready(Error::Unknown) && *final(self)
                == *old(self) && *final(memory) == *old(memory),
            old(self).state is AwaitData && old(self).addr >= MANIFEST_REGION_START ==> r
                == Poll::Ready(Error::Address) && *final(self) == *old(self) && *final(memory)
                == *old(memory),
            old(self).state is AwaitData && old(self).addr < MANIFEST_REGION_START ==> (r
                is Pending <==> !final(memory).locked()),
            old(self).state is AwaitData && r is Ready && old(self).addr < MANIFEST_REGION_START
                ==> r == Poll::Ready(Error::Write),
            r is Pending ==> final(self).inv(final(memory)),
            r is Pending ==> final(self).image@ == old(self).image@ + buf@,
            r is Pending ==> final(self).state is AwaitEraseBeforeProgram || final(self).state
                is AwaitProgram,
            final(self).addr == old(self).addr,
            final(self).bounds(),
            final(self).current_sector.wf(),
            old(self).state is AwaitData && old(self).addr < MANIFEST_REGION_START
                ==> Memory::<F>::can_start(old(memory).controller(), r is Pending),
            r is Pending ==> final(memory).started_on(old(memory).controller()),
            r is Pending ==> Self::started(
                final(self).state,
                final(memory),
                old(memory).contents(),
                final(self).addr,
                final(self).current_sector,
                old(self).sector_end(),
                padded(buf@),
                buf@.len() as usize,
                0,
            ),
            r is Ready ==> final(memory).contents() == old(memory).contents(),
            same_outside(
                old(memory).contents(),
                final(memory).contents(),
                old(self).addr as int,
                final(self).sector_end(),
            ),
    {
        match self.state {
            ProgramState::AwaitData => {
                let data_len = buf.len();
                let data = copy_block(buf);
                let ghost before = memory.contents();
                let ghost image = self.image@;
                let state = match Self::erase_or_program(
                    memory,
                    self.addr,
                    &mut self.current_sector,
                    data,
                    data_len,
                    0,
                ) {
                    Ok(state) => state,
                    Err(e) => {
                        return Poll::Ready(e);
                    },
                };
                self.state = state;
                self.image = Ghost(image + buf@);
                proof {
                    let offset = self.addr - APPLICATION_REGION_START;
                    assert(image.subrange(0, offset) =~= image);
                    assert(self.image@.subrange(0, offset) =~= image);
                    assert(self.image@.subrange(offset, self.image@.len() as int)
                        =~= data@.subrange(0, data_len as int));
                    self.lemma_started(memory, before, old(self).sector_end(), data@, data_len, 0);
                }
                Poll::Pending
            },
            _ => Poll::Ready(Error::Unknown),
        }
    }

    /// Ends the taking of blocks and starts sealing the image: the erasure
    /// of the sector after the current one or, at the last sector, the
    /// writing of the manifest. `Unknown` unless the last block is written;
    /// `Write` if the controller cannot be unlocked.
    pub fn finalize<F: Flash>(&mut self, memory: &mut Memory<F>) -> (r: Poll<Error>)
        requires
            old(self).inv(old(memory)),
        ensures
            final(memory).wf(),
            !(old(self).state is AwaitData) ==> r == Poll::Ready(Error::Unknown) && *final(self)
                == *old(self) && *final(memory) == *old(memory),
            old(self).state is AwaitData ==> (r is Pending <==> !final(memory).locked()),
            old(self).state is AwaitData && r is Ready ==> r == Poll::Ready(Error::Write),
            r is Pending ==> final(self).inv(final(memory)),
            r is Pending ==> final(self).addr >= old(self).addr,
            r is Pending ==> final(self).image@ == old(self).image@,
            r is Pending ==> final(self).state.manifesting(),
            final(self).bounds(),
            final(self).current_sector.wf(),
            old(self).state is AwaitData ==> Self::seals(
                *old(self),
                old(memory).controller(),
                *final(self),
                *final(memory),
                r is Pending,
            ),
            same_outside(
                old(memory).contents(),
                final(memory).contents(),
                old(self).addr as int,
                final(self).sector_end(),
            ),
    {
        match self.state {
            ProgramState::AwaitData => self.erase_or_program_manifest(memory),
            _ => Poll::Ready(Error::Unknown),
        }
    }

    /// How `poll` follows the engine: while the engine is busy nothing
    /// changes; an error of the engine is handed on as it is, with the
    /// engine idle and the flash as the failed operation left it.
    pub open spec fn follows<F: Flash>(
        engine: Poll<Result<usize, Error>>,
        before: Program,
        memory_before: Memory<F>,
        after: Program,
        memory_after: Memory<F>,
        r: Poll<Result<(), Error>>,
    ) -> bool {
        match engine {
            Poll::Pending => r is Pending && after == before && memory_after == memory_before,
            Poll::Ready(Err(e)) => {
                &&& r == Poll::Ready(Err::<(), Error>(e))
                &&& after == before
                &&& memory_after.state() is Idle
                &&& memory_after.controller() == memory_before.controller()
            },
            Poll::Ready(Ok(n)) => Self::steps(
                before,
                memory_before.controller(),
                n,
                after,
                memory_after,
                r,
            ),
        }
    }

    /// The step that `poll` takes once the engine has ended its operation
    /// with `n` bytes written, on a controller that was `controller`.
    ///
    /// After the erasure before a word, the word is started. After a word
    /// of a block, the address moves on by `n`: the next block is awaited
    /// if that was the last word; else `Address` if the address has
    /// reached the manifest; else the next operation is started as
    /// `started` says. After the erasure of a sector behind the image, the
    /// sealing goes on as `seals` says. After a word of the manifest, the
    /// address moves on by `n`: the image is sealed if that was the last
    /// word, else the next word is started. An operation that is started
    /// is the one command that `controller` gets once it is unlocked.
    /// Where an operation is to be started and the controller cannot be
    /// unlocked, the result is `Write` and the flash is as it was.
    pub open spec fn steps<F: Flash>(
        before: Program,
        controller: F,
        n: usize,
        after: Program,
        memory_after: Memory<F>,
        r: Poll<Result<(), Error>>,
    ) -> bool {
        let refused = {
            &&& r == Poll::Ready(Err::<(), Error>(Error::Write))
            &&& memory_after.state() is Idle
            &&& memory_after.contents() == controller.contents()
        };
        match before.state {
            ProgramState::AwaitEraseBeforeProgram { data, data_len, wr_ptr } => {
                &&& Memory::<F>::can_start(controller, r is Pending)
                &&& r is Ready ==> refused && after == before
                &&& r is Pending ==> {
                    &&& after.addr == before.addr
                    &&& after.current_sector == before.current_sector
                    &&& after.image@ == before.image@
                    &&& after.state == (ProgramState::AwaitProgram { data, data_len, wr_ptr })
                    &&& is_programming(
                        memory_after.state(),
                        before.addr,
                        data@.subrange(wr_ptr as int, data_len as int),
                    )
                    &&& memory_after.started_on(controller)
                }
            },
            ProgramState::AwaitProgram { data, data_len, wr_ptr } => {
                &&& after.addr == before.addr + n
                &&& after.image@ == before.image@
                &&& if wr_ptr + n == data_len {
                    &&& r is Pending
                    &&& after.state is AwaitData
                    &&& after.current_sector == before.current_sector
                    &&& memory_after.state() is Idle
                    &&& memory_after.controller() == controller
                } else if before.addr + n >= MANIFEST_REGION_START {
                    &&& r == Poll::Ready(Err::<(), Error>(Error::Address))
                    &&& after.state == before.state
                    &&& after.current_sector == before.current_sector
                    &&& memory_after.state() is Idle
                    &&& memory_after.controller() == controller
                } else {
                    &&& Memory::<F>::can_start(controller, r is Pending)
                    &&& r is Ready ==> refused && after.state == before.state
                    &&& r is Pending ==> memory_after.started_on(controller) && Self::started(
                        after.state,
                        &memory_after,
                        controller.contents(),
                        after.addr,
                        after.current_sector,
                        before.sector_end(),
                        data@,
                        data_len,
                        (wr_ptr + n) as usize,
                    )
                }
            },
            ProgramState::AwaitErase => {
                &&& Self::seals(before, controller, after, memory_after, r is Pending)
                &&& r is Ready ==> r == Poll::Ready(Err::<(), Error>(Error::Write))
            },
            ProgramState::AwaitProgramManifest { data, wr_ptr } => {
                &&& after.addr == before.addr + n
                &&& after.image@ == before.image@
                &&& after.current_sector == before.current_sector
                &&& if wr_ptr + n == MANIFEST_SIZE {
                    &&& r == Poll::Ready(Ok::<(), Error>(()))
                    &&& after.state is Done
                    &&& memory_after.state() is Idle
                    &&& memory_after.controller() == controller
                } else {
                    &&& Memory::<F>::can_start(controller, r is Pending)
                    &&& r is Ready ==> refused
                    &&& after.state == (ProgramState::AwaitProgramManifest {
                        data,
                        wr_ptr: (wr_ptr + n) as usize,
                    })
                    &&& r is Pending ==> memory_after.started_on(controller) && is_programming(
                        memory_after.state(),
                        after.addr,
                        data@.subrange(wr_ptr + n, MANIFEST_SIZE as int),
                    )
                }
            },
            _ => true,
        }
    }

    /// The manifest is out of a block's reach: a block that has bytes left
    /// when the address comes to `MANIFEST_REGION_START` ends in `Address`.
    /// No operation is started, and the controller with its flash, the
    /// current sector and the bytes that are held stay as they are.
    pub proof fn lemma_block_stops_at_manifest<F: Flash>(
        before: Program,
        controller: F,
        n: usize,
        after: Program,
        memory_after: Memory<F>,
        r: Poll<Result<(), Error>>,
    )
        requires
            Self::steps(before, controller, n, after, memory_after, r),
            before.state matches ProgramState::AwaitProgram { data_len, wr_ptr, .. } && wr_ptr + n
                != data_len,
            before.addr + n >= MANIFEST_REGION_START,
        ensures
            r == Poll::Ready(Err::<(), Error>(Error::Address)),
            memory_after.state() is Idle,
            memory_after.controller() == controller,
            after.current_sector == before.current_sector,
            after.state == before.state,
    {
    }

    /// Moves on if the engine has ended its operation. `Pending` while
    /// there is more to do, and at once while the next block is awaited;
    /// `Ready(Ok(()))` once the manifest is written and the image sealed;
    /// `Ready(Err(..))` with the engine's error, with `Address` if the
    /// block runs past the application region, with `Write` if the
    /// controller cannot be unlocked for the next operation.
    pub fn poll<F: Flash>(&mut self, memory: &mut Memory<F>) -> (r: Poll<Result<(), Error>>)
        requires
            old(self).inv(old(memory)),
            !(old(self).state is Done),
        ensures
            final(memory).wf(),
            final(self).bounds(),
            final(self).current_sector.wf(),
            same_outside(
                old(memory).contents(),
                final(memory).contents(),
                old(self).addr as int,
                final(self).sector_end(),
            ),
            old(self).state is AwaitData ==> r is Pending,
            old(self).state is AwaitData ==> *final(self) == *old(self) && *final(memory)
                == *old(memory),
            r is Pending ==> final(self).inv(final(memory)),
            r is Pending ==> final(self).addr >= old(self).addr,
            r is Pending ==> final(self).image@ == old(self).image@,
            r is Pending && old(self).state.downloading() ==> final(self).state.downloading(),
            r is Pending && old(self).state.manifesting() ==> final(self).state.manifesting(),
            r matches Poll::Ready(Ok(done)) ==> old(self).state is AwaitProgramManifest,
            r matches Poll::Ready(Ok(done)) ==> final(self).state is Done,
            r matches Poll::Ready(Ok(done)) ==> final(self).inv(final(memory)),
            r matches Poll::Ready(Ok(done)) ==> final(self).image@ == old(self).image@,
            r matches Poll::Ready(Err(e)) ==> {
                ||| exists|status: Status|
                    !status.busy && Err::<usize, Error>(e) == #[trigger] poll_outcome(
                        old(memory).state(),
                        status,
                        old(memory).contents(),
                    )
                ||| e == Error::Write && final(memory).locked()
                ||| e == Error::Address && old(self).state is AwaitProgram
            },
            !(old(self).state is AwaitData) ==> exists|status: Status|
                {
                    &&& #[trigger] old(memory).controller().status_answer(status)
                    &&& Self::follows(
                        poll_result(old(memory).state(), status, old(memory).contents()),
                        *old(self),
                        *old(memory),
                        *final(self),
                        *final(memory),
                        r,
                    )
                },
    {
        if let ProgramState::AwaitData = self.state {
            return Poll::Pending;
        }
        let ghost contents = memory.contents();
        match memory.poll() {
            Poll::Pending => Poll::Pending,
            Poll::Ready(Err(e)) => Poll::Ready(Err(e)),
            Poll::Ready(Ok(n)) => match self.state {
                ProgramState::AwaitData => Poll::Pending,
                ProgramState::AwaitEraseBeforeProgram { data, data_len, wr_ptr } => {
                    self.program_after_erase(memory, data, data_len, wr_ptr)
                },
                ProgramState::AwaitProgram { data, data_len, wr_ptr } => {
                    self.advance(memory, data, data_len, wr_ptr, n)
                },
                ProgramState::AwaitErase => {
                    proof {
                        lemma_blank_concat(
                            contents,
                            self.addr as int,
                            sector_start(self.current_sector.index()),
                            self.sector_end(),
                        );
                    }
                    match self.erase_or_program_manifest(memory) {
                        Poll::Pending => Poll::Pending,
                        Poll::Ready(e) => Poll::Ready(Err(e)),
                    }
                },
                ProgramState::AwaitProgramManifest { data, wr_ptr } => {
                    self.advance_manifest(memory, data, wr_ptr, n)
                },
                ProgramState::Done => Poll::Pending,
            },
        }
    }

    /// The sector is erased: starts writing the first word of
    /// `data[wr_ptr..data_len]` to it.
    fn program_after_erase<F: Flash>(
        &mut self,
        memory: &mut Memory<F>,
        data: [u8; 128],
        data_len: usize,
        wr_ptr: usize,
    ) -> (r: Poll<Result<(), Error>>)
        requires
            old(memory).wf(),
            old(memory).state() is Idle,
            old(self).current_sector.wf(),
            old(self).state == (ProgramState::AwaitEraseBeforeProgram { data, data_len, wr_ptr }),
            old(self).addr == sector_start(old(self).current_sector.index()),
            APPLICATION_REGION_START <= old(self).addr < MANIFEST_REGION_START,
            old(self).written(old(memory).contents()),
            old(self).pending(data@, data_len, wr_ptr),
            is_blank(old(memory).contents(), old(self).addr as int, old(self).sector_end()),
        ensures
            final(memory).wf(),
            final(self).bounds(),
            final(self).current_sector.wf(),
            same_outside(
                old(memory).contents(),
                final(memory).contents(),
                old(self).addr as int,
                final(self).sector_end(),
            ),
            r is Pending <==> !final(memory).locked(),
            r is Pending ==> final(self).inv(final(memory)),
            r is Pending ==> final(self).addr == old(self).addr,
            r is Pending ==> final(self).image@ == old(self).image@,
            r is Pending ==> final(self).state is AwaitProgram,
            r is Ready ==> r == Poll::Ready(Err::<(), Error>(Error::Write)),
            Self::steps(*old(self), old(memory).controller(), 0, *final(self), *final(memory), r),
    {
        let ghost contents = memory.contents();
        proof {
            self.current_sector.lemma_wf();
            lemma_sectors_contiguous(self.current_sector.index());
            lemma_sector_of_unique(self.addr as int, self.current_sector.index());
            lemma_word_fits(self.addr as int, data_len - wr_ptr, MANIFEST_REGION_START as int);
        }
        match memory.program(self.addr, slice_subrange(data.as_slice(), wr_ptr, data_len)) {
            Poll::Ready(e) => {
                return Poll::Ready(Err(e));
            },
            Poll::Pending => {},
        }
        self.state = ProgramState::AwaitProgram { data, data_len, wr_ptr };
        proof {
            self.lemma_started(memory, contents, self.sector_end(), data@, data_len, wr_ptr);
        }
        Poll::Pending
    }

    /// The word of `n` bytes is written: moves on by it, and awaits the
    /// next block if that was the last word of this one, else starts the
    /// next operation.
    fn advance<F: Flash>(
        &mut self,
        memory: &mut Memory<F>,
        data: [u8; 128],
        data_len: usize,
        wr_ptr: usize,
        n: usize,
    ) -> (r: Poll<Result<(), Error>>)
        requires
            old(memory).wf(),
            old(memory).state() is Idle,
            old(self).current_sector.wf(),
            old(self).state == (ProgramState::AwaitProgram { data, data_len, wr_ptr }),
            sector_start(old(self).current_sector.index()) <= old(self).addr,
            old(self).addr < old(self).sector_end(),
            APPLICATION_REGION_START <= old(self).addr < MANIFEST_REGION_START,
            old(self).written(old(memory).contents()),
            old(self).pending(data@, data_len, wr_ptr),
            n == word_width(old(self).addr as int, data_len - wr_ptr),
            bytes_at(old(memory).contents(), old(self).addr as int, n as int) == data@.subrange(
                wr_ptr as int,
                data_len as int,
            ).subrange(0, n as int),
            is_blank(old(memory).contents(), old(self).addr + n, old(self).sector_end()),
        ensures
            final(memory).wf(),
            final(self).bounds(),
            final(self).current_sector.wf(),
            same_outside(
                old(memory).contents(),
                final(memory).contents(),
                old(self).addr as int,
                final(self).sector_end(),
            ),
            r is Pending ==> final(self).inv(final(memory)),
            r is Pending ==> final(self).addr == old(self).addr + n,
            r is Pending ==> final(self).image@ == old(self).image@,
            r is Pending ==> final(self).state.downloading(),
            r matches Poll::Ready(x) ==> {
                ||| x == Err::<(), Error>(Error::Address)
                ||| x == Err::<(), Error>(Error::Write) && final(memory).locked()
            },
            Self::steps(*old(self), old(memory).controller(), n, *final(self), *final(memory), r),
    {
        let ghost before = *self;
        let ghost contents = memory.contents();
        proof {
            self.current_sector.lemma_wf();
            lemma_sectors_contiguous(self.current_sector.index());
            lemma_word_fits(self.addr as int, data_len - wr_ptr, self.sector_end());
            before.lemma_word_written(contents, data@, data_len, wr_ptr, n);
        }
        let mut wr_ptr = wr_ptr;
        self.addr += n;
        wr_ptr += n;
        if wr_ptr == data_len {
            self.state = ProgramState::AwaitData;
        } else {
            let state = match Self::erase_or_program(
                memory,
                self.addr,
                &mut self.current_sector,
                data,
                data_len,
                wr_ptr,
            ) {
                Err(e) => {
                    return Poll::Ready(Err(e));
                },
                Ok(state) => state,
            };
            self.state = state;
            proof {
                self.lemma_started(
                    memory,
                    contents,
                    before.sector_end(),
                    data@,
                    data_len,
                    wr_ptr,
                );
            }
        }
        Poll::Pending
    }

    /// The word of the manifest is written: moves on by it, and is done if
    /// that was the last word, else starts writing the next.
    fn advance_manifest<F: Flash>(
        &mut self,
        memory: &mut Memory<F>,
        data: [u8; 24],
        wr_ptr: usize,
        n: usize,
    ) -> (r: Poll<Result<(), Error>>)
        requires
            old(memory).wf(),
            old(memory).state() is Idle,
            old(self).current_sector.wf(),
            old(self).state == (ProgramState::AwaitProgramManifest { data, wr_ptr }),
            old(self).current_sector.index() == SECTOR_COUNT - 1,
            wr_ptr < MANIFEST_SIZE,
            wr_ptr % 4 == 0,
            old(self).addr == MANIFEST_REGION_START + wr_ptr,
            holds_image(old(memory).contents(), old(self).image@),
            data@ == manifest_bytes(old(self).image@.len() as u32, sha1_digest(old(self).image@)),
            bytes_at(old(memory).contents(), MANIFEST_REGION_START as int, wr_ptr as int)
                == data@.subrange(0, wr_ptr as int),
            n == 4,
            bytes_at(old(memory).contents(), old(self).addr as int, 4) == data@.subrange(
                wr_ptr as int,
                MANIFEST_SIZE as int,
            ).subrange(0, 4),
        ensures
            final(memory).wf(),
            r is Pending ==> final(self).inv(final(memory)),
            r is Pending ==> final(self).addr == old(self).addr + n,
            r is Pending ==> final(self).image@ == old(self).image@,
            r is Pending ==> final(self).state is AwaitProgramManifest,
            r matches Poll::Ready(Ok(done)) ==> final(self).state is Done,
            r matches Poll::Ready(Ok(done)) ==> final(self).inv(final(memory)),
            r matches Poll::Ready(Ok(done)) ==> final(self).image@ == old(self).image@,
            r matches Poll::Ready(Err(e)) ==> e == Error::Write && final(memory).locked(),
            final(self).bounds(),
            final(self).current_sector.wf(),
            same_outside(
                old(memory).contents(),
                final(memory).contents(),
                old(self).addr as int,
                final(self).sector_end(),
            ),
            Self::steps(*old(self), old(memory).controller(), n, *final(self), *final(memory), r),
    {
        let ghost contents = memory.contents();
        proof {
            lemma_bytes_concat(contents, MANIFEST_REGION_START as int, wr_ptr as int, 4);
            assert(data@.subrange(0, wr_ptr + 4) =~= data@.subrange(0, wr_ptr as int)
                + data@.subrange(wr_ptr as int, MANIFEST_SIZE as int).subrange(0, 4));
        }
        let mut wr_ptr = wr_ptr;
        self.addr += n;
        wr_ptr += n;
        if wr_ptr == MANIFEST_SIZE {
            self.state = ProgramState::Done;
            assert(data@.subrange(0, MANIFEST_SIZE as int) =~= data@);
            Poll::Ready(Ok(()))
        } else {
            self.state = ProgramState::AwaitProgramManifest { data, wr_ptr };
            match memory.program(
                self.addr,
                slice_subrange(data.as_slice(), wr_ptr, MANIFEST_SIZE),
            ) {
                Poll::Ready(e) => Poll::Ready(Err(e)),
                Poll::Pending => {
                    proof {
                        self.lemma_manifest_word_started(memory, contents);
                    }
                    Poll::Pending
                },
            }
        }
    }

    /// Once the word of `data[wr_ptr..data_len]` that was in flight reads
    /// back, the flash holds the bytes taken so far up to the end of that
    /// word, and what follows the word in the sector is still erased.
    proof fn lemma_word_written(
        self,
        contents: Seq<u8>,
        data: Seq<u8>,
        data_len: usize,
        wr_ptr: usize,
        n: usize,
    )
        requires
            contents.len() == FLASH_END - FLASH_START,
            APPLICATION_REGION_START <= self.addr < MANIFEST_REGION_START,
            self.written(contents),
            self.pending(data, data_len, wr_ptr),
            data.len() >= data_len,
            n == word_width(self.addr as int, data_len - wr_ptr),
            bytes_at(contents, self.addr as int, n as int) == data.subrange(
                wr_ptr as int,
                data_len as int,
            ).subrange(0, n as int),
        ensures
            1 <= n <= 4,
            wr_ptr + n <= data_len,
            self.addr + n <= MANIFEST_REGION_START,
            bytes_at(
                contents,
                APPLICATION_REGION_START as int,
                self.addr + n - APPLICATION_REGION_START,
            ) == self.image@.subrange(0, self.addr + n - APPLICATION_REGION_START),
            self.image@.subrange(
                self.addr + n - APPLICATION_REGION_START,
                self.image@.len() as int,
            ) == data.subrange(wr_ptr + n, data_len as int),
    {
        let offset = self.addr - APPLICATION_REGION_START;
        let rest = data.subrange(wr_ptr as int, data_len as int);
        lemma_word_fits(self.addr as int, data_len - wr_ptr, MANIFEST_REGION_START as int);
        lemma_bytes_concat(contents, APPLICATION_REGION_START as int, offset, n as int);
        assert(self.image@.subrange(offset, offset + n) =~= self.image@.subrange(
            offset,
            self.image@.len() as int,
        ).subrange(0, n as int));
        assert(self.image@.subrange(0, offset + n) =~= self.image@.subrange(0, offset)
            + self.image@.subrange(offset, offset + n));
        assert(self.image@.subrange(offset + n, self.image@.len() as int) =~= rest.subrange(
            n as int,
            rest.len() as int,
        ));
        assert(rest.subrange(n as int, rest.len() as int) =~= data.subrange(
            wr_ptr + n,
            data_len as int,
        ));
    }

    /// After the next word of the manifest was started, the program is in
    /// order again.
    proof fn lemma_manifest_word_started<F: Flash>(self, memory: &Memory<F>, before: Seq<u8>)
        requires
            memory.wf(),
            before.len() == memory.contents().len(),
            self.state matches ProgramState::AwaitProgramManifest { data, wr_ptr } && 0 < wr_ptr
                < MANIFEST_SIZE && wr_ptr % 4 == 0 && self.addr == MANIFEST_REGION_START + wr_ptr
                && data@ == manifest_bytes(self.image@.len() as u32, sha1_digest(self.image@))
                && is_programming(
                memory.state(),
                self.addr,
                data@.subrange(wr_ptr as int, MANIFEST_SIZE as int),
            ) && bytes_at(before, MANIFEST_REGION_START as int, wr_ptr as int) == data@.subrange(
                0,
                wr_ptr as int,
            ),
            self.current_sector.wf(),
            self.current_sector.index() == SECTOR_COUNT - 1,
            holds_image(before, self.image@),
            same_outside(before, memory.contents(), self.addr as int, self.addr + 4),
        ensures
            self.inv(memory),
    {
        let contents = memory.contents();
        lemma_frame_bytes(
            before,
            contents,
            self.addr as int,
            self.addr + 4,
            APPLICATION_REGION_START as int,
            self.image@.len() as int,
        );
        lemma_frame_blank(
            before,
            contents,
            self.addr as int,
            self.addr + 4,
            APPLICATION_REGION_START + self.image@.len(),
            MANIFEST_REGION_START as int,
        );
        lemma_frame_bytes(
            before,
            contents,
            self.addr as int,
            self.addr + 4,
            MANIFEST_REGION_START as int,
            self.addr - MANIFEST_REGION_START,
        );
    }

    /// What a step of the sealing does, on a controller that was
    /// `controller`: if an operation can be started, it is started on that
    /// controller: the sector after the current one is being erased and is
    /// the current one now, with the address where it was; or, at the last
    /// sector, the first word of the manifest of the image is being
    /// written, with the address at the manifest. If none can be started,
    /// the flash is as it was.
    pub open spec fn seals<F: Flash>(
        before: Program,
        controller: F,
        after: Program,
        memory_after: Memory<F>,
        pending: bool,
    ) -> bool {
        &&& Memory::<F>::can_start(controller, pending)
        &&& pending ==> {
            &&& after.image@ == before.image@
            &&& memory_after.started_on(controller)
            &&& if before.current_sector.index() + 1 < SECTOR_COUNT {
                &&& after.state is AwaitErase
                &&& after.current_sector.index() == before.current_sector.index() + 1
                &&& after.addr == before.addr
                &&& memory_after.state() == MemoryState::Erasing(after.current_sector)
            } else {
                &&& after.state matches ProgramState::AwaitProgramManifest { data, wr_ptr }
                &&& wr_ptr == 0
                &&& data@ == manifest_bytes(before.image@.len() as u32, sha1_digest(before.image@))
                &&& after.current_sector == before.current_sector
                &&& after.addr == MANIFEST_REGION_START
                &&& is_programming(memory_after.state(), MANIFEST_REGION_START, data@)
            }
        }
        &&& !pending ==> {
            &&& after.addr == before.addr
            &&& memory_after.state() is Idle
            &&& memory_after.contents() == controller.contents()
        }
    }

    /// Goes on sealing the image: starts the erasure of the sector after
    /// the current one, which then becomes the current one, or, at the last
    /// sector, computes the manifest of what was written and starts writing
    /// it. `Write` if the controller cannot be unlocked.
    fn erase_or_program_manifest<F: Flash>(&mut self, memory: &mut Memory<F>) -> (r: Poll<Error>)
        requires
            old(memory).wf(),
            old(memory).state() is Idle,
            old(self).current_sector.wf(),
            APPLICATION_REGION_START <= old(self).addr <= MANIFEST_REGION_START,
            old(self).state is AwaitData || old(self).state is AwaitErase,
            old(self).addr <= old(self).sector_end(),
            old(self).image@.len() == old(self).addr - APPLICATION_REGION_START,
            old(self).written(old(memory).contents()),
            is_blank(old(memory).contents(), old(self).addr as int, old(self).sector_end()),
        ensures
            final(memory).wf(),
            final(self).current_sector.wf(),
            final(self).bounds(),
            r is Pending <==> !final(memory).locked(),
            r is Ready ==> r == Poll::Ready(Error::Write),
            r is Pending ==> final(self).inv(final(memory)),
            r is Pending ==> final(self).addr >= old(self).addr,
            r is Pending ==> final(self).image@ == old(self).image@,
            r is Pending ==> final(self).state.manifesting(),
            Self::seals(
                *old(self),
                old(memory).controller(),
                *final(self),
                *final(memory),
                r is Pending,
            ),
            same_outside(
                old(memory).contents(),
                final(memory).contents(),
                old(self).addr as int,
                final(self).sector_end(),
            ),
    {
        let ghost contents = memory.contents();
        let ghost image = self.image@;
        proof {
            self.current_sector.lemma_wf();
            lemma_sectors_contiguous(self.current_sector.index());
            assert(image.subrange(0, image.len() as int) =~= image);
        }
        match self.current_sector.next() {
            Some(sector) => {
                self.state = ProgramState::AwaitErase;
                proof {
                    self.current_sector.lemma_wf();
                    old(self).current_sector.lemma_wf();
                }
                match memory.erase(sector) {
                    Poll::Ready(e) => Poll::Ready(e),
                    Poll::Pending => {
                        proof {
                            let start = sector_start(sector.index());
                            let end = start + sector_length(sector.index());
                            self.current_sector.lemma_wf();
                            lemma_frame_bytes(
                                contents,
                                memory.contents(),
                                start,
                                end,
                                APPLICATION_REGION_START as int,
                                image.len() as int,
                            );
                            lemma_frame_blank(
                                contents,
                                memory.contents(),
                                start,
                                end,
                                self.addr as int,
                                start,
                            );
                        }
                        Poll::Pending
                    },
                }
            },
            None => {
                let length = self.addr - APPLICATION_REGION_START;
                let app = ApplicationRef::get_with_length(memory.flash(), length);
                assert(app@ =~= image);
                let manifest = Manifest { length: length as u32, hash: app.compute_hash() };
                let bytes = manifest.to_bytes();
                assert(word_width(MANIFEST_REGION_START as int, MANIFEST_SIZE as int) == 4);
                match memory.program(MANIFEST_REGION_START, bytes.as_slice()) {
                    Poll::Ready(e) => {
                        return Poll::Ready(e);
                    },
                    Poll::Pending => {},
                }
                self.addr = MANIFEST_REGION_START;
                self.state = ProgramState::AwaitProgramManifest { data: bytes, wr_ptr: 0 };
                proof {
                    let after = memory.contents();
                    assert(bytes@.subrange(0, MANIFEST_SIZE as int) =~= bytes@);
                    lemma_frame_bytes(
                        contents,
                        after,
                        MANIFEST_REGION_START as int,
                        MANIFEST_REGION_START + 4,
                        APPLICATION_REGION_START as int,
                        image.len() as int,
                    );
                    lemma_frame_blank(
                        contents,
                        after,
                        MANIFEST_REGION_START as int,
                        MANIFEST_REGION_START + 4,
                        APPLICATION_REGION_START + image.len(),
                        MANIFEST_REGION_START as int,
                    );
                    assert(bytes_at(after, MANIFEST_REGION_START as int, 0) =~= bytes@.subrange(
                        0,
                        0,
                    ));
                }
                Poll::Pending
            },
        }
    }

    /// After `erase_or_program` started an operation for
    /// `data[wr_ptr..data_len]`, the program is in order again.
    proof fn lemma_started<F: Flash>(
        self,
        memory: &Memory<F>,
        before: Seq<u8>,
        old_end: int,
        data: Seq<u8>,
        data_len: usize,
        wr_ptr: usize,
    )
        requires
            memory.wf(),
            before.len() == memory.contents().len(),
            self.current_sector.wf(),
            APPLICATION_REGION_START <= self.addr < MANIFEST_REGION_START,
            self.addr <= old_end,
            self.pending(data, data_len, wr_ptr),
            bytes_at(before, APPLICATION_REGION_START as int, self.addr - APPLICATION_REGION_START)
                == self.image@.subrange(0, self.addr - APPLICATION_REGION_START),
            is_blank(before, self.addr as int, old_end),
            Self::started(
                self.state,
                memory,
                before,
                self.addr,
                self.current_sector,
                old_end,
                data,
                data_len,
                wr_ptr,
            ),
        ensures
            self.inv(memory),
    {
        let contents = memory.contents();
        let offset = self.addr - APPLICATION_REGION_START;
        let index = self.current_sector.index();
        self.current_sector.lemma_wf();
        lemma_sectors_contiguous(index);
        lemma_sector_of_unique(self.addr as int, index);
        if self.state is AwaitEraseBeforeProgram {
            lemma_frame_bytes(
                before,
                contents,
                sector_start(index),
                sector_start(index) + sector_length(index),
                APPLICATION_REGION_START as int,
                offset,
            );
        } else {
            let width = word_width(self.addr as int, data_len - wr_ptr);
            lemma_word_fits(self.addr as int, data_len - wr_ptr, self.sector_end());
            lemma_frame_bytes(
                before,
                contents,
                self.addr as int,
                self.addr + width,
                APPLICATION_REGION_START as int,
                offset,
            );
            lemma_frame_blank(
                before,
                contents,
                self.addr as int,
                self.addr + width,
                self.addr + width,
                self.sector_end(),
            );
        }
    }

    /// What `erase_or_program` leaves when it started an operation at
    /// `addr`: the erasure of the sector that `addr` opens, or the writing
    /// of a word within the sector that was current.
    pub open spec fn started<F: Flash>(
        state: ProgramState,
        memory: &Memory<F>,
        before: Seq<u8>,
        addr: usize,
        current_sector: Sector,
        old_end: int,
        data: Seq<u8>,
        data_len: usize,
        wr_ptr: usize,
    ) -> bool {
        let index = current_sector.index();
        &&& index == sector_index(addr as int)
        &&& if addr == old_end {
            &&& state matches ProgramState::AwaitEraseBeforeProgram {
                data: held,
                data_len: held_len,
                wr_ptr: held_ptr,
            }
            &&& held@ == data && held_len == data_len && held_ptr == wr_ptr
            &&& addr == sector_start(index)
            &&& memory.state() == MemoryState::Erasing(current_sector)
            &&& same_outside(
                before,
                memory.contents(),
                sector_start(index),
                sector_start(index) + sector_length(index),
            )
        } else {
            &&& state matches ProgramState::AwaitProgram {
                data: held,
                data_len: held_len,
                wr_ptr: held_ptr,
            }
            &&& held@ == data && held_len == data_len && held_ptr == wr_ptr
            &&& sector_start(index) + sector_length(index) == old_end
            &&& is_programming(memory.state(), addr, data.subrange(wr_ptr as int, data_len as int))
            &&& same_outside(
                before,
                memory.contents(),
                addr as int,
                addr + word_width(addr as int, data_len - wr_ptr),
            )
        }
    }

    /// Starts the next operation for `data[wr_ptr..data_len]`, which goes to
    /// `addr`: the erasure of the sector that holds `addr` if that is not
    /// the current one, which it then becomes; else the writing of a word.
    /// `Address` if `addr` lies behind the application region; `Write` if
    /// the controller cannot be unlocked.
    pub fn erase_or_program<F: Flash>(
        memory: &mut Memory<F>,
        addr: usize,
        current_sector: &mut Sector,
        data: [u8; 128],
        data_len: usize,
        wr_ptr: usize,
    ) -> (r: Result<ProgramState, Error>)
        requires
            old(memory).wf(),
            old(memory).state() is Idle,
            old(current_sector).wf(),
            wr_ptr < data_len <= BLOCK_SIZE,
            APPLICATION_REGION_START <= addr,
            sector_start(old(current_sector).index()) <= addr <= sector_start(
                old(current_sector).index(),
            ) + sector_length(old(current_sector).index()),
        ensures
            final(memory).wf(),
            final(current_sector).wf(),
            addr >= MANIFEST_REGION_START ==> r == Err::<ProgramState, Error>(Error::Address)
                && *final(memory) == *old(memory) && *final(current_sector) == *old(current_sector),
            addr < MANIFEST_REGION_START ==> (r is Ok <==> !final(memory).locked()),
            addr < MANIFEST_REGION_START ==> Memory::<F>::can_start(
                old(memory).controller(),
                r is Ok,
            ),
            addr < MANIFEST_REGION_START ==> final(current_sector).index() == sector_index(
                addr as int,
            ),
            addr < MANIFEST_REGION_START && r is Err ==> r == Err::<ProgramState, Error>(
                Error::Write,
            ),
            r is Err ==> final(memory).state() is Idle,
            r is Err ==> final(memory).contents() == old(memory).contents(),
            r is Ok ==> final(memory).started_on(old(memory).controller()),
            r matches Ok(state) ==> addr < MANIFEST_REGION_START && Self::started(
                state,
                final(memory),
                old(memory).contents(),
                addr,
                *final(current_sector),
                sector_start(old(current_sector).index()) + sector_length(
                    old(current_sector).index(),
                ),
                data@,
                data_len,
                wr_ptr,
            ),
    {
        if addr >= MANIFEST_REGION_START {
            return Err(Error::Address);
        }
        let sector = match Sector::try_from(addr) {
            Ok(sector) => sector,
            Err(e) => {
                return Err(e);
            },
        };
        proof {
            old(current_sector).lemma_wf();
            sector.lemma_wf();
            lemma_sector_of_unique(addr as int, old(current_sector).index());
            lemma_sectors_contiguous(old(current_sector).index());
            if sector.index() == old(current_sector).index() {
                sector.lemma_same_index(*old(current_sector));
            }
        }
        let state = if sector != *current_sector {
            *current_sector = sector;
            match memory.erase(sector) {
                Poll::Ready(e) => {
                    return Err(e);
                },
                Poll::Pending => {},
            }
            ProgramState::AwaitEraseBeforeProgram { data, data_len, wr_ptr }
        } else {
            proof {
                lemma_word_fits(addr as int, data_len - wr_ptr, MANIFEST_REGION_START as int);
            }
            match memory.program(addr, slice_subrange(data.as_slice(), wr_ptr, data_len)) {
                Poll::Pending => {},
                Poll::Ready(e) => {
                    return Err(e);
                },
            }
            ProgramState::AwaitProgram { data, data_len, wr_ptr }
        };
        Ok(state)
    }
}

} // verus!
