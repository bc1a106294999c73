//! The download driver: the handler of the DFU mode class that writes an
//! image to the flash through the engine, seals it with a manifest, and
//! reads the sealed image back for an upload.

use vstd::prelude::*;
use crate::flash::{Flash, Status};
use crate::layout::{
    bytes_at,
    is_blank,
    APPLICATION_LENGTH,
    APPLICATION_REGION_START,
    FLASH_SIZE,
    MANIFEST_REGION_START,
};
use crate::manifest::{firmware_valid_in, is_firmware_valid};
use crate::memory::{poll_outcome, poll_result, Memory, Poll};
use crate::mode::{tick_outcome, DFUModeClass, DeviceFirmwareUpgrade};
use crate::program::{lemma_sealed, padded, sealed, Program, ProgramState};
use crate::protocol::{Capabilities, ControlRequest, Error, InReply, Request, State};
use crate::ram_flash::RamFlash;

verus! {

/// What the driver is doing.
#[derive(Clone, Copy)]
pub enum DFUModeState {
    /// Blocks are taken and written.
    Download(Program),
    /// The image is being sealed.
    Manifestation(Program),
    /// The image is read back; `remaining` bytes from `addr` on are left.
    Upload { addr: usize, remaining: usize },
    Idle,
    /// Something failed. The driver stays here.
    Error,
}

/// Whether the block handed over last is written, by the driver's state.
pub open spec fn transfer_status(state: DFUModeState) -> Result<bool, Error> {
    match state {
        DFUModeState::Download(program) => Ok(program.state is AwaitData),
        _ => Err(Error::Unknown),
    }
}

/// Where an upload reads next and how many bytes are left, by the driver's
/// state: an upload starts at the application region and covers all of
/// it. `None` where no upload can be.
pub open spec fn upload_cursor(state: DFUModeState) -> Option<(int, int)> {
    match state {
        DFUModeState::Idle => Some((APPLICATION_REGION_START as int, APPLICATION_LENGTH as int)),
        DFUModeState::Upload { addr, remaining } => Some((addr as int, remaining as int)),
        _ => None,
    }
}

/// The driver of a download or an upload. It owns the engine.
pub struct DFUModeImpl<F: Flash> {
    state: DFUModeState,
    memory: Memory<F>,
    force_bootloader: bool,
}

impl<F: Flash> DFUModeImpl<F> {
    /// What the driver is doing.
    pub closed spec fn state(&self) -> DFUModeState {
        self.state
    }

    /// The engine.
    pub closed spec fn memory(&self) -> Memory<F> {
        self.memory
    }

    /// What the flash holds.
    pub open spec fn contents(&self) -> Seq<u8> {
        self.memory().contents()
    }

    /// The bootloader is to stay, whatever the flash holds.
    pub closed spec fn force_bootloader(&self) -> bool {
        self.force_bootloader
    }

    /// The bytes of all blocks taken in this download.
    pub open spec fn image(&self) -> Seq<u8> {
        match self.state() {
            DFUModeState::Download(program) => program.image@,
            DFUModeState::Manifestation(program) => program.image@,
            _ => Seq::empty(),
        }
    }

    /// The driver, the engine and the flash fit together.
    pub open spec fn wf(&self) -> bool {
        match self.state() {
            DFUModeState::Download(program) => program.inv(&self.memory())
                && program.state.downloading(),
            DFUModeState::Manifestation(program) => program.inv(&self.memory())
                && program.state.manifesting(),
            DFUModeState::Upload { addr, remaining } => self.memory().wf() && self.memory().state()
                is Idle && APPLICATION_REGION_START <= addr && addr + remaining
                <= MANIFEST_REGION_START,
            DFUModeState::Idle => self.memory().wf() && self.memory().state() is Idle,
            DFUModeState::Error => self.memory().wf(),
        }
    }

    /// The program of a download or of the sealing of an image.
    pub open spec fn program(&self) -> Program {
        match self.state() {
            DFUModeState::Download(program) => program,
            DFUModeState::Manifestation(program) => program,
            _ => arbitrary(),
        }
    }

    /// The driver's state after its program took a step with the result
    /// `stepped`: the program goes on, or the image is sealed and the
    /// driver idle, or the driver is in `Error`.
    pub open spec fn after_step(sealing: bool, program: Program, stepped: Poll<Result<(), Error>>)
        -> DFUModeState {
        match stepped {
            Poll::Pending => if sealing {
                DFUModeState::Manifestation(program)
            } else {
                DFUModeState::Download(program)
            },
            Poll::Ready(Ok(_)) => DFUModeState::Idle,
            Poll::Ready(Err(_)) => DFUModeState::Error,
        }
    }

    /// What the driver answers after its program took a step with the
    /// result `stepped`.
    pub open spec fn answer_of(stepped: Poll<Result<(), Error>>) -> Result<(), Error> {
        match stepped {
            Poll::Ready(Err(e)) => Err(e),
            _ => Ok(()),
        }
    }

    /// How `poll` follows the engine while `program` is under way. While a
    /// block is awaited and while the controller is busy nothing changes;
    /// an error of the engine is the error of the driver, which leaves the
    /// flash as the failed operation left it; and once the
    /// engine has ended an operation, the program takes the step that
    /// `Program::steps` fixes.
    pub open spec fn follows_engine(
        &self,
        program: Program,
        sealing: bool,
        after: &Self,
        r: Result<(), Error>,
    ) -> bool {
        if program.state is AwaitData {
            r is Ok && *after == *self
        } else {
            exists|status: Status|
                {
                    &&& #[trigger] self.memory().controller().status_answer(status)
                    &&& match poll_result(self.memory().state(), status, self.contents()) {
                        Poll::Pending => r is Ok && *after == *self,
                        Poll::Ready(Err(e)) => {
                            &&& r == Err::<(), Error>(e)
                            &&& after.state() is Error
                            &&& after.memory().state() is Idle
                            &&& after.memory().controller() == self.memory().controller()
                        },
                        Poll::Ready(Ok(n)) => exists|
                            stepped: Program,
                            result: Poll<Result<(), Error>>,
                        |
                            {
                                &&& #[trigger] Program::steps(
                                    program,
                                    self.memory().controller(),
                                    n,
                                    stepped,
                                    after.memory(),
                                    result,
                                )
                                &&& after.state() == Self::after_step(sealing, stepped, result)
                                &&& r == Self::answer_of(result)
                            },
                    }
                }
        }
    }

    /// A driver that sets its state by the step of its program follows the
    /// engine.
    proof fn lemma_follows_engine(
        &self,
        program: Program,
        sealing: bool,
        after: Self,
        stepped: Program,
        result: Poll<Result<(), Error>>,
    )
        requires
            program.state is AwaitData ==> result is Pending && stepped == program
                && after.memory() == self.memory(),
            !(program.state is AwaitData) ==> exists|status: Status|
                {
                    &&& #[trigger] self.memory().controller().status_answer(status)
                    &&& Program::follows(
                        poll_result(self.memory().state(), status, self.contents()),
                        program,
                        self.memory(),
                        stepped,
                        after.memory(),
                        result,
                    )
                },
            self.state() == Self::after_step(sealing, program, Poll::Pending),
            after.state() == Self::after_step(sealing, stepped, result),
            after.force_bootloader() == self.force_bootloader(),
        ensures
            self.follows_engine(program, sealing, &after, Self::answer_of(result)),
    {
        if !(program.state is AwaitData) {
            let status = choose|status: Status|
                {
                    &&& #[trigger] self.memory().controller().status_answer(status)
                    &&& Program::follows(
                        poll_result(self.memory().state(), status, self.contents()),
                        program,
                        self.memory(),
                        stepped,
                        after.memory(),
                        result,
                    )
                };
            match poll_result(self.memory().state(), status, self.contents()) {
                Poll::Pending => {
                    assert(after == *self);
                },
                Poll::Ready(Err(e)) => {},
                Poll::Ready(Ok(n)) => {
                    assert(Program::steps(
                        program,
                        self.memory().controller(),
                        n,
                        stepped,
                        after.memory(),
                        result,
                    ));
                },
            }
        } else {
            assert(after == *self);
        }
    }

    /// An idle driver on `memory`. With `force_bootloader` no firmware
    /// counts as valid.
    pub fn new(memory: Memory<F>, force_bootloader: bool) -> (driver: Self)
        requires
            memory.wf(),
            memory.state() is Idle,
        ensures
            driver.wf(),
            driver.state() is Idle,
            driver.memory() == memory,
            driver.force_bootloader() == force_bootloader,
    {
        Self { state: DFUModeState::Idle, memory, force_bootloader }
    }

    /// The engine, to look at the flash through.
    pub fn memory_ref(&self) -> (memory: &Memory<F>)
        ensures
            *memory == self.memory(),
    {
        &self.memory
    }
}

impl<F: Flash> Capabilities for DFUModeImpl<F> {
    const CAN_UPLOAD: bool = true;

    const CAN_DOWNLOAD: bool = true;

    const IS_MANIFESTATION_TOLERANT: bool = true;

    const WILL_DETACH: bool = false;

    const DETACH_TIMEOUT: u16 = 50;

    const TRANSFER_SIZE: u16 = 128;
}

impl<F: Flash> DeviceFirmwareUpgrade for DFUModeImpl<F> {
    const POLL_TIMEOUT: u32 = 10;

    open spec fn inv(&self) -> bool {
        self.wf()
    }

    /// The answer is what the flash holds; nothing changes.
    open spec fn validity_answer(&self, after: &Self, valid: bool) -> bool {
        &&& *after == *self
        &&& valid == firmware_valid_in(self.force_bootloader(), self.contents())
    }

    /// The answer is `transfer_status` of the driver's state; nothing
    /// changes.
    open spec fn transfer_answer(&self, after: &Self, r: Result<bool, Error>) -> bool {
        &&& *after == *self
        &&& r == transfer_status(self.state())
    }

    /// An idle driver has nothing in progress. A driver that has written
    /// the last block starts sealing the image as `Program::seals` says,
    /// if and only if the controller can be unlocked. A driver that is
    /// sealing an image goes on as `poll` does: it is idle once the image
    /// is sealed. In every other state the answer is an error. After an
    /// error, and only then, the driver is in `Error`.
    open spec fn manifestation_answer(&self, after: &Self, r: Result<bool, Error>) -> bool {
        &&& after.force_bootloader() == self.force_bootloader()
        &&& r is Err <==> after.state() is Error
        &&& match self.state() {
            DFUModeState::Idle => r == Ok::<bool, Error>(false) && *after == *self,
            DFUModeState::Download(program) => if program.state is AwaitData {
                &&& r is Ok <==> !after.memory().locked()
                &&& r is Ok ==> r == Ok::<bool, Error>(true) && after.state() is Manifestation
                    && after.image() == self.image()
                &&& r is Err ==> r == Err::<bool, Error>(Error::Write)
                &&& exists|stepped: Program|
                    {
                        &&& #[trigger] Program::seals(
                            program,
                            self.memory().controller(),
                            stepped,
                            after.memory(),
                            r is Ok,
                        )
                        &&& r is Ok ==> after.state() == DFUModeState::Manifestation(stepped)
                    }
            } else {
                r == Err::<bool, Error>(Error::Unknown) && after.memory() == self.memory()
            },
            DFUModeState::Manifestation(program) => {
                &&& match r {
                    Ok(true) => after.state() is Manifestation && after.image() == self.image(),
                    Ok(false) => after.state() is Idle && sealed(after.contents(), self.image()),
                    Err(_) => true,
                }
                &&& self.follows_engine(
                    program,
                    true,
                    after,
                    match r {
                        Ok(_) => Ok(()),
                        Err(e) => Err(e),
                    },
                )
                &&& r == Ok::<bool, Error>(false) <==> after.state() is Idle
            },
            _ => r == Err::<bool, Error>(Error::Unknown) && after.memory() == self.memory(),
        }
    }

    /// A download or the sealing of an image goes on as `follows_engine`
    /// says; in the other states nothing happens. After an error the
    /// driver is in `Error`. Once the image is sealed the driver is idle.
    open spec fn poll_answer(&self, after: &Self, r: Result<(), Error>) -> bool {
        &&& after.force_bootloader() == self.force_bootloader()
        &&& r is Err ==> after.state() is Error
        &&& match self.state() {
            DFUModeState::Download(program) => {
                &&& r is Ok ==> after.state() is Download && after.image() == self.image()
                &&& self.follows_engine(program, false, after, r)
            },
            DFUModeState::Manifestation(program) => {
                &&& r is Ok ==> {
                    ||| after.state() is Manifestation && after.image() == self.image()
                    ||| after.state() is Idle && sealed(after.contents(), self.image())
                }
                &&& self.follows_engine(program, true, after, r)
            },
            _ => r is Ok && *after == *self,
        }
    }

    /// Where an upload can be, as many bytes are copied from the flash to
    /// the start of the buffer as the buffer holds or as are left, and the
    /// upload moves on by them; it ends with a call that copies nothing.
    /// Elsewhere the answer is `Unknown` and nothing changes.
    open spec fn upload_answer(
        &self,
        block_number: u16,
        space: Seq<u8>,
        after: &Self,
        filled: Seq<u8>,
        r: Result<usize, Error>,
    ) -> bool {
        &&& after.memory() == self.memory()
        &&& after.force_bootloader() == self.force_bootloader()
        &&& match upload_cursor(self.state()) {
            None => r == Err::<usize, Error>(Error::Unknown) && after.state() == self.state()
                && filled == space,
            Some((addr, remaining)) => {
                let size = if space.len() < remaining {
                    space.len() as int
                } else {
                    remaining
                };
                &&& r == Ok::<usize, Error>(size as usize)
                &&& filled == bytes_at(self.contents(), addr, size) + space.subrange(
                    size,
                    space.len() as int,
                )
                &&& after.state() == if size != 0 {
                    DFUModeState::Upload {
                        addr: (addr + size) as usize,
                        remaining: (remaining - size) as usize,
                    }
                } else {
                    DFUModeState::Idle
                }
            },
        }
    }

    /// An idle driver begins a program with the block, a driver that has
    /// written the block before takes this one behind it and starts the
    /// next operation: both if and only if the controller can be unlocked,
    /// and the second only while the application region is not full. In
    /// every other state the answer is `Unknown`. After an error, and only
    /// then, the driver is in `Error`.
    open spec fn download_answer(
        &self,
        block_number: u16,
        block: Seq<u8>,
        after: &Self,
        r: Result<(), Error>,
    ) -> bool {
        &&& after.force_bootloader() == self.force_bootloader()
        &&& r is Ok ==> after.state() is Download
        &&& r is Err ==> after.state() is Error
        &&& match self.state() {
            DFUModeState::Idle => {
                &&& Memory::<F>::can_start(self.memory().controller(), r is Ok)
                &&& r is Ok <==> !after.memory().locked()
                &&& r is Ok ==> after.image() == block && after.program().begins(
                    block,
                    after.memory(),
                )
                &&& r is Ok ==> after.memory().started_on(self.memory().controller())
                &&& r is Err ==> r == Err::<(), Error>(Error::Write) && after.contents()
                    == self.contents()
            },
            DFUModeState::Download(program) => {
                if !(program.state is AwaitData) {
                    r == Err::<(), Error>(Error::Unknown) && after.memory() == self.memory()
                } else if program.addr >= MANIFEST_REGION_START {
                    r == Err::<(), Error>(Error::Address) && after.memory() == self.memory()
                } else {
                    &&& Memory::<F>::can_start(self.memory().controller(), r is Ok)
                    &&& r is Ok <==> !after.memory().locked()
                    &&& r is Ok ==> {
                        &&& after.image() == self.image() + block
                        &&& after.program().addr == program.addr
                        &&& after.memory().started_on(self.memory().controller())
                        &&& Program::started(
                            after.program().state,
                            &after.memory(),
                            self.contents(),
                            after.program().addr,
                            after.program().current_sector,
                            program.sector_end(),
                            padded(block),
                            block.len() as usize,
                            0,
                        )
                    }
                    &&& r is Err ==> r == Err::<(), Error>(Error::Write) && after.contents()
                        == self.contents()
                }
            },
            _ => r == Err::<(), Error>(Error::Unknown) && after.memory() == self.memory(),
        }
    }

    /// Whether the flash holds an application image that can run.
    fn is_firmware_valid(&mut self) -> (valid: bool) {
        is_firmware_valid(self.memory.flash(), self.force_bootloader)
    }

    /// Whether the block taken last is written: `Ok(true)` once it is,
    /// `Ok(false)` while it is being written, `Unknown` outside a download.
    fn is_transfer_complete(&mut self) -> (r: Result<bool, Error>) {
        if let DFUModeState::Download(program) = &self.state {
            if let ProgramState::AwaitData = program.state {
                Ok(true)
            } else {
                Ok(false)
            }
        } else {
            Err(Error::Unknown)
        }
    }

    /// Asked at the end of a download, starts sealing the image; asked
    /// while the image is being sealed, goes on with it. `Ok(true)` while
    /// there is more to do; `Ok(false)` once the image is sealed and when
    /// the driver is idle. After an error the driver is in `Error`:
    /// `Unknown` if a block is still being written, during an upload and
    /// after an earlier error, else what the engine reported.
    fn is_manifestation_in_progress(&mut self) -> (r: Result<bool, Error>) {
        match self.state {
            DFUModeState::Download(program) => {
                let ghost before = program;
                let mut program = program;
                let sealing = program.finalize(&mut self.memory);
                proof {
                    if before.state is AwaitData {
                        assert(Program::seals(
                            before,
                            old(self).memory().controller(),
                            program,
                            self.memory(),
                            sealing is Pending,
                        ));
                    }
                }
                match sealing {
                    Poll::Ready(e) => {
                        self.state = DFUModeState::Error;
                        Err(e)
                    },
                    Poll::Pending => {
                        self.state = DFUModeState::Manifestation(program);
                        Ok(true)
                    },
                }
            },
            DFUModeState::Manifestation(program) => {
                let ghost before = program;
                let mut program = program;
                let stepped = program.poll(&mut self.memory);
                let res = match stepped {
                    Poll::Ready(Ok(())) => {
                        self.state = DFUModeState::Idle;
                        Ok(false)
                    },
                    Poll::Ready(Err(e)) => {
                        self.state = DFUModeState::Error;
                        Err(e)
                    },
                    Poll::Pending => {
                        self.state = DFUModeState::Manifestation(program);
                        Ok(true)
                    },
                };
                proof {
                    old(self).lemma_follows_engine(before, true, *self, program, stepped);
                    assert(old(self).manifestation_answer(&*self, res));
                }
                res
            },
            DFUModeState::Idle => Ok(false),
            _ => {
                self.state = DFUModeState::Error;
                Err(Error::Unknown)
            },
        }
    }

    /// Goes on with the download or with the sealing of the image, if one
    /// of them is under way. An error of the engine ends it: the driver is
    /// then in `Error`. Once the image is sealed the driver is idle.
    fn poll(&mut self) -> (r: Result<(), Error>) {
        match self.state {
            DFUModeState::Download(program) => {
                let mut program = program;
                match program.poll(&mut self.memory) {
                    Poll::Pending => {
                        self.state = DFUModeState::Download(program);
                    },
                    Poll::Ready(Ok(())) => {
                        self.state = DFUModeState::Idle;
                    },
                    Poll::Ready(Err(e)) => {
                        self.state = DFUModeState::Error;
                        return Err(e);
                    },
                }
            },
            DFUModeState::Manifestation(program) => {
                let mut program = program;
                match program.poll(&mut self.memory) {
                    Poll::Pending => {
                        self.state = DFUModeState::Manifestation(program);
                    },
                    Poll::Ready(Ok(())) => {
                        self.state = DFUModeState::Idle;
                    },
                    Poll::Ready(Err(e)) => {
                        self.state = DFUModeState::Error;
                        return Err(e);
                    },
                }
            },
            _ => {},
        }
        Ok(())
    }

    /// Copies the next bytes of the application region to the start of
    /// `buf`, as many as `buf` holds or as are left, and returns their
    /// number. The first call of an idle driver starts at the start of the
    /// region, with all of the region left. A call that copies nothing
    /// ends the upload: the driver is idle again. `Unknown`, with nothing
    /// changed, during a download and after an error.
    fn upload(&mut self, _block_number: u16, buf: &mut [u8]) -> (r: Result<usize, Error>) {
        if let DFUModeState::Idle = self.state {
            self.state = DFUModeState::Upload {
                addr: APPLICATION_REGION_START,
                remaining: APPLICATION_LENGTH,
            };
        }
        let (addr, remaining) = match self.state {
            DFUModeState::Upload { addr, remaining } => (addr, remaining),
            _ => {
                assert(buf@ =~= old(buf)@);
                return Err(Error::Unknown);
            },
        };
        let size = if buf.len() < remaining {
            buf.len()
        } else {
            remaining
        };
        let src = self.memory.flash().read(addr, size);
        let mut i: usize = 0;
        while i < size
            invariant
                i <= size <= buf@.len(),
                buf@.len() == old(buf)@.len(),
                src@.len() == size,
                forall|j: int| 0 <= j < i ==> buf@[j] == src@[j],
                forall|j: int| i <= j < buf@.len() ==> buf@[j] == old(buf)@[j],
            decreases size - i,
        {
            buf[i] = src[i];
            i += 1;
        }
        assert(buf@ =~= src@ + old(buf)@.subrange(size as int, old(buf)@.len() as int));
        if size != 0 {
            self.state = DFUModeState::Upload { addr: addr + size, remaining: remaining - size };
        } else {
            self.state = DFUModeState::Idle;
        }
        Ok(size)
    }

    /// Takes the block `buf`. An idle driver starts a download with it:
    /// the first sector of the application region is erased and the block
    /// written, as `poll` goes on. A driver that has written the block
    /// before starts writing this one behind it. `Address` if the
    /// application region is full; `Write` if the controller cannot be
    /// unlocked; `Unknown` if the block before is still being written, while
    /// an image is sealed, during an upload and after an error. After an
    /// error the driver is in `Error`.
    fn download(&mut self, _block_number: u16, buf: &[u8]) -> (r: Result<(), Error>) {
        let res = match self.state {
            DFUModeState::Idle => match Program::new(&mut self.memory, buf) {
                Ok(program) => {
                    self.state = DFUModeState::Download(program);
                    Ok(())
                },
                Err(e) => Err(e),
            },
            DFUModeState::Download(program) => {
                let mut program = program;
                match program.update(&mut self.memory, buf) {
                    Poll::Ready(e) => Err(e),
                    Poll::Pending => {
                        self.state = DFUModeState::Download(program);
                        Ok(())
                    },
                }
            },
            _ => Err(Error::Unknown),
        };
        if res.is_err() {
            self.state = DFUModeState::Error;
        }
        res
    }
}

/// After a download of `image` was sealed, an upload of an idle driver
/// covers the application region, which holds the image followed by
/// erased bytes up to its end.
pub proof fn lemma_upload_after_download(contents: Seq<u8>, image: Seq<u8>)
    requires
        contents.len() == FLASH_SIZE,
        sealed(contents, image),
    ensures
        upload_cursor(DFUModeState::Idle) == Some(
            (APPLICATION_REGION_START as int, APPLICATION_LENGTH as int),
        ),
        bytes_at(contents, APPLICATION_REGION_START as int, APPLICATION_LENGTH as int) == image
            + Seq::new((APPLICATION_LENGTH - image.len()) as nat, |i: int| 0xFFu8),
{
    lemma_sealed(contents, image);
    let region = bytes_at(contents, APPLICATION_REGION_START as int, APPLICATION_LENGTH as int);
    let expected = image + Seq::new(
        (APPLICATION_LENGTH - image.len()) as nat,
        |i: int| 0xFFu8,
    );
    assert forall|i: int| 0 <= i < APPLICATION_LENGTH implies region[i] == expected[i] by {
        if i < image.len() {
            assert(bytes_at(contents, APPLICATION_REGION_START as int, image.len() as int)[i]
                == region[i]);
        } else {
            assert(crate::layout::byte_at(contents, APPLICATION_REGION_START + i) == 0xFF);
        }
    }
    assert(region =~= expected);
}

/// Once a driver answers that the transfer is complete, the flash holds
/// every byte of every block that the driver has taken, from the start of
/// the application region on.
pub proof fn lemma_transfer_complete<F: Flash>(driver: DFUModeImpl<F>)
    requires
        driver.wf(),
        transfer_status(driver.state()) == Ok::<bool, Error>(true),
    ensures
        bytes_at(
            driver.contents(),
            APPLICATION_REGION_START as int,
            driver.image().len() as int,
        ) == driver.image(),
{
    assert(driver.image().subrange(0, driver.image().len() as int) =~= driver.image());
}

/// When the state machine on this driver answers a `GETSTATUS` in
/// `DfuDnloadSync` with `DfuDnloadIdle`, the flash holds every byte of
/// every block of the download: the host is told that a block is written
/// only once it is.
pub proof fn lemma_download_idle_means_written<F: Flash>(
    before: DFUModeClass<DFUModeImpl<F>>,
    req: ControlRequest,
    after: DFUModeClass<DFUModeImpl<F>>,
    reply: InReply,
)
    requires
        before.wf(),
        before.current() == State::DfuDnloadSync,
        req.request == Request::DFU_GETSTATUS,
        before.in_step(&req, &after, reply),
        after.current() == State::DfuDnloadIdle,
    ensures
        after.handler() == before.handler(),
        bytes_at(
            after.handler().contents(),
            APPLICATION_REGION_START as int,
            after.handler().image().len() as int,
        ) == after.handler().image(),
{
    lemma_transfer_complete(before.handler());
}

/// When the state machine on this driver answers a `GETSTATUS` in
/// `DfuManifestSync` with `DfuIdle` while the driver was sealing an image,
/// the flash holds the image and the manifest that seals it: the bytes of
/// all blocks of the download, in their order, erased flash behind them,
/// and a manifest with their number and their hash.
pub proof fn lemma_idle_after_manifestation_means_sealed<F: Flash>(
    before: DFUModeClass<DFUModeImpl<F>>,
    req: ControlRequest,
    after: DFUModeClass<DFUModeImpl<F>>,
    reply: InReply,
)
    requires
        before.current() == State::DfuManifestSync,
        before.handler().state() is Manifestation,
        req.request == Request::DFU_GETSTATUS,
        before.in_step(&req, &after, reply),
        after.current() == State::DfuIdle,
    ensures
        after.handler().state() is Idle,
        sealed(after.handler().contents(), before.handler().image()),
{
}

/// When the time of `DfuManifest` passes without an error and leaves the
/// driver idle, the flash holds the image and the manifest that seals it.
pub proof fn lemma_idle_after_tick_means_sealed<F: Flash>(
    before: DFUModeClass<DFUModeImpl<F>>,
    elapsed: u32,
    after: DFUModeClass<DFUModeImpl<F>>,
)
    requires
        before.current() is DfuManifest,
        before.handler().state() is Manifestation,
        before.tick(elapsed, &after),
        after.handler().state() is Idle,
    ensures
        sealed(after.handler().contents(), before.handler().image()),
        !(after.current() is DfuError),
{
}

/// On a flash in memory, whose status is known: when the time of
/// `DfuDnloadBusy` or of `DfuManifest` passes while an operation of the
/// engine has ended with an error, the driver is in `Error` and the state
/// machine in `DfuError` with the error of the engine.
pub proof fn lemma_engine_error_is_reported(
    before: DFUModeClass<DFUModeImpl<RamFlash>>,
    elapsed: u32,
    after: DFUModeClass<DFUModeImpl<RamFlash>>,
    program: Program,
    error: Error,
)
    requires
        before.current() is DfuDnloadBusy || before.current() is DfuManifest,
        before.handler().state() == DFUModeState::Download(program) || before.handler().state()
            == DFUModeState::Manifestation(program),
        !(program.state is AwaitData),
        before.tick(elapsed, &after),
        !before.handler().memory().controller().shown().busy,
        poll_outcome(
            before.handler().memory().state(),
            before.handler().memory().controller().shown(),
            before.handler().contents(),
        ) == Err::<usize, Error>(error),
    ensures
        after.current() == State::DfuError(error),
        after.handler().state() is Error,
{
}

/// On a flash in memory, whose status is known: when the time of
/// `DfuDnloadBusy` passes after a word of a block was written, and the
/// block has bytes left while the address behind that word is at the
/// manifest, the driver is in `Error` and the state machine in `DfuError`
/// with `Address`. No operation is started: the flash stays as it is.
pub proof fn lemma_block_past_the_region_is_refused(
    before: DFUModeClass<DFUModeImpl<RamFlash>>,
    elapsed: u32,
    after: DFUModeClass<DFUModeImpl<RamFlash>>,
    program: Program,
    n: usize,
)
    requires
        before.current() is DfuDnloadBusy,
        before.handler().state() == DFUModeState::Download(program),
        program.state is AwaitProgram,
        program.state->AwaitProgram_wr_ptr + n != program.state->AwaitProgram_data_len,
        program.addr + n >= MANIFEST_REGION_START,
        before.tick(elapsed, &after),
        !before.handler().memory().controller().shown().busy,
        poll_outcome(
            before.handler().memory().state(),
            before.handler().memory().controller().shown(),
            before.handler().contents(),
        ) == Ok::<usize, Error>(n),
    ensures
        after.current() == State::DfuError(Error::Address),
        after.handler().state() is Error,
        after.handler().memory().state() is Idle,
        after.handler().contents() == before.handler().contents(),
{
}

/// On a flash in memory, whose status is known: while the controller is
/// busy, the time of `DfuDnloadBusy` passes without a change of the driver
/// or of the flash.
pub proof fn lemma_busy_controller_changes_nothing(
    before: DFUModeClass<DFUModeImpl<RamFlash>>,
    elapsed: u32,
    after: DFUModeClass<DFUModeImpl<RamFlash>>,
    program: Program,
)
    requires
        before.current() is DfuDnloadBusy,
        before.handler().state() == DFUModeState::Download(program),
        !(program.state is AwaitData),
        before.tick(elapsed, &after),
        before.handler().memory().controller().shown().busy,
    ensures
        after.handler() == before.handler(),
        after.current() == tick_outcome(before.current(), Ok(()), elapsed, true),
{
}

} // verus!
