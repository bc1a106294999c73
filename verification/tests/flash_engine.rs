use usbd_dfu::flash::{Flash, Status};
use usbd_dfu::layout::{FLASH_END, FLASH_SIZE, FLASH_START};
use usbd_dfu::memory::{erase_result, program_result, program_width, Memory, Poll};
use usbd_dfu::protocol::Error;
use usbd_dfu::ram_flash::RamFlash;
use usbd_dfu::sector::Sector;

const CLEAR: Status =
    Status { busy: false, write_protection_error: false, operation_error: false };

fn sector_at(addr: usize) -> Sector {
    Sector::try_from(addr).unwrap()
}

#[test]
fn width_at_an_aligned_address() {
    assert_eq!(program_width(0x0800_8000, 1), 1);
    assert_eq!(program_width(0x0800_8000, 2), 2);
    assert_eq!(program_width(0x0800_8000, 3), 2);
    assert_eq!(program_width(0x0800_8000, 4), 4);
    assert_eq!(program_width(0x0800_8000, 5), 4);
    assert_eq!(program_width(0x0800_8004, 128), 4);
}

#[test]
fn width_at_an_odd_address() {
    assert_eq!(program_width(0x0800_8001, 1), 1);
    assert_eq!(program_width(0x0800_8001, 4), 1);
    assert_eq!(program_width(0x0800_8003, 128), 1);
}

#[test]
fn width_at_a_half_aligned_address() {
    assert_eq!(program_width(0x0800_8002, 1), 1);
    assert_eq!(program_width(0x0800_8002, 2), 2);
    assert_eq!(program_width(0x0800_8002, 3), 2);
    assert_eq!(program_width(0x0800_8002, 4), 2);
    assert_eq!(program_width(0x0800_8006, 128), 2);
}

#[test]
fn width_never_three_and_never_more_than_is_left() {
    for addr in 0x0800_8000usize..0x0800_8010 {
        for len in 1usize..10 {
            let width = program_width(addr, len);
            assert!(width == 1 || width == 2 || width == 4);
            assert!(width <= len);
            assert_eq!(addr % width, 0);
        }
    }
}

#[test]
fn erase_result_by_status() {
    let protected = Status { busy: false, write_protection_error: true, operation_error: false };
    let failed = Status { busy: false, write_protection_error: false, operation_error: true };
    let both = Status { busy: false, write_protection_error: true, operation_error: true };
    assert_eq!(erase_result(protected, true), Err(Error::Write));
    assert_eq!(erase_result(both, true), Err(Error::Write));
    assert_eq!(erase_result(failed, true), Err(Error::Erase));
    assert_eq!(erase_result(failed, false), Err(Error::Erase));
    assert_eq!(erase_result(CLEAR, false), Err(Error::CheckErased));
    assert_eq!(erase_result(CLEAR, true), Ok(0));
}

#[test]
fn program_result_by_status() {
    let protected = Status { busy: false, write_protection_error: true, operation_error: false };
    let failed = Status { busy: false, write_protection_error: false, operation_error: true };
    let both = Status { busy: false, write_protection_error: true, operation_error: true };
    assert_eq!(program_result(protected, true, 4), Err(Error::Write));
    assert_eq!(program_result(both, true, 4), Err(Error::Write));
    assert_eq!(program_result(failed, true, 4), Err(Error::Programming));
    assert_eq!(program_result(failed, false, 2), Err(Error::Programming));
    assert_eq!(program_result(CLEAR, false, 2), Err(Error::Verify));
    assert_eq!(program_result(CLEAR, true, 1), Ok(1));
    assert_eq!(program_result(CLEAR, true, 2), Ok(2));
    assert_eq!(program_result(CLEAR, true, 4), Ok(4));
}

#[test]
fn a_new_engine_is_idle() {
    let mut memory = Memory::new(RamFlash::new());
    assert!(memory.is_idle());
    assert_eq!(memory.poll(), Poll::Ready(Ok(0)));
    assert!(memory.is_idle());
}

#[test]
fn unlock_opens_the_lock_and_does_it_again() {
    let mut memory = Memory::new(RamFlash::new());
    assert!(memory.flash().is_locked());
    assert_eq!(memory.unlock(), Ok(()));
    assert!(!memory.flash().is_locked());
    assert_eq!(memory.unlock(), Ok(()));
    assert!(!memory.flash().is_locked());
}

#[test]
fn unlock_of_a_jammed_lock_fails() {
    let mut flash = RamFlash::new();
    flash.jam();
    let mut memory = Memory::new(flash);
    assert_eq!(memory.unlock(), Err(Error::Write));
    assert!(memory.flash().is_locked());
}

#[test]
fn program_a_word() {
    let mut memory = Memory::new(RamFlash::new());
    assert_eq!(memory.program(0x0800_8000, &[1, 2, 3, 4, 5]), Poll::Pending);
    assert!(!memory.is_idle());
    assert_eq!(memory.poll(), Poll::Ready(Ok(4)));
    assert!(memory.is_idle());
    assert_eq!(memory.flash().read(0x0800_8000, 6).to_vec(), vec![1, 2, 3, 4, 0xFF, 0xFF]);
}

#[test]
fn program_a_half_word_and_a_byte() {
    let mut memory = Memory::new(RamFlash::new());
    assert_eq!(memory.program(0x0800_8002, &[0x11, 0x22, 0x33, 0x44]), Poll::Pending);
    assert_eq!(memory.poll(), Poll::Ready(Ok(2)));
    assert_eq!(memory.program(0x0800_8005, &[0x55, 0x66]), Poll::Pending);
    assert_eq!(memory.poll(), Poll::Ready(Ok(1)));
    assert_eq!(memory.program(0x0800_8008, &[0x77]), Poll::Pending);
    assert_eq!(memory.poll(), Poll::Ready(Ok(1)));
    assert_eq!(
        memory.flash().read(0x0800_8000, 10).to_vec(),
        vec![0xFF, 0xFF, 0x11, 0x22, 0xFF, 0x55, 0xFF, 0xFF, 0x77, 0xFF]
    );
}

#[test]
fn program_over_what_is_not_erased_fails_the_check() {
    let mut memory = Memory::new(RamFlash::new());
    assert_eq!(memory.program(0x0800_8000, &[0x0F, 0, 0, 0]), Poll::Pending);
    assert_eq!(memory.poll(), Poll::Ready(Ok(4)));
    assert_eq!(memory.program(0x0800_8000, &[0xF0, 0, 0, 0]), Poll::Pending);
    assert_eq!(memory.poll(), Poll::Ready(Err(Error::Verify)));
    assert!(memory.is_idle());
    assert_eq!(memory.flash().read(0x0800_8000, 4).to_vec(), vec![0, 0, 0, 0]);
}

#[test]
fn erase_a_sector() {
    let mut flash = RamFlash::new();
    flash.load(0x0800_7FFE, &[1, 2, 3, 4]);
    flash.load(0x0800_BFFE, &[5, 6, 7, 8]);
    let mut memory = Memory::new(flash);
    assert_eq!(memory.erase(sector_at(0x0800_8000)), Poll::Pending);
    assert!(!memory.is_idle());
    assert_eq!(memory.poll(), Poll::Ready(Ok(0)));
    assert!(memory.is_idle());
    assert_eq!(memory.flash().read(0x0800_7FFE, 4).to_vec(), vec![1, 2, 0xFF, 0xFF]);
    assert_eq!(memory.flash().read(0x0800_BFFE, 4).to_vec(), vec![0xFF, 0xFF, 7, 8]);
    assert!(sector_at(0x0800_8000).is_erased(memory.flash()));
}

#[test]
fn erase_twice_is_erase_once() {
    let mut flash = RamFlash::new();
    flash.load(0x0800_FFF0, &[0x42; 64]);
    let mut memory = Memory::new(flash);
    assert_eq!(memory.erase(sector_at(0x0801_0000)), Poll::Pending);
    assert_eq!(memory.poll(), Poll::Ready(Ok(0)));
    let once = memory.flash().read(FLASH_START, FLASH_SIZE).to_vec();
    assert_eq!(memory.erase(sector_at(0x0801_0000)), Poll::Pending);
    assert_eq!(memory.poll(), Poll::Ready(Ok(0)));
    let twice = memory.flash().read(FLASH_START, FLASH_SIZE).to_vec();
    assert!(once == twice);
    assert!(memory.is_idle());
    assert_eq!(once[0xFFF0..0x1_0000].to_vec(), vec![0x42; 16]);
    assert_eq!(once[0x1_0000..0x1_0030].to_vec(), vec![0xFF; 0x30]);
}

#[test]
fn a_jammed_lock_refuses_erase_and_program() {
    let mut flash = RamFlash::new();
    flash.load(0x0800_8000, &[0]);
    flash.jam();
    let mut memory = Memory::new(flash);
    assert_eq!(memory.erase(sector_at(0x0800_8000)), Poll::Ready(Error::Write));
    assert!(memory.is_idle());
    assert_eq!(memory.program(0x0800_8004, &[1, 2, 3, 4]), Poll::Ready(Error::Write));
    assert!(memory.is_idle());
    assert_eq!(
        memory.flash().read(0x0800_8000, 8).to_vec(),
        vec![0, 255, 255, 255, 255, 255, 255, 255],
    );
}

#[test]
fn poll_is_pending_while_the_controller_is_busy() {
    let mut flash = RamFlash::new();
    flash.set_status(Status { busy: true, write_protection_error: false, operation_error: false });
    let mut memory = Memory::new(flash);
    assert_eq!(memory.erase(sector_at(0x0800_8000)), Poll::Pending);
    assert_eq!(memory.poll(), Poll::Pending);
    assert_eq!(memory.poll(), Poll::Pending);
    assert!(!memory.is_idle());
}

#[test]
fn busy_hides_the_error_flags() {
    let mut flash = RamFlash::new();
    flash.set_status(Status { busy: true, write_protection_error: true, operation_error: true });
    let mut memory = Memory::new(flash);
    assert_eq!(memory.program(0x0800_8000, &[1]), Poll::Pending);
    assert_eq!(memory.poll(), Poll::Pending);
    assert!(!memory.is_idle());
}

#[test]
fn an_operation_error_is_erase_after_an_erasure() {
    let mut flash = RamFlash::new();
    flash.set_status(Status { busy: false, write_protection_error: false, operation_error: true });
    let mut memory = Memory::new(flash);
    assert_eq!(memory.erase(sector_at(0x0800_8000)), Poll::Pending);
    assert_eq!(memory.poll(), Poll::Ready(Err(Error::Erase)));
    assert!(memory.is_idle());
}

#[test]
fn an_operation_error_is_programming_after_a_word() {
    let mut flash = RamFlash::new();
    flash.set_status(Status { busy: false, write_protection_error: false, operation_error: true });
    let mut memory = Memory::new(flash);
    assert_eq!(memory.program(0x0800_8000, &[1, 2, 3, 4]), Poll::Pending);
    assert_eq!(memory.poll(), Poll::Ready(Err(Error::Programming)));
    assert!(memory.is_idle());
}

#[test]
fn a_write_protection_error_is_write() {
    let mut flash = RamFlash::new();
    flash.set_status(Status { busy: false, write_protection_error: true, operation_error: false });
    let mut memory = Memory::new(flash);
    assert_eq!(memory.erase(sector_at(0x0800_8000)), Poll::Pending);
    assert_eq!(memory.poll(), Poll::Ready(Err(Error::Write)));
    assert_eq!(memory.program(0x0800_8000, &[1, 2, 3, 4]), Poll::Pending);
    assert_eq!(memory.poll(), Poll::Ready(Err(Error::Write)));
    assert!(memory.is_idle());
}

#[test]
fn program_the_last_word_of_the_flash() {
    let mut memory = Memory::new(RamFlash::new());
    assert_eq!(memory.program(FLASH_END - 4, &[9, 8, 7, 6]), Poll::Pending);
    assert_eq!(memory.poll(), Poll::Ready(Ok(4)));
    assert_eq!(memory.flash().read(FLASH_END - 4, 4).to_vec(), vec![9, 8, 7, 6]);
}

#[test]
fn ram_flash_starts_erased_and_locked() {
    let flash = RamFlash::new();
    assert!(flash.is_locked());
    assert_eq!(flash.status(), CLEAR);
    assert!(flash.read(FLASH_START, FLASH_SIZE).iter().all(|b| *b == 0xFF));
    assert_eq!(flash.read(FLASH_START, FLASH_SIZE).len(), 512 * 1024);
}

#[test]
fn ram_flash_takes_commands_once_unlocked() {
    let mut flash = RamFlash::new();
    flash.load(0x0800_0000, &[1, 2, 3, 4]);
    assert!(flash.is_locked());
    flash.unlock();
    assert!(!flash.is_locked());
    flash.start_program(0x0800_0004, [0x12, 0x34, 0x56, 0x78], 2);
    assert_eq!(flash.read(0x0800_0000, 8).to_vec(), vec![1, 2, 3, 4, 0x12, 0x34, 255, 255]);
    flash.start_erase(0);
    assert_eq!(flash.read(0x0800_0000, 8).to_vec(), vec![255; 8]);
}

#[test]
fn ram_flash_with_a_jammed_lock_stays_locked() {
    let mut flash = RamFlash::new();
    flash.unlock();
    assert!(!flash.is_locked());
    flash.jam();
    assert!(flash.is_locked());
    flash.unlock();
    assert!(flash.is_locked());
}

#[test]
fn ram_flash_programming_only_clears_bits() {
    let mut flash = RamFlash::new();
    flash.unlock();
    flash.start_program(0x0800_0000, [0b1010_1010, 0, 0, 0], 1);
    flash.start_program(0x0800_0000, [0b0110_0110, 0, 0, 0], 1);
    assert_eq!(flash.read(0x0800_0000, 2).to_vec(), vec![0b0010_0010, 0xFF]);
}
