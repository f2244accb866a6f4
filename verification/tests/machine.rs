//! Tests for machine creation, the image loader, memory access with device
//! interception, and instruction decoding for display.

use lc3::lc3::consts::{MemoryMappedRegister, Op, Operation, Register, Trap, PC_START};
use lc3::lc3::{DispatchTables, ImageError, Status, LC3};

#[test]
fn new_machine_is_zeroed_with_pc_preset() {
    let vm = LC3::new();
    assert_eq!(vm.status(), Status::Ready);
    assert_eq!(vm.register(Register::PC.index()), PC_START);
    for r in 0..8 {
        assert_eq!(vm.register(r), 0);
    }
    assert_eq!(vm.register(Register::COND.index()), 0);
    assert_eq!(vm.memory().len(), 65536);
    assert_eq!(vm.registers().len(), 10);
    assert!(vm.output().is_empty());
    assert_eq!(vm.pending_input(), 0);
}

#[test]
fn load_image_places_words_at_origin() {
    let mut vm = LC3::new();
    let image: Vec<u8> = vec![0x30, 0x00, 0x12, 0x34, 0x56, 0x78];
    assert!(vm.load_image(&image).is_ok());
    assert_eq!(vm.memory_at(0x3000), 0x1234);
    assert_eq!(vm.memory_at(0x3001), 0x5678);
    // Every other address still reads zero.
    for addr in 0..=0xFFFFu16 {
        if addr != 0x3000 && addr != 0x3001 {
            assert_eq!(vm.memory_at(addr), 0);
        }
    }
    // Registers and status are untouched.
    assert_eq!(vm.register(Register::PC.index()), PC_START);
    assert_eq!(vm.status(), Status::Ready);
}

#[test]
fn load_image_pads_trailing_odd_byte() {
    let mut vm = LC3::new();
    let image: Vec<u8> = vec![0x40, 0x00, 0xAB, 0xCD, 0xEF];
    assert!(vm.load_image(&image).is_ok());
    assert_eq!(vm.memory_at(0x4000), 0xABCD);
    assert_eq!(vm.memory_at(0x4001), 0xEF00);
}

#[test]
fn load_image_wraps_at_end_of_address_space() {
    let mut vm = LC3::new();
    let image: Vec<u8> = vec![0xFF, 0xFF, 0x11, 0x22, 0x33, 0x44];
    assert!(vm.load_image(&image).is_ok());
    assert_eq!(vm.memory_at(0xFFFF), 0x1122);
    assert_eq!(vm.memory_at(0x0000), 0x3344);
}

#[test]
fn load_image_rejects_short_image() {
    let mut vm = LC3::new();
    assert_eq!(vm.load_image(&vec![]), Err(ImageError::TooShort));
    assert_eq!(vm.load_image(&vec![0x30]), Err(ImageError::TooShort));
    // An image holding only the origin loads nothing.
    assert!(vm.load_image(&vec![0x30, 0x00]).is_ok());
    for addr in 0..=0xFFFFu16 {
        assert_eq!(vm.memory_at(addr), 0);
    }
}

#[test]
fn write_then_read_round_trips_outside_device_range() {
    let mut vm = LC3::new();
    vm.mem_write(0x1234, 0xBEEF);
    assert_eq!(vm.mem_read(0x1234), 0xBEEF);
    vm.mem_write(0x0000, 7);
    assert_eq!(vm.mem_read(0x0000), 7);
    vm.mem_write(0xFFFF, 42);
    assert_eq!(vm.mem_read(0xFFFF), 42);
    // The keyboard data register is not intercepted on read either.
    let kbdr = MemoryMappedRegister::KBDR.address();
    vm.mem_write(kbdr, 0x5555);
    assert_eq!(vm.mem_read(kbdr), 0x5555);
}

#[test]
fn keyboard_status_read_without_input_clears_status() {
    let mut vm = LC3::new();
    let kbsr = MemoryMappedRegister::KBSR.address();
    vm.mem_write(kbsr, 0xFFFF);
    assert_eq!(vm.mem_read(kbsr), 0);
    assert_eq!(vm.memory_at(kbsr), 0);
}

#[test]
fn keyboard_status_read_with_input_sets_status_and_data() {
    let mut vm = LC3::new();
    let kbsr = MemoryMappedRegister::KBSR.address();
    let kbdr = MemoryMappedRegister::KBDR.address();
    vm.feed_input(b'A');
    assert_eq!(vm.pending_input(), 1);
    assert_eq!(vm.mem_read(kbsr), 0x8000);
    assert_eq!(vm.memory_at(kbdr), b'A' as u16);
    // The pending character was consumed.
    assert_eq!(vm.pending_input(), 0);
    assert_eq!(vm.mem_read(kbsr), 0);
}

#[test]
fn feed_and_take_input_queue_in_order() {
    let mut vm = LC3::new();
    vm.feed_input(1);
    vm.feed_input(2);
    assert_eq!(vm.pending_input(), 2);
    assert_eq!(vm.take_input(), Some(1));
    assert_eq!(vm.take_input(), Some(2));
    assert_eq!(vm.take_input(), None);
}

#[test]
fn write_register_pokes_without_flag_update() {
    let mut vm = LC3::new();
    vm.write_register(3, 0xDEAD);
    assert_eq!(vm.register(3), 0xDEAD);
    assert_eq!(vm.register(Register::COND.index()), 0);
}

#[test]
fn dispatch_table_covers_every_nibble() {
    let tables = DispatchTables::new();
    let expected = [
        Op::BR,
        Op::ADD,
        Op::LD,
        Op::ST,
        Op::JSR,
        Op::AND,
        Op::LDR,
        Op::STR,
        Op::RTI,
        Op::NOT,
        Op::LDI,
        Op::STI,
        Op::JMP,
        Op::RES,
        Op::LEA,
        Op::TRAP,
    ];
    for n in 0..16u16 {
        assert_eq!(tables.lookup(n), Some(expected[n as usize]));
        assert_eq!(Op::from_nibble(n), expected[n as usize]);
    }
    assert_eq!(tables.lookup(16), None);
}

#[test]
fn parse_next_op_decodes_for_display() {
    let mut vm = LC3::new();
    vm.mem_write(PC_START, 0x1042);
    assert_eq!(vm.parse_next_op(), Operation::Op(Op::ADD));
    vm.mem_write(PC_START, 0xF025);
    assert_eq!(vm.parse_next_op(), Operation::Trap(Trap::HALT));
    vm.mem_write(PC_START, 0xF022);
    assert_eq!(vm.parse_next_op(), Operation::Trap(Trap::PUTS));
    vm.mem_write(PC_START, 0xF0FF);
    assert_eq!(vm.parse_next_op(), Operation::UnknownTrap(0xFF));
    vm.mem_write(PC_START, 0x0000);
    assert_eq!(vm.parse_next_op(), Operation::Op(Op::BR));
}

#[test]
fn trap_vector_decoding() {
    assert_eq!(Trap::from_vector(0x20), Some(Trap::GETC));
    assert_eq!(Trap::from_vector(0x21), Some(Trap::OUT));
    assert_eq!(Trap::from_vector(0x22), Some(Trap::PUTS));
    assert_eq!(Trap::from_vector(0x23), Some(Trap::IN));
    assert_eq!(Trap::from_vector(0x24), Some(Trap::PUTSP));
    assert_eq!(Trap::from_vector(0x25), Some(Trap::HALT));
    assert_eq!(Trap::from_vector(0x26), None);
    assert_eq!(Trap::from_vector(0x00), None);
    assert_eq!(Trap::HALT.vector(), 0x25);
    assert_eq!(Trap::GETC.vector(), 0x20);
}

#[test]
fn memory_mapped_register_addresses() {
    assert_eq!(MemoryMappedRegister::KBSR.address(), 0xFE00);
    assert_eq!(MemoryMappedRegister::KBDR.address(), 0xFE02);
    assert_eq!(Register::PC.index(), 8);
    assert_eq!(Register::COND.index(), 9);
    assert_eq!(Register::COUNT.index(), 10);
    assert_eq!(Register::R0.index(), 0);
}
