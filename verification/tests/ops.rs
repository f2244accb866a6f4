//! Tests for the sixteen instruction handlers, driven both directly and
//! through the step cycle.

use lc3::lc3::consts::{Register, PC_START};
use lc3::lc3::op;
use lc3::lc3::{DispatchTables, Fault, Status, LC3};

const COND: usize = 9;
const PC: usize = 8;

#[test]
fn add_register_mode() {
    let mut vm = LC3::new();
    vm.write_register(1, 3);
    vm.write_register(2, 4);
    // ADD R0, R1, R2
    op::add(&mut vm, 0x1042);
    assert_eq!(vm.register(0), 7);
    assert_eq!(vm.register(COND), 1);
}

#[test]
fn add_immediate_minus_one() {
    // ADD R0, R1, #-1
    let instr: u16 = 0x107F;

    let mut vm = LC3::new();
    vm.write_register(1, 5);
    op::add(&mut vm, instr);
    assert_eq!(vm.register(0), 4);
    assert_eq!(vm.register(COND), 1);

    let mut vm = LC3::new();
    vm.write_register(1, 0);
    op::add(&mut vm, instr);
    assert_eq!(vm.register(0), 0xFFFF);
    assert_eq!(vm.register(COND), 4);

    let mut vm = LC3::new();
    vm.write_register(1, 1);
    op::add(&mut vm, instr);
    assert_eq!(vm.register(0), 0);
    assert_eq!(vm.register(COND), 2);

    let mut vm = LC3::new();
    vm.write_register(1, 0x8001);
    op::add(&mut vm, instr);
    assert_eq!(vm.register(0), 0x8000);
    assert_eq!(vm.register(COND), 4);
}

#[test]
fn add_wraps_modulo_65536() {
    let mut vm = LC3::new();
    vm.write_register(1, 0xFFFF);
    vm.write_register(2, 2);
    op::add(&mut vm, 0x1042);
    assert_eq!(vm.register(0), 1);
    assert_eq!(vm.register(COND), 1);
}

#[test]
fn and_register_and_immediate_mode() {
    let mut vm = LC3::new();
    vm.write_register(1, 0b1100);
    vm.write_register(2, 0b1010);
    // AND R0, R1, R2
    op::and(&mut vm, 0x5042);
    assert_eq!(vm.register(0), 0b1000);
    assert_eq!(vm.register(COND), 1);
    // AND R0, R1, #0 clears the destination.
    op::and(&mut vm, 0x5060);
    assert_eq!(vm.register(0), 0);
    assert_eq!(vm.register(COND), 2);
    // AND R0, R1, #-1 keeps the source.
    op::and(&mut vm, 0x507F);
    assert_eq!(vm.register(0), 0b1100);
}

#[test]
fn not_complements() {
    let mut vm = LC3::new();
    vm.write_register(1, 0x00FF);
    // NOT R0, R1
    op::not(&mut vm, 0x907F);
    assert_eq!(vm.register(0), 0xFF00);
    assert_eq!(vm.register(COND), 4);
}

#[test]
fn br_taken_moves_pc_by_offset() {
    let mut vm = LC3::new();
    let tables = DispatchTables::new();
    // BRp #0x10 at PC_START; COND holds POS.
    vm.mem_write(PC_START, 0x0210);
    vm.write_register(COND, 1);
    vm.step(&tables);
    // The offset is relative to the address immediately after the branch.
    assert_eq!(vm.register(PC), PC_START + 1 + 0x10);
}

#[test]
fn br_not_taken_only_increments_pc() {
    let mut vm = LC3::new();
    let tables = DispatchTables::new();
    // BRp #0x10 at PC_START; COND holds ZRO: the mask does not match.
    vm.mem_write(PC_START, 0x0210);
    vm.write_register(COND, 2);
    vm.step(&tables);
    assert_eq!(vm.register(PC), PC_START + 1);
}

#[test]
fn br_negative_offset() {
    let mut vm = LC3::new();
    // BRnzp #-2 (mask 111, offset 0x1FE), PC already past the fetch.
    vm.write_register(PC, 0x3001);
    vm.write_register(COND, 4);
    op::br(&mut vm, 0x0FFE);
    assert_eq!(vm.register(PC), 0x2FFF);
}

#[test]
fn jmp_sets_pc_to_base_register() {
    let mut vm = LC3::new();
    vm.write_register(2, 0x1234);
    // JMP R2
    op::jmp(&mut vm, 0xC080);
    assert_eq!(vm.register(PC), 0x1234);
}

#[test]
fn jsr_long_saves_return_and_offsets_pc() {
    let mut vm = LC3::new();
    vm.write_register(PC, 0x3001);
    // JSR #0x20
    op::jsr(&mut vm, 0x4820);
    assert_eq!(vm.register(7), 0x3001);
    assert_eq!(vm.register(PC), 0x3021);
}

#[test]
fn jsrr_jumps_to_base_register() {
    let mut vm = LC3::new();
    vm.write_register(PC, 0x3001);
    vm.write_register(3, 0x4000);
    // JSRR R3
    op::jsr(&mut vm, 0x40C0);
    assert_eq!(vm.register(7), 0x3001);
    assert_eq!(vm.register(PC), 0x4000);
}

#[test]
fn ld_loads_pc_relative() {
    let mut vm = LC3::new();
    vm.write_register(PC, 0x3001);
    vm.mem_write(0x3003, 0xABCD);
    // LD R0, #2
    op::ld(&mut vm, 0x2002);
    assert_eq!(vm.register(0), 0xABCD);
    assert_eq!(vm.register(COND), 4);
}

#[test]
fn ldi_loads_indirect() {
    let mut vm = LC3::new();
    vm.write_register(PC, 0x3001);
    vm.mem_write(0x3002, 0x4000);
    vm.mem_write(0x4000, 0x0042);
    // LDI R0, #1
    op::ldi(&mut vm, 0xA001);
    assert_eq!(vm.register(0), 0x0042);
    assert_eq!(vm.register(COND), 1);
}

#[test]
fn ldr_loads_base_plus_offset() {
    let mut vm = LC3::new();
    vm.write_register(2, 0x5000);
    vm.mem_write(0x4FFF, 0x7777);
    // LDR R0, R2, #-1
    op::ldr(&mut vm, 0x60BF);
    assert_eq!(vm.register(0), 0x7777);
    assert_eq!(vm.register(COND), 1);
}

#[test]
fn lea_loads_effective_address_with_flag_update() {
    let mut vm = LC3::new();
    vm.write_register(PC, 0x3001);
    // LEA R0, #5: no memory access, only the address value.
    op::lea(&mut vm, 0xE005);
    assert_eq!(vm.register(0), 0x3006);
    assert_eq!(vm.register(COND), 1);
    assert_eq!(vm.memory_at(0x3006), 0);
}

#[test]
fn st_stores_pc_relative() {
    let mut vm = LC3::new();
    vm.write_register(PC, 0x3001);
    vm.write_register(0, 0x1111);
    // ST R0, #3
    op::st(&mut vm, 0x3003);
    assert_eq!(vm.memory_at(0x3004), 0x1111);
}

#[test]
fn sti_stores_indirect() {
    let mut vm = LC3::new();
    vm.write_register(PC, 0x3001);
    vm.write_register(0, 0x2222);
    vm.mem_write(0x3002, 0x6000);
    // STI R0, #1
    op::sti(&mut vm, 0xB001);
    assert_eq!(vm.memory_at(0x6000), 0x2222);
}

#[test]
fn str_stores_base_plus_offset() {
    let mut vm = LC3::new();
    vm.write_register(2, 0x7000);
    vm.write_register(0, 0x3333);
    // STR R0, R2, #1
    op::str(&mut vm, 0x7081);
    assert_eq!(vm.memory_at(0x7001), 0x3333);
}

#[test]
fn rti_and_res_are_illegal_instructions() {
    let mut vm = LC3::new();
    op::rti(&mut vm, 0x8000);
    assert_eq!(vm.status(), Status::Faulted(Fault::IllegalInstruction));

    let mut vm = LC3::new();
    op::res(&mut vm, 0xD000);
    assert_eq!(vm.status(), Status::Faulted(Fault::IllegalInstruction));
}

#[test]
fn step_on_rti_faults_the_machine() {
    let mut vm = LC3::new();
    let tables = DispatchTables::new();
    vm.mem_write(PC_START, 0x8000);
    vm.step(&tables);
    assert_eq!(vm.status(), Status::Faulted(Fault::IllegalInstruction));
    assert!(!vm.is_active());
}

#[test]
fn pc_wraps_at_end_of_address_space() {
    let mut vm = LC3::new();
    let tables = DispatchTables::new();
    // ADD R0, R1, R2 at the last address: the fetch increment wraps to 0.
    vm.write_register(PC, 0xFFFF);
    vm.write_register(1, 1);
    vm.write_register(2, 2);
    vm.mem_write(0xFFFF, 0x1042);
    vm.step(&tables);
    assert_eq!(vm.register(PC), 0x0000);
    assert_eq!(vm.register(0), 3);
}

#[test]
fn flag_update_goes_through_cond_register() {
    let mut vm = LC3::new();
    vm.write_register(4, 0x8000);
    vm.update_cond_flag(4);
    assert_eq!(vm.register(COND), 4);
    vm.write_register(4, 0);
    vm.update_cond_flag(4);
    assert_eq!(vm.register(COND), 2);
    vm.write_register(4, 3);
    vm.update_cond_flag(4);
    assert_eq!(vm.register(COND), 1);
    assert_eq!(Register::COND.index(), COND);
}
