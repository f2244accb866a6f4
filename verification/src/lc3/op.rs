//! The sixteen instruction handlers. Every handler takes the machine and
//! the fetched instruction word, assumes the program counter has already
//! been incremented past the instruction, and is proved to effect exactly
//! the transition its model function in `lc3::model` describes.

use vstd::prelude::*;

use crate::lc3::consts::Trap;
use crate::lc3::instruction::{get_arg, lemma_arg_bounds, sign_extend};
use crate::lc3::model::{
    add_view, and_view, br_view, fault_view, jmp_view, jsr_view, ld_view, ldi_view, ldr_view,
    lea_view, not_view, st_view, sti_view, str_view, trap_view, MachineView,
};
use crate::lc3::trap;
use crate::lc3::{Fault, Status, LC3};

verus! {

/// ADD: the destination register receives SR1 plus either SR2 or the
/// sign-extended 5-bit immediate, modulo 65536, with a flag update.
pub fn add(vm: &mut LC3, instr: u16)
    requires
        old(vm).wf(),
    ensures
        final(vm).wf(),
        final(vm)@ == add_view(old(vm)@, instr),
{
    proof {
        lemma_arg_bounds(instr, 9);
        lemma_arg_bounds(instr, 6);
        lemma_arg_bounds(instr, 0);
    }
    let r0: u16 = get_arg(instr, 9, 3);
    let r1: u16 = get_arg(instr, 6, 3);
    let imm_flag: u16 = get_arg(instr, 5, 1);
    let a: u16 = vm.register(r1 as usize);
    let b: u16 = if imm_flag != 0 {
        sign_extend(get_arg(instr, 0, 5), 5)
    } else {
        let r2: u16 = get_arg(instr, 0, 3);
        vm.register(r2 as usize)
    };
    let value: u16 = a.wrapping_add(b);
    vm.write_register(r0 as usize, value);
    vm.update_cond_flag(r0);
    proof {
        assert(vm@ =~= add_view(old(vm)@, instr));
    }
}

/// AND: as ADD, but the destination receives the bitwise conjunction.
pub fn and(vm: &mut LC3, instr: u16)
    requires
        old(vm).wf(),
    ensures
        final(vm).wf(),
        final(vm)@ == and_view(old(vm)@, instr),
{
    proof {
        lemma_arg_bounds(instr, 9);
        lemma_arg_bounds(instr, 6);
        lemma_arg_bounds(instr, 0);
    }
    let r0: u16 = get_arg(instr, 9, 3);
    let r1: u16 = get_arg(instr, 6, 3);
    let imm_flag: u16 = get_arg(instr, 5, 1);
    let a: u16 = vm.register(r1 as usize);
    let b: u16 = if imm_flag != 0 {
        sign_extend(get_arg(instr, 0, 5), 5)
    } else {
        let r2: u16 = get_arg(instr, 0, 3);
        vm.register(r2 as usize)
    };
    let value: u16 = a & b;
    vm.write_register(r0 as usize, value);
    vm.update_cond_flag(r0);
    proof {
        assert(vm@ =~= and_view(old(vm)@, instr));
    }
}

/// NOT: the destination register receives the bitwise complement of the
/// source register, with a flag update.
pub fn not(vm: &mut LC3, instr: u16)
    requires
        old(vm).wf(),
    ensures
        final(vm).wf(),
        final(vm)@ == not_view(old(vm)@, instr),
{
    proof {
        lemma_arg_bounds(instr, 9);
        lemma_arg_bounds(instr, 6);
    }
    let r0: u16 = get_arg(instr, 9, 3);
    let r1: u16 = get_arg(instr, 6, 3);
    let value: u16 = !vm.register(r1 as usize);
    vm.write_register(r0 as usize, value);
    vm.update_cond_flag(r0);
    proof {
        assert(vm@ =~= not_view(old(vm)@, instr));
    }
}

/// BR: when the instruction's condition mask intersects the condition
/// register, the program counter moves by the sign-extended 9-bit offset.
pub fn br(vm: &mut LC3, instr: u16)
    requires
        old(vm).wf(),
    ensures
        final(vm).wf(),
        final(vm)@ == br_view(old(vm)@, instr),
{
    let pc_offset: u16 = sign_extend(get_arg(instr, 0, 9), 9);
    let cond_flag: u16 = get_arg(instr, 9, 3);
    if cond_flag & vm.register(9) != 0 {
        let pc: u16 = vm.register(8);
        vm.write_register(8, pc.wrapping_add(pc_offset));
    }
    proof {
        assert(vm@ =~= br_view(old(vm)@, instr));
    }
}

/// JMP: the program counter receives the base register's value.
pub fn jmp(vm: &mut LC3, instr: u16)
    requires
        old(vm).wf(),
    ensures
        final(vm).wf(),
        final(vm)@ == jmp_view(old(vm)@, instr),
{
    proof {
        lemma_arg_bounds(instr, 6);
    }
    let base_register: u16 = get_arg(instr, 6, 3);
    let target: u16 = vm.register(base_register as usize);
    vm.write_register(8, target);
    proof {
        assert(vm@ =~= jmp_view(old(vm)@, instr));
    }
}

/// JSR: R7 receives the return address; the program counter receives the
/// base register's value or, with the long flag, the return address plus
/// the sign-extended 11-bit offset.
pub fn jsr(vm: &mut LC3, instr: u16)
    requires
        old(vm).wf(),
    ensures
        final(vm).wf(),
        final(vm)@ == jsr_view(old(vm)@, instr),
{
    proof {
        lemma_arg_bounds(instr, 6);
    }
    let r1: u16 = get_arg(instr, 6, 3);
    let long_flag: u16 = get_arg(instr, 11, 1);
    let long_pc_offset: u16 = sign_extend(get_arg(instr, 0, 11), 11);
    let pc: u16 = vm.register(8);
    let target: u16 = if long_flag != 0 {
        pc.wrapping_add(long_pc_offset)
    } else {
        vm.register(r1 as usize)
    };
    vm.write_register(7, pc);
    vm.write_register(8, target);
    proof {
        assert(vm@ =~= jsr_view(old(vm)@, instr));
    }
}

/// LD: the destination register receives the word read at the program
/// counter plus the sign-extended 9-bit offset, with a flag update.
pub fn ld(vm: &mut LC3, instr: u16)
    requires
        old(vm).wf(),
    ensures
        final(vm).wf(),
        final(vm)@ == ld_view(old(vm)@, instr),
{
    proof {
        lemma_arg_bounds(instr, 9);
    }
    let r0: u16 = get_arg(instr, 9, 3);
    let pc_offset: u16 = sign_extend(get_arg(instr, 0, 9), 9);
    let pc: u16 = vm.register(8);
    let value: u16 = vm.mem_read(pc.wrapping_add(pc_offset));
    vm.write_register(r0 as usize, value);
    vm.update_cond_flag(r0);
    proof {
        assert(vm@ =~= ld_view(old(vm)@, instr));
    }
}

/// LDI: the word at the program counter plus the offset is read as an
/// address; the destination register receives the word read there, with a
/// flag update.
pub fn ldi(vm: &mut LC3, instr: u16)
    requires
        old(vm).wf(),
    ensures
        final(vm).wf(),
        final(vm)@ == ldi_view(old(vm)@, instr),
{
    proof {
        lemma_arg_bounds(instr, 9);
    }
    let r0: u16 = get_arg(instr, 9, 3);
    let pc_offset: u16 = sign_extend(get_arg(instr, 0, 9), 9);
    let pc: u16 = vm.register(8);
    let indirect: u16 = vm.mem_read(pc.wrapping_add(pc_offset));
    let value: u16 = vm.mem_read(indirect);
    vm.write_register(r0 as usize, value);
    vm.update_cond_flag(r0);
    proof {
        assert(vm@ =~= ldi_view(old(vm)@, instr));
    }
}

/// LDR: the destination register receives the word read at the base
/// register plus the sign-extended 6-bit offset, with a flag update.
pub fn ldr(vm: &mut LC3, instr: u16)
    requires
        old(vm).wf(),
    ensures
        final(vm).wf(),
        final(vm)@ == ldr_view(old(vm)@, instr),
{
    proof {
        lemma_arg_bounds(instr, 9);
        lemma_arg_bounds(instr, 6);
    }
    let r0: u16 = get_arg(instr, 9, 3);
    let base_register: u16 = get_arg(instr, 6, 3);
    let offset: u16 = sign_extend(get_arg(instr, 0, 6), 6);
    let base: u16 = vm.register(base_register as usize);
    let value: u16 = vm.mem_read(base.wrapping_add(offset));
    vm.write_register(r0 as usize, value);
    vm.update_cond_flag(r0);
    proof {
        assert(vm@ =~= ldr_view(old(vm)@, instr));
    }
}

/// LEA: the destination register receives the program counter plus the
/// sign-extended 9-bit offset, with no memory access and a flag update.
pub fn lea(vm: &mut LC3, instr: u16)
    requires
        old(vm).wf(),
    ensures
        final(vm).wf(),
        final(vm)@ == lea_view(old(vm)@, instr),
{
    proof {
        lemma_arg_bounds(instr, 9);
    }
    let r0: u16 = get_arg(instr, 9, 3);
    let pc_offset: u16 = sign_extend(get_arg(instr, 0, 9), 9);
    let pc: u16 = vm.register(8);
    let value: u16 = pc.wrapping_add(pc_offset);
    vm.write_register(r0 as usize, value);
    vm.update_cond_flag(r0);
    proof {
        assert(vm@ =~= lea_view(old(vm)@, instr));
    }
}

/// ST: the source register's value is stored at the program counter plus
/// the sign-extended 9-bit offset.
pub fn st(vm: &mut LC3, instr: u16)
    requires
        old(vm).wf(),
    ensures
        final(vm).wf(),
        final(vm)@ == st_view(old(vm)@, instr),
{
    proof {
        lemma_arg_bounds(instr, 9);
    }
    let r0: u16 = get_arg(instr, 9, 3);
    let pc_offset: u16 = sign_extend(get_arg(instr, 0, 9), 9);
    let pc: u16 = vm.register(8);
    let value: u16 = vm.register(r0 as usize);
    vm.mem_write(pc.wrapping_add(pc_offset), value);
    proof {
        assert(vm@ =~= st_view(old(vm)@, instr));
    }
}

/// STI: the word at the program counter plus the offset is read as an
/// address, and the source register's value is stored there.
pub fn sti(vm: &mut LC3, instr: u16)
    requires
        old(vm).wf(),
    ensures
        final(vm).wf(),
        final(vm)@ == sti_view(old(vm)@, instr),
{
    proof {
        lemma_arg_bounds(instr, 9);
    }
    let r0: u16 = get_arg(instr, 9, 3);
    let pc_offset: u16 = sign_extend(get_arg(instr, 0, 9), 9);
    let pc: u16 = vm.register(8);
    let dst: u16 = vm.mem_read(pc.wrapping_add(pc_offset));
    let value: u16 = vm.register(r0 as usize);
    vm.mem_write(dst, value);
    proof {
        assert(vm@ =~= sti_view(old(vm)@, instr));
    }
}

/// STR: the source register's value is stored at the base register plus
/// the sign-extended 6-bit offset.
pub fn str(vm: &mut LC3, instr: u16)
    requires
        old(vm).wf(),
    ensures
        final(vm).wf(),
        final(vm)@ == str_view(old(vm)@, instr),
{
    proof {
        lemma_arg_bounds(instr, 9);
        lemma_arg_bounds(instr, 6);
    }
    let r0: u16 = get_arg(instr, 9, 3);
    let r1: u16 = get_arg(instr, 6, 3);
    let offset: u16 = sign_extend(get_arg(instr, 0, 6), 6);
    let base: u16 = vm.register(r1 as usize);
    let value: u16 = vm.register(r0 as usize);
    vm.mem_write(base.wrapping_add(offset), value);
    proof {
        assert(vm@ =~= str_view(old(vm)@, instr));
    }
}

/// RTI is unused in this machine: reaching it is a fatal illegal
/// instruction.
pub fn rti(vm: &mut LC3, instr: u16)
    requires
        old(vm).wf(),
    ensures
        final(vm).wf(),
        final(vm)@ == fault_view(old(vm)@, Fault::IllegalInstruction),
{
    vm.set_status(Status::Faulted(Fault::IllegalInstruction));
}

/// RES is reserved: reaching it is a fatal illegal instruction.
pub fn res(vm: &mut LC3, instr: u16)
    requires
        old(vm).wf(),
    ensures
        final(vm).wf(),
        final(vm)@ == fault_view(old(vm)@, Fault::IllegalInstruction),
{
    vm.set_status(Status::Faulted(Fault::IllegalInstruction));
}

/// TRAP: the instruction's low byte selects one of the six trap routines;
/// an undefined vector is fatal.
pub fn trap(vm: &mut LC3, instr: u16)
    requires
        old(vm).wf(),
    ensures
        final(vm).wf(),
        final(vm)@ == trap_view(old(vm)@, instr),
{
    let raw_trap_code: u16 = instr & 0xFF;
    match Trap::from_vector(raw_trap_code) {
        Some(Trap::GETC) => trap::getc(vm),
        Some(Trap::OUT) => trap::out(vm),
        Some(Trap::PUTS) => trap::puts(vm),
        Some(Trap::IN) => trap::trap_in(vm),
        Some(Trap::PUTSP) => trap::putsp(vm),
        Some(Trap::HALT) => trap::halt(vm),
        None => {
            vm.set_status(Status::Faulted(Fault::UnknownTrap));
        },
    }
}

} // verus!
