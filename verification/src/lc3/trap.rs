//! The six trap routines. Input comes from the machine's keyboard buffer
//! and output goes to its output buffer; each routine is proved to effect
//! exactly the transition its model function in `lc3::model` describes.

use vstd::prelude::*;

use crate::lc3::instruction::lemma_arg_bounds;
use crate::lc3::model::{
    getc_view, halt_view, in_view, out_view, puts_seq, puts_view, putsp_seq, putsp_view,
    MachineView,
};
use crate::lc3::{Status, LC3};

verus! {

/// GETC: read one input character into R0, consuming it; with no input
/// pending R0 receives zero. No echo and no flag update.
pub fn getc(vm: &mut LC3)
    requires
        old(vm).wf(),
    ensures
        final(vm).wf(),
        final(vm)@ == getc_view(old(vm)@),
{
    let c: u16 = match vm.take_input() {
        Some(c) => c as u16,
        None => 0,
    };
    vm.write_register(0, c);
    proof {
        assert(vm@ =~= getc_view(old(vm)@));
    }
}

/// OUT: write the character in R0's low byte to the output.
pub fn out(vm: &mut LC3)
    requires
        old(vm).wf(),
    ensures
        final(vm).wf(),
        final(vm)@ == out_view(old(vm)@),
{
    let r0: u16 = vm.register(0);
    proof {
        lemma_arg_bounds(r0, 0);
    }
    vm.emit_byte((r0 & 0xFF) as u8);
    proof {
        assert(vm@ =~= out_view(old(vm)@));
    }
}

/// PUTS: write the word string starting at the address in R0, one
/// character per full word (its low byte), stopping before the first zero
/// word or at the end of memory.
pub fn puts(vm: &mut LC3)
    requires
        old(vm).wf(),
    ensures
        final(vm).wf(),
        final(vm)@ == puts_view(old(vm)@),
{
    let start: u16 = vm.register(0);
    let mut addr: usize = start as usize;
    while addr < 65536 && vm.memory_at(addr as u16) != 0
        invariant
            vm.wf(),
            start as int <= addr <= 65536,
            vm@.mem == old(vm)@.mem,
            vm@.regs == old(vm)@.regs,
            vm@.input == old(vm)@.input,
            vm@.status == old(vm)@.status,
            vm@.output + puts_seq(vm@.mem, addr as int) == old(vm)@.output + puts_seq(
                old(vm)@.mem,
                start as int,
            ),
        decreases 65536 - addr,
    {
        let w: u16 = vm.memory_at(addr as u16);
        proof {
            lemma_arg_bounds(w, 0);
        }
        vm.emit_byte((w & 0xFF) as u8);
        addr = addr + 1;
        proof {
            assert(vm@.output + puts_seq(vm@.mem, addr as int) =~= old(vm)@.output + puts_seq(
                old(vm)@.mem,
                start as int,
            ));
        }
    }
    proof {
        assert(puts_seq(vm@.mem, addr as int) =~= Seq::<u8>::empty());
        assert(vm@ =~= puts_view(old(vm)@));
    }
}

/// PUTSP: write the byte-packed string starting at the address in R0, two
/// characters per word, low byte first, stopping at the first zero word; a
/// zero high byte is suppressed, so an odd-length string does not end in a
/// synthetic NUL byte.
pub fn putsp(vm: &mut LC3)
    requires
        old(vm).wf(),
    ensures
        final(vm).wf(),
        final(vm)@ == putsp_view(old(vm)@),
{
    let start: u16 = vm.register(0);
    let mut addr: usize = start as usize;
    while addr < 65536 && vm.memory_at(addr as u16) != 0
        invariant
            vm.wf(),
            start as int <= addr <= 65536,
            vm@.mem == old(vm)@.mem,
            vm@.regs == old(vm)@.regs,
            vm@.input == old(vm)@.input,
            vm@.status == old(vm)@.status,
            vm@.output + putsp_seq(vm@.mem, addr as int) == old(vm)@.output + putsp_seq(
                old(vm)@.mem,
                start as int,
            ),
        decreases 65536 - addr,
    {
        let w: u16 = vm.memory_at(addr as u16);
        proof {
            lemma_arg_bounds(w, 0);
        }
        vm.emit_byte((w & 0xFF) as u8);
        let hi: u16 = w >> 8;
        if hi != 0 {
            vm.emit_byte(hi as u8);
        }
        addr = addr + 1;
        proof {
            assert(vm@.output + putsp_seq(vm@.mem, addr as int) =~= old(vm)@.output + putsp_seq(
                old(vm)@.mem,
                start as int,
            ));
        }
    }
    proof {
        assert(putsp_seq(vm@.mem, addr as int) =~= Seq::<u8>::empty());
        assert(vm@ =~= putsp_view(old(vm)@));
    }
}

/// IN: emit a prompt, read one input character (zero when none is
/// pending), echo it followed by a newline, and store it into R0.
pub fn trap_in(vm: &mut LC3)
    requires
        old(vm).wf(),
    ensures
        final(vm).wf(),
        final(vm)@ == in_view(old(vm)@),
{
    // "Enter a character: "
    vm.emit_byte(0x45);
    vm.emit_byte(0x6E);
    vm.emit_byte(0x74);
    vm.emit_byte(0x65);
    vm.emit_byte(0x72);
    vm.emit_byte(0x20);
    vm.emit_byte(0x61);
    vm.emit_byte(0x20);
    vm.emit_byte(0x63);
    vm.emit_byte(0x68);
    vm.emit_byte(0x61);
    vm.emit_byte(0x72);
    vm.emit_byte(0x61);
    vm.emit_byte(0x63);
    vm.emit_byte(0x74);
    vm.emit_byte(0x65);
    vm.emit_byte(0x72);
    vm.emit_byte(0x3A);
    vm.emit_byte(0x20);
    let c: u8 = match vm.take_input() {
        Some(c) => c,
        None => 0,
    };
    vm.emit_byte(c);
    vm.emit_byte(0x0A);
    vm.write_register(0, c as u16);
    proof {
        assert(vm@ =~= in_view(old(vm)@));
    }
}

/// HALT: emit the halt indication "HALT" and stop the machine normally.
pub fn halt(vm: &mut LC3)
    requires
        old(vm).wf(),
    ensures
        final(vm).wf(),
        final(vm)@ == halt_view(old(vm)@),
{
    vm.emit_byte(0x48);
    vm.emit_byte(0x41);
    vm.emit_byte(0x4C);
    vm.emit_byte(0x54);
    vm.set_status(Status::Halted);
    proof {
        assert(vm@ =~= halt_view(old(vm)@));
    }
}

} // verus!
