//! The mathematical model of the machine: an abstract state made of plain
//! sequences, and one transition function per instruction and trap routine.
//! The executable machine in the parent module is specified, and proved,
//! against these functions.

use vstd::prelude::*;

use crate::lc3::consts::{op_of_nibble, trap_of_vector, Op, Operation, Trap};
use crate::lc3::instruction::{
    arg_spec, flag_bits_of, lemma_flag_bits_valid, lemma_negative_is_high_bit, sign_extend_spec,
};
use crate::lc3::{Fault, Status};
use vstd::wrapping::u16_specs;

verus! {

/// The abstract state of a machine: its memory and register file as
/// sequences of words, its execution status, the input characters not yet
/// consumed, and the output bytes emitted so far.
#[verifier::ext_equal]
pub struct MachineView {
    /// The 65536 memory words, indexed by address
    pub mem: Seq<u16>,
    /// The 10 register slots: R0..R7, then PC, then COND
    pub regs: Seq<u16>,
    /// Where the machine stands in its Ready/Running/Halted life cycle
    pub status: Status,
    /// Input characters fed to the keyboard and not yet consumed
    pub input: Seq<u8>,
    /// Output bytes emitted by the trap routines
    pub output: Seq<u8>,
}

/// The register-file slot of the program counter.
pub open spec fn pc_slot() -> int {
    8
}

/// The register-file slot of the condition register.
pub open spec fn cond_slot() -> int {
    9
}

/// The dimensions every machine state keeps: full memory and a full
/// register file.
pub open spec fn view_wf(v: MachineView) -> bool {
    &&& v.mem.len() == 65536
    &&& v.regs.len() == 10
}

/// Whether the machine will execute an instruction on the next step.
pub open spec fn machine_active(v: MachineView) -> bool {
    v.status == Status::Ready || v.status == Status::Running
}

/// The effect of one memory read: the memory and pending input after the
/// read, and the value read. A read of the keyboard status address first
/// consults the pending input: if a character is pending it is consumed,
/// the status word's high bit is set and the keyboard data address is
/// loaded with the character; otherwise the status word is cleared. Every
/// other address returns the stored word unchanged.
pub open spec fn read_view(mem: Seq<u16>, input: Seq<u8>, addr: u16) -> (Seq<u16>, Seq<u8>, u16) {
    if addr == 0xFE00 {
        if input.len() > 0 {
            (
                mem.update(0xFE00, 0x8000).update(0xFE02, input[0] as u16),
                input.skip(1),
                0x8000,
            )
        } else {
            (mem.update(0xFE00, 0), input, 0)
        }
    } else {
        (mem, input, mem[addr as int])
    }
}

/// A register file after a destination-register write: the value is stored
/// and the condition register receives its classification.
pub open spec fn set_reg_flag(regs: Seq<u16>, r: u16, value: u16) -> Seq<u16> {
    regs.update(r as int, value).update(cond_slot(), flag_bits_of(value))
}

/// ADD: the destination register receives the sum, modulo 65536, of the
/// first source register and either the second source register or the
/// sign-extended 5-bit immediate; the condition flags follow the result.
pub open spec fn add_view(v: MachineView, instr: u16) -> MachineView {
    let a = v.regs[arg_spec(instr, 6, 3) as int];
    let b = if arg_spec(instr, 5, 1) != 0 {
        sign_extend_spec(arg_spec(instr, 0, 5), 5)
    } else {
        v.regs[arg_spec(instr, 0, 3) as int]
    };
    MachineView {
        regs: set_reg_flag(v.regs, arg_spec(instr, 9, 3), u16_specs::wrapping_add(a, b)),
        ..v
    }
}

/// AND: as ADD, but the destination receives the bitwise conjunction.
pub open spec fn and_view(v: MachineView, instr: u16) -> MachineView {
    let a = v.regs[arg_spec(instr, 6, 3) as int];
    let b = if arg_spec(instr, 5, 1) != 0 {
        sign_extend_spec(arg_spec(instr, 0, 5), 5)
    } else {
        v.regs[arg_spec(instr, 0, 3) as int]
    };
    MachineView { regs: set_reg_flag(v.regs, arg_spec(instr, 9, 3), a & b), ..v }
}

/// NOT: the destination register receives the bitwise complement of the
/// source register; the condition flags follow the result.
pub open spec fn not_view(v: MachineView, instr: u16) -> MachineView {
    MachineView {
        regs: set_reg_flag(v.regs, arg_spec(instr, 9, 3), !v.regs[arg_spec(instr, 6, 3) as int]),
        ..v
    }
}

/// BR: when the condition mask intersects the condition register, the
/// program counter moves by the sign-extended 9-bit offset; otherwise
/// nothing changes beyond the normal fetch increment, which has already
/// happened.
pub open spec fn br_view(v: MachineView, instr: u16) -> MachineView {
    if arg_spec(instr, 9, 3) & v.regs[cond_slot()] != 0 {
        MachineView {
            regs: v.regs.update(
                pc_slot(),
                u16_specs::wrapping_add(
                    v.regs[pc_slot()],
                    sign_extend_spec(arg_spec(instr, 0, 9), 9),
                ),
            ),
            ..v
        }
    } else {
        v
    }
}

/// JMP: the program counter receives the base register's value.
pub open spec fn jmp_view(v: MachineView, instr: u16) -> MachineView {
    MachineView {
        regs: v.regs.update(pc_slot(), v.regs[arg_spec(instr, 6, 3) as int]),
        ..v
    }
}

/// JSR: R7 receives the return address (the program counter after the
/// fetch increment); the program counter then receives either the base
/// register's value or, with the long flag set, the return address plus
/// the sign-extended 11-bit offset. The base register is read before R7 is
/// written.
pub open spec fn jsr_view(v: MachineView, instr: u16) -> MachineView {
    let pc = v.regs[pc_slot()];
    let target = if arg_spec(instr, 11, 1) != 0 {
        u16_specs::wrapping_add(pc, sign_extend_spec(arg_spec(instr, 0, 11), 11))
    } else {
        v.regs[arg_spec(instr, 6, 3) as int]
    };
    MachineView { regs: v.regs.update(7, pc).update(pc_slot(), target), ..v }
}

/// LD: the destination register receives the word read at the program
/// counter plus the sign-extended 9-bit offset; the read may touch the
/// keyboard device; the condition flags follow the result.
pub open spec fn ld_view(v: MachineView, instr: u16) -> MachineView {
    let addr = u16_specs::wrapping_add(v.regs[pc_slot()], sign_extend_spec(arg_spec(instr, 0, 9), 9));
    let rd = read_view(v.mem, v.input, addr);
    MachineView {
        mem: rd.0,
        input: rd.1,
        regs: set_reg_flag(v.regs, arg_spec(instr, 9, 3), rd.2),
        ..v
    }
}

/// LDI: the word at the program counter plus the offset is read as an
/// address, and the destination register receives the word read there;
/// both reads may touch the keyboard device.
pub open spec fn ldi_view(v: MachineView, instr: u16) -> MachineView {
    let addr = u16_specs::wrapping_add(v.regs[pc_slot()], sign_extend_spec(arg_spec(instr, 0, 9), 9));
    let rd1 = read_view(v.mem, v.input, addr);
    let rd2 = read_view(rd1.0, rd1.1, rd1.2);
    MachineView {
        mem: rd2.0,
        input: rd2.1,
        regs: set_reg_flag(v.regs, arg_spec(instr, 9, 3), rd2.2),
        ..v
    }
}

/// LDR: the destination register receives the word read at the base
/// register plus the sign-extended 6-bit offset.
pub open spec fn ldr_view(v: MachineView, instr: u16) -> MachineView {
    let addr = u16_specs::wrapping_add(
        v.regs[arg_spec(instr, 6, 3) as int],
        sign_extend_spec(arg_spec(instr, 0, 6), 6),
    );
    let rd = read_view(v.mem, v.input, addr);
    MachineView {
        mem: rd.0,
        input: rd.1,
        regs: set_reg_flag(v.regs, arg_spec(instr, 9, 3), rd.2),
        ..v
    }
}

/// LEA: the destination register receives the program counter plus the
/// sign-extended 9-bit offset, with no memory access; the condition flags
/// follow the result.
pub open spec fn lea_view(v: MachineView, instr: u16) -> MachineView {
    MachineView {
        regs: set_reg_flag(
            v.regs,
            arg_spec(instr, 9, 3),
            u16_specs::wrapping_add(v.regs[pc_slot()], sign_extend_spec(arg_spec(instr, 0, 9), 9)),
        ),
        ..v
    }
}

/// ST: the source register's value is stored at the program counter plus
/// the sign-extended 9-bit offset.
pub open spec fn st_view(v: MachineView, instr: u16) -> MachineView {
    let addr = u16_specs::wrapping_add(v.regs[pc_slot()], sign_extend_spec(arg_spec(instr, 0, 9), 9));
    MachineView {
        mem: v.mem.update(addr as int, v.regs[arg_spec(instr, 9, 3) as int]),
        ..v
    }
}

/// STI: the word at the program counter plus the offset is read as an
/// address (possibly touching the keyboard device), and the source
/// register's value is stored there.
pub open spec fn sti_view(v: MachineView, instr: u16) -> MachineView {
    let addr = u16_specs::wrapping_add(v.regs[pc_slot()], sign_extend_spec(arg_spec(instr, 0, 9), 9));
    let rd = read_view(v.mem, v.input, addr);
    MachineView {
        mem: rd.0.update(rd.2 as int, v.regs[arg_spec(instr, 9, 3) as int]),
        input: rd.1,
        ..v
    }
}

/// STR: the source register's value is stored at the base register plus
/// the sign-extended 6-bit offset.
pub open spec fn str_view(v: MachineView, instr: u16) -> MachineView {
    let addr = u16_specs::wrapping_add(
        v.regs[arg_spec(instr, 6, 3) as int],
        sign_extend_spec(arg_spec(instr, 0, 6), 6),
    );
    MachineView {
        mem: v.mem.update(addr as int, v.regs[arg_spec(instr, 9, 3) as int]),
        ..v
    }
}

/// A fatal condition: the machine stops with the given fault.
pub open spec fn fault_view(v: MachineView, f: Fault) -> MachineView {
    MachineView { status: Status::Faulted(f), ..v }
}

/// GETC: R0 receives the next pending input character, which is consumed;
/// with no input pending R0 receives zero. No echo, no flag update.
pub open spec fn getc_view(v: MachineView) -> MachineView {
    if v.input.len() > 0 {
        MachineView { regs: v.regs.update(0, v.input[0] as u16), input: v.input.skip(1), ..v }
    } else {
        MachineView { regs: v.regs.update(0, 0u16), ..v }
    }
}

/// OUT: the character in R0's low byte is emitted.
pub open spec fn out_view(v: MachineView) -> MachineView {
    MachineView { output: v.output.push((v.regs[0] & 0xFF) as u8), ..v }
}

/// The bytes PUTS emits for the words from index `i` on: one character per
/// full word, its low byte, up to but excluding the first zero word (or
/// the end of memory, whichever comes first).
pub open spec fn puts_seq(mem: Seq<u16>, i: int) -> Seq<u8>
    decreases 65536 - i,
{
    if i < 0 || i >= 65536 || mem[i] == 0 {
        Seq::empty()
    } else {
        seq![(mem[i] & 0xFF) as u8] + puts_seq(mem, i + 1)
    }
}

/// PUTS: the word string starting at the address in R0 is emitted, one
/// character per word, stopping before the first zero word.
pub open spec fn puts_view(v: MachineView) -> MachineView {
    MachineView { output: v.output + puts_seq(v.mem, v.regs[0] as int), ..v }
}

/// The bytes PUTSP emits for the words from index `i` on: two packed
/// characters per word, low byte first, stopping at the first zero word;
/// a zero high byte is suppressed rather than emitted, so a string of odd
/// length does not end in a synthetic NUL.
pub open spec fn putsp_seq(mem: Seq<u16>, i: int) -> Seq<u8>
    decreases 65536 - i,
{
    if i < 0 || i >= 65536 || mem[i] == 0 {
        Seq::empty()
    } else {
        let lo = (mem[i] & 0xFF) as u8;
        let hi = (mem[i] >> 8) as u8;
        (if hi == 0 {
            seq![lo]
        } else {
            seq![lo, hi]
        }) + putsp_seq(mem, i + 1)
    }
}

/// PUTSP: the byte-packed string starting at the address in R0 is emitted.
pub open spec fn putsp_view(v: MachineView) -> MachineView {
    MachineView { output: v.output + putsp_seq(v.mem, v.regs[0] as int), ..v }
}

/// The prompt IN emits before reading: the bytes of "Enter a character: ".
pub open spec fn prompt_seq() -> Seq<u8> {
    seq![
        0x45u8, 0x6Eu8, 0x74u8, 0x65u8, 0x72u8, 0x20u8, 0x61u8, 0x20u8, 0x63u8, 0x68u8, 0x61u8,
        0x72u8, 0x61u8, 0x63u8, 0x74u8, 0x65u8, 0x72u8, 0x3Au8, 0x20u8,
    ]
}

/// IN: the prompt is emitted, the next pending input character (zero when
/// none is pending) is stored into R0 and echoed, followed by a newline.
pub open spec fn in_view(v: MachineView) -> MachineView {
    let c: u8 = if v.input.len() > 0 {
        v.input[0]
    } else {
        0
    };
    MachineView {
        regs: v.regs.update(0, c as u16),
        input: if v.input.len() > 0 {
            v.input.skip(1)
        } else {
            v.input
        },
        output: v.output + prompt_seq() + seq![c, 0x0Au8],
        ..v
    }
}

/// The halt indication HALT emits: the bytes of "HALT".
pub open spec fn halt_seq() -> Seq<u8> {
    seq![0x48u8, 0x41u8, 0x4Cu8, 0x54u8]
}

/// HALT: the halt indication is emitted and the machine stops normally.
pub open spec fn halt_view(v: MachineView) -> MachineView {
    MachineView { output: v.output + halt_seq(), status: Status::Halted, ..v }
}

/// TRAP: the low byte of the instruction selects a trap routine; an
/// undefined vector is fatal, as an illegal instruction is.
pub open spec fn trap_view(v: MachineView, instr: u16) -> MachineView {
    let vector = instr & 0xFF;
    match trap_of_vector(vector) {
        Some(Trap::GETC) => getc_view(v),
        Some(Trap::OUT) => out_view(v),
        Some(Trap::PUTS) => puts_view(v),
        Some(Trap::IN) => in_view(v),
        Some(Trap::PUTSP) => putsp_view(v),
        Some(Trap::HALT) => halt_view(v),
        None => fault_view(v, Fault::UnknownTrap),
    }
}

/// The effect of the fetched instruction on the machine state after the
/// fetch increment. The reserved opcodes are fatal.
pub open spec fn dispatch_view(v: MachineView, instr: u16) -> MachineView {
    match op_of_nibble(instr >> 12) {
        Op::BR => br_view(v, instr),
        Op::ADD => add_view(v, instr),
        Op::LD => ld_view(v, instr),
        Op::ST => st_view(v, instr),
        Op::JSR => jsr_view(v, instr),
        Op::AND => and_view(v, instr),
        Op::LDR => ldr_view(v, instr),
        Op::STR => str_view(v, instr),
        Op::RTI => fault_view(v, Fault::IllegalInstruction),
        Op::NOT => not_view(v, instr),
        Op::LDI => ldi_view(v, instr),
        Op::STI => sti_view(v, instr),
        Op::JMP => jmp_view(v, instr),
        Op::RES => fault_view(v, Fault::IllegalInstruction),
        Op::LEA => lea_view(v, instr),
        Op::TRAP => trap_view(v, instr),
    }
}

/// One full fetch-decode-execute cycle. A machine that is not active is
/// left exactly as it is; an active machine becomes running, fetches the
/// word at the program counter (a read that may touch the keyboard
/// device), increments the program counter by one word, and executes the
/// fetched instruction.
pub open spec fn step_view(v: MachineView) -> MachineView {
    if !machine_active(v) {
        v
    } else {
        let pc = v.regs[pc_slot()];
        let rd = read_view(v.mem, v.input, pc);
        let v1 = MachineView {
            mem: rd.0,
            input: rd.1,
            regs: v.regs.update(pc_slot(), u16_specs::wrapping_add(pc, 1)),
            status: Status::Running,
            ..v
        };
        dispatch_view(v1, rd.2)
    }
}

/// The machine state after `n` steps.
pub open spec fn run_view(v: MachineView, n: nat) -> MachineView
    decreases n,
{
    if n == 0 {
        v
    } else {
        step_view(run_view(v, (n - 1) as nat))
    }
}

/// The decoded instruction at the program counter, as an observer sees it:
/// the opcode, with the selected routine for a trap, or the raw vector
/// when it is not a defined one. Decoding reads memory directly and does
/// not touch the keyboard device.
pub open spec fn operation_at(v: MachineView) -> Operation {
    let instr = v.mem[v.regs[pc_slot()] as int];
    if op_of_nibble(instr >> 12) == Op::TRAP {
        match trap_of_vector(instr & 0xFF) {
            Some(t) => Operation::Trap(t),
            None => Operation::UnknownTrap(instr & 0xFF),
        }
    } else {
        Operation::Op(op_of_nibble(instr >> 12))
    }
}

/// The origin address carried in an image's first two bytes, big-endian.
pub open spec fn origin_of(image: Seq<u8>) -> u16
    recommends
        image.len() >= 2,
{
    ((image[0] as u16) << 8) | (image[1] as u16)
}

/// Memory after the image bytes from index `i` on are stored as big-endian
/// words at consecutive addresses from `addr`, wrapping silently at the
/// end of the address space. A trailing odd byte forms a word alone, as
/// the high byte, with a zero low byte.
pub open spec fn store_words(mem: Seq<u16>, image: Seq<u8>, i: int, addr: u16) -> Seq<u16>
    decreases image.len() + 2 - i,
{
    if 2 <= i < image.len() {
        let lo: u16 = if i + 1 < image.len() {
            image[i + 1] as u16
        } else {
            0
        };
        let w: u16 = ((image[i] as u16) << 8) | lo;
        store_words(mem.update(addr as int, w), image, i + 2, u16_specs::wrapping_add(addr, 1))
    } else {
        mem
    }
}

/// Memory after an image is loaded: its words are stored sequentially from
/// its origin address.
pub open spec fn loaded_mem(mem: Seq<u16>, image: Seq<u8>) -> Seq<u16>
    recommends
        image.len() >= 2,
{
    store_words(mem, image, 2, origin_of(image))
}

/// Stepping a machine that is halted or faulted is a no-op: the state is
/// returned exactly as it is.
pub proof fn lemma_step_when_halted(v: MachineView)
    requires
        !machine_active(v),
    ensures
        step_view(v) == v,
{
}

/// A write followed by a read at any address other than the keyboard
/// status register returns the value written and leaves memory and the
/// pending input alone: only reads of the status register are intercepted
/// by the device.
pub proof fn lemma_write_then_read(v: MachineView, addr: u16, value: u16)
    requires
        view_wf(v),
        addr != 0xFE00,
    ensures
        read_view(v.mem.update(addr as int, value), v.input, addr).2 == value,
        read_view(v.mem.update(addr as int, value), v.input, addr).0 == v.mem.update(
            addr as int,
            value,
        ),
        read_view(v.mem.update(addr as int, value), v.input, addr).1 == v.input,
{
}

/// After any destination-register write, the condition register holds
/// exactly one of the three flag patterns: positive, zero or negative.
pub proof fn lemma_cond_flag_after_write(regs: Seq<u16>, r: u16, value: u16)
    requires
        regs.len() == 10,
        r < 10,
    ensures
        set_reg_flag(regs, r, value)[cond_slot()] == 1 || set_reg_flag(regs, r, value)[cond_slot()]
            == 2 || set_reg_flag(regs, r, value)[cond_slot()] == 4,
{
    lemma_flag_bits_valid(value);
}

/// ADD in immediate mode with the immediate encoding minus one,
/// destination R0 and source R1 (the instruction word 0x107F): R0 receives
/// R1 minus one, modulo 65536, and the condition register classifies the
/// result, negative exactly when its high bit is set, else zero or
/// positive per the value.
pub proof fn lemma_add_immediate_minus_one(v: MachineView)
    requires
        view_wf(v),
    ensures
        ({
            let r = u16_specs::wrapping_sub(v.regs[1], 1);
            &&& add_view(v, 0x107F).regs[0] == r
            &&& add_view(v, 0x107F).regs[cond_slot()] == (if r >= 0x8000 {
                4u16
            } else if r == 0 {
                2u16
            } else {
                1u16
            })
            &&& add_view(v, 0x107F).mem == v.mem
        }),
{
    assert(arg_spec(0x107F, 9, 3) == 0 && arg_spec(0x107F, 6, 3) == 1 && arg_spec(0x107F, 5, 1)
        == 1 && sign_extend_spec(arg_spec(0x107F, 0, 5), 5) == 0xFFFF) by (bit_vector);
    let r = u16_specs::wrapping_add(v.regs[1], 0xFFFF);
    assert(r == u16_specs::wrapping_sub(v.regs[1], 1));
    lemma_negative_is_high_bit(r);
}

/// One step on a branch instruction: when the instruction's condition mask
/// intersects the condition register, the program counter moves by the
/// sign-extended 9-bit offset relative to the address immediately after
/// the branch; with a non-matching mask it only advances by the normal
/// one-word fetch increment. Stated for a fetch away from the keyboard
/// status address, whose read the device intercepts.
pub proof fn lemma_branch_step(v: MachineView)
    requires
        view_wf(v),
        machine_active(v),
        v.regs[pc_slot()] != 0xFE00,
        v.mem[v.regs[pc_slot()] as int] >> 12 == 0,
    ensures
        ({
            let instr = v.mem[v.regs[pc_slot()] as int];
            let pc1 = u16_specs::wrapping_add(v.regs[pc_slot()], 1);
            step_view(v).regs[pc_slot()] == (if arg_spec(instr, 9, 3) & v.regs[cond_slot()] != 0 {
                u16_specs::wrapping_add(pc1, sign_extend_spec(arg_spec(instr, 0, 9), 9))
            } else {
                pc1
            })
        }),
{
    let instr = v.mem[v.regs[pc_slot()] as int];
    assert(op_of_nibble(instr >> 12) == Op::BR);
}

} // verus!
