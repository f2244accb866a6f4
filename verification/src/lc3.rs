//! The machine itself: its state, the dispatch tables, the binary image
//! loader, memory access with device interception, and the step and run
//! loops that drive execution.

pub mod consts;
pub mod instruction;
pub mod model;
pub mod op;
pub mod trap;

use vstd::prelude::*;

use crate::lc3::consts::{
    op_of_nibble, ConditionFlag, MemoryMappedRegister, Op, Operation, Register, Trap,
    MEMORY_LIMIT, PC_START,
};
use crate::lc3::instruction::{flag_bits_of, get_cond_flag, lemma_arg_bounds};
use crate::lc3::model::{
    cond_slot, loaded_mem, machine_active, origin_of, pc_slot, read_view, run_view, step_view,
    store_words, view_wf, MachineView, operation_at,
};

verus! {

/// The fatal conditions that stop a run.
#[derive(Copy, Clone, Debug, PartialEq, Eq, Structural)]
pub enum Fault {
    /// Execution reached one of the reserved opcodes, or the dispatch
    /// table had no entry for a decoded opcode
    IllegalInstruction,
    /// A trap instruction carried a vector outside the six defined values
    UnknownTrap,
}

/// Where a machine stands in its life cycle: created, executing, stopped
/// by the halt routine, or stopped by a fatal condition.
#[derive(Copy, Clone, Debug, PartialEq, Eq, Structural)]
pub enum Status {
    /// Created and not yet started
    Ready,
    /// Executing instructions
    Running,
    /// Stopped normally by the halt routine
    Halted,
    /// Stopped by a fatal condition
    Faulted(Fault),
}

/// The rejections the image loader can answer with.
#[derive(Copy, Clone, Debug, PartialEq, Eq, Structural)]
pub enum ImageError {
    /// The image ends before the two bytes that carry the origin address
    TooShort,
}

/// The lookup table from the 4-bit opcode nibble to the opcode tag, built
/// once at startup and never mutated afterwards.
pub struct DispatchTables {
    opcodes: Vec<Op>,
}

impl View for DispatchTables {
    type V = Seq<Op>;

    closed spec fn view(&self) -> Seq<Op> {
        self.opcodes@
    }
}

impl DispatchTables {
    /// A well-formed table maps every nibble to its opcode.
    pub open spec fn wf(self) -> bool {
        &&& self@.len() == 16
        &&& forall|i: int| 0 <= i < 16 ==> #[trigger] self@[i] == op_of_nibble(i as u16)
    }

    /// Create the dispatch tables, with every opcode in nibble order.
    pub fn new() -> (t: DispatchTables)
        ensures
            t.wf(),
    {
        let mut opcodes: Vec<Op> = Vec::new();
        opcodes.push(Op::BR);
        opcodes.push(Op::ADD);
        opcodes.push(Op::LD);
        opcodes.push(Op::ST);
        opcodes.push(Op::JSR);
        opcodes.push(Op::AND);
        opcodes.push(Op::LDR);
        opcodes.push(Op::STR);
        opcodes.push(Op::RTI);
        opcodes.push(Op::NOT);
        opcodes.push(Op::LDI);
        opcodes.push(Op::STI);
        opcodes.push(Op::JMP);
        opcodes.push(Op::RES);
        opcodes.push(Op::LEA);
        opcodes.push(Op::TRAP);
        let t = DispatchTables { opcodes };
        proof {
            assert forall|i: int| 0 <= i < 16 implies #[trigger] t@[i] == op_of_nibble(
                i as u16,
            ) by {
                assert(t@ =~= seq![
                    Op::BR, Op::ADD, Op::LD, Op::ST, Op::JSR, Op::AND, Op::LDR, Op::STR, Op::RTI,
                    Op::NOT, Op::LDI, Op::STI, Op::JMP, Op::RES, Op::LEA, Op::TRAP,
                ]);
            }
        }
        t
    }

    /// Look an opcode up by its nibble; a nibble outside the table answers
    /// `None`, which callers treat as fatal.
    pub fn lookup(&self, nibble: u16) -> (op: Option<Op>)
        ensures
            (nibble as int) < self@.len() ==> op == Some(self@[nibble as int]),
            (nibble as int) >= self@.len() ==> op is None,
    {
        if (nibble as usize) < self.opcodes.len() {
            Some(self.opcodes[nibble as usize])
        } else {
            None
        }
    }
}

/// The state of one machine: its memory, register file, execution status,
/// keyboard buffer and output buffer. The keyboard buffer stands for the
/// input device: a front end feeds characters into it, and the machine
/// consumes them through the memory-mapped status register and the input
/// trap routines.
#[derive(Clone, Debug)]
pub struct LC3 {
    mem: Vec<u16>,
    regs: Vec<u16>,
    status: Status,
    kb: Vec<u8>,
    kb_pos: usize,
    out_buf: Vec<u8>,
}

impl View for LC3 {
    type V = MachineView;

    closed spec fn view(&self) -> MachineView {
        MachineView {
            mem: self.mem@,
            regs: self.regs@,
            status: self.status,
            input: self.kb@.skip(self.kb_pos as int),
            output: self.out_buf@,
        }
    }
}

impl LC3 {
    /// The internal consistency of the keyboard buffer.
    pub closed spec fn inv(self) -> bool {
        self.kb_pos <= self.kb@.len()
    }

    /// A well-formed machine: full memory, a full register file, and a
    /// consistent keyboard buffer.
    pub open spec fn wf(self) -> bool {
        self.inv() && view_wf(self@)
    }

    /// Create a machine: memory and registers zeroed, except the program
    /// counter, which is preset to the fixed start address; not yet
    /// started; no input pending and no output emitted.
    pub fn new() -> (vm: LC3)
        ensures
            vm.wf(),
            vm@.status == Status::Ready,
            vm@.regs[pc_slot()] == PC_START,
            forall|i: int| 0 <= i < 10 && i != pc_slot() ==> vm@.regs[i] == 0,
            forall|a: int| 0 <= a < 65536 ==> vm@.mem[a] == 0,
            vm@.input == Seq::<u8>::empty(),
            vm@.output == Seq::<u8>::empty(),
    {
        let mut mem: Vec<u16> = Vec::new();
        while mem.len() < MEMORY_LIMIT
            invariant
                mem@.len() <= 65536,
                forall|a: int| 0 <= a < mem@.len() ==> mem@[a] == 0,
            decreases 65536 - mem@.len(),
        {
            mem.push(0);
        }
        let mut regs: Vec<u16> = Vec::new();
        let mut i: usize = 0;
        while i < 8
            invariant
                i <= 8,
                regs@.len() == i,
                forall|j: int| 0 <= j < i ==> regs@[j] == 0,
            decreases 8 - i,
        {
            regs.push(0);
            i = i + 1;
        }
        regs.push(PC_START);
        regs.push(0);
        let vm = LC3 {
            mem,
            regs,
            status: Status::Ready,
            kb: Vec::new(),
            kb_pos: 0,
            out_buf: Vec::new(),
        };
        proof {
            assert(vm@.input =~= Seq::<u8>::empty());
        }
        vm
    }

    /// The machine's execution status.
    pub fn status(&self) -> (s: Status)
        ensures
            s == self@.status,
    {
        self.status
    }

    /// Whether the machine will execute an instruction on the next step.
    pub fn is_active(&self) -> (b: bool)
        ensures
            b == machine_active(self@),
    {
        self.status == Status::Ready || self.status == Status::Running
    }

    /// Read-only view of the register file, for display.
    pub fn registers(&self) -> (r: &Vec<u16>)
        ensures
            r@ == self@.regs,
    {
        &self.regs
    }

    /// Read-only view of the memory array, for display.
    pub fn memory(&self) -> (m: &Vec<u16>)
        ensures
            m@ == self@.mem,
    {
        &self.mem
    }

    /// One register's value.
    pub fn register(&self, index: usize) -> (v: u16)
        requires
            self.wf(),
            index < 10,
        ensures
            v == self@.regs[index as int],
    {
        self.regs[index]
    }

    /// Store a value directly into a register slot, with no flag update:
    /// a setup operation for front ends and tests, not an instruction
    /// semantics.
    pub fn write_register(&mut self, index: usize, value: u16)
        requires
            old(self).wf(),
            index < 10,
        ensures
            final(self).wf(),
            final(self)@ == (MachineView {
                regs: old(self)@.regs.update(index as int, value),
                ..old(self)@
            }),
    {
        self.regs[index] = value;
    }

    /// One memory word, read directly with no device interception: for
    /// display and for the string trap routines.
    pub fn memory_at(&self, addr: u16) -> (w: u16)
        requires
            self.wf(),
        ensures
            w == self@.mem[addr as int],
    {
        self.mem[addr as usize]
    }

    /// The output bytes emitted so far.
    pub fn output(&self) -> (r: &Vec<u8>)
        ensures
            r@ == self@.output,
    {
        &self.out_buf
    }

    /// Discard the output emitted so far, after a front end has drained it.
    pub fn clear_output(&mut self)
        requires
            old(self).wf(),
        ensures
            final(self).wf(),
            final(self)@ == (MachineView { output: Seq::empty(), ..old(self)@ }),
    {
        self.out_buf.clear();
    }

    /// Feed one input character to the keyboard.
    pub fn feed_input(&mut self, c: u8)
        requires
            old(self).wf(),
        ensures
            final(self).wf(),
            final(self)@ == (MachineView { input: old(self)@.input.push(c), ..old(self)@ }),
    {
        self.kb.push(c);
        proof {
            assert(self@.input =~= old(self)@.input.push(c));
        }
    }

    /// How many input characters are pending.
    pub fn pending_input(&self) -> (n: usize)
        requires
            self.wf(),
        ensures
            n == self@.input.len(),
    {
        self.kb.len() - self.kb_pos
    }

    /// Consume the next pending input character, if one is pending.
    pub fn take_input(&mut self) -> (c: Option<u8>)
        requires
            old(self).wf(),
        ensures
            final(self).wf(),
            old(self)@.input.len() == 0 ==> c is None && final(self)@ == old(self)@,
            old(self)@.input.len() > 0 ==> c == Some(old(self)@.input[0]) && final(self)@
                == (MachineView { input: old(self)@.input.skip(1), ..old(self)@ }),
    {
        if self.kb_pos < self.kb.len() {
            let c: u8 = self.kb[self.kb_pos];
            self.kb_pos = self.kb_pos + 1;
            proof {
                assert(self@.input =~= old(self)@.input.skip(1));
                assert(self@ =~= (MachineView { input: old(self)@.input.skip(1), ..old(self)@ }));
            }
            Some(c)
        } else {
            proof {
                assert(self@ =~= old(self)@);
            }
            None
        }
    }

    /// Append one byte to the output.
    pub(crate) fn emit_byte(&mut self, b: u8)
        requires
            old(self).wf(),
        ensures
            final(self).wf(),
            final(self)@ == (MachineView { output: old(self)@.output.push(b), ..old(self)@ }),
    {
        self.out_buf.push(b);
    }

    /// Move the machine to a new execution status.
    pub(crate) fn set_status(&mut self, s: Status)
        requires
            old(self).wf(),
        ensures
            final(self).wf(),
            final(self)@ == (MachineView { status: s, ..old(self)@ }),
    {
        self.status = s;
    }

    /// Update the condition register from the value just written to the
    /// indexed register: every instruction that defines a destination
    /// register calls this after the store, never leaving a bare store.
    pub fn update_cond_flag(&mut self, r: u16)
        requires
            old(self).wf(),
            r < 10,
        ensures
            final(self).wf(),
            final(self)@ == (MachineView {
                regs: old(self)@.regs.update(cond_slot(), flag_bits_of(old(self)@.regs[r as int])),
                ..old(self)@
            }),
    {
        let raw_cond: u16 = self.regs[r as usize];
        let cond_flag: ConditionFlag = get_cond_flag(raw_cond);
        let ci: usize = Register::COND.index();
        self.regs[ci] = cond_flag.bits();
    }

    /// Write a value to a memory address. No address intercepts writes.
    pub fn mem_write(&mut self, addr: u16, val: u16)
        requires
            old(self).wf(),
        ensures
            final(self).wf(),
            final(self)@ == (MachineView {
                mem: old(self)@.mem.update(addr as int, val),
                ..old(self)@
            }),
    {
        self.mem[addr as usize] = val;
    }

    /// Read the value at a memory address, with device interception: a
    /// read of the keyboard status address consumes a pending input
    /// character into the keyboard data address and reflects the keyboard
    /// readiness in the status word's high bit.
    pub fn mem_read(&mut self, addr: u16) -> (value: u16)
        requires
            old(self).wf(),
        ensures
            final(self).wf(),
            value == read_view(old(self)@.mem, old(self)@.input, addr).2,
            final(self)@ == (MachineView {
                mem: read_view(old(self)@.mem, old(self)@.input, addr).0,
                input: read_view(old(self)@.mem, old(self)@.input, addr).1,
                ..old(self)@
            }),
    {
        let kbsr: u16 = MemoryMappedRegister::KBSR.address();
        if addr == kbsr {
            let kbdr: u16 = MemoryMappedRegister::KBDR.address();
            if self.kb_pos < self.kb.len() {
                let c: u8 = self.kb[self.kb_pos];
                self.kb_pos = self.kb_pos + 1;
                self.mem[kbsr as usize] = 0x8000;
                self.mem[kbdr as usize] = c as u16;
                proof {
                    assert(self@.input =~= old(self)@.input.skip(1));
                }
            } else {
                self.mem[kbsr as usize] = 0;
            }
        }
        let value: u16 = self.mem[addr as usize];
        proof {
            assert(self@ =~= (MachineView {
                mem: read_view(old(self)@.mem, old(self)@.input, addr).0,
                input: read_view(old(self)@.mem, old(self)@.input, addr).1,
                ..old(self)@
            }));
        }
        value
    }

    /// Load a binary program image into memory. The first two bytes,
    /// big-endian, form the origin address; every following pair forms one
    /// big-endian word, stored sequentially from the origin, wrapping
    /// silently at the end of the address space; a trailing odd byte is
    /// padded with a zero low byte. Only memory is touched: registers and
    /// the running state are left alone. An image too short to carry an
    /// origin is rejected whole.
    pub fn load_image(&mut self, image: &Vec<u8>) -> (r: Result<(), ImageError>)
        requires
            old(self).wf(),
            image@.len() < usize::MAX,
        ensures
            final(self).wf(),
            image@.len() >= 2 ==> r is Ok && final(self)@ == (MachineView {
                mem: loaded_mem(old(self)@.mem, image@),
                ..old(self)@
            }),
            image@.len() < 2 ==> r == Err::<(), ImageError>(ImageError::TooShort) && final(self)@
                == old(self)@,
    {
        if image.len() < 2 {
            return Err(ImageError::TooShort);
        }
        let origin: u16 = ((image[0] as u16) << 8) | (image[1] as u16);
        let mut i: usize = 2;
        let mut addr: u16 = origin;
        while i < image.len()
            invariant
                self.wf(),
                2 <= i,
                image@.len() < usize::MAX,
                self@.regs == old(self)@.regs,
                self@.input == old(self)@.input,
                self@.status == old(self)@.status,
                self@.output == old(self)@.output,
                store_words(self@.mem, image@, i as int, addr) == store_words(
                    old(self)@.mem,
                    image@,
                    2,
                    origin,
                ),
            decreases image@.len() + 2 - i,
        {
            let hi: u16 = image[i] as u16;
            let lo: u16 = if i + 1 < image.len() {
                image[i + 1] as u16
            } else {
                0
            };
            let w: u16 = (hi << 8) | lo;
            self.mem_write(addr, w);
            addr = addr.wrapping_add(1);
            i = i + 2;
        }
        proof {
            assert(self@ =~= (MachineView {
                mem: loaded_mem(old(self)@.mem, image@),
                ..old(self)@
            }));
        }
        Ok(())
    }

    /// Decode, without executing, the instruction at the current program
    /// counter, for display: its opcode and, for a trap, the selected
    /// routine or the raw vector when it is invalid. Reads memory directly
    /// and does not touch the keyboard device.
    pub fn parse_next_op(&self) -> (op: Operation)
        requires
            self.wf(),
        ensures
            op == operation_at(self@),
    {
        let pc: u16 = self.regs[8];
        let raw_op: u16 = self.mem[pc as usize];
        proof {
            lemma_arg_bounds(raw_op, 0);
        }
        let op: Op = Op::from_nibble(raw_op >> 12);
        if op == Op::TRAP {
            let vector: u16 = raw_op & 0xFF;
            match Trap::from_vector(vector) {
                Some(t) => Operation::Trap(t),
                None => Operation::UnknownTrap(vector),
            }
        } else {
            Operation::Op(op)
        }
    }

    /// Execute exactly one fetch-decode-execute cycle: fetch the word at
    /// the program counter (a read that may touch the keyboard device),
    /// increment the program counter by one word, and dispatch on the top
    /// nibble. On a machine that is halted or faulted this is a no-op; a
    /// machine not yet started starts. A dispatch-table miss is fatal.
    pub fn step(&mut self, tables: &DispatchTables)
        requires
            old(self).wf(),
            tables.wf(),
        ensures
            final(self).wf(),
            final(self)@ == step_view(old(self)@),
    {
        if !self.is_active() {
            return;
        }
        self.status = Status::Running;
        let pc: u16 = self.regs[8];
        let instr: u16 = self.mem_read(pc);
        let pc1: u16 = pc.wrapping_add(1);
        self.regs[8] = pc1;
        proof {
            lemma_arg_bounds(instr, 0);
            assert(self@ =~= (MachineView {
                mem: read_view(old(self)@.mem, old(self)@.input, pc).0,
                input: read_view(old(self)@.mem, old(self)@.input, pc).1,
                regs: old(self)@.regs.update(pc_slot(), pc1),
                status: Status::Running,
                ..old(self)@
            }));
        }
        match tables.lookup(instr >> 12) {
            Some(op) => match op {
                Op::BR => op::br(self, instr),
                Op::ADD => op::add(self, instr),
                Op::LD => op::ld(self, instr),
                Op::ST => op::st(self, instr),
                Op::JSR => op::jsr(self, instr),
                Op::AND => op::and(self, instr),
                Op::LDR => op::ldr(self, instr),
                Op::STR => op::str(self, instr),
                Op::RTI => op::rti(self, instr),
                Op::NOT => op::not(self, instr),
                Op::LDI => op::ldi(self, instr),
                Op::STI => op::sti(self, instr),
                Op::JMP => op::jmp(self, instr),
                Op::RES => op::res(self, instr),
                Op::LEA => op::lea(self, instr),
                Op::TRAP => op::trap(self, instr),
            },
            None => {
                self.status = Status::Faulted(Fault::IllegalInstruction);
            },
        }
    }

    /// Drive the machine for at most `max_steps` cycles, stopping earlier
    /// only when it halts or faults. The bound makes every run finite; a
    /// front end that wants run-to-completion passes a bound it treats as
    /// unreachable. Returns how many cycles ran.
    pub fn run_loop(&mut self, tables: &DispatchTables, max_steps: usize) -> (steps: usize)
        requires
            old(self).wf(),
            tables.wf(),
        ensures
            final(self).wf(),
            steps <= max_steps,
            final(self)@ == run_view(old(self)@, steps as nat),
            steps < max_steps ==> !machine_active(final(self)@),
    {
        let mut steps: usize = 0;
        while steps < max_steps && self.is_active()
            invariant
                self.wf(),
                tables.wf(),
                steps <= max_steps,
                self@ == run_view(old(self)@, steps as nat),
            decreases max_steps - steps,
        {
            self.step(tables);
            steps = steps + 1;
        }
        steps
    }
}

} // verus!
