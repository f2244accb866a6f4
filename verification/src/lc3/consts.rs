//! Constant values and closed enumerations that describe the machine: its
//! register file, opcodes, trap vectors, condition flags and memory-mapped
//! device registers.

use vstd::prelude::*;

verus! {

/// The number of addressable 16-bit words of memory.
pub const MEMORY_LIMIT: usize = 65536;

/// The address preset into the program counter when a machine is created.
pub const PC_START: u16 = 0x3000;

/// The slots of the register file.
///
/// `R0` through `R7` are the general-purpose registers; `PC` is the program
/// counter and `COND` the condition-flag register. `COUNT` is the number of
/// slots and is not itself a register.
#[derive(Copy, Clone, Debug, PartialEq, Eq, Structural)]
pub enum Register {
    R0,
    R1,
    R2,
    R3,
    R4,
    R5,
    R6,
    R7,
    /// Program counter
    PC,
    /// Condition-flag register, holding the classification of the last
    /// general-register write
    COND,
    /// The total number of register slots
    COUNT,
}

/// The slot of the register file that a `Register` names.
pub open spec fn register_index(r: Register) -> int {
    match r {
        Register::R0 => 0,
        Register::R1 => 1,
        Register::R2 => 2,
        Register::R3 => 3,
        Register::R4 => 4,
        Register::R5 => 5,
        Register::R6 => 6,
        Register::R7 => 7,
        Register::PC => 8,
        Register::COND => 9,
        Register::COUNT => 10,
    }
}

impl Register {
    /// The slot of the register file that this name designates.
    pub fn index(self) -> (i: usize)
        ensures
            i == register_index(self),
    {
        match self {
            Register::R0 => 0,
            Register::R1 => 1,
            Register::R2 => 2,
            Register::R3 => 3,
            Register::R4 => 4,
            Register::R5 => 5,
            Register::R6 => 6,
            Register::R7 => 7,
            Register::PC => 8,
            Register::COND => 9,
            Register::COUNT => 10,
        }
    }
}

/// The sixteen opcodes, bound one-to-one to the 4-bit top nibble of an
/// instruction word, in nibble order: `BR` is nibble 0 and `TRAP` nibble 15.
#[derive(Copy, Clone, Debug, PartialEq, Eq, Structural)]
pub enum Op {
    /// Conditional branch
    BR,
    /// Add
    ADD,
    /// Load PC-relative
    LD,
    /// Store PC-relative
    ST,
    /// Jump to subroutine
    JSR,
    /// Bitwise and
    AND,
    /// Load base + offset
    LDR,
    /// Store base + offset
    STR,
    /// Return from interrupt (unused; fatal when reached)
    RTI,
    /// Bitwise complement
    NOT,
    /// Load indirect
    LDI,
    /// Store indirect
    STI,
    /// Jump
    JMP,
    /// Reserved (unused; fatal when reached)
    RES,
    /// Load effective address
    LEA,
    /// Execute a trap routine
    TRAP,
}

/// The opcode selected by a 4-bit top nibble.
pub open spec fn op_of_nibble(n: u16) -> Op
    recommends
        n < 16,
{
    if n == 0 {
        Op::BR
    } else if n == 1 {
        Op::ADD
    } else if n == 2 {
        Op::LD
    } else if n == 3 {
        Op::ST
    } else if n == 4 {
        Op::JSR
    } else if n == 5 {
        Op::AND
    } else if n == 6 {
        Op::LDR
    } else if n == 7 {
        Op::STR
    } else if n == 8 {
        Op::RTI
    } else if n == 9 {
        Op::NOT
    } else if n == 10 {
        Op::LDI
    } else if n == 11 {
        Op::STI
    } else if n == 12 {
        Op::JMP
    } else if n == 13 {
        Op::RES
    } else if n == 14 {
        Op::LEA
    } else {
        Op::TRAP
    }
}

impl Op {
    /// Decode a 4-bit opcode nibble.
    pub fn from_nibble(n: u16) -> (op: Op)
        requires
            n < 16,
        ensures
            op == op_of_nibble(n),
    {
        if n == 0 {
            Op::BR
        } else if n == 1 {
            Op::ADD
        } else if n == 2 {
            Op::LD
        } else if n == 3 {
            Op::ST
        } else if n == 4 {
            Op::JSR
        } else if n == 5 {
            Op::AND
        } else if n == 6 {
            Op::LDR
        } else if n == 7 {
            Op::STR
        } else if n == 8 {
            Op::RTI
        } else if n == 9 {
            Op::NOT
        } else if n == 10 {
            Op::LDI
        } else if n == 11 {
            Op::STI
        } else if n == 12 {
            Op::JMP
        } else if n == 13 {
            Op::RES
        } else if n == 14 {
            Op::LEA
        } else {
            Op::TRAP
        }
    }
}

/// The six defined trap vectors. Every other 8-bit vector is invalid and
/// fatal to the machine.
#[derive(Copy, Clone, Debug, PartialEq, Eq, Structural)]
pub enum Trap {
    /// Read one input character into R0, without echo (vector 0x20)
    GETC,
    /// Write the character in R0's low byte to output (vector 0x21)
    OUT,
    /// Write the word string at the address in R0 (vector 0x22)
    PUTS,
    /// Prompt, read one input character with echo, store into R0 (vector 0x23)
    IN,
    /// Write the byte-packed string at the address in R0 (vector 0x24)
    PUTSP,
    /// Emit a halt indication and stop the machine (vector 0x25)
    HALT,
}

/// The 8-bit vector that selects a trap routine.
pub open spec fn trap_vector(t: Trap) -> u16 {
    match t {
        Trap::GETC => 0x20,
        Trap::OUT => 0x21,
        Trap::PUTS => 0x22,
        Trap::IN => 0x23,
        Trap::PUTSP => 0x24,
        Trap::HALT => 0x25,
    }
}

/// The trap routine selected by an 8-bit vector, or `None` when the vector
/// is one of the invalid values.
pub open spec fn trap_of_vector(v: u16) -> Option<Trap> {
    if v == 0x20 {
        Some(Trap::GETC)
    } else if v == 0x21 {
        Some(Trap::OUT)
    } else if v == 0x22 {
        Some(Trap::PUTS)
    } else if v == 0x23 {
        Some(Trap::IN)
    } else if v == 0x24 {
        Some(Trap::PUTSP)
    } else if v == 0x25 {
        Some(Trap::HALT)
    } else {
        None
    }
}

impl Trap {
    /// The 8-bit vector of this trap routine.
    pub fn vector(self) -> (v: u16)
        ensures
            v == trap_vector(self),
    {
        match self {
            Trap::GETC => 0x20,
            Trap::OUT => 0x21,
            Trap::PUTS => 0x22,
            Trap::IN => 0x23,
            Trap::PUTSP => 0x24,
            Trap::HALT => 0x25,
        }
    }

    /// Decode an 8-bit trap vector.
    pub fn from_vector(v: u16) -> (t: Option<Trap>)
        ensures
            t == trap_of_vector(v),
    {
        if v == 0x20 {
            Some(Trap::GETC)
        } else if v == 0x21 {
            Some(Trap::OUT)
        } else if v == 0x22 {
            Some(Trap::PUTS)
        } else if v == 0x23 {
            Some(Trap::IN)
        } else if v == 0x24 {
            Some(Trap::PUTSP)
        } else if v == 0x25 {
            Some(Trap::HALT)
        } else {
            None
        }
    }
}

/// The tri-state classification of the last general-register write,
/// consulted by conditional branches.
#[derive(Copy, Clone, Debug, PartialEq, Eq, Structural)]
pub enum ConditionFlag {
    /// Positive (bit 0 of the condition register)
    POS,
    /// Zero (bit 1 of the condition register)
    ZRO,
    /// Negative (bit 2 of the condition register)
    NEG,
}

/// The bit pattern a condition flag stores in the condition register.
pub open spec fn condition_flag_bits(f: ConditionFlag) -> u16 {
    match f {
        ConditionFlag::POS => 1,
        ConditionFlag::ZRO => 2,
        ConditionFlag::NEG => 4,
    }
}

impl ConditionFlag {
    /// The bit pattern this flag stores in the condition register.
    pub fn bits(self) -> (b: u16)
        ensures
            b == condition_flag_bits(self),
    {
        match self {
            ConditionFlag::POS => 1,
            ConditionFlag::ZRO => 2,
            ConditionFlag::NEG => 4,
        }
    }
}

/// The reserved addresses that reflect live device state on read.
#[derive(Copy, Clone, Debug, PartialEq, Eq, Structural)]
pub enum MemoryMappedRegister {
    /// Keyboard status: bit 15 is set on read when an input unit is pending
    KBSR,
    /// Keyboard data: loaded with the pending character when the status
    /// register is read while input is pending
    KBDR,
}

/// The address of a memory-mapped device register.
pub open spec fn mmr_address(r: MemoryMappedRegister) -> u16 {
    match r {
        MemoryMappedRegister::KBSR => 0xFE00,
        MemoryMappedRegister::KBDR => 0xFE02,
    }
}

impl MemoryMappedRegister {
    /// The memory address this device register occupies.
    pub fn address(self) -> (a: u16)
        ensures
            a == mmr_address(self),
    {
        match self {
            MemoryMappedRegister::KBSR => 0xFE00,
            MemoryMappedRegister::KBDR => 0xFE02,
        }
    }
}

/// A decoded instruction as shown to an observer: the opcode and, for a
/// trap, the selected routine, or the raw vector when it is invalid.
#[derive(Copy, Clone, Debug, PartialEq, Eq, Structural)]
pub enum Operation {
    /// An instruction other than a trap
    Op(Op),
    /// A trap instruction with one of the six defined vectors
    Trap(Trap),
    /// A trap instruction whose vector is not a defined trap routine
    UnknownTrap(u16),
}

} // verus!
