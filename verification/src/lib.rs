//! An emulator for a small 16-bit instruction-set computer with 8 general
//! registers, a 65536-word address space, memory-mapped keyboard I/O and
//! software trap routines for console I/O.
//!
//! The `lc3` module holds the machine itself: its state, the binary image
//! loader, memory access with device interception, and the instruction and
//! trap semantics, each specified against a mathematical model of the
//! machine (`lc3::model`). The `debugger` module holds a stepping observer
//! that records the decoded instruction stream for display by a front end.

pub mod debugger;
pub mod lc3;
