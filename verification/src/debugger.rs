//! A stepping observer for the machine: it owns the machine, drives it one
//! step at a time, and keeps an append-only log of the decoded instruction
//! at the program counter, for a front end to display. It never reaches
//! into the machine's state except through the read-only accessors.

use vstd::prelude::*;

use crate::lc3::consts::Operation;
use crate::lc3::model::{machine_active, operation_at, step_view, MachineView};
use crate::lc3::{DispatchTables, LC3};

verus! {

/// The abstract state of a debugger: the machine watched and the decoded
/// instruction log.
#[verifier::ext_equal]
pub struct DebuggerView {
    /// The state of the machine being watched
    pub machine: MachineView,
    /// The decoded instruction at the program counter, recorded once at
    /// creation and once after every tick
    pub history: Seq<Operation>,
}

/// The state of the debugging front end's model: the machine and the
/// history of decoded operations.
pub struct Debugger {
    vm: LC3,
    op_history: Vec<Operation>,
}

impl View for Debugger {
    type V = DebuggerView;

    closed spec fn view(&self) -> DebuggerView {
        DebuggerView { machine: self.vm@, history: self.op_history@ }
    }
}

impl Debugger {
    /// A well-formed debugger watches a well-formed machine.
    pub closed spec fn wf(self) -> bool {
        self.vm.wf()
    }

    /// Take ownership of a machine and record the instruction it stands
    /// at.
    pub fn new(vm: LC3) -> (d: Debugger)
        requires
            vm.wf(),
        ensures
            d.wf(),
            d@.machine == vm@,
            d@.history == seq![operation_at(vm@)],
    {
        let next_op: Operation = vm.parse_next_op();
        let mut op_history: Vec<Operation> = Vec::new();
        op_history.push(next_op);
        let d = Debugger { vm, op_history };
        proof {
            assert(d@.history =~= seq![operation_at(d@.machine)]);
        }
        d
    }

    /// Perform one event tick: step the machine once and append the
    /// decoded instruction it now stands at to the log.
    pub fn tick(&mut self, tables: &DispatchTables)
        requires
            old(self).wf(),
            tables.wf(),
        ensures
            final(self).wf(),
            final(self)@.machine == step_view(old(self)@.machine),
            final(self)@.history == old(self)@.history.push(
                operation_at(step_view(old(self)@.machine)),
            ),
    {
        self.vm.step(tables);
        let next_op: Operation = self.vm.parse_next_op();
        self.op_history.push(next_op);
    }

    /// Read-only view of the machine being watched.
    pub fn vm(&self) -> (m: &LC3)
        ensures
            m@ == self@.machine,
            self.wf() ==> m.wf(),
    {
        &self.vm
    }

    /// The decoded instruction log, oldest first.
    pub fn history(&self) -> (h: &Vec<Operation>)
        ensures
            h@ == self@.history,
    {
        &self.op_history
    }

    /// Whether the watched machine will execute an instruction on the next
    /// tick.
    pub fn is_active(&self) -> (b: bool)
        ensures
            b == machine_active(self@.machine),
    {
        self.vm.is_active()
    }

    /// Feed one input character to the watched machine's keyboard.
    pub fn feed_input(&mut self, c: u8)
        requires
            old(self).wf(),
        ensures
            final(self).wf(),
            final(self)@.machine == (MachineView {
                input: old(self)@.machine.input.push(c),
                ..old(self)@.machine
            }),
            final(self)@.history == old(self)@.history,
    {
        self.vm.feed_input(c);
    }
}

} // verus!
