//! The machine itself: a 65536-word memory together with the register file,
//! and the ghost state that the instruction semantics are stated over.

use crate::vm::registers::Registers;
use crate::MEMORY_SIZE;
use vstd::prelude::*;

verus! {

/// The machine state as the contracts see it: the register file together with
/// the memory as a sequence of 16-bit words.
#[verifier::ext_equal]
pub ghost struct State {
    pub regs: Registers,
    pub mem: Seq<u16>,
}

/// The machine: the full 16-bit address space of memory and the register file.
pub struct VM {
    pub memory: Vec<u16>,
    pub registers: Registers,
}

impl View for VM {
    type V = State;

    open spec fn view(&self) -> State {
        State { regs: self.registers, mem: self.memory@ }
    }
}

impl VM {
    /// The memory holds one word for every 16-bit address.
    pub open spec fn wf(&self) -> bool {
        self.memory@.len() == MEMORY_SIZE
    }

    /// A fresh machine: memory all zero, registers in their initial state.
    pub fn new() -> (vm: VM)
        ensures
            vm.wf(),
            vm@.regs == crate::vm::registers::initial_registers(),
            forall|a: int| 0 <= a < MEMORY_SIZE ==> vm@.mem[a] == 0,
    {
        VM { memory: vec![0u16; MEMORY_SIZE], registers: Registers::new() }
    }

    /// Stores `value` at `address`.
    pub fn write_memory(&mut self, address: usize, value: u16)
        requires
            old(self).wf(),
            address < MEMORY_SIZE,
        ensures
            final(self).wf(),
            final(self)@.mem == old(self)@.mem.update(address as int, value),
            final(self)@.regs == old(self)@.regs,
    {
        self.memory[address] = value;
    }

    /// The word stored at `address`.
    pub fn read_memory(&self, address: usize) -> (value: u16)
        requires
            self.wf(),
            address < MEMORY_SIZE,
        ensures
            value == self@.mem[address as int],
    {
        self.memory[address]
    }
}

} // verus!
