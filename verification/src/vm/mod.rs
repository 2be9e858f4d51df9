//! The machine: register file, memory, instruction semantics, and the
//! fetch-decode-execute engine.

pub mod instructions;
pub mod laws;
pub mod registers;
pub mod vm;

use crate::vm::instructions::{exec_sem, execute};
use crate::vm::registers::Registers;
use crate::vm::vm::{State, VM};
use vstd::prelude::*;

verus! {

/// The engine has nothing left to do: either the program counter has reached
/// the top of the address space, or the word under it is the all-zero halt
/// sentinel.
pub open spec fn halted(s: State) -> bool {
    s.regs.pc >= u16::MAX || s.mem[s.regs.pc as int] == 0
}

/// One fetch-increment-decode-execute step, for a state that is not halted:
/// the word under the program counter is executed against the state whose
/// program counter already points one past it.
pub open spec fn step(s: State) -> State
    recommends
        !halted(s),
{
    let w = s.mem[s.regs.pc as int];
    exec_sem(w, State { regs: Registers { pc: (s.regs.pc + 1) as u16, ..s.regs }, mem: s.mem })
}

/// The machine state after at most `n` steps: stepping stops at the first
/// halted state, so a halted `run(s, n)` is the state the engine leaves
/// behind.
pub open spec fn run(s: State, n: nat) -> State
    decreases n,
{
    if n == 0 || halted(s) {
        s
    } else {
        run(step(s), (n - 1) as nat)
    }
}

/// Running one step further from a not-yet-halted state is one more `step`.
pub proof fn lemma_run_unfold_right(s: State, n: nat)
    requires
        !halted(run(s, n)),
    ensures
        run(s, n + 1) == step(run(s, n)),
    decreases n,
{
    if n == 0 {
        assert(run(s, 0) == s);
        assert(run(step(s), 0) == step(s));
    } else if !halted(s) {
        lemma_run_unfold_right(step(s), (n - 1) as nat);
        assert(run(s, n + 1) == run(step(s), n));
        assert(run(s, n) == run(step(s), (n - 1) as nat));
    }
}

/// A run that has halted stays where it is, however much further it is run.
pub proof fn lemma_run_halted(s: State, m: nat, n: nat)
    requires
        m <= n,
        halted(run(s, m)),
    ensures
        run(s, n) == run(s, m),
    decreases m,
{
    if m > 0 && !halted(s) {
        lemma_run_halted(step(s), (m - 1) as nat, (n - 1) as nat);
    }
}

/// Runs the fetch-decode-execute loop until the machine halts: on a fetched
/// all-zero word (the program counter is left at the sentinel's address), or
/// when the program counter reaches the top of the address space.
///
/// A program that never reaches either condition would run forever, so the
/// caller gives a budget of steps; the machine is left exactly at `run` of the
/// starting state, which stops at the first halted state within that budget.
pub fn execute_program(vm: &mut VM, max_steps: usize)
    requires
        old(vm).wf(),
    ensures
        final(vm).wf(),
        final(vm)@ == run(old(vm)@, max_steps as nat),
{
    let ghost start: State = vm@;
    let mut steps_left: usize = max_steps;
    while steps_left != 0 && vm.registers.pc < u16::MAX && vm.read_memory(
        vm.registers.pc as usize,
    ) != 0
        invariant
            vm.wf(),
            steps_left <= max_steps,
            vm@ == run(start, (max_steps - steps_left) as nat),
        decreases steps_left,
    {
        proof {
            lemma_run_unfold_right(start, (max_steps - steps_left) as nat);
        }
        let instr: u16 = vm.read_memory(vm.registers.pc as usize);
        vm.registers.pc = vm.registers.pc + 1;
        execute(instr, vm);
        steps_left = steps_left - 1;
    }
    proof {
        if steps_left != 0 {
            lemma_run_halted(start, (max_steps - steps_left) as nat, max_steps as nat);
        }
    }
}

} // verus!
