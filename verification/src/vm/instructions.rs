//! Instruction decoding and execution: the opcode map, one semantics function
//! per opcode, and the dispatch that ties a raw 16-bit word to its effect on
//! the machine state.
//!
//! Every operand field lives at a fixed place in the 16-bit word: the top 4
//! bits are the opcode, 3-bit fields address registers, and immediate/offset
//! fields of 5, 6, 9 or 11 bits are sign-extended before arithmetic use. All
//! address arithmetic wraps at 16 bits, so a computed address always stays
//! inside the 65536-word memory.

use crate::vm::registers::{condition_flag, reg, set_reg};
use crate::vm::vm::{State, VM};
use vstd::prelude::*;

verus! {

/// The fifteen opcode classes, in the order of their 4-bit encodings 0
/// through 14.
#[derive(Debug)]
pub enum OpCode {
    /// branch
    BR,
    /// add
    ADD,
    /// load
    LD,
    /// store
    ST,
    /// jump to subroutine
    JSR,
    /// bitwise and
    AND,
    /// load base+offset
    LDR,
    /// store base+offset
    STR,
    /// interrupt return (unused here)
    RTI,
    /// bitwise not
    NOT,
    /// load indirect
    LDI,
    /// store indirect
    STI,
    /// jump
    JMP,
    /// reserved (unused)
    RES,
    /// load effective address
    LEA,
}

/// The opcode encoded in the top 4 bits of an instruction word: the bit values
/// 0 through 14 map onto the fifteen opcode classes in order; 15 is unused.
pub open spec fn decode(word: u16) -> Option<OpCode> {
    let op = word >> 12;
    if op == 0 {
        Some(OpCode::BR)
    } else if op == 1 {
        Some(OpCode::ADD)
    } else if op == 2 {
        Some(OpCode::LD)
    } else if op == 3 {
        Some(OpCode::ST)
    } else if op == 4 {
        Some(OpCode::JSR)
    } else if op == 5 {
        Some(OpCode::AND)
    } else if op == 6 {
        Some(OpCode::LDR)
    } else if op == 7 {
        Some(OpCode::STR)
    } else if op == 8 {
        Some(OpCode::RTI)
    } else if op == 9 {
        Some(OpCode::NOT)
    } else if op == 10 {
        Some(OpCode::LDI)
    } else if op == 11 {
        Some(OpCode::STI)
    } else if op == 12 {
        Some(OpCode::JMP)
    } else if op == 13 {
        Some(OpCode::RES)
    } else if op == 14 {
        Some(OpCode::LEA)
    } else {
        None
    }
}

/// A `bits`-wide immediate field, sign-extended to 16 bits: if the field's
/// highest bit is set, the upper unused bits are filled with ones, otherwise
/// with zeros.
pub open spec fn sext(x: u16, bits: u16) -> u16
    recommends
        1 <= bits < 16,
{
    if (x >> ((bits - 1) as u16)) & 0b1 != 0 {
        x | (0xFFFFu16 << bits)
    } else {
        x
    }
}

/// A 3-bit field taken from bit `shift` of an instruction word is always a
/// valid general-register index, also after narrowing to `u8`.
proof fn lemma_reg_field(w: u16, shift: u16)
    by (bit_vector)
    requires
        shift < 16,
    ensures
        ((w >> shift) & 0b111) < 8,
        (((w >> shift) & 0b111) as u8) as u16 == (w >> shift) & 0b111,
{
}

/// The 3-bit field in the lowest bits of an instruction word is always a valid
/// general-register index, also after narrowing to `u8`.
proof fn lemma_low_reg_field(w: u16)
    by (bit_vector)
    ensures
        (w & 0b111) < 8,
        ((w & 0b111) as u8) as u16 == w & 0b111,
{
}

// === The semantics, one state transformer per opcode class. ===
// Each takes the raw instruction word and the machine state after the fetch
// (the program counter already one past the instruction), exactly as the
// matching executable routine receives them.

/// ADD: destination = SR1 + (SR2 or sign-extended imm5), wrapping at 16 bits;
/// condition flags set from the sum.
pub open spec fn add_sem(w: u16, s: State) -> State {
    let sr1_value = reg(s.regs, ((w >> 6) & 0b111) as int);
    let operand = if (w >> 5) & 0b1 == 0 {
        reg(s.regs, (w & 0b111) as int)
    } else {
        sext(w & 0b11111, 5)
    };
    let result = sr1_value.wrapping_add(operand);
    State {
        regs: set_reg(set_reg(s.regs, ((w >> 9) & 0b111) as int, result), 9, condition_flag(result)),
        mem: s.mem,
    }
}

/// AND: destination = SR1 & (SR2 or sign-extended imm5); condition flags set
/// from the result.
pub open spec fn and_sem(w: u16, s: State) -> State {
    let sr1_value = reg(s.regs, ((w >> 6) & 0b111) as int);
    let operand = if (w >> 5) & 0b1 == 0 {
        reg(s.regs, (w & 0b111) as int)
    } else {
        sext(w & 0b11111, 5)
    };
    let result = sr1_value & operand;
    State {
        regs: set_reg(set_reg(s.regs, ((w >> 9) & 0b111) as int, result), 9, condition_flag(result)),
        mem: s.mem,
    }
}

/// NOT: destination = bitwise complement of SR; condition flags set from the
/// result.
pub open spec fn not_sem(w: u16, s: State) -> State {
    let result = !reg(s.regs, ((w >> 6) & 0b111) as int);
    State {
        regs: set_reg(set_reg(s.regs, ((w >> 9) & 0b111) as int, result), 9, condition_flag(result)),
        mem: s.mem,
    }
}

/// BR: if any requested flag bit (n/z/p in bits 11:9) matches the current
/// condition flags, the program counter moves by the sign-extended 9-bit
/// offset; otherwise nothing changes.
pub open spec fn br_sem(w: u16, s: State) -> State {
    let offset = sext(w & 0x1FF, 9);
    let flag = (w >> 9) & 0b111;
    if flag & s.regs.cond != 0 {
        State { regs: set_reg(s.regs, 8, s.regs.pc.wrapping_add(offset)), mem: s.mem }
    } else {
        s
    }
}

/// JMP: the program counter becomes the value of the base register (bits 8:6).
pub open spec fn jmp_sem(w: u16, s: State) -> State {
    State { regs: set_reg(s.regs, 8, reg(s.regs, ((w >> 6) & 0b111) as int)), mem: s.mem }
}

/// JSR/JSRR: the link register R7 takes the current program counter; then the
/// program counter moves by the sign-extended 11-bit offset (bit 11 set) or to
/// the base register's value (bit 11 clear).
pub open spec fn jsr_sem(w: u16, s: State) -> State {
    let saved = set_reg(s.regs, 7, s.regs.pc);
    if (w >> 11) & 0b1 == 0 {
        State { regs: set_reg(saved, 8, reg(saved, ((w >> 6) & 0b111) as int)), mem: s.mem }
    } else {
        State {
            regs: set_reg(saved, 8, s.regs.pc.wrapping_add(sext(w & 0b11111111111, 11))),
            mem: s.mem,
        }
    }
}

/// LD: destination = Memory[PC + sign-extended 9-bit offset]; condition flags
/// set from the loaded value.
pub open spec fn ld_sem(w: u16, s: State) -> State {
    let address = s.regs.pc.wrapping_add(sext(w & 0x1FF, 9));
    let value = s.mem[address as int];
    State {
        regs: set_reg(set_reg(s.regs, ((w >> 9) & 0b111) as int, value), 9, condition_flag(value)),
        mem: s.mem,
    }
}

/// LDI: destination = Memory[Memory[PC + sign-extended 9-bit offset]];
/// condition flags set from the loaded value.
pub open spec fn ldi_sem(w: u16, s: State) -> State {
    let address = s.regs.pc.wrapping_add(sext(w & 0x1FF, 9));
    let indirect = s.mem[address as int];
    let value = s.mem[indirect as int];
    State {
        regs: set_reg(set_reg(s.regs, ((w >> 9) & 0b111) as int, value), 9, condition_flag(value)),
        mem: s.mem,
    }
}

/// LDR: destination = Memory[BaseR + sign-extended 6-bit offset]; condition
/// flags set from the loaded value.
pub open spec fn ldr_sem(w: u16, s: State) -> State {
    let address = reg(s.regs, ((w >> 6) & 0b111) as int).wrapping_add(sext(w & 0b111111, 6));
    let value = s.mem[address as int];
    State {
        regs: set_reg(set_reg(s.regs, ((w >> 9) & 0b111) as int, value), 9, condition_flag(value)),
        mem: s.mem,
    }
}

/// LEA: destination = PC + sign-extended 9-bit offset; condition flags set
/// from that address value.
pub open spec fn lea_sem(w: u16, s: State) -> State {
    let value = s.regs.pc.wrapping_add(sext(w & 0x1FF, 9));
    State {
        regs: set_reg(set_reg(s.regs, ((w >> 9) & 0b111) as int, value), 9, condition_flag(value)),
        mem: s.mem,
    }
}

/// ST: Memory[PC + sign-extended 9-bit offset] = SR; no flag update.
pub open spec fn st_sem(w: u16, s: State) -> State {
    let address = s.regs.pc.wrapping_add(sext(w & 0x1FF, 9));
    State {
        regs: s.regs,
        mem: s.mem.update(address as int, reg(s.regs, ((w >> 9) & 0b111) as int)),
    }
}

/// STI: Memory[Memory[PC + sign-extended 9-bit offset]] = SR; no flag update.
pub open spec fn sti_sem(w: u16, s: State) -> State {
    let address = s.regs.pc.wrapping_add(sext(w & 0x1FF, 9));
    let indirect = s.mem[address as int];
    State {
        regs: s.regs,
        mem: s.mem.update(indirect as int, reg(s.regs, ((w >> 9) & 0b111) as int)),
    }
}

/// STR: Memory[BaseR + sign-extended 6-bit offset] = SR; no flag update.
pub open spec fn str_sem(w: u16, s: State) -> State {
    let address = reg(s.regs, ((w >> 6) & 0b111) as int).wrapping_add(sext(w & 0b111111, 6));
    State {
        regs: s.regs,
        mem: s.mem.update(address as int, reg(s.regs, ((w >> 9) & 0b111) as int)),
    }
}

/// The effect of one decoded instruction word on the machine state: dispatch
/// on the opcode; the reserved opcodes (RTI, RES) and the unused bit value 15
/// leave the state unchanged.
pub open spec fn exec_sem(w: u16, s: State) -> State {
    match decode(w) {
        Some(OpCode::ADD) => add_sem(w, s),
        Some(OpCode::AND) => and_sem(w, s),
        Some(OpCode::NOT) => not_sem(w, s),
        Some(OpCode::BR) => br_sem(w, s),
        Some(OpCode::JMP) => jmp_sem(w, s),
        Some(OpCode::JSR) => jsr_sem(w, s),
        Some(OpCode::LD) => ld_sem(w, s),
        Some(OpCode::LDI) => ldi_sem(w, s),
        Some(OpCode::LDR) => ldr_sem(w, s),
        Some(OpCode::LEA) => lea_sem(w, s),
        Some(OpCode::ST) => st_sem(w, s),
        Some(OpCode::STI) => sti_sem(w, s),
        Some(OpCode::STR) => str_sem(w, s),
        Some(OpCode::RTI) => s,
        Some(OpCode::RES) => s,
        None => s,
    }
}

/// Maps the top 4 bits of an instruction word to its opcode class; `None` only
/// for the one unused bit value, 15.
pub fn get_op_code(instruction: &u16) -> (op: Option<OpCode>)
    ensures
        op == decode(*instruction),
{
    let word: u16 = *instruction;
    let op: u16 = word >> 12;
    if op == 0 {
        Some(OpCode::BR)
    } else if op == 1 {
        Some(OpCode::ADD)
    } else if op == 2 {
        Some(OpCode::LD)
    } else if op == 3 {
        Some(OpCode::ST)
    } else if op == 4 {
        Some(OpCode::JSR)
    } else if op == 5 {
        Some(OpCode::AND)
    } else if op == 6 {
        Some(OpCode::LDR)
    } else if op == 7 {
        Some(OpCode::STR)
    } else if op == 8 {
        Some(OpCode::RTI)
    } else if op == 9 {
        Some(OpCode::NOT)
    } else if op == 10 {
        Some(OpCode::LDI)
    } else if op == 11 {
        Some(OpCode::STI)
    } else if op == 12 {
        Some(OpCode::JMP)
    } else if op == 13 {
        Some(OpCode::RES)
    } else if op == 14 {
        Some(OpCode::LEA)
    } else {
        None
    }
}

/// Decodes and runs one instruction word against the machine.
pub fn execute(instr: u16, vm: &mut VM)
    requires
        old(vm).wf(),
    ensures
        final(vm).wf(),
        final(vm)@ == exec_sem(instr, old(vm)@),
{
    let op_code = get_op_code(&instr);

    match op_code {
        Some(OpCode::ADD) => crate::vm::instructions::add(instr, vm),
        Some(OpCode::AND) => and(instr, vm),
        Some(OpCode::NOT) => not(instr, vm),
        Some(OpCode::BR) => br(instr, vm),
        Some(OpCode::JMP) => jmp(instr, vm),
        Some(OpCode::JSR) => jsr(instr, vm),
        Some(OpCode::LD) => ld(instr, vm),
        Some(OpCode::LDI) => ldi(instr, vm),
        Some(OpCode::LDR) => ldr(instr, vm),
        Some(OpCode::LEA) => lea(instr, vm),
        Some(OpCode::ST) => st(instr, vm),
        Some(OpCode::STI) => sti(instr, vm),
        Some(OpCode::STR) => str(instr, vm),
        Some(OpCode::RTI) => rti(instr, vm),
        Some(OpCode::RES) => res(instr, vm),
        None => {},
    }
}

pub fn add(instr: u16, vm: &mut VM)
    requires
        old(vm).wf(),
    ensures
        final(vm).wf(),
        final(vm)@ == add_sem(instr, old(vm)@),
{
    let dr: u16 = (instr >> 9) & 0b111;
    let sr1: u16 = (instr >> 6) & 0b111;
    proof {
        lemma_reg_field(instr, 9);
        lemma_reg_field(instr, 6);
    }
    let sr1_value: u16 = vm.registers.get(sr1 as u8).unwrap();
    if (instr >> 5) & 0b1 == 0 {
        let sr2: u16 = instr & 0b111;
        proof {
            lemma_low_reg_field(instr);
        }
        let sr2_value: u16 = vm.registers.get(sr2 as u8).unwrap();
        vm.registers.update(dr as u8, sr1_value.wrapping_add(sr2_value));
    } else {
        let imm5: u16 = sign_extend(instr & 0b11111, 5);
        vm.registers.update(dr as u8, sr1_value.wrapping_add(imm5));
    }
    vm.registers.update_cond_register(dr as u8)
}

pub fn and(instr: u16, vm: &mut VM)
    requires
        old(vm).wf(),
    ensures
        final(vm).wf(),
        final(vm)@ == and_sem(instr, old(vm)@),
{
    let dr: u16 = (instr >> 9) & 0b111;
    let sr1: u16 = (instr >> 6) & 0b111;
    proof {
        lemma_reg_field(instr, 9);
        lemma_reg_field(instr, 6);
    }
    let sr1_value: u16 = vm.registers.get(sr1 as u8).unwrap();
    if (instr >> 5) & 0b1 == 0 {
        let sr2: u16 = instr & 0b111;
        proof {
            lemma_low_reg_field(instr);
        }
        let sr2_value: u16 = vm.registers.get(sr2 as u8).unwrap();
        vm.registers.update(dr as u8, sr1_value & sr2_value);
    } else {
        let imm5: u16 = sign_extend(instr & 0b11111, 5);
        vm.registers.update(dr as u8, sr1_value & imm5);
    }
    vm.registers.update_cond_register(dr as u8)
}

pub fn not(instr: u16, vm: &mut VM)
    requires
        old(vm).wf(),
    ensures
        final(vm).wf(),
        final(vm)@ == not_sem(instr, old(vm)@),
{
    let dr: u16 = (instr >> 9) & 0b111;
    let sr: u16 = (instr >> 6) & 0b111;
    proof {
        lemma_reg_field(instr, 9);
        lemma_reg_field(instr, 6);
    }
    let sr_value: u16 = vm.registers.get(sr as u8).unwrap();

    vm.registers.update(dr as u8, !sr_value);
    vm.registers.update_cond_register(dr as u8)
}

pub fn br(instr: u16, vm: &mut VM)
    requires
        old(vm).wf(),
    ensures
        final(vm).wf(),
        final(vm)@ == br_sem(instr, old(vm)@),
{
    let pc_offset_9: u16 = sign_extend(instr & 0x1FF, 9);

    let flag: u16 = (instr >> 9) & 0b111;
    if flag & vm.registers.cond != 0 {
        let val: u16 = vm.registers.pc.wrapping_add(pc_offset_9);
        vm.registers.update(8, val);
    }
}

pub fn jmp(instr: u16, vm: &mut VM)
    requires
        old(vm).wf(),
    ensures
        final(vm).wf(),
        final(vm)@ == jmp_sem(instr, old(vm)@),
{
    let base_r: u16 = (instr >> 6) & 0b111;
    proof {
        lemma_reg_field(instr, 6);
    }
    let base_r_val: u16 = vm.registers.get(base_r as u8).unwrap();
    vm.registers.update(8, base_r_val);  // update program counter
}

pub fn jsr(instr: u16, vm: &mut VM)
    requires
        old(vm).wf(),
    ensures
        final(vm).wf(),
        final(vm)@ == jsr_sem(instr, old(vm)@),
{
    let pc_value: u16 = vm.registers.pc;
    vm.registers.update(7, pc_value);
    if (instr >> 11) & 0b1 == 0 {
        let base_r: u16 = (instr >> 6) & 0b111;
        proof {
            lemma_reg_field(instr, 6);
        }
        let base_r_value: u16 = vm.registers.get(base_r as u8).unwrap();
        vm.registers.update(8, base_r_value);
    } else {
        let offset: u16 = sign_extend(instr & 0b11111111111, 11);
        let val: u16 = pc_value.wrapping_add(offset);
        vm.registers.update(8, val);
    }
}

pub fn ld(instr: u16, vm: &mut VM)
    requires
        old(vm).wf(),
    ensures
        final(vm).wf(),
        final(vm)@ == ld_sem(instr, old(vm)@),
{
    let dr: u16 = (instr >> 9) & 0b111;
    proof {
        lemma_reg_field(instr, 9);
    }
    let pc_offset_9: u16 = sign_extend(instr & 0x1FF, 9);
    let address: u16 = vm.registers.pc.wrapping_add(pc_offset_9);
    let mem_val: u16 = vm.read_memory(address as usize);
    vm.registers.update(dr as u8, mem_val);
    vm.registers.update_cond_register(dr as u8);
}

pub fn ldi(instr: u16, vm: &mut VM)
    requires
        old(vm).wf(),
    ensures
        final(vm).wf(),
        final(vm)@ == ldi_sem(instr, old(vm)@),
{
    let dr: u16 = (instr >> 9) & 0b111;
    proof {
        lemma_reg_field(instr, 9);
    }
    let pc_offset_9: u16 = sign_extend(instr & 0x1FF, 9);
    let address: u16 = vm.registers.pc.wrapping_add(pc_offset_9);
    let indirect: u16 = vm.read_memory(address as usize);
    let mem_val: u16 = vm.read_memory(indirect as usize);
    vm.registers.update(dr as u8, mem_val);
    vm.registers.update_cond_register(dr as u8)
}

pub fn ldr(instr: u16, vm: &mut VM)
    requires
        old(vm).wf(),
    ensures
        final(vm).wf(),
        final(vm)@ == ldr_sem(instr, old(vm)@),
{
    let dr: u16 = (instr >> 9) & 0b111;
    let base_r: u16 = (instr >> 6) & 0b111;
    proof {
        lemma_reg_field(instr, 9);
        lemma_reg_field(instr, 6);
    }
    let pc_offset_6: u16 = sign_extend(instr & 0b111111, 6);
    let base_r_val: u16 = vm.registers.get(base_r as u8).unwrap();
    let address: u16 = base_r_val.wrapping_add(pc_offset_6);
    let mem_val: u16 = vm.read_memory(address as usize);
    vm.registers.update(dr as u8, mem_val);
    vm.registers.update_cond_register(dr as u8)
}

pub fn lea(instr: u16, vm: &mut VM)
    requires
        old(vm).wf(),
    ensures
        final(vm).wf(),
        final(vm)@ == lea_sem(instr, old(vm)@),
{
    let dr: u16 = (instr >> 9) & 0b111;
    proof {
        lemma_reg_field(instr, 9);
    }
    let pc_offset_9: u16 = sign_extend(instr & 0x1FF, 9);
    let val: u16 = vm.registers.pc.wrapping_add(pc_offset_9);
    vm.registers.update(dr as u8, val);
    vm.registers.update_cond_register(dr as u8)
}

pub fn st(instr: u16, vm: &mut VM)
    requires
        old(vm).wf(),
    ensures
        final(vm).wf(),
        final(vm)@ == st_sem(instr, old(vm)@),
{
    let sr: u16 = (instr >> 9) & 0b111;
    proof {
        lemma_reg_field(instr, 9);
    }
    let pc_offset_9: u16 = sign_extend(instr & 0x1FF, 9);
    let address: u16 = vm.registers.pc.wrapping_add(pc_offset_9);
    let sr_val: u16 = vm.registers.get(sr as u8).unwrap();
    vm.write_memory(address as usize, sr_val)
}

pub fn sti(instr: u16, vm: &mut VM)
    requires
        old(vm).wf(),
    ensures
        final(vm).wf(),
        final(vm)@ == sti_sem(instr, old(vm)@),
{
    let sr: u16 = (instr >> 9) & 0b111;
    proof {
        lemma_reg_field(instr, 9);
    }
    let pc_offset_9: u16 = sign_extend(instr & 0x1FF, 9);
    let address: u16 = vm.registers.pc.wrapping_add(pc_offset_9);
    let indirect: u16 = vm.read_memory(address as usize);
    let sr_val: u16 = vm.registers.get(sr as u8).unwrap();
    vm.write_memory(indirect as usize, sr_val)
}

pub fn str(instr: u16, vm: &mut VM)
    requires
        old(vm).wf(),
    ensures
        final(vm).wf(),
        final(vm)@ == str_sem(instr, old(vm)@),
{
    let sr: u16 = (instr >> 9) & 0b111;
    let base_r: u16 = (instr >> 6) & 0b111;
    proof {
        lemma_reg_field(instr, 9);
        lemma_reg_field(instr, 6);
    }
    let pc_offset_6: u16 = sign_extend(instr & 0b111111, 6);
    let str_val: u16 = vm.registers.get(sr as u8).unwrap();
    let base_val: u16 = vm.registers.get(base_r as u8).unwrap();
    let address: u16 = base_val.wrapping_add(pc_offset_6);
    vm.write_memory(address as usize, str_val)
}

/// Interrupt return is outside this machine's scope: an explicit no-op.
pub fn rti(_instr: u16, _vm: &mut VM)
    ensures
        *final(_vm) == *old(_vm),
{
}

/// The reserved opcode is unused: an explicit no-op.
pub fn res(_instr: u16, _vm: &mut VM)
    ensures
        *final(_vm) == *old(_vm),
{
}

/// Sign-extends the low `bit_count` bits of `x` to 16 bits.
fn sign_extend(x: u16, bit_count: u16) -> (r: u16)
    requires
        1 <= bit_count < 16,
    ensures
        r == sext(x, bit_count),
{
    if (x >> (bit_count - 1)) & 0b1 != 0 {
        x | (0xFFFFu16 << bit_count)
    } else {
        x
    }
}

} // verus!
