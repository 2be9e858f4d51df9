//! The laws of the instruction set: what each family of instructions
//! guarantees for every operand value, proved once and for all against the
//! semantics in `instructions`.

use crate::vm::instructions::{
    add_sem, and_sem, br_sem, jmp_sem, jsr_sem, ld_sem, ldi_sem, ldr_sem, not_sem, sext, st_sem,
    sti_sem, str_sem,
};
use crate::vm::registers::reg;
use crate::vm::vm::State;
use crate::vm::{halted, run};
use crate::{FL_NEG, FL_POS, FL_ZRO, MEMORY_SIZE};
use vstd::arithmetic::div_mod::{lemma_mod_multiples_vanish, lemma_small_mod};
use vstd::prelude::*;

verus! {

/// The condition flag that a value of the given 16-bit result earns: ZRO for
/// zero, NEG when bit 15 is set (the value is negative in two's complement,
/// that is, at least 0x8000), POS otherwise.
pub open spec fn flag_of_result(value: u16) -> u16 {
    if value == 0 {
        FL_ZRO
    } else if value >= 0x8000 {
        FL_NEG
    } else {
        FL_POS
    }
}

/// 16-bit wraparound addition is addition modulo 65536.
proof fn lemma_wrapping_add_is_mod(a: u16, b: u16)
    ensures
        a.wrapping_add(b) == ((a + b) % 0x10000) as u16,
{
    if a + b > u16::MAX {
        lemma_mod_multiples_vanish(1, a + b - 0x10000, 0x10000);
        lemma_small_mod((a + b - 0x10000) as nat, 0x10000);
    } else {
        lemma_small_mod((a + b) as nat, 0x10000);
    }
}

/// The sign of a 16-bit value is its top bit.
proof fn lemma_top_bit_is_sign(v: u16)
    by (bit_vector)
    ensures
        (v >> 15 != 0) <==> v >= 0x8000,
{
}

/// A 3-bit field taken from bit `shift` of an instruction word is below 8.
proof fn lemma_field_bound(w: u16, shift: u16)
    by (bit_vector)
    requires
        shift < 16,
    ensures
        ((w >> shift) & 0b111) < 8,
        (w & 0b111) < 8,
{
}

/// ADD in register form: for all 16-bit register contents `a` and `b`, the
/// destination register takes `(a + b) mod 65536`, the condition flags reflect
/// the sign or zeroness of that sum, and memory is untouched.
pub proof fn lemma_add_register(w: u16, s: State)
    requires
        w >> 12 == 1,
        (w >> 5) & 0b1 == 0,
    ensures
        ({
            let a = reg(s.regs, ((w >> 6) & 0b111) as int);
            let b = reg(s.regs, (w & 0b111) as int);
            let sum = ((a + b) % 0x10000) as u16;
            reg(add_sem(w, s).regs, ((w >> 9) & 0b111) as int) == sum
                && add_sem(w, s).regs.cond == flag_of_result(sum)
                && add_sem(w, s).mem == s.mem
        }),
{
    lemma_field_bound(w, 9);
    lemma_field_bound(w, 6);
    let a = reg(s.regs, ((w >> 6) & 0b111) as int);
    let b = reg(s.regs, (w & 0b111) as int);
    lemma_wrapping_add_is_mod(a, b);
    lemma_top_bit_is_sign(a.wrapping_add(b));
}

/// ADD in immediate form sign-extends the 5-bit immediate before adding: an
/// immediate with its high bit clear adds its own value, one with its high bit
/// set adds `imm5 - 32` (as 65504 more, modulo 65536). Flags and memory follow
/// the same rule as the register form.
pub proof fn lemma_add_immediate(w: u16, s: State)
    requires
        w >> 12 == 1,
        (w >> 5) & 0b1 != 0,
    ensures
        ({
            let a = reg(s.regs, ((w >> 6) & 0b111) as int);
            let imm = w & 0b11111;
            let sum = if w & 0x10 != 0 {
                ((a + imm + 0xFFE0) % 0x10000) as u16
            } else {
                ((a + imm) % 0x10000) as u16
            };
            reg(add_sem(w, s).regs, ((w >> 9) & 0b111) as int) == sum
                && add_sem(w, s).regs.cond == flag_of_result(sum)
                && add_sem(w, s).mem == s.mem
        }),
{
    lemma_field_bound(w, 9);
    lemma_field_bound(w, 6);
    let a = reg(s.regs, ((w >> 6) & 0b111) as int);
    assert(w & 0b11111 < 32 && sext(w & 0b11111, 5) == if w & 0x10 != 0 {
        ((w & 0b11111) + 0xFFE0) as u16
    } else {
        w & 0b11111
    }) by (bit_vector);
    lemma_wrapping_add_is_mod(a, sext(w & 0b11111, 5));
    lemma_top_bit_is_sign(a.wrapping_add(sext(w & 0b11111, 5)));
}

/// AND in register form is the plain bitwise AND of the two source registers;
/// the condition flags follow the same sign/zero rule as ADD's, and memory is
/// untouched.
pub proof fn lemma_and_register(w: u16, s: State)
    requires
        w >> 12 == 5,
        (w >> 5) & 0b1 == 0,
    ensures
        ({
            let a = reg(s.regs, ((w >> 6) & 0b111) as int);
            let b = reg(s.regs, (w & 0b111) as int);
            reg(and_sem(w, s).regs, ((w >> 9) & 0b111) as int) == (a & b)
                && and_sem(w, s).regs.cond == flag_of_result(a & b)
                && and_sem(w, s).mem == s.mem
        }),
{
    lemma_field_bound(w, 9);
    lemma_field_bound(w, 6);
    let a = reg(s.regs, ((w >> 6) & 0b111) as int);
    let b = reg(s.regs, (w & 0b111) as int);
    lemma_top_bit_is_sign(a & b);
}

/// AND in immediate form combines the source register with the sign-extended
/// 5-bit immediate; the condition flags follow the same sign/zero rule as
/// ADD's, and memory is untouched.
pub proof fn lemma_and_immediate(w: u16, s: State)
    requires
        w >> 12 == 5,
        (w >> 5) & 0b1 != 0,
    ensures
        ({
            let a = reg(s.regs, ((w >> 6) & 0b111) as int);
            let operand = if w & 0x10 != 0 {
                (w & 0b11111) | 0xFFE0
            } else {
                w & 0b11111
            };
            reg(and_sem(w, s).regs, ((w >> 9) & 0b111) as int) == (a & operand)
                && and_sem(w, s).regs.cond == flag_of_result(a & operand)
                && and_sem(w, s).mem == s.mem
        }),
{
    lemma_field_bound(w, 9);
    lemma_field_bound(w, 6);
    let a = reg(s.regs, ((w >> 6) & 0b111) as int);
    assert(sext(w & 0b11111, 5) == if w & 0x10 != 0 {
        (w & 0b11111) | 0xFFE0
    } else {
        w & 0b11111
    }) by (bit_vector);
    lemma_top_bit_is_sign(a & sext(w & 0b11111, 5));
}

/// NOT is the plain bitwise complement of the source register; the condition
/// flags follow the same sign/zero rule as ADD's, and memory is untouched.
pub proof fn lemma_not(w: u16, s: State)
    requires
        w >> 12 == 9,
    ensures
        ({
            let a = reg(s.regs, ((w >> 6) & 0b111) as int);
            reg(not_sem(w, s).regs, ((w >> 9) & 0b111) as int) == !a
                && not_sem(w, s).regs.cond == flag_of_result(!a)
                && not_sem(w, s).mem == s.mem
        }),
{
    lemma_field_bound(w, 9);
    lemma_field_bound(w, 6);
    let a = reg(s.regs, ((w >> 6) & 0b111) as int);
    lemma_top_bit_is_sign(!a);
}

/// A branch that asks for all three flags is taken whatever the current flag
/// value is (any of the three valid flag values): the program counter moves by
/// the sign-extended 9-bit offset.
pub proof fn lemma_br_always(w: u16, s: State)
    requires
        w >> 12 == 0,
        (w >> 9) & 0b111 == 0b111,
        s.regs.cond == FL_POS || s.regs.cond == FL_ZRO || s.regs.cond == FL_NEG,
    ensures
        br_sem(w, s).regs.pc == s.regs.pc.wrapping_add(sext(w & 0x1FF, 9)),
        br_sem(w, s).mem == s.mem,
{
    let c = s.regs.cond;
    assert(0b111u16 & c != 0) by (bit_vector)
        requires
            c == 1 || c == 2 || c == 4,
    ;
}

/// A branch that asks for a single flag is taken exactly when the condition
/// register holds that flag: taken, it moves the program counter by the
/// sign-extended 9-bit offset; not taken, it changes nothing.
pub proof fn lemma_br_single_flag(w: u16, s: State, f: u16)
    requires
        w >> 12 == 0,
        (w >> 9) & 0b111 == f,
        f == FL_POS || f == FL_ZRO || f == FL_NEG,
        s.regs.cond == FL_POS || s.regs.cond == FL_ZRO || s.regs.cond == FL_NEG,
    ensures
        br_sem(w, s) == (if s.regs.cond == f {
            State {
                regs: crate::vm::registers::set_reg(
                    s.regs,
                    8,
                    s.regs.pc.wrapping_add(sext(w & 0x1FF, 9)),
                ),
                mem: s.mem,
            }
        } else {
            s
        }),
{
    let c = s.regs.cond;
    assert((f & c != 0) <==> (c == f)) by (bit_vector)
        requires
            (f == 1 || f == 2 || f == 4) && (c == 1 || c == 2 || c == 4),
    ;
}

/// ST then LD round-trip: storing a register at the PC-relative address and
/// loading through the same offset hands the stored value back in the load's
/// destination register.
pub proof fn lemma_st_ld_round_trip(ws: u16, wl: u16, s: State)
    requires
        ws >> 12 == 3,
        wl >> 12 == 2,
        ws & 0x1FF == wl & 0x1FF,
        s.mem.len() == MEMORY_SIZE,
    ensures
        reg(ld_sem(wl, st_sem(ws, s)).regs, ((wl >> 9) & 0b111) as int) == reg(
            s.regs,
            ((ws >> 9) & 0b111) as int,
        ),
{
    lemma_field_bound(ws, 9);
    lemma_field_bound(wl, 9);
}

/// STR then LDR round-trip: storing a register at base+offset and loading
/// through the same base register and offset hands the stored value back.
pub proof fn lemma_str_ldr_round_trip(ws: u16, wl: u16, s: State)
    requires
        ws >> 12 == 7,
        wl >> 12 == 6,
        (ws >> 6) & 0b111 == (wl >> 6) & 0b111,
        ws & 0b111111 == wl & 0b111111,
        s.mem.len() == MEMORY_SIZE,
    ensures
        reg(ldr_sem(wl, str_sem(ws, s)).regs, ((wl >> 9) & 0b111) as int) == reg(
            s.regs,
            ((ws >> 9) & 0b111) as int,
        ),
{
    lemma_field_bound(ws, 9);
    lemma_field_bound(wl, 9);
}

/// STI then LDI round-trip: storing a value through the pointer held at the
/// PC-relative address and loading through the same chain hands the value
/// back — provided the pointer cell does not point at itself, since then the
/// store would overwrite the pointer first.
pub proof fn lemma_sti_ldi_round_trip(ws: u16, wl: u16, s: State)
    requires
        ws >> 12 == 11,
        wl >> 12 == 10,
        ws & 0x1FF == wl & 0x1FF,
        s.mem.len() == MEMORY_SIZE,
        s.mem[s.regs.pc.wrapping_add(sext(ws & 0x1FF, 9)) as int] != s.regs.pc.wrapping_add(
            sext(ws & 0x1FF, 9),
        ),
    ensures
        reg(ldi_sem(wl, sti_sem(ws, s)).regs, ((wl >> 9) & 0b111) as int) == reg(
            s.regs,
            ((ws >> 9) & 0b111) as int,
        ),
{
    lemma_field_bound(ws, 9);
    lemma_field_bound(wl, 9);
}

/// JSR and JSRR save the program counter as it stood before the jump into the
/// link register R7, whichever addressing mode the word selects, and leave
/// memory alone.
pub proof fn lemma_jsr_saves_link(w: u16, s: State)
    requires
        w >> 12 == 4,
    ensures
        jsr_sem(w, s).regs.r7 == s.regs.pc,
        jsr_sem(w, s).mem == s.mem,
{
    lemma_field_bound(w, 6);
}

/// JMP through the link register returns control to the address a JSR/JSRR
/// saved: after a jump-to-subroutine, a JMP whose base register is R7 puts the
/// program counter back where it stood before the jump.
pub proof fn lemma_jmp_link_returns(w: u16, wj: u16, s: State)
    requires
        w >> 12 == 4,
        wj >> 12 == 12,
        (wj >> 6) & 0b111 == 7,
    ensures
        jmp_sem(wj, jsr_sem(w, s)).regs.pc == s.regs.pc,
{
    lemma_field_bound(w, 6);
}

/// A state whose fetched word is the all-zero sentinel is halted, and running
/// it any number of steps leaves it exactly where it is: the program counter
/// stays at the sentinel's address.
pub proof fn lemma_halt_on_zero_word(s: State, n: nat)
    requires
        s.mem[s.regs.pc as int] == 0,
    ensures
        halted(s),
        run(s, n) == s,
{
}

} // verus!
