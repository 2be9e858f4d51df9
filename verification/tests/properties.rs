//! Tests pinned to the documented properties: wraparound arithmetic and the
//! flag rule, sign extension of immediates, branch selection, load/store round
//! trips, subroutine linkage, and the halt conditions.

use vm16::vm::execute_program;
use vm16::vm::instructions::{
    self, add, and, br, get_op_code, jmp, jsr, ld, ldi, ldr, lea, not, res, rti, st, sti, str,
    OpCode,
};
use vm16::vm::registers::Registers;
use vm16::vm::vm::VM;
use vm16::{FL_NEG, FL_POS, FL_ZRO, PC_START};

#[test]
fn add_register_wraps_modulo_65536() {
    let mut vm = VM::new();
    vm.registers.r1 = 0xFFFF;
    vm.registers.r2 = 2;
    // ADD R3, R1, R2
    add(0b0001_011_001_000_010, &mut vm);
    assert_eq!(vm.registers.r3, 1); // (65535 + 2) mod 65536
    assert_eq!(vm.registers.cond, FL_POS);
}

#[test]
fn add_flags_reflect_sign_and_zero() {
    let mut vm = VM::new();
    vm.registers.r1 = 0x8000;
    vm.registers.r2 = 0x8000;
    add(0b0001_011_001_000_010, &mut vm);
    assert_eq!(vm.registers.r3, 0);
    assert_eq!(vm.registers.cond, FL_ZRO);

    vm.registers.r1 = 0x7FFF;
    vm.registers.r2 = 1;
    add(0b0001_011_001_000_010, &mut vm);
    assert_eq!(vm.registers.r3, 0x8000);
    assert_eq!(vm.registers.cond, FL_NEG);
}

#[test]
fn add_immediate_sign_extends() {
    let mut vm = VM::new();
    vm.registers.r1 = 5;
    // ADD R2, R1, #-1 : imm5 = 0b11111 adds -1, not +31
    add(0b0001_010_001_1_11111, &mut vm);
    assert_eq!(vm.registers.r2, 4);
    assert_eq!(vm.registers.cond, FL_POS);
}

#[test]
fn and_immediate_sign_extends_and_sets_flags() {
    let mut vm = VM::new();
    vm.registers.r1 = 0xABCD;
    // AND R2, R1, #-1 : the sign-extended immediate 0xFFFF keeps every bit
    and(0b0101_010_001_1_11111, &mut vm);
    assert_eq!(vm.registers.r2, 0xABCD);
    assert_eq!(vm.registers.cond, FL_NEG);

    // AND R3, R1, R0 : R0 is zero, so the result is zero
    and(0b0101_011_001_000_000, &mut vm);
    assert_eq!(vm.registers.r3, 0);
    assert_eq!(vm.registers.cond, FL_ZRO);
}

#[test]
fn not_complements_and_sets_flags() {
    let mut vm = VM::new();
    vm.registers.r1 = 0x0001;
    // NOT R2, R1
    not(0b1001_010_001_111_111, &mut vm);
    assert_eq!(vm.registers.r2, 0xFFFE);
    assert_eq!(vm.registers.cond, FL_NEG);

    vm.registers.r1 = 0xFFFF;
    not(0b1001_010_001_111_111, &mut vm);
    assert_eq!(vm.registers.r2, 0);
    assert_eq!(vm.registers.cond, FL_ZRO);
}

#[test]
fn br_always_taken_for_every_flag() {
    for flag in [FL_POS, FL_ZRO, FL_NEG] {
        let mut vm = VM::new();
        vm.registers.pc = PC_START;
        vm.registers.cond = flag;
        // BRnzp #5
        br(0b0000_111_000000101, &mut vm);
        assert_eq!(vm.registers.pc, PC_START + 5);
    }
}

#[test]
fn br_single_flag_taken_iff_flag_matches() {
    // BRp #5: taken exactly when the condition register holds POS
    for (flag, taken) in [(FL_POS, true), (FL_ZRO, false), (FL_NEG, false)] {
        let mut vm = VM::new();
        vm.registers.pc = PC_START;
        vm.registers.cond = flag;
        br(0b0000_001_000000101, &mut vm);
        let expected = if taken { PC_START + 5 } else { PC_START };
        assert_eq!(vm.registers.pc, expected);
    }
}

#[test]
fn br_negative_offset_moves_back() {
    let mut vm = VM::new();
    vm.registers.pc = PC_START;
    vm.registers.cond = FL_ZRO;
    // BRz #-2 : PCoffset9 = 0b111111110
    br(0b0000_010_111111110, &mut vm);
    assert_eq!(vm.registers.pc, PC_START - 2);
}

#[test]
fn st_ld_round_trip() {
    let mut vm = VM::new();
    vm.registers.pc = PC_START;
    vm.registers.r1 = 0xBEEF;
    // ST R1, #9 then LD R2, #9 from the same program counter
    st(0b0011_001_000001001, &mut vm);
    ld(0b0010_010_000001001, &mut vm);
    assert_eq!(vm.registers.r2, 0xBEEF);
}

#[test]
fn str_ldr_round_trip() {
    let mut vm = VM::new();
    vm.registers.r3 = 0x1234;
    vm.registers.r4 = 0x5000;
    // STR R3, R4, #-3 then LDR R5, R4, #-3 : offset6 = 0b111101
    str(0b0111_011_100_111101, &mut vm);
    ldr(0b0110_101_100_111101, &mut vm);
    assert_eq!(vm.registers.r5, 0x1234);
    assert_eq!(vm.read_memory(0x5000 - 3), 0x1234);
}

#[test]
fn sti_ldi_round_trip() {
    let mut vm = VM::new();
    vm.registers.pc = PC_START;
    vm.registers.r1 = 0x0042;
    vm.write_memory(PC_START as usize + 7, 0x4000); // the pointer cell
    // STI R1, #7 then LDI R2, #7
    sti(0b1011_001_000000111, &mut vm);
    ldi(0b1010_010_000000111, &mut vm);
    assert_eq!(vm.registers.r2, 0x0042);
    assert_eq!(vm.read_memory(0x4000), 0x0042);
}

#[test]
fn jsr_saves_link_then_jmp_returns() {
    let mut vm = VM::new();
    vm.registers.pc = PC_START;
    // JSR #20
    jsr(0b0100_1_00000010100, &mut vm);
    assert_eq!(vm.registers.r7, PC_START); // the pre-jump program counter
    assert_eq!(vm.registers.pc, PC_START + 20);
    // JMP R7 returns to the saved address
    jmp(0b1100_000_111_000_000, &mut vm);
    assert_eq!(vm.registers.pc, PC_START);
}

#[test]
fn jsrr_saves_link_before_reading_base() {
    let mut vm = VM::new();
    vm.registers.pc = PC_START;
    vm.registers.r2 = 0x4100;
    // JSRR R2
    jsr(0b0100_0_00_010_000000, &mut vm);
    assert_eq!(vm.registers.r7, PC_START);
    assert_eq!(vm.registers.pc, 0x4100);
}

#[test]
fn rti_and_res_leave_machine_unchanged() {
    let mut vm = VM::new();
    vm.registers.pc = PC_START;
    vm.registers.r1 = 7;
    rti(0b1000_0000_0000_0000, &mut vm);
    res(0b1101_0000_0000_0000, &mut vm);
    assert_eq!(vm.registers.r1, 7);
    assert_eq!(vm.registers.pc, PC_START);
    assert_eq!(vm.registers.cond, 0);
    assert_eq!(vm.read_memory(PC_START as usize), 0);
}

#[test]
fn halt_leaves_pc_at_sentinel() {
    let mut vm = VM::new();
    vm.registers.pc = PC_START;
    // One ADD, then the all-zero sentinel under the advanced program counter.
    vm.write_memory(PC_START as usize, 0b0001_001_001_1_00001); // ADD R1, R1, #1
    execute_program(&mut vm, 1000);
    assert_eq!(vm.registers.r1, 1);
    assert_eq!(vm.registers.pc, PC_START + 1); // at the sentinel's address
}

#[test]
fn all_zero_memory_halts_immediately() {
    let mut vm = VM::new();
    vm.registers.pc = PC_START;
    execute_program(&mut vm, 1000);
    assert_eq!(vm.registers, Registers::new());
}

#[test]
fn zero_step_budget_changes_nothing() {
    let mut vm = VM::new();
    vm.registers.pc = PC_START;
    vm.write_memory(PC_START as usize, 0b0001_001_001_1_00001); // ADD R1, R1, #1
    execute_program(&mut vm, 0);
    assert_eq!(vm.registers.r1, 0);
    assert_eq!(vm.registers.pc, PC_START);
}

#[test]
fn get_rejects_only_out_of_range_indices() {
    let mut regs = Registers::new();
    for index in 0u8..=9u8 {
        assert!(regs.get(index).is_ok());
    }
    assert!(regs.get(10).is_err());
    assert!(regs.get(255).is_err());
    assert_eq!(regs.get(8).unwrap(), PC_START);
}

#[test]
fn update_writes_every_slot() {
    let mut regs = Registers::new();
    for index in 0u8..=9u8 {
        regs.update(index, 100 + index as u16);
    }
    assert_eq!(regs.r0, 100);
    assert_eq!(regs.r7, 107);
    assert_eq!(regs.pc, 108);
    assert_eq!(regs.cond, 109);
}

#[test]
fn update_cond_register_follows_sign_rule() {
    let mut regs = Registers::new();
    regs.r1 = 0;
    regs.update_cond_register(1);
    assert_eq!(regs.cond, FL_ZRO);
    regs.r1 = 0x8000;
    regs.update_cond_register(1);
    assert_eq!(regs.cond, FL_NEG);
    regs.r1 = 0x7FFF;
    regs.update_cond_register(1);
    assert_eq!(regs.cond, FL_POS);
}

#[test]
fn opcode_map_covers_all_fifteen_classes() {
    assert!(matches!(get_op_code(&0x0000), Some(OpCode::BR)));
    assert!(matches!(get_op_code(&0x1000), Some(OpCode::ADD)));
    assert!(matches!(get_op_code(&0x2000), Some(OpCode::LD)));
    assert!(matches!(get_op_code(&0x3000), Some(OpCode::ST)));
    assert!(matches!(get_op_code(&0x4000), Some(OpCode::JSR)));
    assert!(matches!(get_op_code(&0x5000), Some(OpCode::AND)));
    assert!(matches!(get_op_code(&0x6000), Some(OpCode::LDR)));
    assert!(matches!(get_op_code(&0x7000), Some(OpCode::STR)));
    assert!(matches!(get_op_code(&0x8000), Some(OpCode::RTI)));
    assert!(matches!(get_op_code(&0x9000), Some(OpCode::NOT)));
    assert!(matches!(get_op_code(&0xA000), Some(OpCode::LDI)));
    assert!(matches!(get_op_code(&0xB000), Some(OpCode::STI)));
    assert!(matches!(get_op_code(&0xC000), Some(OpCode::JMP)));
    assert!(matches!(get_op_code(&0xD000), Some(OpCode::RES)));
    assert!(matches!(get_op_code(&0xE000), Some(OpCode::LEA)));
    assert!(matches!(get_op_code(&0xFFFF), None));
    // The low 12 bits play no part in decoding.
    assert!(matches!(get_op_code(&0x1FFF), Some(OpCode::ADD)));
}

#[test]
fn execute_dispatches_by_opcode() {
    let mut vm = VM::new();
    vm.registers.pc = PC_START;
    vm.registers.r1 = 3;
    instructions::execute(0b0001_010_001_1_00100, &mut vm); // ADD R2, R1, #4
    assert_eq!(vm.registers.r2, 7);
    // The unused bit value 15 leaves the machine unchanged.
    let before = vm.registers.r2;
    instructions::execute(0xF025, &mut vm);
    assert_eq!(vm.registers.r2, before);
}

#[test]
fn lea_negative_offset_points_before_pc() {
    let mut vm = VM::new();
    vm.registers.pc = PC_START;
    // LEA R1, #-1 : PCoffset9 = 0b111111111
    lea(0b1110_001_111111111, &mut vm);
    assert_eq!(vm.registers.r1, PC_START - 1);
    assert_eq!(vm.registers.cond, FL_POS);
}

#[test]
fn memory_round_trip_and_fresh_machine() {
    let mut vm = VM::new();
    assert_eq!(vm.read_memory(0), 0);
    assert_eq!(vm.read_memory(65535), 0);
    vm.write_memory(65535, 0xDEAD);
    assert_eq!(vm.read_memory(65535), 0xDEAD);
    assert_eq!(vm.registers, Registers::new());
}
