use emu8086::cpu::{BitOp, Cpu, Instruction, Opcode, Operand};
use emu8086::mem::Mem;

#[test]
fn inc_and_dec_leave_carry_alone() {
    let mut cpu = Cpu::init();
    cpu.regs.flags.set_cf();
    cpu.regs.ax = 0xFFFF;
    cpu.execute(&Instruction { opcode: Opcode::IncAx, dest: Operand::Reg8(0), src: Operand::Reg8(0) });
    assert_eq!(cpu.regs.ax, 0);
    assert!(cpu.regs.flags.cf());
    assert!(cpu.regs.flags.zf());
    assert!(cpu.regs.flags.af());
    assert!(!cpu.regs.flags.of());
    assert!(cpu.regs.flags.pf());

    cpu.regs.flags.clear_cf();
    cpu.regs.bx = 0x8000;
    cpu.execute(&Instruction { opcode: Opcode::DecBx, dest: Operand::Reg8(0), src: Operand::Reg8(0) });
    assert_eq!(cpu.regs.bx, 0x7FFF);
    assert!(!cpu.regs.flags.cf());
    assert!(cpu.regs.flags.of());
    assert!(cpu.regs.flags.af());
    assert!(!cpu.regs.flags.sf());

    cpu.regs.cx = 0x007F;
    cpu.execute(&Instruction { opcode: Opcode::Inc, dest: Operand::Reg8(1), src: Operand::Reg8(0) });
    assert_eq!(cpu.regs.cx, 0x0080);
    assert!(cpu.regs.flags.of());
    assert!(cpu.regs.flags.sf());

    cpu.regs.dx = 0x0000;
    cpu.execute(&Instruction { opcode: Opcode::Dec, dest: Operand::Reg8(2), src: Operand::Reg8(0) });
    assert_eq!(cpu.regs.dx, 0x00FF);
    assert!(!cpu.regs.flags.cf());
    assert!(cpu.regs.flags.sf());
}

#[test]
fn each_register_increment_names_its_own_register() {
    let mut cpu = Cpu::init();
    cpu.test_mode();
    cpu.regs.sp = 0;
    cpu.load_code_vec(&[0x40, 0x41, 0x41, 0x42, 0x42, 0x42, 0x43, 0x43, 0x43, 0x43, 0x4D, 0x4E, 0x4E, 0x4F, 0x4F, 0x4F]);
    cpu.fire();
    assert_eq!(cpu.regs.ax, 1);
    assert_eq!(cpu.regs.cx, 2);
    assert_eq!(cpu.regs.dx, 3);
    assert_eq!(cpu.regs.bx, 4);
    assert_eq!(cpu.regs.bp, 0xFFFF);
    assert_eq!(cpu.regs.si, 0xFFFE);
    assert_eq!(cpu.regs.di, 0xFFFD);
    assert_eq!(cpu.regs.sp, 0);
}

#[test]
fn adc_and_sbb_fold_the_carry_into_the_value() {
    let mut cpu = Cpu::init();
    cpu.regs.flags.set_cf();
    cpu.regs.ax = 0x00FF;
    cpu.execute(&Instruction { opcode: Opcode::Adc, dest: Operand::Reg8(0), src: Operand::Imm8(0) });
    assert_eq!(cpu.regs.ax, 0x0000);
    assert!(cpu.regs.flags.zf());
    // Carry and overflow are those of 0xFF + 0x00.
    assert!(!cpu.regs.flags.cf());
    assert!(!cpu.regs.flags.of());

    cpu.regs.flags.set_cf();
    cpu.regs.ax = 0x1000;
    cpu.execute(&Instruction { opcode: Opcode::Adc, dest: Operand::Reg16(0), src: Operand::Imm16(0xF000) });
    assert_eq!(cpu.regs.ax, 0x0001);
    assert!(cpu.regs.flags.cf());

    cpu.regs.flags.set_cf();
    cpu.regs.ax = 0x0005;
    cpu.execute(&Instruction { opcode: Opcode::Sbb, dest: Operand::Reg16(0), src: Operand::Imm16(5) });
    assert_eq!(cpu.regs.ax, 0xFFFF);
    assert!(cpu.regs.flags.sf());
    assert!(!cpu.regs.flags.zf());
    // Carry is that of 5 - 5.
    assert!(!cpu.regs.flags.cf());

    cpu.regs.flags.clear_cf();
    cpu.regs.ax = 0x0005;
    cpu.execute(&Instruction { opcode: Opcode::Sbb, dest: Operand::Reg16(0), src: Operand::Imm16(6) });
    assert_eq!(cpu.regs.ax, 0xFFFF);
    assert!(cpu.regs.flags.cf());
}

#[test]
fn cmp_and_test_keep_the_destination() {
    let mut cpu = Cpu::init();
    cpu.regs.ax = 0x1234;
    cpu.execute(&Instruction { opcode: Opcode::Cmp, dest: Operand::Reg16(0), src: Operand::Imm16(0x1234) });
    assert_eq!(cpu.regs.ax, 0x1234);
    assert!(cpu.regs.flags.zf());
    cpu.execute(&Instruction { opcode: Opcode::Test, dest: Operand::Reg16(0), src: Operand::Imm16(0x0100) });
    assert_eq!(cpu.regs.ax, 0x1234);
    assert!(cpu.regs.flags.zf());
    cpu.execute(&Instruction { opcode: Opcode::Test, dest: Operand::Reg16(0), src: Operand::Imm16(0x1000) });
    assert!(!cpu.regs.flags.zf());
}

#[test]
fn logic_clears_carry_and_overflow() {
    let mut cpu = Cpu::init();
    cpu.regs.flags.set_cf();
    cpu.regs.flags.set_of();
    cpu.regs.flags.set_df();
    cpu.regs.ax = 0xF0F0;
    cpu.execute(&Instruction { opcode: Opcode::And, dest: Operand::Reg16(0), src: Operand::Imm16(0x8F0F) });
    assert_eq!(cpu.regs.ax, 0x8000);
    assert!(!cpu.regs.flags.cf());
    assert!(!cpu.regs.flags.of());
    assert!(cpu.regs.flags.sf());
    assert!(cpu.regs.flags.pf());
    assert!(cpu.regs.flags.df());
    cpu.bit_op(Operand::Reg8(0), Operand::Imm8(0x81), BitOp::Or, false);
    assert_eq!(cpu.regs.ax, 0x8081);
    assert!(cpu.regs.flags.sf());
    assert!(cpu.regs.flags.pf());
    cpu.bit_op(Operand::Reg8(0), Operand::Imm8(0x80), BitOp::Xor, true);
    assert_eq!(cpu.regs.ax, 0x8081);
    assert!(!cpu.regs.flags.sf());
    assert!(!cpu.regs.flags.pf());
}

#[test]
fn arithmetic_on_memory_operands() {
    let mut cpu = Cpu::init();
    cpu.write_mem_u16(0x500, 0x00FF);
    cpu.execute(&Instruction { opcode: Opcode::Add, dest: Operand::Mem16(0x500, 0x500), src: Operand::Imm16(1) });
    assert_eq!(cpu.read_mem_u16(0x500), 0x0100);
    assert!(!cpu.regs.flags.cf());
    cpu.execute(&Instruction { opcode: Opcode::Add, dest: Operand::Mem8(0x500, 0x500), src: Operand::Imm8(0xFF) });
    assert_eq!(cpu.read_mem_u16(0x500), 0x01FF);
    cpu.execute(&Instruction { opcode: Opcode::Add, dest: Operand::Mem8(0x500, 0x500), src: Operand::Imm8(1) });
    assert_eq!(cpu.read_mem_u16(0x500), 0x0100);
    assert!(cpu.regs.flags.cf());
    assert!(cpu.regs.flags.zf());
    assert_eq!(cpu.mem.pos(), 0);
}

#[test]
fn neg_and_not() {
    let mut cpu = Cpu::init();
    cpu.regs.ax = 0x0001;
    cpu.execute(&Instruction { opcode: Opcode::Neg, dest: Operand::Reg8(0), src: Operand::Reg8(0) });
    assert_eq!(cpu.regs.ax, 0x00FF);
    assert!(cpu.regs.flags.cf());
    assert!(cpu.regs.flags.sf());
    assert!(!cpu.regs.flags.of());
    cpu.regs.ax = 0;
    cpu.execute(&Instruction { opcode: Opcode::Neg, dest: Operand::Reg16(0), src: Operand::Reg8(0) });
    assert_eq!(cpu.regs.ax, 0);
    assert!(!cpu.regs.flags.cf());
    assert!(cpu.regs.flags.zf());
    cpu.regs.ax = 0x8000;
    cpu.execute(&Instruction { opcode: Opcode::Neg, dest: Operand::Reg16(0), src: Operand::Reg8(0) });
    assert_eq!(cpu.regs.ax, 0x8000);
    assert!(cpu.regs.flags.cf());
    assert!(cpu.regs.flags.of());

    let flags = cpu.regs.flags.to_u16();
    cpu.regs.ax = 0x00FF;
    cpu.execute(&Instruction { opcode: Opcode::Not, dest: Operand::Reg16(0), src: Operand::Reg8(0) });
    assert_eq!(cpu.regs.ax, 0xFF00);
    cpu.execute(&Instruction { opcode: Opcode::Not, dest: Operand::Reg8(4), src: Operand::Reg8(0) });
    assert_eq!(cpu.regs.ax, 0x0000);
    assert_eq!(cpu.regs.flags.to_u16(), flags);
}

#[test]
fn multiplication() {
    let mut cpu = Cpu::init();
    cpu.regs.ax = 0xFF10;
    cpu.regs.cx = 0x0010;
    cpu.execute(&Instruction { opcode: Opcode::Mul, dest: Operand::Reg8(1), src: Operand::Reg8(0) });
    assert_eq!(cpu.regs.ax, 0x0100);
    assert!(cpu.regs.flags.cf());
    assert!(cpu.regs.flags.of());
    cpu.regs.ax = 0x0005;
    cpu.regs.cx = 0x0003;
    cpu.execute(&Instruction { opcode: Opcode::Mul, dest: Operand::Reg8(1), src: Operand::Reg8(0) });
    assert_eq!(cpu.regs.ax, 0x000F);
    assert!(!cpu.regs.flags.cf());
    assert!(!cpu.regs.flags.of());
    cpu.regs.ax = 0x8000;
    cpu.regs.dx = 0x1234;
    cpu.regs.bx = 0x0002;
    cpu.execute(&Instruction { opcode: Opcode::Mul, dest: Operand::Reg16(3), src: Operand::Reg8(0) });
    assert_eq!(cpu.regs.ax, 0x0000);
    assert_eq!(cpu.regs.dx, 0x0001);
    assert!(cpu.regs.flags.cf());
    cpu.regs.ax = 0xFFFF;
    cpu.regs.bx = 0xFFFF;
    cpu.execute(&Instruction { opcode: Opcode::Mul, dest: Operand::Reg16(3), src: Operand::Reg8(0) });
    assert_eq!(cpu.regs.ax, 0x0001);
    assert_eq!(cpu.regs.dx, 0xFFFE);
}

#[test]
fn signed_multiplication() {
    let mut cpu = Cpu::init();
    cpu.regs.ax = 0x00FF;
    cpu.regs.cx = 0x0002;
    cpu.execute(&Instruction { opcode: Opcode::Imul, dest: Operand::Reg8(1), src: Operand::Reg8(0) });
    assert_eq!(cpu.regs.ax, 0xFFFE);
    assert!(!cpu.regs.flags.cf());
    assert!(!cpu.regs.flags.of());
    cpu.regs.ax = 0x0040;
    cpu.execute(&Instruction { opcode: Opcode::Imul, dest: Operand::Reg8(1), src: Operand::Reg8(0) });
    assert_eq!(cpu.regs.ax, 0x0080);
    assert!(cpu.regs.flags.cf());
    assert!(cpu.regs.flags.of());
    cpu.regs.ax = 0xFFFF;
    cpu.regs.bx = 0xFFFF;
    cpu.regs.dx = 0x5555;
    cpu.execute(&Instruction { opcode: Opcode::Imul, dest: Operand::Reg16(3), src: Operand::Reg8(0) });
    assert_eq!(cpu.regs.ax, 0x0001);
    assert_eq!(cpu.regs.dx, 0x0000);
    assert!(!cpu.regs.flags.cf());
    cpu.regs.ax = 0x8000;
    cpu.regs.bx = 0x0002;
    cpu.execute(&Instruction { opcode: Opcode::Imul, dest: Operand::Reg16(3), src: Operand::Reg8(0) });
    assert_eq!(cpu.regs.ax, 0x0000);
    assert_eq!(cpu.regs.dx, 0xFFFF);
    assert!(cpu.regs.flags.cf());
    assert!(cpu.regs.flags.of());
    cpu.regs.ax = 0xFFFE;
    cpu.regs.bx = 0x0003;
    cpu.execute(&Instruction { opcode: Opcode::Imul, dest: Operand::Reg16(3), src: Operand::Reg8(0) });
    assert_eq!(cpu.regs.ax, 0xFFFA);
    assert_eq!(cpu.regs.dx, 0xFFFF);
    assert!(!cpu.regs.flags.cf());
}

#[test]
fn division() {
    let mut cpu = Cpu::init();
    cpu.regs.ax = 0x0064;
    cpu.regs.cx = 0x0007;
    cpu.execute(&Instruction { opcode: Opcode::Div, dest: Operand::Reg8(1), src: Operand::Reg8(0) });
    assert_eq!(cpu.regs.ax, 0x020E);
    cpu.regs.dx = 0x0001;
    cpu.regs.ax = 0x0005;
    cpu.regs.bx = 0x0010;
    cpu.execute(&Instruction { opcode: Opcode::Div, dest: Operand::Reg16(3), src: Operand::Reg8(0) });
    assert_eq!(cpu.regs.ax, 0x1000);
    assert_eq!(cpu.regs.dx, 0x0005);
    assert!(!cpu.halt);
    assert_eq!(cpu.fault, None);
}

#[test]
fn signed_division_rounds_towards_zero() {
    let mut cpu = Cpu::init();
    cpu.regs.ax = 0xFFF9;
    cpu.regs.cx = 0x0002;
    cpu.execute(&Instruction { opcode: Opcode::Idiv, dest: Operand::Reg8(1), src: Operand::Reg8(0) });
    assert_eq!(cpu.regs.ax, 0xFFFD);
    cpu.regs.ax = 0x0007;
    cpu.regs.cx = 0x00FE;
    cpu.execute(&Instruction { opcode: Opcode::Idiv, dest: Operand::Reg8(1), src: Operand::Reg8(0) });
    assert_eq!(cpu.regs.ax, 0x01FD);
    cpu.regs.dx = 0xFFFF;
    cpu.regs.ax = 0xFF9C;
    cpu.regs.bx = 0x0007;
    cpu.execute(&Instruction { opcode: Opcode::Idiv, dest: Operand::Reg16(3), src: Operand::Reg8(0) });
    assert_eq!(cpu.regs.ax, 0xFFF2);
    assert_eq!(cpu.regs.dx, 0xFFFE);
    cpu.regs.ax = 0xFF80;
    cpu.regs.cx = 0x0001;
    cpu.execute(&Instruction { opcode: Opcode::Idiv, dest: Operand::Reg8(1), src: Operand::Reg8(0) });
    assert_eq!(cpu.regs.ax, 0x0080);
    assert!(!cpu.halt);
}

#[test]
fn shifts_by_one() {
    let mut cpu = Cpu::init();
    let one = Operand::Imm8(1);
    cpu.regs.ax = 0x0081;
    cpu.execute(&Instruction { opcode: Opcode::Shl, dest: Operand::Reg8(0), src: one });
    assert_eq!(cpu.regs.ax, 0x0002);
    assert!(cpu.regs.flags.cf());
    assert!(cpu.regs.flags.of());
    cpu.regs.ax = 0x0081;
    cpu.execute(&Instruction { opcode: Opcode::Shr, dest: Operand::Reg8(0), src: one });
    assert_eq!(cpu.regs.ax, 0x0040);
    assert!(cpu.regs.flags.cf());
    assert!(cpu.regs.flags.of());
    cpu.regs.ax = 0x0081;
    cpu.execute(&Instruction { opcode: Opcode::Sar, dest: Operand::Reg8(0), src: one });
    assert_eq!(cpu.regs.ax, 0x00C0);
    assert!(cpu.regs.flags.cf());
    assert!(!cpu.regs.flags.of());
    cpu.regs.ax = 0x4000;
    cpu.execute(&Instruction { opcode: Opcode::Shl, dest: Operand::Reg16(0), src: one });
    assert_eq!(cpu.regs.ax, 0x8000);
    assert!(!cpu.regs.flags.cf());
    assert!(cpu.regs.flags.of());
    cpu.execute(&Instruction { opcode: Opcode::Sar, dest: Operand::Reg16(0), src: one });
    assert_eq!(cpu.regs.ax, 0xC000);
    assert!(!cpu.regs.flags.cf());
    cpu.execute(&Instruction { opcode: Opcode::Shr, dest: Operand::Reg16(0), src: one });
    assert_eq!(cpu.regs.ax, 0x6000);
    assert!(cpu.regs.flags.of());
}

#[test]
fn shifts_by_the_count_in_cl() {
    let mut cpu = Cpu::init();
    let cl = Operand::Reg8(1);
    cpu.regs.bx = 0x0001;
    cpu.regs.cx = 0x0004;
    cpu.execute(&Instruction { opcode: Opcode::Shl, dest: Operand::Reg16(3), src: cl });
    assert_eq!(cpu.regs.bx, 0x0010);
    assert!(!cpu.regs.flags.cf());
    cpu.regs.bx = 0x00FF;
    cpu.regs.cx = 0x0008;
    cpu.execute(&Instruction { opcode: Opcode::Shl, dest: Operand::Reg8(3), src: cl });
    assert_eq!(cpu.regs.bx, 0x0000);
    assert!(cpu.regs.flags.cf());
    cpu.regs.bx = 0x00FF;
    cpu.regs.cx = 0x0009;
    cpu.execute(&Instruction { opcode: Opcode::Shl, dest: Operand::Reg8(3), src: cl });
    assert_eq!(cpu.regs.bx, 0x0000);
    assert!(!cpu.regs.flags.cf());
    cpu.regs.bx = 0x8000;
    cpu.regs.cx = 0x000F;
    cpu.execute(&Instruction { opcode: Opcode::Sar, dest: Operand::Reg16(3), src: cl });
    assert_eq!(cpu.regs.bx, 0xFFFF);
    assert!(!cpu.regs.flags.cf());
    cpu.regs.bx = 0x8000;
    cpu.regs.cx = 0x00FF;
    cpu.execute(&Instruction { opcode: Opcode::Sar, dest: Operand::Reg16(3), src: cl });
    assert_eq!(cpu.regs.bx, 0xFFFF);
    assert!(cpu.regs.flags.cf());
    cpu.regs.bx = 0x1234;
    cpu.regs.cx = 0x0004;
    cpu.execute(&Instruction { opcode: Opcode::Shr, dest: Operand::Reg16(3), src: cl });
    assert_eq!(cpu.regs.bx, 0x0123);
    assert!(!cpu.regs.flags.cf());
}

#[test]
fn a_count_of_zero_changes_nothing() {
    let mut cpu = Cpu::init();
    cpu.regs.flags.set_cf();
    cpu.regs.flags.set_of();
    cpu.regs.bx = 0x8001;
    cpu.regs.cx = 0x0100;
    cpu.execute(&Instruction { opcode: Opcode::Shl, dest: Operand::Reg16(3), src: Operand::Reg8(1) });
    assert_eq!(cpu.regs.bx, 0x8001);
    assert!(cpu.regs.flags.cf());
    assert!(cpu.regs.flags.of());
    cpu.execute(&Instruction { opcode: Opcode::Rcr, dest: Operand::Reg16(3), src: Operand::Imm8(0) });
    assert_eq!(cpu.regs.bx, 0x8001);
    assert_eq!(cpu.regs.flags.to_u16(), 0x0803);
}

#[test]
fn rotates() {
    let mut cpu = Cpu::init();
    let one = Operand::Imm8(1);
    let cl = Operand::Reg8(1);
    cpu.regs.ax = 0x0081;
    cpu.execute(&Instruction { opcode: Opcode::Rol, dest: Operand::Reg8(0), src: one });
    assert_eq!(cpu.regs.ax, 0x0003);
    assert!(cpu.regs.flags.cf());
    assert!(cpu.regs.flags.of());
    cpu.regs.ax = 0x0001;
    cpu.execute(&Instruction { opcode: Opcode::Ror, dest: Operand::Reg8(0), src: one });
    assert_eq!(cpu.regs.ax, 0x0080);
    assert!(cpu.regs.flags.cf());
    assert!(cpu.regs.flags.of());
    cpu.regs.ax = 0x8001;
    cpu.execute(&Instruction { opcode: Opcode::Ror, dest: Operand::Reg16(0), src: one });
    assert_eq!(cpu.regs.ax, 0xC000);
    assert!(cpu.regs.flags.cf());
    assert!(!cpu.regs.flags.of());
    cpu.regs.ax = 0x1234;
    cpu.regs.cx = 0x0004;
    cpu.execute(&Instruction { opcode: Opcode::Rol, dest: Operand::Reg16(0), src: cl });
    assert_eq!(cpu.regs.ax, 0x2341);
    assert!(cpu.regs.flags.cf());
    cpu.regs.ax = 0x005A;
    cpu.regs.cx = 0x0008;
    cpu.execute(&Instruction { opcode: Opcode::Rol, dest: Operand::Reg8(0), src: cl });
    assert_eq!(cpu.regs.ax, 0x005A);
    assert!(!cpu.regs.flags.cf());
    cpu.regs.cx = 0x0011;
    cpu.regs.ax = 0x8000;
    cpu.execute(&Instruction { opcode: Opcode::Ror, dest: Operand::Reg16(0), src: cl });
    assert_eq!(cpu.regs.ax, 0x4000);
    assert!(!cpu.regs.flags.cf());
}

#[test]
fn rotates_through_carry() {
    let mut cpu = Cpu::init();
    let one = Operand::Imm8(1);
    let cl = Operand::Reg8(1);
    cpu.regs.ax = 0x0080;
    cpu.execute(&Instruction { opcode: Opcode::Rcl, dest: Operand::Reg8(0), src: one });
    assert_eq!(cpu.regs.ax, 0x0000);
    assert!(cpu.regs.flags.cf());
    assert!(cpu.regs.flags.of());
    cpu.execute(&Instruction { opcode: Opcode::Rcl, dest: Operand::Reg8(0), src: one });
    assert_eq!(cpu.regs.ax, 0x0001);
    assert!(!cpu.regs.flags.cf());
    cpu.regs.flags.set_cf();
    cpu.execute(&Instruction { opcode: Opcode::Rcr, dest: Operand::Reg8(0), src: one });
    assert_eq!(cpu.regs.ax, 0x0080);
    assert!(cpu.regs.flags.cf());
    assert!(cpu.regs.flags.of());
    // Nine bits go round in nine steps.
    cpu.regs.ax = 0x005A;
    cpu.regs.cx = 0x0009;
    cpu.regs.flags.set_cf();
    cpu.execute(&Instruction { opcode: Opcode::Rcl, dest: Operand::Reg8(0), src: cl });
    assert_eq!(cpu.regs.ax, 0x005A);
    assert!(cpu.regs.flags.cf());
    cpu.regs.cx = 0x0011;
    cpu.regs.ax = 0x1234;
    cpu.regs.flags.clear_cf();
    cpu.execute(&Instruction { opcode: Opcode::Rcr, dest: Operand::Reg16(0), src: cl });
    assert_eq!(cpu.regs.ax, 0x1234);
    assert!(!cpu.regs.flags.cf());
    cpu.regs.cx = 0x0004;
    cpu.regs.ax = 0xF00F;
    cpu.execute(&Instruction { opcode: Opcode::Rcl, dest: Operand::Reg16(0), src: cl });
    assert_eq!(cpu.regs.ax, 0x00F7);
    assert!(cpu.regs.flags.cf());
}

#[test]
fn single_step_helpers() {
    let mut cpu = Cpu::init();
    assert_eq!(cpu.sh8(0x81, true), 0x02);
    assert!(cpu.regs.flags.cf());
    assert_eq!(cpu.sh16(0x0003, false), 0x0001);
    assert!(cpu.regs.flags.cf());
    assert_eq!(cpu.shal8(0x82), 0xC1);
    assert!(!cpu.regs.flags.cf());
    assert_eq!(cpu.shal16(0x7FFF), 0x3FFF);
    assert!(cpu.regs.flags.cf());
    assert_eq!(cpu.rot8(0x81, 4, true), 0x18);
    assert_eq!(cpu.rot16(0x8001, 1, false), 0xC000);
    cpu.regs.flags.clear_cf();
    assert_eq!(cpu.rotcf8(0xFF, 1, true), 0xFE);
    assert!(cpu.regs.flags.cf());
    assert_eq!(cpu.rotcf16(0x0000, 1, false), 0x8000);
    assert!(!cpu.regs.flags.cf());
}

#[test]
fn decimal_adjustments() {
    let mut cpu = Cpu::init();
    let none = Operand::Reg8(0);
    cpu.regs.ax = 0x009A;
    cpu.execute(&Instruction { opcode: Opcode::Daa, dest: none, src: none });
    assert_eq!(cpu.regs.ax, 0x0000);
    assert!(cpu.regs.flags.cf());
    assert!(cpu.regs.flags.af());
    assert!(cpu.regs.flags.zf());
    assert!(cpu.regs.flags.of());
    cpu.regs.flags.set_from_u16(2);
    cpu.regs.ax = 0x1238;
    cpu.execute(&Instruction { opcode: Opcode::Daa, dest: none, src: none });
    assert_eq!(cpu.regs.ax, 0x1238);
    assert!(!cpu.regs.flags.cf());
    assert!(!cpu.regs.flags.af());
    assert!(!cpu.regs.flags.pf());
    cpu.regs.ax = 0x001B;
    cpu.execute(&Instruction { opcode: Opcode::Das, dest: none, src: none });
    assert_eq!(cpu.regs.ax, 0x0015);
    assert!(cpu.regs.flags.af());
    assert!(!cpu.regs.flags.cf());
    cpu.regs.flags.set_from_u16(2);
    cpu.regs.ax = 0x0305;
    cpu.execute(&Instruction { opcode: Opcode::Aaa, dest: none, src: none });
    assert_eq!(cpu.regs.ax, 0x0305);
    assert!(!cpu.regs.flags.af());
    assert!(!cpu.regs.flags.cf());
    cpu.regs.ax = 0x03FC;
    cpu.execute(&Instruction { opcode: Opcode::Aaa, dest: none, src: none });
    assert_eq!(cpu.regs.ax, 0x0402);
    assert!(cpu.regs.flags.af());
    assert!(cpu.regs.flags.cf());
    cpu.regs.ax = 0x0003;
    cpu.execute(&Instruction { opcode: Opcode::Aas, dest: none, src: none });
    // AF is still set from the step before.
    assert_eq!(cpu.regs.ax, 0xFF0D);
    cpu.regs.ax = 0xFF4F;
    cpu.execute(&Instruction { opcode: Opcode::Aam, dest: none, src: none });
    assert_eq!(cpu.regs.ax, 0x0709);
    assert!(!cpu.regs.flags.zf());
    assert!(!cpu.regs.flags.sf());
    assert!(cpu.regs.flags.pf());
    cpu.execute(&Instruction { opcode: Opcode::Aad, dest: none, src: none });
    assert_eq!(cpu.regs.ax, 0x004F);
    assert!(!cpu.regs.flags.pf());
    cpu.regs.ax = 0x000A;
    cpu.execute(&Instruction { opcode: Opcode::Aam, dest: none, src: none });
    assert_eq!(cpu.regs.ax, 0x0100);
    assert!(cpu.regs.flags.zf());
    cpu.regs.ax = 0x1A00;
    cpu.execute(&Instruction { opcode: Opcode::Aad, dest: none, src: none });
    assert_eq!(cpu.regs.ax, 0x0004);
}

#[test]
fn moves_and_exchanges() {
    let mut cpu = Cpu::init();
    cpu.regs.ax = 0x1122;
    cpu.regs.bx = 0x3344;
    cpu.execute(&Instruction { opcode: Opcode::Xchg, dest: Operand::Reg16(0), src: Operand::Reg16(3) });
    assert_eq!(cpu.regs.ax, 0x3344);
    assert_eq!(cpu.regs.bx, 0x1122);
    cpu.execute(&Instruction { opcode: Opcode::Xchg, dest: Operand::Reg8(0), src: Operand::Reg8(4) });
    assert_eq!(cpu.regs.ax, 0x4433);
    cpu.write_mem_u16(0x700, 0xAAAA);
    cpu.execute(&Instruction { opcode: Opcode::Xchg, dest: Operand::Mem16(0x700, 0x700), src: Operand::Reg16(3) });
    assert_eq!(cpu.regs.bx, 0xAAAA);
    assert_eq!(cpu.read_mem_u16(0x700), 0x1122);
    let flags = cpu.regs.flags.to_u16();
    cpu.execute(&Instruction { opcode: Opcode::Mov, dest: Operand::Seg(0), src: Operand::Reg16(3) });
    assert_eq!(cpu.regs.es, 0xAAAA);
    cpu.execute(&Instruction { opcode: Opcode::Mov, dest: Operand::Mem8(0x701, 0x701), src: Operand::Imm8(0x55) });
    assert_eq!(cpu.read_mem_u16(0x700), 0x5522);
    cpu.execute(&Instruction { opcode: Opcode::Mov, dest: Operand::Reg16(2), src: Operand::Seg(1) });
    assert_eq!(cpu.regs.dx, 0xFFFF);
    assert_eq!(cpu.regs.flags.to_u16(), flags);
}

#[test]
fn lea_xlat_and_far_loads() {
    let mut cpu = Cpu::init();
    cpu.test_mode();
    cpu.write_mem_u16(0x25, 0xDEAD);
    cpu.execute(&Instruction { opcode: Opcode::Lea, dest: Operand::Reg16(0), src: Operand::Mem16(0x25, 0x25) });
    assert_eq!(cpu.regs.ax, 0x0025);
    cpu.execute(&Instruction { opcode: Opcode::Lea, dest: Operand::Reg16(2), src: Operand::Mem16(0x12345, 0xFFFE) });
    assert_eq!(cpu.regs.dx, 0xFFFE);

    cpu.regs.ds = 0x0010;
    cpu.regs.bx = 0xFFFF;
    cpu.regs.ax = 0x7703;
    cpu.write_mem_u8(0x0102, 0x99);
    cpu.execute(&Instruction { opcode: Opcode::Xlat, dest: Operand::Reg8(0), src: Operand::Reg8(0) });
    assert_eq!(cpu.regs.ax, 0x7799);

    cpu.write_mem_u16(0x200, 0x1234);
    cpu.write_mem_u16(0x202, 0x5678);
    cpu.execute(&Instruction { opcode: Opcode::Les, dest: Operand::Reg16(7), src: Operand::Mem16(0x200, 0x200) });
    assert_eq!(cpu.regs.di, 0x1234);
    assert_eq!(cpu.regs.es, 0x5678);
    cpu.execute(&Instruction { opcode: Opcode::Lds, dest: Operand::Reg16(6), src: Operand::Mem16(0x200, 0x200) });
    assert_eq!(cpu.regs.si, 0x1234);
    assert_eq!(cpu.regs.ds, 0x5678);
}

#[test]
fn sign_extension_and_flag_bytes() {
    let mut cpu = Cpu::init();
    let none = Operand::Reg8(0);
    cpu.regs.ax = 0x8000;
    cpu.regs.dx = 0x1234;
    cpu.execute(&Instruction { opcode: Opcode::Cwd, dest: none, src: none });
    assert_eq!(cpu.regs.dx, 0xFFFF);
    cpu.regs.ax = 0x7FFF;
    cpu.execute(&Instruction { opcode: Opcode::Cwd, dest: none, src: none });
    assert_eq!(cpu.regs.dx, 0x0000);

    cpu.regs.flags.set_cf();
    cpu.regs.flags.set_zf();
    cpu.regs.flags.set_of();
    cpu.regs.ax = 0x0000;
    cpu.execute(&Instruction { opcode: Opcode::Lahf, dest: none, src: none });
    assert_eq!(cpu.regs.ax, 0x4300);
    cpu.regs.ax = 0xFF00;
    cpu.execute(&Instruction { opcode: Opcode::Sahf, dest: none, src: none });
    assert_eq!(cpu.regs.flags.to_u16(), 0x08D7);
    cpu.regs.ax = 0x0000;
    cpu.execute(&Instruction { opcode: Opcode::Sahf, dest: none, src: none });
    assert_eq!(cpu.regs.flags.to_u16(), 0x0802);
}

#[test]
fn flag_instructions() {
    let mut cpu = Cpu::init();
    let none = Operand::Reg8(0);
    cpu.execute(&Instruction { opcode: Opcode::Stc, dest: none, src: none });
    assert_eq!(cpu.regs.flags.to_u16(), 0x0003);
    cpu.execute(&Instruction { opcode: Opcode::Cmc, dest: none, src: none });
    assert_eq!(cpu.regs.flags.to_u16(), 0x0002);
    cpu.execute(&Instruction { opcode: Opcode::Cmc, dest: none, src: none });
    assert_eq!(cpu.regs.flags.to_u16(), 0x0003);
    cpu.execute(&Instruction { opcode: Opcode::Sti, dest: none, src: none });
    assert_eq!(cpu.regs.flags.to_u16(), 0x0203);
    cpu.execute(&Instruction { opcode: Opcode::Std, dest: none, src: none });
    assert_eq!(cpu.regs.flags.to_u16(), 0x0603);
    cpu.execute(&Instruction { opcode: Opcode::Clc, dest: none, src: none });
    assert_eq!(cpu.regs.flags.to_u16(), 0x0602);
    cpu.execute(&Instruction { opcode: Opcode::Cli, dest: none, src: none });
    assert_eq!(cpu.regs.flags.to_u16(), 0x0402);
    cpu.execute(&Instruction { opcode: Opcode::Cld, dest: none, src: none });
    assert_eq!(cpu.regs.flags.to_u16(), 0x0002);
    cpu.regs.flags.set_tf();
    cpu.regs.flags.set_of();
    cpu.regs.flags.set_sf();
    cpu.regs.flags.set_af();
    cpu.regs.flags.set_pf();
    cpu.regs.flags.set_zf();
    assert_eq!(cpu.regs.flags.to_u16(), 0x09D6);
    cpu.regs.flags.set_df();
    cpu.regs.flags.set_if();
    cpu.regs.flags.set_cf();
    cpu.regs.flags.clear_arith();
    assert_eq!(cpu.regs.flags.to_u16(), 0x0702);
}

#[test]
fn memory_wraps_at_its_end() {
    let mut m = Mem::new();
    m.seek_to(0xFFFFF);
    m.write_u16(0xABCD);
    assert_eq!(m.pos(), 1);
    m.seek_to(0);
    assert_eq!(m.read_u8(), 0xAB);
    m.seek_to(0xFFFFF);
    assert_eq!(m.read_u8(), 0xCD);
    assert_eq!(m.pos(), 0x100000);
    assert_eq!(m.read_u8(), 0xAB);
    assert_eq!(m.pos(), 1);
    m.seek_to(0xFFFFF);
    assert_eq!(m.read_u16(), 0xABCD);
    m.seek_to(0x100000);
    assert_eq!(m.pos(), 0x100000);
    m.seek_to(0x100001);
    assert_eq!(m.pos(), 1);
    m.seek_to(0x2FFFFF);
    assert_eq!(m.pos(), 0xFFFFF);
    assert_eq!(m.read_i8(), -51);
    m.seek_to(5);
    m.seek_by(-6);
    assert_eq!(m.pos(), 0xFFFFF);
    m.seek_by(2);
    assert_eq!(m.pos(), 1);
    m.seek_by(-1);
    assert_eq!(m.pos(), 0);
    m.seek_by(0x100000);
    assert_eq!(m.pos(), 0x100000);
    m.seek_by(i64::MIN);
    assert_eq!(m.pos(), 0);
    m.seek_by(i64::MAX);
    assert_eq!(m.pos(), 0xFFFFF);
    m.seek_to(0x10);
    m.write_i16(-2);
    m.seek_to(0x10);
    assert_eq!(m.read_u16(), 0xFFFE);
    m.seek_by(-2);
    assert_eq!(m.read_i16(), -2);
    m.seek_to(0x10);
    m.write_i8(0x80);
    m.seek_by(-1);
    assert_eq!(m.read_i8(), -128);
}

#[test]
fn word_access_through_the_processor_wraps_too() {
    let mut cpu = Cpu::init();
    cpu.mem.seek_to(77);
    cpu.write_mem_u16(0xFFFFF, 0x1234);
    assert_eq!(cpu.read_mem_u8(0xFFFFF), 0x34);
    assert_eq!(cpu.read_mem_u8(0), 0x12);
    assert_eq!(cpu.read_mem_u16(0x1FFFFF), 0x1234);
    assert_eq!(cpu.read_mem_u8(0x100000), 0x12);
    assert_eq!(cpu.mem.pos(), 77);
}

#[test]
fn program_image_is_cut_at_1024_bytes() {
    let mut cpu = Cpu::init();
    cpu.test_mode();
    let mut image: Vec<u8> = Vec::new();
    let mut k: u32 = 0;
    while k < 2000 {
        image.push((k % 251) as u8 + 1);
        k += 1;
    }
    cpu.load_code_vec(&image);
    assert_eq!(cpu.prog_size, 1024);
    assert_eq!(cpu.read_mem_u8(0), 1);
    assert_eq!(cpu.read_mem_u8(1023), (1023 % 251) as u8 + 1);
    assert_eq!(cpu.read_mem_u8(1024), 0);
    assert_eq!(cpu.regs.ip, 0);

    let mut cpu = Cpu::init();
    cpu.regs.cs = 0x0100;
    cpu.load_code_vec(&[0xAA, 0xBB, 0xCC]);
    assert_eq!(cpu.prog_size, 3);
    assert_eq!(cpu.read_mem_u8(0x1000), 0xAA);
    assert_eq!(cpu.read_mem_u8(0x1002), 0xCC);
    assert_eq!(cpu.read_mem_u8(0x1003), 0);
    assert_eq!(cpu.read_mem_u8(0), 0);
    cpu.load_code_vec(&[]);
    assert_eq!(cpu.prog_size, 0);
    assert_eq!(cpu.read_mem_u8(0x1000), 0xAA);
}

#[test]
fn reset_state() {
    let cpu = Cpu::init();
    assert_eq!(cpu.regs.cs, 0xFFFF);
    assert_eq!(cpu.regs.ip, 0);
    assert_eq!(cpu.regs.ax, 0);
    assert_eq!(cpu.regs.sp, 0);
    assert_eq!(cpu.regs.flags.bi, 2);
    assert_eq!(cpu.prog_size, 0);
    assert_eq!(cpu.seg_override, None);
    assert!(!cpu.halt);
    assert_eq!(cpu.fault, None);
    assert_eq!(cpu.get_seg_reg(0), 0);
    assert_eq!(cpu.get_seg_reg(1), 0xFFFF);
    assert_eq!(cpu.get_seg_reg(5), 0xFFFF);
    let mut cpu = cpu;
    cpu.set_seg_reg(2, 0x1111);
    cpu.set_seg_reg(7, 0x2222);
    assert_eq!(cpu.regs.ss, 0x1111);
    assert_eq!(cpu.regs.ds, 0x2222);
    assert!(Cpu::even_parity(0));
    assert!(!Cpu::even_parity(1));
    assert!(Cpu::even_parity(0x81));
    assert!(!Cpu::even_parity(0x7F));
    assert!(Cpu::even_parity(0xFF));
    assert!(Cpu::aux_add(0x0F, 0x01));
    assert!(!Cpu::aux_add(0xF0, 0xF0));
    assert!(Cpu::aux_sub(0x10, 0x01));
    assert!(!Cpu::aux_sub(0x01, 0x01));
}
