use emu8086::cpu::{Cpu, Instruction, Opcode, Operand, Segment};
use emu8086::regs::{Flags, Registers};

#[test]
fn ip_grows_by_the_length_of_each_instruction() {
    let mut cpu = Cpu::init();
    cpu.test_mode();
    // NOP-like one byte (CLC), two bytes (MOV AL, 5), three bytes
    // (MOV AX, 0x1234), six bytes (ADD word [0x0100], 0x5678).
    cpu.load_code_vec(&[0xF8, 0xB0, 0x05, 0xB8, 0x34, 0x12, 0x81, 0x06, 0x00, 0x01, 0x78, 0x56]);
    assert_eq!(cpu.fetch().unwrap().opcode(), Opcode::Clc);
    assert_eq!(cpu.regs.ip, 1);
    assert_eq!(cpu.fetch().unwrap().opcode(), Opcode::Mov);
    assert_eq!(cpu.regs.ip, 3);
    assert_eq!(cpu.fetch().unwrap().opcode(), Opcode::Mov);
    assert_eq!(cpu.regs.ip, 6);
    let add = cpu.fetch().unwrap();
    assert_eq!(add.opcode(), Opcode::Add);
    assert_eq!(add.operands(), (Operand::Mem16(0x100, 0x100), Operand::Imm16(0x5678)));
    assert_eq!(cpu.regs.ip, 12);
    assert_eq!(cpu.mem.pos(), 12);
    assert!(cpu.fetch().is_none());
    assert_eq!(cpu.regs.ip, 12);
}

#[test]
fn taken_short_jump_adds_the_signed_displacement() {
    let mut cpu = Cpu::init();
    cpu.regs.ip = 10;
    cpu.execute(&Instruction {
        opcode: Opcode::JmpNear,
        dest: Operand::Reg8(0),
        src: Operand::Imm8(0xFE),
    });
    assert_eq!(cpu.regs.ip, 8);
    cpu.regs.ip = 1;
    cpu.execute(&Instruction {
        opcode: Opcode::JmpNear,
        dest: Operand::Reg8(0),
        src: Operand::Imm8(0x80),
    });
    assert_eq!(cpu.regs.ip, 0xFF81);
    cpu.regs.ip = 0xFFFF;
    cpu.execute(&Instruction {
        opcode: Opcode::JmpNear,
        dest: Operand::Reg8(0),
        src: Operand::Imm16(0x0003),
    });
    assert_eq!(cpu.regs.ip, 2);
}

#[test]
fn add_sets_zero_sign_and_parity_from_the_result() {
    let mut cpu = Cpu::init();
    cpu.regs.ax = 0x00FF;
    cpu.regs.cx = 0x0001;
    cpu.execute(&Instruction { opcode: Opcode::Add, dest: Operand::Reg8(0), src: Operand::Reg8(1) });
    assert_eq!(cpu.regs.ax, 0);
    assert!(cpu.regs.flags.zf());
    assert!(!cpu.regs.flags.sf());
    assert!(cpu.regs.flags.pf());

    cpu.regs.ax = 0x7FFF;
    cpu.execute(&Instruction { opcode: Opcode::Add, dest: Operand::Reg16(0), src: Operand::Imm16(2) });
    assert_eq!(cpu.regs.ax, 0x8001);
    assert!(!cpu.regs.flags.zf());
    assert!(cpu.regs.flags.sf());
    // Low byte 0x01 has one bit set: odd parity.
    assert!(!cpu.regs.flags.pf());

    cpu.regs.ax = 0x0100;
    cpu.execute(&Instruction { opcode: Opcode::Add, dest: Operand::Reg16(0), src: Operand::Imm16(2) });
    // Low byte 0x02 has one bit set, the high byte does not count.
    assert_eq!(cpu.regs.ax, 0x0102);
    assert!(!cpu.regs.flags.pf());
    cpu.execute(&Instruction { opcode: Opcode::Add, dest: Operand::Reg16(0), src: Operand::Imm16(1) });
    assert_eq!(cpu.regs.ax, 0x0103);
    assert!(cpu.regs.flags.pf());
}

#[test]
fn add_sets_carry_overflow_and_auxiliary_carry() {
    let mut cpu = Cpu::init();
    cpu.regs.ax = 0x00FF;
    cpu.execute(&Instruction { opcode: Opcode::Add, dest: Operand::Reg8(0), src: Operand::Imm8(1) });
    assert!(cpu.regs.flags.cf());
    assert!(!cpu.regs.flags.of());
    assert!(cpu.regs.flags.af());

    cpu.regs.ax = 0x007F;
    cpu.execute(&Instruction { opcode: Opcode::Add, dest: Operand::Reg8(0), src: Operand::Imm8(1) });
    assert_eq!(cpu.regs.ax, 0x0080);
    assert!(!cpu.regs.flags.cf());
    assert!(cpu.regs.flags.of());
    assert!(cpu.regs.flags.af());

    cpu.regs.ax = 0x8000;
    cpu.execute(&Instruction {
        opcode: Opcode::Add,
        dest: Operand::Reg16(0),
        src: Operand::Imm16(0x8000),
    });
    assert_eq!(cpu.regs.ax, 0);
    assert!(cpu.regs.flags.cf());
    assert!(cpu.regs.flags.of());
    assert!(!cpu.regs.flags.af());

    cpu.regs.ax = 0x1234;
    cpu.execute(&Instruction {
        opcode: Opcode::Add,
        dest: Operand::Reg16(0),
        src: Operand::Imm16(0x1111),
    });
    assert_eq!(cpu.regs.ax, 0x2345);
    assert!(!cpu.regs.flags.cf());
    assert!(!cpu.regs.flags.of());
    assert!(!cpu.regs.flags.af());
}

#[test]
fn sub_sets_carry_overflow_and_auxiliary_carry() {
    let mut cpu = Cpu::init();
    cpu.regs.ax = 0x0000;
    cpu.execute(&Instruction { opcode: Opcode::Sub, dest: Operand::Reg8(0), src: Operand::Imm8(1) });
    assert_eq!(cpu.regs.ax, 0x00FF);
    assert!(cpu.regs.flags.cf());
    assert!(!cpu.regs.flags.of());
    assert!(cpu.regs.flags.af());
    assert!(cpu.regs.flags.sf());
    assert!(!cpu.regs.flags.zf());
    assert!(cpu.regs.flags.pf());

    cpu.regs.ax = 0x8000;
    cpu.execute(&Instruction { opcode: Opcode::Sub, dest: Operand::Reg16(0), src: Operand::Imm16(1) });
    assert_eq!(cpu.regs.ax, 0x7FFF);
    assert!(!cpu.regs.flags.cf());
    assert!(cpu.regs.flags.of());
    assert!(cpu.regs.flags.af());
    assert!(!cpu.regs.flags.sf());

    cpu.regs.ax = 0x0042;
    cpu.execute(&Instruction { opcode: Opcode::Sub, dest: Operand::Reg16(0), src: Operand::Imm16(0x42) });
    assert_eq!(cpu.regs.ax, 0);
    assert!(cpu.regs.flags.zf());
    assert!(!cpu.regs.flags.cf());
    assert!(!cpu.regs.flags.of());
    assert!(!cpu.regs.flags.af());
}

#[test]
fn push_then_pop_moves_the_value_and_restores_sp() {
    let mut cpu = Cpu::init();
    cpu.test_mode();
    cpu.regs.ax = 0xBEEF;
    cpu.regs.sp = 0;
    cpu.execute(&Instruction { opcode: Opcode::PushAx, dest: Operand::Reg8(0), src: Operand::Reg8(0) });
    assert_eq!(cpu.regs.sp, 0xFFFE);
    assert_eq!(cpu.read_mem_u16(0x1000 + 0xFFFE), 0xBEEF);
    cpu.execute(&Instruction { opcode: Opcode::PopDx, dest: Operand::Reg8(0), src: Operand::Reg8(0) });
    assert_eq!(cpu.regs.dx, 0xBEEF);
    assert_eq!(cpu.regs.sp, 0);

    cpu.regs.sp = 0x0100;
    cpu.execute(&Instruction {
        opcode: Opcode::Push,
        dest: Operand::Reg8(0),
        src: Operand::Reg16(2),
    });
    cpu.execute(&Instruction {
        opcode: Opcode::Pop,
        dest: Operand::Mem16(0x2000, 0x2000),
        src: Operand::Reg8(0),
    });
    assert_eq!(cpu.read_mem_u16(0x2000), 0xBEEF);
    assert_eq!(cpu.regs.sp, 0x0100);
}

#[test]
fn pop_sp_takes_the_popped_value() {
    let mut cpu = Cpu::init();
    cpu.test_mode();
    cpu.regs.ax = 0x0200;
    cpu.regs.sp = 0x0100;
    cpu.execute(&Instruction { opcode: Opcode::PushAx, dest: Operand::Reg8(0), src: Operand::Reg8(0) });
    cpu.execute(&Instruction { opcode: Opcode::PopSp, dest: Operand::Reg8(0), src: Operand::Reg8(0) });
    assert_eq!(cpu.regs.sp, 0x0200);
}

#[test]
fn pushf_then_popf_restores_the_flags() {
    let mut cpu = Cpu::init();
    cpu.test_mode();
    cpu.regs.flags.set_cf();
    cpu.regs.flags.set_zf();
    cpu.regs.flags.set_df();
    cpu.regs.flags.set_of();
    let before = cpu.regs.flags.to_u16();
    assert_eq!(before, 0x0C43);
    cpu.execute(&Instruction { opcode: Opcode::Pushf, dest: Operand::Reg8(0), src: Operand::Reg8(0) });
    assert_eq!(cpu.regs.sp, 4093);
    cpu.regs.flags.clear_cf();
    cpu.regs.flags.set_sf();
    cpu.execute(&Instruction { opcode: Opcode::Popf, dest: Operand::Reg8(0), src: Operand::Reg8(0) });
    assert_eq!(cpu.regs.flags.to_u16(), before);
    assert_eq!(cpu.regs.sp, 4095);
}

#[test]
fn popf_keeps_bit_one_set_and_reserved_bits_clear() {
    let mut cpu = Cpu::init();
    cpu.test_mode();
    cpu.execute(&Instruction {
        opcode: Opcode::Push,
        dest: Operand::Reg8(0),
        src: Operand::Imm16(0xFFFD),
    });
    cpu.execute(&Instruction { opcode: Opcode::Popf, dest: Operand::Reg8(0), src: Operand::Reg8(0) });
    assert_eq!(cpu.regs.flags.to_u16(), 0x0FD7);
    let mut f = Flags::default();
    f.set_from_u16(0);
    assert_eq!(f.bi, 2);
}

#[test]
fn cbw_extends_the_sign_and_then_changes_nothing() {
    let mut cpu = Cpu::init();
    cpu.regs.ax = 0x1280;
    cpu.execute(&Instruction { opcode: Opcode::Cbw, dest: Operand::Reg8(0), src: Operand::Reg8(0) });
    assert_eq!(cpu.regs.ax, 0xFF80);
    cpu.execute(&Instruction { opcode: Opcode::Cbw, dest: Operand::Reg8(0), src: Operand::Reg8(0) });
    assert_eq!(cpu.regs.ax, 0xFF80);
    cpu.regs.ax = 0xFF7F;
    cpu.execute(&Instruction { opcode: Opcode::Cbw, dest: Operand::Reg8(0), src: Operand::Reg8(0) });
    assert_eq!(cpu.regs.ax, 0x007F);
}

#[test]
fn byte_halves_alias_their_word() {
    let mut regs = Registers::default();
    regs.set_ax(0x1234);
    regs.set_ah(0xAB);
    assert_eq!(regs.get_ah(), 0xAB);
    assert_eq!(regs.get_al(), 0x34);
    assert_eq!(regs.get_ax(), 0xAB34);
    regs.set_al(0xCD);
    assert_eq!(regs.get_ax(), 0xABCD);

    regs.set_cx(0x5678);
    regs.set_cl(0x01);
    assert_eq!(regs.get_ch(), 0x56);
    assert_eq!(regs.get_cl(), 0x01);
    regs.set_ch(0xFF);
    assert_eq!(regs.get_cx(), 0xFF01);

    regs.set_dx(0x9ABC);
    regs.set_dh(0x00);
    assert_eq!(regs.get_dl(), 0xBC);
    assert_eq!(regs.get_dx(), 0x00BC);
    regs.set_dl(0xEE);
    assert_eq!(regs.get_dh(), 0x00);
    assert_eq!(regs.get_dx(), 0x00EE);

    regs.set_bx(0xFFFF);
    regs.set_bl(0);
    assert_eq!(regs.get_bx(), 0xFF00);
    regs.set_bh(0x12);
    assert_eq!(regs.get_bl(), 0);
    assert_eq!(regs.get_bx(), 0x1200);
}

#[test]
fn byte_registers_by_index() {
    let mut cpu = Cpu::init();
    cpu.regs.ax = 0x1122;
    cpu.regs.cx = 0x3344;
    cpu.regs.dx = 0x5566;
    cpu.regs.bx = 0x7788;
    assert_eq!(cpu.get_reg(0, false), 0x22);
    assert_eq!(cpu.get_reg(1, false), 0x44);
    assert_eq!(cpu.get_reg(2, false), 0x66);
    assert_eq!(cpu.get_reg(3, false), 0x88);
    assert_eq!(cpu.get_reg(4, false), 0x11);
    assert_eq!(cpu.get_reg(5, false), 0x33);
    assert_eq!(cpu.get_reg(6, false), 0x55);
    assert_eq!(cpu.get_reg(7, false), 0x77);
    cpu.set_reg(6, false, 0xABCD);
    assert_eq!(cpu.regs.dx, 0xCD66);
    cpu.set_reg(6, true, 0xABCD);
    assert_eq!(cpu.regs.si, 0xABCD);
    assert_eq!(cpu.get_reg(4, true), 0);
    assert_eq!(cpu.get_reg(6, true), 0xABCD);
}

#[test]
fn physical_address_is_segment_times_16_plus_offset_mod_2_20() {
    let mut cpu = Cpu::init();
    cpu.regs.ds = 0x1234;
    assert_eq!(cpu.data_addr(0x0010), 0x12350);
    assert_eq!(cpu.ea(&Segment::Ds, 0xFFFF), 0x2233F);
    cpu.regs.es = 0xFFFF;
    assert_eq!(cpu.extra_addr(0x0000), 0xFFFF0);
    assert_eq!(cpu.extra_addr(0x000F), 0xFFFFF);
    assert_eq!(cpu.extra_addr(0x0010), 0x00000);
    assert_eq!(cpu.extra_addr(0xFFFF), 0x0FFEF);
    assert_eq!(cpu.ea(&Segment::Es, 0xFFFF), 0x0FFEF);
    cpu.regs.ss = 0x8000;
    assert_eq!(cpu.stack_addr(0x8000), 0x88000);
    cpu.regs.set_cs(0x54320);
    assert_eq!(cpu.regs.cs, 0x5432);
    assert_eq!(cpu.regs.get_cs(), 0x54320);
    assert_eq!(cpu.code_addr(0x00FF), 0x5441F);
}
