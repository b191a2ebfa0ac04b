//! The decoder: from the bytes at `CS:IP` to an instruction with its two
//! operands.
//!
//! The first byte splits into a primary group, its upper six bits, and a
//! tail of two bits. Where a `mod/reg/rm` byte follows, `mod` and `rm` name
//! a register or a memory operand, and `reg` a register or an operation.
//! Displacement bytes come next, immediate bytes last.

use vstd::prelude::*;
use crate::cpu::{
    add16,
    effective_segment,
    linear,
    segment_value,
    sign_extended,
    wide,
    wrap16,
    Cpu,
    Fault,
    Instruction,
    Machine,
    Opcode,
    Operand,
    Segment,
};
use crate::mem::{signed8, Byte1, Byte2};
use crate::regs::Registers;

verus! {

/// What the decoder makes of the instruction stream: the instruction, if
/// the bytes are one, and the number of bytes that belong to it.
pub struct Decoded {
    pub instr: Option<Instruction>,
    pub len: int,
}

/// The operand of an instruction that has none in that place.
pub open spec fn absent() -> Operand {
    Operand::Reg8(0)
}

/// A decoded instruction of `len` bytes.
pub open spec fn done(opcode: Opcode, dest: Operand, src: Operand, len: int) -> Decoded {
    Decoded { instr: Some(Instruction { opcode, dest, src }), len }
}

/// A decoded instruction without operands.
pub open spec fn bare(opcode: Opcode, len: int) -> Decoded {
    done(opcode, absent(), absent(), len)
}

/// Bytes that are no instruction; `len` of them were read to find that
/// out.
pub open spec fn undefined(len: int) -> Decoded {
    Decoded { instr: None, len }
}

/// A decoded instruction with `more` bytes in front of it.
pub open spec fn after(more: int, d: Decoded) -> Decoded {
    Decoded { instr: d.instr, len: d.len + more }
}

/// The arithmetic or logic operation with the given number: the bits 3 to 5
/// of a first byte below 0x40, or the `reg` field after 0x80 to 0x83.
pub open spec fn alu_opcode(n: u8) -> Opcode {
    match n {
        0 => Opcode::Add,
        1 => Opcode::Or,
        2 => Opcode::Adc,
        3 => Opcode::Sbb,
        4 => Opcode::And,
        5 => Opcode::Sub,
        6 => Opcode::Xor,
        _ => Opcode::Cmp,
    }
}

/// The one-byte INC, DEC, PUSH or POP of a 16-bit register: first bytes
/// 0x40 to 0x5F, counted from 0x40.
pub open spec fn register_opcode(k: u8) -> Opcode {
    match k {
        0 => Opcode::IncAx,
        1 => Opcode::IncCx,
        2 => Opcode::IncDx,
        3 => Opcode::IncBx,
        4 => Opcode::IncSp,
        5 => Opcode::IncBp,
        6 => Opcode::IncSi,
        7 => Opcode::IncDi,
        8 => Opcode::DecAx,
        9 => Opcode::DecCx,
        10 => Opcode::DecDx,
        11 => Opcode::DecBx,
        12 => Opcode::DecSp,
        13 => Opcode::DecBp,
        14 => Opcode::DecSi,
        15 => Opcode::DecDi,
        16 => Opcode::PushAx,
        17 => Opcode::PushCx,
        18 => Opcode::PushDx,
        19 => Opcode::PushBx,
        20 => Opcode::PushSp,
        21 => Opcode::PushBp,
        22 => Opcode::PushSi,
        23 => Opcode::PushDi,
        24 => Opcode::PopAx,
        25 => Opcode::PopCx,
        26 => Opcode::PopDx,
        27 => Opcode::PopBx,
        28 => Opcode::PopSp,
        29 => Opcode::PopBp,
        30 => Opcode::PopSi,
        _ => Opcode::PopDi,
    }
}

/// The conditional jump with the given condition number: the low four
/// bits of first bytes 0x70 to 0x7F.
pub open spec fn jump_opcode(k: u8) -> Opcode {
    match k {
        0 => Opcode::Jo,
        1 => Opcode::Jno,
        2 => Opcode::Jb,
        3 => Opcode::Jnb,
        4 => Opcode::Jz,
        5 => Opcode::Jnz,
        6 => Opcode::Jbe,
        7 => Opcode::Jnbe,
        8 => Opcode::Js,
        9 => Opcode::Jns,
        10 => Opcode::Jp,
        11 => Opcode::Jnp,
        12 => Opcode::Jl,
        13 => Opcode::Jnl,
        14 => Opcode::Jle,
        _ => Opcode::Jnle,
    }
}

/// The shift or rotate that a `reg` field selects after 0xD0 to 0xD3.
pub open spec fn turn_opcode(reg: u8) -> Option<Opcode> {
    match reg {
        0 => Some(Opcode::Rol),
        1 => Some(Opcode::Ror),
        2 => Some(Opcode::Rcl),
        3 => Some(Opcode::Rcr),
        4 => Some(Opcode::Shl),
        5 => Some(Opcode::Shr),
        6 => None,
        7 => Some(Opcode::Sar),
        _ => None,
    }
}

/// The operation that a `reg` field selects after 0xF6 and 0xF7, but for
/// TEST.
pub open spec fn unary_opcode(reg: u8) -> Option<Opcode> {
    match reg {
        0 => None,
        1 => None,
        2 => Some(Opcode::Not),
        3 => Some(Opcode::Neg),
        4 => Some(Opcode::Mul),
        5 => Some(Opcode::Imul),
        6 => Some(Opcode::Div),
        7 => Some(Opcode::Idiv),
        _ => None,
    }
}

/// The instruction of one byte without operands that a first byte from
/// 0x98 on stands for, if it is one; the prefixes LOCK, REPNE and REP
/// count among them.
pub open spec fn fixed_opcode(b1: u8) -> Option<Opcode> {
    match b1 {
        0x98 => Some(Opcode::Cbw),
        0x99 => Some(Opcode::Cwd),
        0x9B => Some(Opcode::Wait),
        0x9C => Some(Opcode::Pushf),
        0x9D => Some(Opcode::Popf),
        0x9E => Some(Opcode::Sahf),
        0x9F => Some(Opcode::Lahf),
        0xA4 => Some(Opcode::Movsb),
        0xA5 => Some(Opcode::Movsw),
        0xA6 => Some(Opcode::Cmpsb),
        0xA7 => Some(Opcode::Cmpsw),
        0xAA => Some(Opcode::Stosb),
        0xAB => Some(Opcode::Stosw),
        0xAC => Some(Opcode::Lodsb),
        0xAD => Some(Opcode::Lodsw),
        0xAE => Some(Opcode::Scasb),
        0xAF => Some(Opcode::Scasw),
        0xC3 => Some(Opcode::Ret),
        0xCB => Some(Opcode::Retf),
        0xCE => Some(Opcode::Into),
        0xCF => Some(Opcode::Iret),
        0xD7 => Some(Opcode::Xlat),
        0xF0 => Some(Opcode::Lock),
        0xF2 => Some(Opcode::Repne),
        0xF3 => Some(Opcode::Rep),
        0xF4 => Some(Opcode::Hlt),
        0xF5 => Some(Opcode::Cmc),
        0xF8 => Some(Opcode::Clc),
        0xF9 => Some(Opcode::Stc),
        0xFA => Some(Opcode::Cli),
        0xFB => Some(Opcode::Sti),
        0xFC => Some(Opcode::Cld),
        0xFD => Some(Opcode::Std),
        _ => None,
    }
}

/// The instruction of one byte that closes each row of eight first bytes
/// below 0x40: a push or pop of a segment register, a segment override
/// prefix, or a decimal adjustment. `n` is the row, `last` tells the
/// eighth byte of the row from the seventh.
pub open spec fn row_end_opcode(n: u8, last: bool) -> Option<Opcode> {
    match n {
        0 => if last {
            Some(Opcode::PopEs)
        } else {
            Some(Opcode::PushEs)
        },
        1 => if last {
            None
        } else {
            Some(Opcode::PushCs)
        },
        2 => if last {
            Some(Opcode::PopSs)
        } else {
            Some(Opcode::PushSs)
        },
        3 => if last {
            Some(Opcode::PopDs)
        } else {
            Some(Opcode::PushDs)
        },
        4 => if last {
            Some(Opcode::Daa)
        } else {
            Some(Opcode::OverrideEs)
        },
        5 => if last {
            Some(Opcode::Das)
        } else {
            Some(Opcode::OverrideCs)
        },
        6 => if last {
            Some(Opcode::Aaa)
        } else {
            Some(Opcode::OverrideSs)
        },
        _ => if last {
            Some(Opcode::Aas)
        } else {
            Some(Opcode::OverrideDs)
        },
    }
}

/// The register with the given index, of 8 or of 16 bits.
pub open spec fn register_operand(r: u8, word: bool) -> Operand {
    if word {
        Operand::Reg16(r)
    } else {
        Operand::Reg8(r)
    }
}

/// The memory operand at a physical address and an offset, of 8 or of 16
/// bits.
pub open spec fn memory_operand(addr: int, offset: u16, word: bool) -> Operand {
    if word {
        Operand::Mem16(addr as u32, offset as u32)
    } else {
        Operand::Mem8(addr as u32, offset as u32)
    }
}

/// The sum of base and index registers that `rm` selects: BX+SI, BX+DI,
/// BP+SI, BP+DI, SI, DI, BP, BX.
pub open spec fn base_of(r: Registers, rm: u8) -> int {
    match rm {
        0 => r.bx + r.si,
        1 => r.bx + r.di,
        2 => r.bp + r.si,
        3 => r.bp + r.di,
        4 => r.si as int,
        5 => r.di as int,
        6 => r.bp as int,
        _ => r.bx as int,
    }
}

/// The segment that an addressing form uses by default: SS where BP
/// takes part, else DS. With `mod` 0, `rm` 6 is the direct offset, in DS.
pub open spec fn default_segment(modd: u8, rm: u8) -> Segment {
    if rm == 2 || rm == 3 || (rm == 6 && modd != 0) {
        Segment::Ss
    } else {
        Segment::Ds
    }
}

/// Number of displacement bytes after a `mod/reg/rm` byte.
pub open spec fn displacement_len(modd: u8, rm: u8) -> int {
    match modd {
        0 => if rm == 6 {
            2
        } else {
            0
        },
        1 => 1,
        2 => 2,
        _ => 0,
    }
}

/// The 16-bit offset of a memory operand. The displacement is read from
/// the instruction stream of `m`; one of 8 bits is sign-extended.
pub open spec fn effective_offset(m: Machine, modd: u8, rm: u8) -> u16 {
    match modd {
        0 => if rm == 6 {
            m.next16()
        } else {
            wrap16(base_of(m.regs, rm))
        },
        1 => wrap16(base_of(m.regs, rm) + signed8(m.next8())),
        _ => wrap16(base_of(m.regs, rm) + m.next16()),
    }
}

/// The operand that the `mod` and `rm` fields of `b2` name: a register
/// when `mod` is 3, else the memory operand at the effective offset in
/// the pending override segment or, without one, the default segment.
pub open spec fn rm_operand(m: Machine, b2: u8, word: bool) -> Operand {
    let modd = b2 / 64;
    let rm = b2 % 8;
    if modd == 3 {
        register_operand(rm, word)
    } else {
        let offset = effective_offset(m, modd, rm);
        let seg = effective_segment(m.seg_override, default_segment(modd, rm));
        memory_operand(linear(segment_value(m.regs, seg), offset as int), offset, word)
    }
}

/// Number of displacement bytes that `rm_operand` reads.
pub open spec fn rm_len(b2: u8) -> int {
    displacement_len(b2 / 64, b2 % 8)
}

/// The immediate in the instruction stream, of 8 or of 16 bits.
pub open spec fn immediate(m: Machine, word: bool) -> Operand {
    if word {
        Operand::Imm16(m.next16())
    } else {
        Operand::Imm8(m.next8())
    }
}

/// Number of bytes of an immediate.
pub open spec fn immediate_len(word: bool) -> int {
    if word {
        2
    } else {
        1
    }
}

/// The two-operand form with a `mod/reg/rm` byte: one operand is the
/// register that `reg` names, the other is what `mod` and `rm` name. The
/// direction bit of `b1` makes the register the destination; the width
/// bit makes both operands 16 bits wide.
pub open spec fn modrm_pair(m: Machine, opcode: Opcode, b1: u8) -> Decoded {
    let word = b1 % 2 == 1;
    let b2 = m.next8();
    let reg = register_operand((b2 / 8) % 8, word);
    let rm = rm_operand(m.skip(1), b2, word);
    if (b1 / 2) % 2 == 1 {
        done(opcode, reg, rm, 1 + rm_len(b2))
    } else {
        done(opcode, rm, reg, 1 + rm_len(b2))
    }
}

/// First bytes below 0x40, in rows of eight: four two-operand forms of an
/// arithmetic or logic operation, its two forms with the accumulator and
/// an immediate, and two instructions of one byte.
pub open spec fn decode_arith(m: Machine, b1: u8) -> Decoded {
    let opcode = alu_opcode(b1 / 8);
    let form = b1 % 8;
    if form < 4 {
        modrm_pair(m, opcode, b1)
    } else if form < 6 {
        done(
            opcode,
            register_operand(0, form == 5),
            immediate(m, form == 5),
            immediate_len(form == 5),
        )
    } else {
        match row_end_opcode(b1 / 8, form == 7) {
            Some(op) => bare(op, 0),
            None => undefined(0),
        }
    }
}

/// First bytes 0x80 to 0x83: an arithmetic or logic operation, selected
/// by `reg`, on a register or memory operand and an immediate. After 0x83
/// the immediate is one byte, sign-extended to 16 bits.
pub open spec fn decode_immediate_group(m: Machine, b1: u8) -> Decoded {
    let tail = b1 % 4;
    let b2 = m.next8();
    let dest = rm_operand(m.skip(1), b2, tail % 2 == 1);
    let rest = m.skip(1).skip(rm_len(b2));
    let src = if tail == 3 {
        Operand::Imm16(wrap16(signed8(rest.next8())))
    } else {
        immediate(rest, tail == 1)
    };
    done(alu_opcode((b2 / 8) % 8), dest, src, 1 + rm_len(b2) + immediate_len(tail == 1))
}

/// First bytes 0x8C to 0x8F: MOV between a segment register and a
/// 16-bit register or memory operand, LEA, and POP to a register or
/// memory operand.
pub open spec fn decode_group35(m: Machine, b1: u8) -> Decoded {
    let tail = b1 % 4;
    let b2 = m.next8();
    let reg = (b2 / 8) % 8;
    let rm = rm_operand(m.skip(1), b2, true);
    let len = 1 + rm_len(b2);
    if tail == 0 {
        if reg < 4 {
            done(Opcode::Mov, rm, Operand::Seg(reg), len)
        } else {
            undefined(len)
        }
    } else if tail == 1 {
        done(Opcode::Lea, Operand::Reg16(reg), rm, len)
    } else if tail == 2 {
        if reg < 4 {
            done(Opcode::Mov, Operand::Seg(reg), rm, len)
        } else {
            undefined(len)
        }
    } else {
        if reg == 0 {
            done(Opcode::Pop, rm, absent(), len)
        } else {
            undefined(len)
        }
    }
}

/// First bytes 0xA0 to 0xA3: MOV between the accumulator and memory at a
/// direct 16-bit offset, in the pending override segment or in DS.
pub open spec fn decode_direct(m: Machine, b1: u8) -> Decoded {
    let word = b1 % 2 == 1;
    let offset = m.next16();
    let seg = effective_segment(m.seg_override, Segment::Ds);
    let mem = memory_operand(linear(segment_value(m.regs, seg), offset as int), offset, word);
    let acc = register_operand(0, word);
    if b1 % 4 < 2 {
        done(Opcode::Mov, acc, mem, 2)
    } else {
        done(Opcode::Mov, mem, acc, 2)
    }
}

/// First bytes 0xC4 to 0xC7: LES, LDS, and MOV of an immediate to a
/// register or memory operand.
pub open spec fn decode_group49(m: Machine, b1: u8) -> Decoded {
    let tail = b1 % 4;
    let b2 = m.next8();
    let reg = (b2 / 8) % 8;
    let len = 1 + rm_len(b2);
    if tail == 0 {
        done(Opcode::Les, Operand::Reg16(reg), rm_operand(m.skip(1), b2, true), len)
    } else if tail == 1 {
        done(Opcode::Lds, Operand::Reg16(reg), rm_operand(m.skip(1), b2, true), len)
    } else if reg == 0 {
        done(
            Opcode::Mov,
            rm_operand(m.skip(1), b2, tail == 3),
            immediate(m.skip(1).skip(rm_len(b2)), tail == 3),
            len + immediate_len(tail == 3),
        )
    } else {
        undefined(1)
    }
}

/// First bytes 0xD0 to 0xD3: a shift or rotate, selected by `reg`, of a
/// register or memory operand, by 1 or by CL.
pub open spec fn decode_turn(m: Machine, b1: u8) -> Decoded {
    let b2 = m.next8();
    let count = if b1 % 4 < 2 {
        Operand::Imm8(1)
    } else {
        Operand::Reg8(1)
    };
    match turn_opcode((b2 / 8) % 8) {
        Some(op) => done(op, rm_operand(m.skip(1), b2, b1 % 2 == 1), count, 1 + rm_len(b2)),
        None => undefined(1),
    }
}

/// First bytes 0xF6 and 0xF7: TEST with an immediate, NOT, NEG, MUL,
/// IMUL, DIV or IDIV, selected by `reg`, on a register or memory operand.
pub open spec fn decode_group3(m: Machine, b1: u8) -> Decoded {
    let word = b1 % 2 == 1;
    let b2 = m.next8();
    let reg = (b2 / 8) % 8;
    let rm = rm_operand(m.skip(1), b2, word);
    let len = 1 + rm_len(b2);
    if reg == 0 {
        done(Opcode::Test, rm, immediate(m.skip(1).skip(rm_len(b2)), word), len + immediate_len(word))
    } else {
        match unary_opcode(reg) {
            Some(op) => done(op, rm, absent(), len),
            None => undefined(len),
        }
    }
}

/// First bytes 0xFE and 0xFF: INC and DEC of a register or memory
/// operand; after 0xFF also CALL and JMP, near and far, through a
/// register or memory operand, and PUSH of one.
pub open spec fn decode_group45(m: Machine, b1: u8) -> Decoded {
    let word = b1 % 2 == 1;
    let b2 = m.next8();
    let reg = (b2 / 8) % 8;
    let rm = rm_operand(m.skip(1), b2, word);
    let len = 1 + rm_len(b2);
    if reg == 0 {
        done(Opcode::Inc, rm, absent(), len)
    } else if reg == 1 {
        done(Opcode::Dec, rm, absent(), len)
    } else if !word || reg == 7 {
        undefined(len)
    } else if reg == 2 {
        done(Opcode::CallNear, absent(), rm, len)
    } else if reg == 3 {
        done(Opcode::CallFar, rm, absent(), len)
    } else if reg == 4 {
        done(Opcode::JmpNear, absent(), rm, len)
    } else if reg == 5 {
        done(Opcode::JmpFar, absent(), rm, len)
    } else {
        done(Opcode::Push, absent(), rm, len)
    }
}

/// First bytes 0xE0 to 0xEF: the LOOP family and JCXZ, IN and OUT with a
/// port number or with DX, CALL and JMP with their targets in the
/// instruction.
pub open spec fn decode_transfer(m: Machine, b1: u8) -> Decoded {
    let acc = register_operand(0, b1 % 2 == 1);
    let io = if b1 % 4 < 2 {
        Opcode::In
    } else {
        Opcode::Out
    };
    match b1 {
        0xE0 => done(Opcode::Loopne, Operand::Imm8(m.next8()), absent(), 1),
        0xE1 => done(Opcode::Loope, Operand::Imm8(m.next8()), absent(), 1),
        0xE2 => done(Opcode::Loop, Operand::Imm8(m.next8()), absent(), 1),
        0xE3 => done(Opcode::Jcxz, Operand::Imm8(m.next8()), absent(), 1),
        0xE8 => done(Opcode::CallNear, absent(), Operand::Imm16(m.next16()), 2),
        0xE9 => done(Opcode::JmpNear, absent(), Operand::Imm16(m.next16()), 2),
        0xEA => done(
            Opcode::JmpFar,
            Operand::Imm16(m.next16()),
            Operand::Imm16(m.skip(2).next16()),
            4,
        ),
        0xEB => done(Opcode::JmpNear, absent(), Operand::Imm8(m.next8()), 1),
        _ => if b1 < 0xE8 {
            done(io, acc, Operand::Imm8(m.next8()), 1)
        } else {
            done(io, acc, Operand::Reg16(2), 0)
        },
    }
}

/// The instruction that starts with `b1`, read from the stream of `m`
/// after that byte. The length does not count `b1`.
#[verifier::opaque]
pub open spec fn decode_rest(m: Machine, b1: u8) -> Decoded {
    let g = b1 / 4;
    if g < 16 {
        decode_arith(m, b1)
    } else if g < 24 {
        bare(register_opcode((b1 - 0x40) as u8), 0)
    } else if 28 <= g < 32 {
        done(jump_opcode(b1 % 16), Operand::Imm8(m.next8()), absent(), 1)
    } else if g == 32 {
        decode_immediate_group(m, b1)
    } else if g == 33 {
        modrm_pair(m, Opcode::Test, b1)
    } else if g == 34 {
        modrm_pair(m, Opcode::Mov, b1)
    } else if g == 35 {
        decode_group35(m, b1)
    } else if g == 36 || g == 37 {
        done(Opcode::Xchg, Operand::Reg16(0), Operand::Reg16(b1 % 8), 0)
    } else if b1 == 0x9A {
        done(Opcode::CallFar, Operand::Imm16(m.next16()), Operand::Imm16(m.skip(2).next16()), 4)
    } else if g == 40 {
        decode_direct(m, b1)
    } else if b1 == 0xA8 || b1 == 0xA9 {
        done(
            Opcode::Test,
            register_operand(0, b1 == 0xA9),
            immediate(m, b1 == 0xA9),
            immediate_len(b1 == 0xA9),
        )
    } else if 44 <= g < 48 {
        done(
            Opcode::Mov,
            register_operand(b1 % 8, g >= 46),
            immediate(m, g >= 46),
            immediate_len(g >= 46),
        )
    } else if b1 == 0xC2 {
        done(Opcode::Ret, Operand::Imm16(m.next16()), absent(), 2)
    } else if b1 == 0xCA {
        done(Opcode::Retf, Operand::Imm16(m.next16()), absent(), 2)
    } else if g == 49 {
        decode_group49(m, b1)
    } else if b1 == 0xCC {
        done(Opcode::Int, Operand::Imm8(3), absent(), 0)
    } else if b1 == 0xCD {
        done(Opcode::Int, Operand::Imm8(m.next8()), absent(), 1)
    } else if g == 52 {
        decode_turn(m, b1)
    } else if b1 == 0xD4 || b1 == 0xD5 {
        if m.next8() == 0x0A {
            bare(
                if b1 == 0xD4 {
                    Opcode::Aam
                } else {
                    Opcode::Aad
                },
                1,
            )
        } else {
            undefined(1)
        }
    } else if 56 <= g < 60 {
        decode_transfer(m, b1)
    } else if b1 == 0xF6 || b1 == 0xF7 {
        decode_group3(m, b1)
    } else if b1 == 0xFE || b1 == 0xFF {
        decode_group45(m, b1)
    } else {
        match fixed_opcode(b1) {
            Some(op) => bare(op, 0),
            None => undefined(0),
        }
    }
}

/// The instruction at the cursor of `m`.
pub open spec fn decode(m: Machine) -> Decoded {
    after(1, decode_rest(m.skip(1), m.next8()))
}

/// The state with the cursor at `CS:IP`.
pub open spec fn at_code(m: Machine) -> Machine {
    Machine { cursor: linear(m.regs.cs, m.regs.ip as int), ..m }
}

/// What `fetch` returns: the instruction at `CS:IP`, or nothing when IP
/// is past the loaded program or the bytes are no instruction.
pub open spec fn fetch_result(m: Machine) -> Option<Instruction> {
    if m.regs.ip >= m.prog_size {
        None
    } else {
        decode(at_code(m)).instr
    }
}

/// The state after `fetch`.
///
/// With IP past the loaded program only the cursor moves, to `CS:IP`.
/// After an instruction the cursor stands behind it, and IP has grown by
/// its length, modulo 2^16. Bytes that are no instruction stop the
/// processor with `Fault::Decode`, IP unchanged and the cursor back at
/// `CS:IP`.
pub open spec fn fetch_state(m: Machine) -> Machine {
    let start = at_code(m);
    if m.regs.ip >= m.prog_size {
        start
    } else {
        let d = decode(start);
        match d.instr {
            Some(_) => start.skip(d.len).with_ip(wrap16(m.regs.ip + d.len)),
            None => start.stopped(Fault::Decode),
        }
    }
}

/// Skipping `a` bytes and then `b` is skipping `a + b`.
pub proof fn lemma_skip_twice(m: Machine, a: int, b: int)
    requires
        0 <= a,
        0 <= b,
        m.wf(),
    ensures
        m.skip(a).skip(b) == m.skip(a + b),
        m.skip(a).wf(),
{
}

/// The arithmetic or logic operation with the given number: the bits 3 to 5
/// of a first byte below 0x40, or the `reg` field after 0x80 to 0x83.
pub fn alu_op(n: u8) -> (op: Opcode)
    ensures
        op == alu_opcode(n),
{
    match n {
        0 => Opcode::Add,
        1 => Opcode::Or,
        2 => Opcode::Adc,
        3 => Opcode::Sbb,
        4 => Opcode::And,
        5 => Opcode::Sub,
        6 => Opcode::Xor,
        _ => Opcode::Cmp,
    }
}

/// The one-byte INC, DEC, PUSH or POP of a 16-bit register: first bytes
/// 0x40 to 0x5F, counted from 0x40.
pub fn register_op(k: u8) -> (op: Opcode)
    ensures
        op == register_opcode(k),
{
    match k {
        0 => Opcode::IncAx,
        1 => Opcode::IncCx,
        2 => Opcode::IncDx,
        3 => Opcode::IncBx,
        4 => Opcode::IncSp,
        5 => Opcode::IncBp,
        6 => Opcode::IncSi,
        7 => Opcode::IncDi,
        8 => Opcode::DecAx,
        9 => Opcode::DecCx,
        10 => Opcode::DecDx,
        11 => Opcode::DecBx,
        12 => Opcode::DecSp,
        13 => Opcode::DecBp,
        14 => Opcode::DecSi,
        15 => Opcode::DecDi,
        16 => Opcode::PushAx,
        17 => Opcode::PushCx,
        18 => Opcode::PushDx,
        19 => Opcode::PushBx,
        20 => Opcode::PushSp,
        21 => Opcode::PushBp,
        22 => Opcode::PushSi,
        23 => Opcode::PushDi,
        24 => Opcode::PopAx,
        25 => Opcode::PopCx,
        26 => Opcode::PopDx,
        27 => Opcode::PopBx,
        28 => Opcode::PopSp,
        29 => Opcode::PopBp,
        30 => Opcode::PopSi,
        _ => Opcode::PopDi,
    }
}

/// The conditional jump with the given condition number: the low four
/// bits of first bytes 0x70 to 0x7F.
pub fn jump_op(k: u8) -> (op: Opcode)
    ensures
        op == jump_opcode(k),
{
    match k {
        0 => Opcode::Jo,
        1 => Opcode::Jno,
        2 => Opcode::Jb,
        3 => Opcode::Jnb,
        4 => Opcode::Jz,
        5 => Opcode::Jnz,
        6 => Opcode::Jbe,
        7 => Opcode::Jnbe,
        8 => Opcode::Js,
        9 => Opcode::Jns,
        10 => Opcode::Jp,
        11 => Opcode::Jnp,
        12 => Opcode::Jl,
        13 => Opcode::Jnl,
        14 => Opcode::Jle,
        _ => Opcode::Jnle,
    }
}

/// The shift or rotate that a `reg` field selects after 0xD0 to 0xD3.
pub fn turn_op(reg: u8) -> (op: Option<Opcode>)
    ensures
        op == turn_opcode(reg),
{
    match reg {
        0 => Some(Opcode::Rol),
        1 => Some(Opcode::Ror),
        2 => Some(Opcode::Rcl),
        3 => Some(Opcode::Rcr),
        4 => Some(Opcode::Shl),
        5 => Some(Opcode::Shr),
        6 => None,
        7 => Some(Opcode::Sar),
        _ => None,
    }
}

/// The operation that a `reg` field selects after 0xF6 and 0xF7, but for
/// TEST.
pub fn unary_op(reg: u8) -> (op: Option<Opcode>)
    ensures
        op == unary_opcode(reg),
{
    match reg {
        0 => None,
        1 => None,
        2 => Some(Opcode::Not),
        3 => Some(Opcode::Neg),
        4 => Some(Opcode::Mul),
        5 => Some(Opcode::Imul),
        6 => Some(Opcode::Div),
        7 => Some(Opcode::Idiv),
        _ => None,
    }
}

/// The instruction of one byte without operands that a first byte from
/// 0x98 on stands for, if it is one.
pub fn fixed_op(b1: u8) -> (op: Option<Opcode>)
    ensures
        op == fixed_opcode(b1),
{
    match b1 {
        0x98 => Some(Opcode::Cbw),
        0x99 => Some(Opcode::Cwd),
        0x9B => Some(Opcode::Wait),
        0x9C => Some(Opcode::Pushf),
        0x9D => Some(Opcode::Popf),
        0x9E => Some(Opcode::Sahf),
        0x9F => Some(Opcode::Lahf),
        0xA4 => Some(Opcode::Movsb),
        0xA5 => Some(Opcode::Movsw),
        0xA6 => Some(Opcode::Cmpsb),
        0xA7 => Some(Opcode::Cmpsw),
        0xAA => Some(Opcode::Stosb),
        0xAB => Some(Opcode::Stosw),
        0xAC => Some(Opcode::Lodsb),
        0xAD => Some(Opcode::Lodsw),
        0xAE => Some(Opcode::Scasb),
        0xAF => Some(Opcode::Scasw),
        0xC3 => Some(Opcode::Ret),
        0xCB => Some(Opcode::Retf),
        0xCE => Some(Opcode::Into),
        0xCF => Some(Opcode::Iret),
        0xD7 => Some(Opcode::Xlat),
        0xF0 => Some(Opcode::Lock),
        0xF2 => Some(Opcode::Repne),
        0xF3 => Some(Opcode::Rep),
        0xF4 => Some(Opcode::Hlt),
        0xF5 => Some(Opcode::Cmc),
        0xF8 => Some(Opcode::Clc),
        0xF9 => Some(Opcode::Stc),
        0xFA => Some(Opcode::Cli),
        0xFB => Some(Opcode::Sti),
        0xFC => Some(Opcode::Cld),
        0xFD => Some(Opcode::Std),
        _ => None,
    }
}

/// The instruction of one byte that closes a row of eight first bytes
/// below 0x40.
pub fn row_end_op(n: u8, last: bool) -> (op: Option<Opcode>)
    ensures
        op == row_end_opcode(n, last),
{
    match n {
        0 => if last {
            Some(Opcode::PopEs)
        } else {
            Some(Opcode::PushEs)
        },
        1 => if last {
            None
        } else {
            Some(Opcode::PushCs)
        },
        2 => if last {
            Some(Opcode::PopSs)
        } else {
            Some(Opcode::PushSs)
        },
        3 => if last {
            Some(Opcode::PopDs)
        } else {
            Some(Opcode::PushDs)
        },
        4 => if last {
            Some(Opcode::Daa)
        } else {
            Some(Opcode::OverrideEs)
        },
        5 => if last {
            Some(Opcode::Das)
        } else {
            Some(Opcode::OverrideCs)
        },
        6 => if last {
            Some(Opcode::Aaa)
        } else {
            Some(Opcode::OverrideSs)
        },
        _ => if last {
            Some(Opcode::Aas)
        } else {
            Some(Opcode::OverrideDs)
        },
    }
}

/// An instruction without operands.
pub fn bare_instruction(opcode: Opcode) -> (i: Instruction)
    ensures
        Some(i) == bare(opcode, 0).instr,
{
    Instruction { opcode, dest: Operand::Reg8(0), src: Operand::Reg8(0) }
}

/// The register with the given index, of 8 or of 16 bits.
pub fn register(r: u8, word: bool) -> (op: Operand)
    ensures
        op == register_operand(r, word),
{
    if word {
        Operand::Reg16(r)
    } else {
        Operand::Reg8(r)
    }
}

impl Cpu {
    /// Reads an immediate of 8 or of 16 bits from the instruction stream.
    pub fn immediate(&mut self, word: bool) -> (op: Operand)
        requires
            old(self).wf(),
        ensures
            final(self).wf(),
            op == immediate(old(self)@, word),
            final(self)@ == old(self)@.skip(immediate_len(word)),
    {
        if word {
            Operand::Imm16(self.take_u16())
        } else {
            Operand::Imm8(self.take_u8())
        }
    }

    /// The sum of base and index registers that `rm` selects, modulo 2^16.
    pub fn base_of(&self, rm: u8) -> (base: u16)
        ensures
            base == wrap16(base_of(self.regs, rm)),
    {
        match rm {
            0 => add16(self.regs.get_bx(), self.regs.get_si()),
            1 => add16(self.regs.get_bx(), self.regs.get_di()),
            2 => add16(self.regs.get_bp(), self.regs.get_si()),
            3 => add16(self.regs.get_bp(), self.regs.get_di()),
            4 => self.regs.get_si(),
            5 => self.regs.get_di(),
            6 => self.regs.get_bp(),
            _ => self.regs.get_bx(),
        }
    }

    /// Resolves the `mod` and `rm` fields of `b2` to an operand, reading
    /// the displacement from the instruction stream. The width bit of `b1`
    /// gives the operand's width.
    #[verifier::rlimit(50)]
    pub fn calc_op_displacement(&mut self, b1: Byte1, b2: Byte2) -> (op: Operand)
        requires
            old(self).wf(),
        ensures
            final(self).wf(),
            op == rm_operand(old(self)@, b2@, b1@ % 2 == 1),
            final(self)@ == old(self)@.skip(rm_len(b2@)),
    {
        let modd: u8 = b2.modd();
        let rm: u8 = b2.rm();
        let word: bool = b1.word();
        if modd == 3 {
            return register(rm, word);
        }
        let base: u16 = self.base_of(rm);
        let seg: Segment = if rm == 2 || rm == 3 || (rm == 6 && modd != 0) {
            Segment::Ss
        } else {
            Segment::Ds
        };
        let offt: u16 = if modd == 0 {
            if rm == 6 {
                self.take_u16()
            } else {
                base
            }
        } else if modd == 1 {
            let disp: u8 = self.take_u8();
            proof {
                lemma_offset_sum(base_of(old(self).regs, rm), signed8(disp));
            }
            add16(base, sign_extended(disp))
        } else {
            let disp: u16 = self.take_u16();
            proof {
                lemma_offset_sum(base_of(old(self).regs, rm), disp as int);
            }
            add16(base, disp)
        };
        let addr: u32 = self.get_segment_offset(seg, wide(offt));
        if word {
            Operand::Mem16(addr, wide(offt))
        } else {
            Operand::Mem8(addr, wide(offt))
        }
    }

    /// Resolves the `mod` and `rm` fields of `b2` to an operand: a
    /// register when `mod` is 3, else a memory operand.
    pub fn addr_mod(&mut self, b1: Byte1, b2: Byte2) -> (op: Operand)
        requires
            old(self).wf(),
        ensures
            final(self).wf(),
            op == rm_operand(old(self)@, b2@, b1@ % 2 == 1),
            final(self)@ == old(self)@.skip(rm_len(b2@)),
    {
        if b2.modd() == 3 {
            register(b2.rm(), b1.word())
        } else {
            self.calc_op_displacement(b1, b2)
        }
    }

    /// Decodes the two-operand form with a `mod/reg/rm` byte.
    pub fn modrm_pair(&mut self, opcode: Opcode, b1: Byte1) -> (i: Instruction)
        requires
            old(self).wf(),
        ensures
            final(self).wf(),
            Some(i) == modrm_pair(old(self)@, opcode, b1@).instr,
            final(self)@ == old(self)@.skip(modrm_pair(old(self)@, opcode, b1@).len),
    {
        let b2 = Byte2::new(self.take_u8());
        let reg: Operand = register(b2.reg(), b1.word());
        let rm: Operand = self.addr_mod(b1, b2);
        proof {
            lemma_skip_twice(old(self)@, 1, rm_len(b2@));
        }
        if b1.reg_is_dest() {
            Instruction { opcode, dest: reg, src: rm }
        } else {
            Instruction { opcode, dest: rm, src: reg }
        }
    }
}

/// Adding a displacement to a base that was reduced to 16 bits gives what
/// adding it to the base itself gives.
pub proof fn lemma_offset_sum(base: int, disp: int)
    ensures
        wrap16(wrap16(base) + wrap16(disp)) == wrap16(base + disp),
        wrap16(wrap16(base) + disp) == wrap16(base + disp),
{
    vstd::arithmetic::div_mod::lemma_add_mod_noop(base, disp, 0x1_0000);
    vstd::arithmetic::div_mod::lemma_add_mod_noop(base % 0x1_0000, disp, 0x1_0000);
    vstd::arithmetic::div_mod::lemma_mod_twice(base, 0x1_0000);
}

} // verus!
