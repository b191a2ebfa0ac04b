//! Data movement and the stack: MOV, XCHG, LEA, XLAT, LES, LDS, CBW, CWD,
//! LAHF, SAHF, PUSH, POP, PUSHF and POPF.

use vstd::prelude::*;
use crate::cpu::{
    add16,
    linear,
    operand_value,
    put_operand,
    put_reg16,
    sub16,
    word_of,
    wrap16,
    Cpu,
    Instruction,
    Machine,
    Operand,
};
use crate::mem::{load16, load8, signed16, signed8, store16};
use crate::regs::{flags_of_word, hi, lo, replace_low, with_hi, with_lo, Flags, Registers};

verus! {

/// The state after pushing `val`: SP is 2 lower, modulo 2^16, and the
/// word stands at `SS:SP`.
pub open spec fn push_spec(m: Machine, val: u16) -> Machine {
    let sp = wrap16(m.regs.sp - 2);
    Machine {
        regs: Registers { sp, ..m.regs },
        mem: store16(m.mem, linear(m.regs.ss, sp as int), val),
        ..m
    }
}

/// The word at `SS:SP`.
pub open spec fn stack_top(m: Machine) -> u16 {
    load16(m.mem, linear(m.regs.ss, m.regs.sp as int))
}

/// The state after popping a word: SP is 2 higher, modulo 2^16.
pub open spec fn pop_spec(m: Machine) -> Machine {
    m.with_regs(Registers { sp: wrap16(m.regs.sp + 2), ..m.regs })
}

/// The state after PUSHF: the FLAGS word pushed.
pub open spec fn pushf_spec(m: Machine) -> Machine {
    push_spec(m, m.regs.flags.bi)
}

/// The state after POPF: the nine flags loaded from the word at `SS:SP`,
/// and that word popped.
pub open spec fn popf_spec(m: Machine) -> Machine {
    pop_spec(m.with_flags(Flags { bi: flags_of_word(stack_top(m)) }))
}

/// The state after POP to an operand: the word at `SS:SP` popped, then
/// written to the destination.
pub open spec fn pop_to_spec(m: Machine, dest: Operand) -> Machine {
    put_operand(pop_spec(m), dest, stack_top(m))
}

/// The state after PUSH of an operand.
pub open spec fn push_from_spec(m: Machine, src: Operand) -> Machine {
    push_spec(m, operand_value(m, src))
}

/// Whether MOV takes these operands: a destination that can be written,
/// a source that has a value, both of one width.
pub open spec fn mov_takes(dest: Operand, src: Operand) -> bool {
    dest.is_target() && src.is_value() && dest.is_word() == src.is_word()
}

/// The state after MOV: the source's value in the destination.
pub open spec fn mov_spec(m: Machine, dest: Operand, src: Operand) -> Machine {
    put_operand(m, dest, operand_value(m, src))
}

/// Whether XCHG takes these operands: two registers or memory locations
/// of one width.
pub open spec fn exchg_takes(dest: Operand, src: Operand) -> bool {
    dest.is_place() && src.is_place() && dest.is_word() == src.is_word()
}

/// The state after XCHG: each operand holds what the other held.
pub open spec fn exchg_spec(m: Machine, dest: Operand, src: Operand) -> Machine {
    put_operand(put_operand(m, src, operand_value(m, dest)), dest, operand_value(m, src))
}

/// Whether the operands are a 16-bit register and a 16-bit memory
/// location, as LEA, LES and LDS take them.
pub open spec fn reg_and_memory(dest: Operand, src: Operand) -> bool {
    (dest matches Operand::Reg16(r) && r < 8) && src is Mem16
}

/// The state after LEA: the offset of the memory operand in the register.
/// Memory is not read.
pub open spec fn lea_spec(m: Machine, dest: Operand, src: Operand) -> Machine {
    match (dest, src) {
        (Operand::Reg16(r), Operand::Mem16(_, off)) => m.with_regs(
            put_reg16(m.regs, r, wrap16(off as int)),
        ),
        _ => m,
    }
}

/// The state after LES (`extra`) or LDS: the word at the memory operand
/// in the register, the word after it in ES or DS.
pub open spec fn load_far_spec(m: Machine, dest: Operand, src: Operand, extra: bool) -> Machine {
    match (dest, src) {
        (Operand::Reg16(r), Operand::Mem16(a, _)) => {
            let regs = put_reg16(m.regs, r, load16(m.mem, a as int));
            let seg = load16(m.mem, a + 2);
            if extra {
                m.with_regs(Registers { es: seg, ..regs })
            } else {
                m.with_regs(Registers { ds: seg, ..regs })
            }
        },
        _ => m,
    }
}

/// The state after CBW: AX is AL read as two's complement.
pub open spec fn cbw_spec(m: Machine) -> Machine {
    m.with_regs(Registers { ax: wrap16(signed8(lo(m.regs.ax))), ..m.regs })
}

/// The state after CWD: DX is all ones if AX is negative as two's
/// complement, else zero.
pub open spec fn cwd_spec(m: Machine) -> Machine {
    m.with_regs(
        Registers {
            dx: if signed16(m.regs.ax) < 0 {
                0xffff
            } else {
                0
            },
            ..m.regs
        },
    )
}

/// The state after LAHF: AH is the low byte of FLAGS.
pub open spec fn lahf_spec(m: Machine) -> Machine {
    m.with_regs(Registers { ax: with_hi(m.regs.ax, lo(m.regs.flags.bi)), ..m.regs })
}

/// The state after SAHF: the flags of the low byte of FLAGS loaded from
/// AH, the high byte kept.
pub open spec fn sahf_spec(m: Machine) -> Machine {
    m.with_flags(Flags { bi: flags_of_word(with_lo(m.regs.flags.bi, hi(m.regs.ax))) })
}

/// The state after XLAT: AL is the byte at `DS:(BX + AL)`, the offset
/// taken modulo 2^16.
pub open spec fn xlat_spec(m: Machine) -> Machine {
    let off = wrap16(m.regs.bx + lo(m.regs.ax));
    let byte = load8(m.mem, linear(m.regs.ds, off as int));
    m.with_regs(Registers { ax: with_lo(m.regs.ax, byte), ..m.regs })
}

impl Cpu {
    /// Pushes a word: SP goes down by 2, then the word is written at
    /// `SS:SP`.
    pub fn push(&mut self, val: u16)
        requires
            old(self).wf(),
        ensures
            final(self).wf(),
            final(self)@ == push_spec(old(self)@, val),
    {
        self.regs.sp = sub16(self.regs.sp, 2);
        let at: u32 = self.stack_addr(self.regs.sp);
        self.write_mem_u16(at, val);
    }

    /// Pops a word: reads it at `SS:SP`, then SP goes up by 2.
    pub fn pop(&mut self) -> (v: u16)
        requires
            old(self).wf(),
        ensures
            final(self).wf(),
            v == stack_top(old(self)@),
            final(self)@ == pop_spec(old(self)@),
    {
        let at: u32 = self.stack_addr(self.regs.sp);
        let v: u16 = self.read_mem_u16(at);
        self.regs.sp = add16(self.regs.sp, 2);
        v
    }

    /// PUSHF: pushes the FLAGS word.
    pub fn pushf(&mut self)
        requires
            old(self).wf(),
        ensures
            final(self).wf(),
            final(self)@ == pushf_spec(old(self)@),
    {
        self.regs.sp = sub16(self.regs.sp, 2);
        let at: u32 = self.stack_addr(self.regs.sp);
        let w: u16 = self.regs.flags.to_u16();
        self.write_mem_u16(at, w);
    }

    /// POPF: pops the FLAGS word.
    pub fn popf(&mut self)
        requires
            old(self).wf(),
        ensures
            final(self).wf(),
            final(self)@ == popf_spec(old(self)@),
    {
        let at: u32 = self.stack_addr(self.regs.sp);
        let v: u16 = self.read_mem_u16(at);
        self.regs.flags.set_from_u16(v);
        self.regs.sp = add16(self.regs.sp, 2);
    }

    /// POP to a register, memory or segment register operand.
    pub fn pop2(&mut self, inst: &Instruction)
        requires
            old(self).wf(),
            inst.dest.is_target(),
            inst.dest.is_word(),
        ensures
            final(self).wf(),
            final(self)@ == pop_to_spec(old(self)@, inst.dest),
    {
        let at: u32 = self.stack_addr(self.regs.sp);
        let val: u16 = self.read_mem_u16(at);
        self.regs.sp = add16(self.regs.sp, 2);
        self.write_operand(inst.dest, val);
    }

    /// PUSH of a 16-bit operand.
    pub fn push_mem(&mut self, inst: &Instruction)
        requires
            old(self).wf(),
            inst.src.is_value(),
            inst.src.is_word(),
        ensures
            final(self).wf(),
            final(self)@ == push_from_spec(old(self)@, inst.src),
    {
        let val: u16 = self.operand_value(inst.src);
        self.push(val);
    }

    /// XCHG: swaps the two operands.
    pub fn exchg(&mut self, inst: &Instruction)
        requires
            old(self).wf(),
            exchg_takes(inst.dest, inst.src),
        ensures
            final(self).wf(),
            final(self)@ == exchg_spec(old(self)@, inst.dest, inst.src),
    {
        let d: u16 = self.operand_value(inst.dest);
        let s: u16 = self.operand_value(inst.src);
        self.write_operand(inst.src, d);
        self.write_operand(inst.dest, s);
    }

    /// MOV: copies the source to the destination; no flag changes.
    pub fn mov(&mut self, inst: &Instruction)
        requires
            old(self).wf(),
            mov_takes(inst.dest, inst.src),
        ensures
            final(self).wf(),
            final(self)@ == mov_spec(old(self)@, inst.dest, inst.src),
    {
        let s: u16 = self.operand_value(inst.src);
        self.write_operand(inst.dest, s);
    }

    /// LEA: stores the offset of the memory operand, not what is there.
    pub fn lea(&mut self, inst: &Instruction)
        requires
            old(self).wf(),
            reg_and_memory(inst.dest, inst.src),
        ensures
            final(self).wf(),
            final(self)@ == lea_spec(old(self)@, inst.dest, inst.src),
    {
        match inst.dest {
            Operand::Reg16(r) => match inst.src {
                Operand::Mem16(_, m) => {
                    self.set_reg(r, true, crate::cpu::low_word(m));
                },
                _ => {},
            },
            _ => {},
        }
    }

    /// CBW: extends the sign of AL into AH.
    pub fn cbw(&mut self)
        ensures
            final(self)@ == cbw_spec(old(self)@),
            final(self).mem == old(self).mem,
    {
        if self.regs.get_al() >= 0x80 {
            self.regs.set_ah(255);
        } else {
            self.regs.set_ah(0);
        }
    }

    /// CWD: extends the sign of AX into DX.
    pub fn cwd(&mut self)
        ensures
            final(self)@ == cwd_spec(old(self)@),
            final(self).mem == old(self).mem,
    {
        if self.regs.get_ax() >= 0x8000 {
            self.regs.set_dx(0xffff);
        } else {
            self.regs.set_dx(0);
        }
    }

    /// LAHF: copies the low byte of FLAGS to AH.
    pub fn lahf(&mut self)
        ensures
            final(self)@ == lahf_spec(old(self)@),
            final(self).mem == old(self).mem,
    {
        let v: u16 = self.regs.flags.to_u16();
        self.regs.set_ah(crate::regs::low_byte(v));
    }

    /// SAHF: loads the low byte of FLAGS from AH.
    pub fn sahf(&mut self)
        ensures
            final(self)@ == sahf_spec(old(self)@),
            final(self).mem == old(self).mem,
    {
        let v: u16 = replace_low(self.regs.flags.to_u16(), self.regs.get_ah());
        self.regs.flags.set_from_u16(v);
    }

    /// XLAT: replaces AL by the table byte at `DS:(BX + AL)`.
    pub fn xlat(&mut self)
        requires
            old(self).wf(),
        ensures
            final(self).wf(),
            final(self)@ == xlat_spec(old(self)@),
    {
        let offt: u16 = add16(self.regs.bx, word_of(self.regs.get_al()));
        let at: u32 = self.data_addr(offt);
        let byte: u8 = self.read_mem_u8(at);
        self.regs.set_al(byte);
    }

    /// LES: loads a register and ES from a far pointer in memory.
    pub fn les(&mut self, inst: &Instruction)
        requires
            old(self).wf(),
            reg_and_memory(inst.dest, inst.src),
        ensures
            final(self).wf(),
            final(self)@ == load_far_spec(old(self)@, inst.dest, inst.src, true),
    {
        match inst.dest {
            Operand::Reg16(r) => match inst.src {
                Operand::Mem16(m, _) => {
                    let w: u16 = self.read_mem_u16(m);
                    let seg: u16 = self.read_mem_u16(m.wrapping_add(2));
                    self.set_reg(r, true, w);
                    self.regs.es = seg;
                },
                _ => {},
            },
            _ => {},
        }
    }

    /// LDS: loads a register and DS from a far pointer in memory.
    pub fn lds(&mut self, inst: &Instruction)
        requires
            old(self).wf(),
            reg_and_memory(inst.dest, inst.src),
        ensures
            final(self).wf(),
            final(self)@ == load_far_spec(old(self)@, inst.dest, inst.src, false),
    {
        match inst.dest {
            Operand::Reg16(r) => match inst.src {
                Operand::Mem16(m, _) => {
                    let w: u16 = self.read_mem_u16(m);
                    let seg: u16 = self.read_mem_u16(m.wrapping_add(2));
                    self.set_reg(r, true, w);
                    self.regs.ds = seg;
                },
                _ => {},
            },
            _ => {},
        }
    }
}

} // verus!
