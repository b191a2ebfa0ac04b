//! Control transfer: conditional jumps, JMP, CALL, RET, the LOOP family,
//! INT, INTO, IRET, the flag instructions and HLT.
//!
//! A relative displacement counts from the instruction pointer as the
//! decoder left it: just past the instruction.

use vstd::prelude::*;
use crate::cpu::{
    add16,
    reg16,
    sign_extended,
    sub16,
    wrap16,
    Cpu,
    Instruction,
    Machine,
    Opcode,
    Operand,
};
use crate::data::{pop_spec, push_spec, stack_top};
use crate::mem::{load16, signed16, signed8};
use crate::regs::{flags_of_word, Flags, Registers, CF, IF, OF, PF, SF, ZF};

verus! {

/// The state after a short relative jump: IP moved by the displacement
/// read as two's complement, modulo 2^16.
pub open spec fn jump_short_spec(m: Machine, disp: u8) -> Machine {
    m.with_ip(wrap16(m.regs.ip + signed8(disp)))
}

/// The state after a near relative jump: IP moved by the displacement
/// read as two's complement, modulo 2^16.
pub open spec fn jump_long_spec(m: Machine, disp: u16) -> Machine {
    m.with_ip(wrap16(m.regs.ip + signed16(disp)))
}

/// Whether a conditional jump is taken with the given flags.
pub open spec fn jump_taken(op: Opcode, f: Flags) -> bool {
    match op {
        Opcode::Jo => f.has(OF),
        Opcode::Jno => !f.has(OF),
        Opcode::Jb => f.has(CF),
        Opcode::Jnb => !f.has(CF),
        Opcode::Jz => f.has(ZF),
        Opcode::Jnz => !f.has(ZF),
        Opcode::Jbe => f.has(CF) || f.has(ZF),
        Opcode::Jnbe => !f.has(CF) && !f.has(ZF),
        Opcode::Js => f.has(SF),
        Opcode::Jns => !f.has(SF),
        Opcode::Jp => f.has(PF),
        Opcode::Jnp => !f.has(PF),
        Opcode::Jl => f.has(SF) != f.has(OF),
        Opcode::Jnl => f.has(SF) == f.has(OF),
        Opcode::Jle => f.has(SF) != f.has(OF) || f.has(ZF),
        Opcode::Jnle => f.has(SF) == f.has(OF) && !f.has(ZF),
        _ => false,
    }
}

/// The state after a conditional short jump. With a destination that is
/// no 8-bit immediate nothing happens.
pub open spec fn jump_if_spec(m: Machine, op: Opcode, dest: Operand) -> Machine {
    match dest {
        Operand::Imm8(disp) => if jump_taken(op, m.regs.flags) {
            jump_short_spec(m, disp)
        } else {
            m
        },
        _ => m,
    }
}

/// The state after LOOP, LOOPE (`want_zero` is `Some(true)`) or LOOPNE
/// (`Some(false)`): CX is one lower, modulo 2^16, and the jump is taken
/// if CX is not zero then and ZF is as wanted.
pub open spec fn loop_spec(m: Machine, dest: Operand, want_zero: Option<bool>) -> Machine {
    let cx = wrap16(m.regs.cx - 1);
    let counted = m.with_regs(Registers { cx, ..m.regs });
    let agreed = match want_zero {
        Some(z) => m.regs.flags.has(ZF) == z,
        None => true,
    };
    match dest {
        Operand::Imm8(disp) => if cx != 0 && agreed {
            jump_short_spec(counted, disp)
        } else {
            counted
        },
        _ => counted,
    }
}

/// The state after JCXZ: the jump is taken if CX is zero.
pub open spec fn jcxz_spec(m: Machine, dest: Operand) -> Machine {
    match dest {
        Operand::Imm8(disp) => if m.regs.cx == 0 {
            jump_short_spec(m, disp)
        } else {
            m
        },
        _ => m,
    }
}

/// Whether a near JMP or CALL takes this source: a relative displacement
/// of 8 or 16 bits, or a 16-bit register or memory word holding the
/// target.
pub open spec fn near_target(src: Operand) -> bool {
    match src {
        Operand::Imm16(_) => true,
        Operand::Imm8(_) => true,
        Operand::Reg16(r) => r < 8,
        Operand::Mem16(_, _) => true,
        _ => false,
    }
}

/// The state after a near jump to `src`.
pub open spec fn jmp_near_spec(m: Machine, src: Operand) -> Machine {
    match src {
        Operand::Imm16(disp) => jump_long_spec(m, disp),
        Operand::Imm8(disp) => jump_short_spec(m, disp),
        Operand::Reg16(r) => m.with_ip(reg16(m.regs, r)),
        Operand::Mem16(a, _) => m.with_ip(load16(m.mem, a as int)),
        _ => m,
    }
}

/// The state after a near CALL: IP pushed, then the jump. A target in a
/// register or in memory is read after the push.
pub open spec fn call_near_spec(m: Machine, src: Operand) -> Machine {
    jmp_near_spec(push_spec(m, m.regs.ip), src)
}

/// Whether a far JMP or CALL finds its target in `(ptr, other)`: a
/// far pointer in memory, or two 16-bit immediates.
pub open spec fn far_target(ptr: Operand, other: Operand) -> bool {
    ptr is Mem16 || (ptr is Imm16 && other is Imm16)
}

/// The state after loading CS:IP for a far transfer: from the two words
/// at a memory operand, or from an immediate offset and an immediate
/// segment.
pub open spec fn far_spec(m: Machine, ptr: Operand, offset: Operand, segment: Operand) -> Machine {
    match ptr {
        Operand::Mem16(a, _) => m.with_regs(
            Registers { ip: load16(m.mem, a as int), cs: load16(m.mem, a + 2), ..m.regs },
        ),
        _ => match (offset, segment) {
            (Operand::Imm16(ip), Operand::Imm16(cs)) => m.with_regs(Registers { ip, cs, ..m.regs }),
            _ => m,
        },
    }
}

/// The state after a far JMP. The far pointer, if any, is the source;
/// of two immediates the destination is the offset.
pub open spec fn jmp_far_spec(m: Machine, dest: Operand, src: Operand) -> Machine {
    far_spec(m, src, dest, src)
}

/// The state after a far CALL: CS pushed, IP pushed, then the transfer.
/// The far pointer, if any, is the destination; of two immediates the
/// destination is the offset.
pub open spec fn call_far_spec(m: Machine, dest: Operand, src: Operand) -> Machine {
    far_spec(push_spec(push_spec(m, m.regs.cs), m.regs.ip), dest, dest, src)
}

/// SP moved up by a 16-bit immediate destination, if there is one.
pub open spec fn released(m: Machine, dest: Operand) -> Machine {
    match dest {
        Operand::Imm16(n) => m.with_regs(Registers { sp: wrap16(m.regs.sp + n), ..m.regs }),
        _ => m,
    }
}

/// The state after a near RET: IP popped, then SP moved up by the
/// immediate, if there is one.
pub open spec fn ret_spec(m: Machine, dest: Operand) -> Machine {
    released(pop_spec(m).with_ip(stack_top(m)), dest)
}

/// The state after a far RET: IP popped, CS popped, then SP moved up by
/// the immediate, if there is one.
pub open spec fn retf_spec(m: Machine, dest: Operand) -> Machine {
    let m1 = pop_spec(m).with_ip(stack_top(m));
    let m2 = pop_spec(m1).with_regs(Registers { cs: stack_top(m1), ..pop_spec(m1).regs });
    released(m2, dest)
}

/// The state after entering interrupt `n`: FLAGS, CS and IP pushed, IF
/// cleared, CS:IP loaded from the vector at physical address `4 * n`.
pub open spec fn interrupt_spec(m: Machine, n: u8) -> Machine {
    let pushed = push_spec(push_spec(push_spec(m, m.regs.flags.bi), m.regs.cs), m.regs.ip);
    let masked = pushed.with_flags(pushed.regs.flags.with(IF, false));
    masked.with_regs(
        Registers {
            ip: load16(masked.mem, 4 * n),
            cs: load16(masked.mem, 4 * n + 2),
            ..masked.regs
        },
    )
}

/// The state after INT. The vector number is the 8-bit immediate
/// destination.
pub open spec fn int_spec(m: Machine, dest: Operand) -> Machine {
    match dest {
        Operand::Imm8(n) => interrupt_spec(m, n),
        _ => m,
    }
}

/// The state after INTO: interrupt 4 if OF is set, else nothing.
pub open spec fn into_spec(m: Machine) -> Machine {
    if m.regs.flags.has(OF) {
        interrupt_spec(m, 4)
    } else {
        m
    }
}

/// The state after IRET: IP, CS and the flags popped, in this order.
pub open spec fn iret_spec(m: Machine) -> Machine {
    let m1 = pop_spec(m).with_ip(stack_top(m));
    let m2 = pop_spec(m1).with_regs(Registers { cs: stack_top(m1), ..pop_spec(m1).regs });
    pop_spec(m2).with_flags(Flags { bi: flags_of_word(stack_top(m2)) })
}

/// The state after HLT.
pub open spec fn hlt_spec(m: Machine) -> Machine {
    Machine { halt: true, ..m }
}

/// The state after CMC: CF inverted.
pub open spec fn cmc_spec(m: Machine) -> Machine {
    m.with_flags(m.regs.flags.with(CF, !m.regs.flags.has(CF)))
}

impl Cpu {
    /// Moves IP by an 8-bit displacement read as two's complement.
    pub fn adjust_ip_short(&mut self, val: u8)
        ensures
            final(self)@ == jump_short_spec(old(self)@, val),
            final(self).mem == old(self).mem,
    {
        proof {
            vstd::arithmetic::div_mod::lemma_mod_add_multiples_vanish(
                self.regs.ip + signed8(val),
                0x1_0000,
            );
        }
        self.regs.ip = add16(self.regs.ip, sign_extended(val));
    }

    /// Moves IP by a 16-bit displacement read as two's complement.
    pub fn adjust_ip_long(&mut self, val: u16)
        ensures
            final(self)@ == jump_long_spec(old(self)@, val),
            final(self).mem == old(self).mem,
    {
        proof {
            vstd::arithmetic::div_mod::lemma_mod_add_multiples_vanish(
                self.regs.ip + signed16(val),
                0x1_0000,
            );
        }
        self.regs.ip = add16(self.regs.ip, val);
    }

    /// Whether a conditional jump is taken now.
    pub fn jump_taken(&self, op: Opcode) -> (taken: bool)
        ensures
            taken == jump_taken(op, self.regs.flags),
    {
        let f = &self.regs.flags;
        match op {
            Opcode::Jo => f.of(),
            Opcode::Jno => !f.of(),
            Opcode::Jb => f.cf(),
            Opcode::Jnb => !f.cf(),
            Opcode::Jz => f.zf(),
            Opcode::Jnz => !f.zf(),
            Opcode::Jbe => f.cf() || f.zf(),
            Opcode::Jnbe => !f.cf() && !f.zf(),
            Opcode::Js => f.sf(),
            Opcode::Jns => !f.sf(),
            Opcode::Jp => f.pf(),
            Opcode::Jnp => !f.pf(),
            Opcode::Jl => f.sf() != f.of(),
            Opcode::Jnl => f.sf() == f.of(),
            Opcode::Jle => (f.sf() != f.of()) || f.zf(),
            Opcode::Jnle => (f.sf() == f.of()) && !f.zf(),
            _ => false,
        }
    }

    /// A conditional short jump.
    pub fn jump_if(&mut self, inst: &Instruction)
        ensures
            final(self)@ == jump_if_spec(old(self)@, inst.opcode, inst.dest),
            final(self).mem == old(self).mem,
    {
        if let Operand::Imm8(i) = inst.dest {
            if self.jump_taken(inst.opcode) {
                self.adjust_ip_short(i);
            }
        }
    }

    /// LOOP: counts CX down and jumps while it is not zero.
    pub fn loopp(&mut self, inst: &Instruction)
        ensures
            final(self)@ == loop_spec(old(self)@, inst.dest, None),
            final(self).mem == old(self).mem,
    {
        self.regs.cx = sub16(self.regs.cx, 1);
        if self.regs.cx != 0 {
            if let Operand::Imm8(i) = inst.dest {
                self.adjust_ip_short(i);
            }
        }
    }

    /// LOOPE: counts CX down and jumps while it is not zero and ZF is set.
    pub fn loope(&mut self, inst: &Instruction)
        ensures
            final(self)@ == loop_spec(old(self)@, inst.dest, Some(true)),
            final(self).mem == old(self).mem,
    {
        self.regs.cx = sub16(self.regs.cx, 1);
        if self.regs.cx != 0 && self.regs.flags.zf() {
            if let Operand::Imm8(i) = inst.dest {
                self.adjust_ip_short(i);
            }
        }
    }

    /// LOOPNE: counts CX down and jumps while it is not zero and ZF is
    /// clear.
    pub fn loopne(&mut self, inst: &Instruction)
        ensures
            final(self)@ == loop_spec(old(self)@, inst.dest, Some(false)),
            final(self).mem == old(self).mem,
    {
        self.regs.cx = sub16(self.regs.cx, 1);
        if self.regs.cx != 0 && !self.regs.flags.zf() {
            if let Operand::Imm8(i) = inst.dest {
                self.adjust_ip_short(i);
            }
        }
    }

    /// JCXZ: jumps if CX is zero.
    pub fn jcxz(&mut self, inst: &Instruction)
        ensures
            final(self)@ == jcxz_spec(old(self)@, inst.dest),
            final(self).mem == old(self).mem,
    {
        if self.regs.cx == 0 {
            if let Operand::Imm8(i) = inst.dest {
                self.adjust_ip_short(i);
            }
        }
    }

    /// A near JMP, relative or through a register or a memory word.
    pub fn jmp_near(&mut self, inst: &Instruction)
        requires
            old(self).wf(),
            near_target(inst.src),
        ensures
            final(self).wf(),
            final(self)@ == jmp_near_spec(old(self)@, inst.src),
    {
        match inst.src {
            Operand::Imm16(imm) => {
                self.adjust_ip_long(imm);
            },
            Operand::Imm8(imm) => {
                self.adjust_ip_short(imm);
            },
            Operand::Reg16(r) => {
                self.regs.ip = self.get_reg(r, true);
            },
            Operand::Mem16(pos, _) => {
                self.regs.ip = self.read_mem_u16(pos);
            },
            _ => {},
        }
    }

    /// A near CALL: pushes IP, then jumps.
    pub fn call_near(&mut self, inst: &Instruction)
        requires
            old(self).wf(),
            near_target(inst.src),
        ensures
            final(self).wf(),
            final(self)@ == call_near_spec(old(self)@, inst.src),
    {
        self.push(self.regs.ip);
        self.jmp_near(inst);
    }

    /// Loads CS:IP from a far pointer in memory.
    fn load_far(&mut self, pos: u32)
        requires
            old(self).wf(),
        ensures
            final(self).wf(),
            final(self)@ == old(self)@.with_regs(
                Registers {
                    ip: load16(old(self)@.mem, pos as int),
                    cs: load16(old(self)@.mem, pos + 2),
                    ..old(self).regs
                },
            ),
    {
        let ip: u16 = self.read_mem_u16(pos);
        let cs: u16 = self.read_mem_u16(pos.wrapping_add(2));
        self.regs.ip = ip;
        self.regs.cs = cs;
    }

    /// A far CALL: pushes CS and IP, then loads both.
    pub fn call_far(&mut self, inst: &Instruction)
        requires
            old(self).wf(),
            far_target(inst.dest, inst.src),
        ensures
            final(self).wf(),
            final(self)@ == call_far_spec(old(self)@, inst.dest, inst.src),
    {
        self.push(self.regs.cs);
        self.push(self.regs.ip);
        match inst.dest {
            Operand::Imm16(ip) => match inst.src {
                Operand::Imm16(seg) => {
                    self.regs.ip = ip;
                    self.regs.cs = seg
                },
                _ => {},
            },
            Operand::Mem16(pos, _) => {
                self.load_far(pos);
            },
            _ => {},
        }
    }

    /// A far JMP: loads CS and IP.
    pub fn jmp_far(&mut self, inst: &Instruction)
        requires
            old(self).wf(),
            far_target(inst.src, inst.dest),
        ensures
            final(self).wf(),
            final(self)@ == jmp_far_spec(old(self)@, inst.dest, inst.src),
    {
        match inst.src {
            Operand::Imm16(imm) => match inst.dest {
                Operand::Imm16(imm2) => {
                    self.regs.ip = imm2;
                    self.regs.cs = imm;
                },
                _ => {},
            },
            Operand::Mem16(pos, _) => {
                self.load_far(pos);
            },
            _ => {},
        }
    }

    /// A near RET, which may release stack space after the return.
    pub fn ret(&mut self, inst: &Instruction)
        requires
            old(self).wf(),
        ensures
            final(self).wf(),
            final(self)@ == ret_spec(old(self)@, inst.dest),
    {
        self.regs.ip = self.pop();
        if let Operand::Imm16(im) = inst.dest {
            self.regs.sp = add16(self.regs.sp, im);
        }
    }

    /// A far RET, which may release stack space after the return.
    pub fn retf(&mut self, inst: &Instruction)
        requires
            old(self).wf(),
        ensures
            final(self).wf(),
            final(self)@ == retf_spec(old(self)@, inst.dest),
    {
        self.regs.ip = self.pop();
        self.regs.cs = self.pop();
        if let Operand::Imm16(im) = inst.dest {
            self.regs.sp = add16(self.regs.sp, im);
        }
    }

    /// Enters interrupt `n` through the vector table at address 0.
    pub fn interrupt(&mut self, n: u8)
        requires
            old(self).wf(),
        ensures
            final(self).wf(),
            final(self)@ == interrupt_spec(old(self)@, n),
    {
        self.push(self.regs.flags.to_u16());
        self.push(self.regs.cs);
        self.push(self.regs.ip);
        self.regs.flags.clear_if();
        let offt: u32 = (n as u32) * 4;
        self.load_far(offt);
    }

    /// INT: enters the interrupt that the 8-bit immediate destination
    /// names.
    pub fn int_n(&mut self, inst: &Instruction)
        requires
            old(self).wf(),
        ensures
            final(self).wf(),
            final(self)@ == int_spec(old(self)@, inst.dest),
    {
        if let Operand::Imm8(imm) = inst.dest {
            self.interrupt(imm);
        }
    }

    /// INTO: enters interrupt 4 if OF is set.
    pub fn into(&mut self, inst: &Instruction)
        requires
            old(self).wf(),
        ensures
            final(self).wf(),
            final(self)@ == into_spec(old(self)@),
    {
        if self.regs.flags.of() {
            self.interrupt(4);
        }
    }

    /// IRET: pops IP, CS and FLAGS.
    pub fn iret(&mut self, inst: &Instruction)
        requires
            old(self).wf(),
        ensures
            final(self).wf(),
            final(self)@ == iret_spec(old(self)@),
    {
        self.regs.ip = self.pop();
        self.regs.cs = self.pop();
        let f: u16 = self.pop();
        self.regs.flags.set_from_u16(f);
    }

    /// HLT: raises the halt flag.
    pub fn hlt(&mut self)
        ensures
            final(self)@ == hlt_spec(old(self)@),
            final(self).mem == old(self).mem,
    {
        self.halt = true;
    }

    /// CMC: inverts CF.
    pub fn cmc(&mut self)
        ensures
            final(self)@ == cmc_spec(old(self)@),
            final(self).mem == old(self).mem,
    {
        if self.regs.flags.cf() {
            self.regs.flags.clear_cf();
        } else {
            self.regs.flags.set_cf();
        }
    }
}

} // verus!
