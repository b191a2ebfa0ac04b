//! Multiplication and division: MUL, IMUL, DIV and IDIV.
//!
//! A byte operation multiplies AL into AX, or divides AX into AL and AH.
//! A word operation multiplies AX into DX:AX, or divides DX:AX into AX
//! and DX. A division by zero, or one whose quotient does not fit, stops
//! the processor and changes no register.

use vstd::prelude::*;
use crate::alu::{fits, representable, signed_value};
use crate::bcd::wrap8;
use crate::cpu::{operand_value, wide, wrap16, Cpu, Fault, Instruction, Machine, Operand};
use crate::mem::{signed16, signed8};
use crate::regs::{lo, low_byte, with_hi, with_lo, Flags, Registers, CF, OF};

verus! {

/// `x` without its sign.
pub open spec fn magnitude(x: int) -> int {
    if x < 0 {
        -x
    } else {
        x
    }
}

/// The quotient of `a` by `b`, rounded towards zero.
pub open spec fn quotient(a: int, b: int) -> int {
    let q = magnitude(a) / magnitude(b);
    if (a < 0) != (b < 0) {
        -q
    } else {
        q
    }
}

/// The remainder that goes with `quotient`: it has the sign of `a`.
pub open spec fn remainder(a: int, b: int) -> int {
    let r = magnitude(a) % magnitude(b);
    if a < 0 {
        -r
    } else {
        r
    }
}

/// The two's-complement reading of the 32 bits of `DX:AX`.
pub open spec fn signed32(high: u16, low: u16) -> int {
    signed16(high) * 0x1_0000 + low
}

/// The flags after a multiplication: CF and OF both say whether the
/// upper half of the product carries information.
pub open spec fn product_flags(f: Flags, significant: bool) -> Flags {
    f.with(OF, significant).with(CF, significant)
}

/// The state after MUL. CF and OF are set when the upper half of the
/// product is not zero.
pub open spec fn mul_spec(m: Machine, dest: Operand) -> Machine {
    let op = operand_value(m, dest);
    if dest.is_word() {
        let p = m.regs.ax * op;
        m.with_regs(
            Registers {
                ax: wrap16(p),
                dx: wrap16(p / 0x1_0000),
                flags: product_flags(m.regs.flags, p >= 0x1_0000),
                ..m.regs
            },
        )
    } else {
        let p = lo(m.regs.ax) * op;
        m.with_regs(
            Registers { ax: wrap16(p), flags: product_flags(m.regs.flags, p >= 0x100), ..m.regs },
        )
    }
}

/// The state after IMUL. CF and OF are set when the product cannot be
/// written in the width of the operands.
pub open spec fn imul_spec(m: Machine, dest: Operand) -> Machine {
    let op = operand_value(m, dest);
    if dest.is_word() {
        let p = signed16(m.regs.ax) * signed16(op);
        m.with_regs(
            Registers {
                ax: wrap16(p),
                dx: wrap16(p / 0x1_0000),
                flags: product_flags(m.regs.flags, !representable(p, true)),
                ..m.regs
            },
        )
    } else {
        let p = signed8(lo(m.regs.ax)) * signed8(lo(op));
        m.with_regs(
            Registers {
                ax: wrap16(p),
                flags: product_flags(m.regs.flags, !representable(p, false)),
                ..m.regs
            },
        )
    }
}

/// Whether DIV fails: the divisor is zero or the quotient does not fit.
pub open spec fn div_fails(m: Machine, dest: Operand) -> bool {
    let op = operand_value(m, dest);
    if dest.is_word() {
        op == 0 || (m.regs.dx * 0x1_0000 + m.regs.ax) / (op as int) > 0xffff
    } else {
        op == 0 || m.regs.ax / op > 0xff
    }
}

/// The state after DIV.
pub open spec fn div_spec(m: Machine, dest: Operand) -> Machine {
    let op = operand_value(m, dest);
    if div_fails(m, dest) {
        m.stopped(Fault::Divide)
    } else if dest.is_word() {
        let n = m.regs.dx * 0x1_0000 + m.regs.ax;
        m.with_regs(Registers { ax: (n / (op as int)) as u16, dx: (n % (op as int)) as u16, ..m.regs })
    } else {
        m.with_regs(
            Registers {
                ax: with_hi(
                    with_lo(m.regs.ax, (m.regs.ax / op) as u8),
                    (m.regs.ax % op) as u8,
                ),
                ..m.regs
            },
        )
    }
}

/// The dividend of IDIV.
pub open spec fn signed_dividend(m: Machine, word: bool) -> int {
    if word {
        signed32(m.regs.dx, m.regs.ax)
    } else {
        signed16(m.regs.ax)
    }
}

/// The divisor of IDIV.
pub open spec fn signed_divisor(m: Machine, dest: Operand) -> int {
    if dest.is_word() {
        signed16(operand_value(m, dest))
    } else {
        signed8(lo(operand_value(m, dest)))
    }
}

/// Whether IDIV fails: the divisor is zero or the quotient, rounded
/// towards zero, cannot be written in the operand's width.
pub open spec fn idiv_fails(m: Machine, dest: Operand) -> bool {
    let d = signed_divisor(m, dest);
    d == 0 || !representable(quotient(signed_dividend(m, dest.is_word()), d), dest.is_word())
}

/// The state after IDIV.
pub open spec fn idiv_spec(m: Machine, dest: Operand) -> Machine {
    let n = signed_dividend(m, dest.is_word());
    let d = signed_divisor(m, dest);
    if idiv_fails(m, dest) {
        m.stopped(Fault::Divide)
    } else if dest.is_word() {
        m.with_regs(Registers { ax: wrap16(quotient(n, d)), dx: wrap16(remainder(n, d)), ..m.regs })
    } else {
        m.with_regs(
            Registers {
                ax: with_hi(with_lo(m.regs.ax, wrap8(quotient(n, d))), wrap8(remainder(n, d))),
                ..m.regs
            },
        )
    }
}

/// The low 16 bits of a number given by its magnitude and its sign.
pub fn signed_word(mag: u32, negative: bool) -> (w: u16)
    requires
        mag <= 0x8000_0000,
    ensures
        w == wrap16(
            if negative {
                -(mag as int)
            } else {
                mag as int
            },
        ),
{
    if negative {
        proof {
            vstd::arithmetic::div_mod::lemma_mod_multiples_vanish(0x1_0000, -(mag as int), 0x1_0000);
        }
        ((0x1_0000_0000u64 - mag as u64) % 0x1_0000) as u16
    } else {
        (mag % 0x1_0000) as u16
    }
}

/// `x` without its sign.
pub fn magnitude_of(x: i32) -> (mag: u32)
    ensures
        mag == magnitude(x as int),
{
    if x < 0 {
        (-(x as i64)) as u32
    } else {
        x as u32
    }
}

/// The divisor of IDIV for an operand value: it read as two's complement
/// in its width.
pub fn signed_divisor_of(op: u16, word: bool) -> (d: i32)
    ensures
        d == (if word {
            signed16(op)
        } else {
            signed8(lo(op))
        }),
{
    if word {
        signed_value(op, true)
    } else {
        signed_value(low_byte(op) as u16, false)
    }
}

/// The low byte of the low word of a number is its low byte.
pub proof fn lemma_low_byte(x: int)
    ensures
        lo(wrap16(x)) == wrap8(x),
{
    vstd::arithmetic::div_mod::lemma_mod_mod(x, 0x100, 0x100);
}

/// Divides `n` by `d`, rounding towards zero. Gives the low 16 bits of
/// the quotient and of the remainder, or nothing if `d` is zero or the
/// quotient cannot be written in W bits.
#[verifier::rlimit(50)]
pub fn divided(n: i32, d: i32, word: bool) -> (res: Option<(u16, u16)>)
    ensures
        res.is_none() == (d == 0 || !representable(quotient(n as int, d as int), word)),
        res matches Some((q, r)) ==> q == wrap16(quotient(n as int, d as int)) && r == wrap16(
            remainder(n as int, d as int),
        ),
{
    if d == 0 {
        return None;
    }
    let negative: bool = (n < 0) != (d < 0);
    let q: u32 = magnitude_of(n) / magnitude_of(d);
    let r: u32 = magnitude_of(n) % magnitude_of(d);
    let limit: u32 = if word {
        0x8000
    } else {
        0x80
    };
    if q > limit || (q == limit && !negative) {
        return None;
    }
    Some((signed_word(q, negative), signed_word(r, n < 0)))
}

impl Cpu {
    /// MUL: unsigned multiplication of the accumulator.
    #[verifier::rlimit(50)]
    pub fn mul(&mut self, inst: &Instruction)
        requires
            old(self).wf(),
            inst.dest.is_place(),
        ensures
            final(self).wf(),
            final(self)@ == mul_spec(old(self)@, inst.dest),
    {
        let op: u16 = self.operand_value(inst.dest);
        if inst.dest.word() {
            let ax: u16 = self.regs.ax;
            assert(ax * op <= 0xffff * 0xffff) by (nonlinear_arith)
                requires
                    ax <= 0xffff,
                    op <= 0xffff,
            ;
            let res: u32 = wide(ax) * wide(op);
            let high: u16 = (res / 0x1_0000) as u16;
            self.regs.flags.put(OF, high != 0);
            self.regs.flags.put(CF, high != 0);
            self.regs.ax = (res % 0x1_0000) as u16;
            self.regs.dx = high;
        } else {
            let al: u8 = self.regs.get_al();
            assert(al * op <= 0xff * 0xff) by (nonlinear_arith)
                requires
                    al <= 0xff,
                    op <= 0xff,
            ;
            let res: u16 = (al as u16) * op;
            self.regs.flags.put(OF, res >= 0x100);
            self.regs.flags.put(CF, res >= 0x100);
            self.regs.ax = res;
        }
    }

    /// IMUL: signed multiplication of the accumulator.
    #[verifier::rlimit(50)]
    pub fn imul(&mut self, inst: &Instruction)
        requires
            old(self).wf(),
            inst.dest.is_place(),
        ensures
            final(self).wf(),
            final(self)@ == imul_spec(old(self)@, inst.dest),
    {
        let op: u16 = self.operand_value(inst.dest);
        let word: bool = inst.dest.word();
        let a: i32 = if word {
            signed_value(self.regs.ax, true)
        } else {
            signed_value(self.regs.get_al() as u16, false)
        };
        let b: i32 = signed_value(op, word);
        assert(-0x4000_0000 <= a * b <= 0x4000_0000) by (nonlinear_arith)
            requires
                -0x8000 <= a <= 0x8000,
                -0x8000 <= b <= 0x8000,
        ;
        let p: i32 = a * b;
        let significant: bool = !fits(p, word);
        let lifted: u64 = (p as i64 + 0x1_0000_0000) as u64;
        proof {
            vstd::arithmetic::div_mod::lemma_mod_multiples_vanish(0x1_0000, p as int, 0x1_0000);
        }
        self.regs.flags.put(OF, significant);
        self.regs.flags.put(CF, significant);
        self.regs.ax = (lifted % 0x1_0000) as u16;
        if word {
            self.regs.dx = ((lifted / 0x1_0000) % 0x1_0000) as u16;
        }
    }

    /// The dividend of IDIV: AX for a byte operation, DX:AX for a word
    /// operation, read as two's complement.
    pub fn signed_dividend(&self, word: bool) -> (n: i32)
        ensures
            n == signed_dividend(self@, word),
    {
        if word {
            signed_value(self.regs.dx, true) * 0x1_0000 + self.regs.ax as i32
        } else {
            signed_value(self.regs.ax, true)
        }
    }

    /// Puts quotient and remainder where a division leaves them: in AX
    /// and DX, or in AL and AH.
    pub fn set_division(&mut self, quot: u16, rem: u16, word: bool)
        ensures
            final(self).mem == old(self).mem,
            final(self)@ == old(self)@.with_regs(
                if word {
                    Registers { ax: quot, dx: rem, ..old(self).regs }
                } else {
                    Registers {
                        ax: with_hi(with_lo(old(self).regs.ax, lo(quot)), lo(rem)),
                        ..old(self).regs
                    }
                },
            ),
    {
        if word {
            self.regs.ax = quot;
            self.regs.dx = rem;
        } else {
            self.regs.set_al(low_byte(quot));
            self.regs.set_ah(low_byte(rem));
        }
    }

    /// IDIV: signed division of the accumulator.
    #[verifier::rlimit(50)]
    pub fn idiv(&mut self, inst: &Instruction)
        requires
            old(self).wf(),
            inst.dest.is_place(),
        ensures
            final(self).wf(),
            final(self)@ == idiv_spec(old(self)@, inst.dest),
    {
        let op: u16 = self.operand_value(inst.dest);
        let word: bool = inst.dest.word();
        let d: i32 = signed_divisor_of(op, word);
        let n: i32 = self.signed_dividend(word);
        match divided(n, d, word) {
            None => {
                self.raise(Fault::Divide);
            },
            Some((quot, rem)) => {
                proof {
                    lemma_low_byte(quotient(n as int, d as int));
                    lemma_low_byte(remainder(n as int, d as int));
                }
                self.set_division(quot, rem, word);
            },
        }
    }

    /// DIV: unsigned division of the accumulator.
    #[verifier::rlimit(50)]
    pub fn div(&mut self, inst: &Instruction)
        requires
            old(self).wf(),
            inst.dest.is_place(),
        ensures
            final(self).wf(),
            final(self)@ == div_spec(old(self)@, inst.dest),
    {
        let op: u16 = self.operand_value(inst.dest);
        if op == 0 {
            self.raise(Fault::Divide);
            return ;
        }
        let word: bool = inst.dest.word();
        let n: u32 = if word {
            wide(self.regs.dx) * 0x1_0000 + wide(self.regs.ax)
        } else {
            wide(self.regs.ax)
        };
        let q: u32 = n / wide(op);
        let r: u32 = n % wide(op);
        let limit: u32 = if word {
            0xffff
        } else {
            0xff
        };
        if q > limit {
            self.raise(Fault::Divide);
        } else {
            self.set_division(q as u16, r as u16, word);
        }
    }
}

} // verus!
