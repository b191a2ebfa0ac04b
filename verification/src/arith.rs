//! The arithmetic and logic instructions: ADD, ADC, SUB, SBB, CMP, INC,
//! DEC, AND, OR, XOR, TEST, NEG and NOT.
//!
//! The width of an operation is that of its destination. A source wider
//! than the destination counts with its low bits only.

use vstd::prelude::*;
use crate::alu::{
    difference,
    difference_outcome,
    flags_after,
    flags_after_keeping_carry,
    logic,
    logic_outcome,
    modulus,
    narrowed,
    status_shown,
    sum,
    sum_outcome,
    truncated,
    Outcome,
};
use crate::cpu::{operand_value, put_operand, wide, BitOp, Cpu, Instruction, Machine, Operand};
use crate::regs::CF;

verus! {

/// The value of a source operand for an operation of the given width.
pub open spec fn source_value(m: Machine, s: Operand, word: bool) -> u16 {
    truncated(operand_value(m, s) as int, word) as u16
}

/// What ADD (or ADC, with `adc`) computes from the state `m`.
pub open spec fn add_outcome(m: Machine, d: Operand, s: Operand, adc: bool) -> Outcome {
    sum_outcome(
        operand_value(m, d),
        source_value(m, s, d.is_word()),
        adc && m.regs.flags.has(CF),
        d.is_word(),
    )
}

/// The state after ADD or ADC: the six status flags set from the
/// outcome, the result written to the destination.
pub open spec fn add_spec(m: Machine, d: Operand, s: Operand, adc: bool) -> Machine {
    let o = add_outcome(m, d, s, adc);
    put_operand(m.with_flags(flags_after(m.regs.flags, o)), d, o.value)
}

/// What SUB (or SBB, with `sbb`) and CMP compute from the state `m`.
pub open spec fn sub_outcome(m: Machine, d: Operand, s: Operand, sbb: bool) -> Outcome {
    difference_outcome(
        operand_value(m, d),
        source_value(m, s, d.is_word()),
        sbb && m.regs.flags.has(CF),
        d.is_word(),
    )
}

/// The state after SUB, SBB or CMP: the six status flags set from the
/// outcome; the result written to the destination unless `discard` holds.
pub open spec fn sub_spec(m: Machine, d: Operand, s: Operand, sbb: bool, discard: bool) -> Machine {
    let o = sub_outcome(m, d, s, sbb);
    let flagged = m.with_flags(flags_after(m.regs.flags, o));
    if discard {
        flagged
    } else {
        put_operand(flagged, d, o.value)
    }
}

/// What INC computes.
pub open spec fn inc_outcome(m: Machine, d: Operand) -> Outcome {
    sum_outcome(operand_value(m, d), 1, false, d.is_word())
}

/// The state after INC: as ADD of 1, with CF left as it was.
pub open spec fn inc_spec(m: Machine, d: Operand) -> Machine {
    let o = inc_outcome(m, d);
    put_operand(m.with_flags(flags_after_keeping_carry(m.regs.flags, o)), d, o.value)
}

/// What DEC computes.
pub open spec fn dec_outcome(m: Machine, d: Operand) -> Outcome {
    difference_outcome(operand_value(m, d), 1, false, d.is_word())
}

/// The state after DEC: as SUB of 1, with CF left as it was.
pub open spec fn dec_spec(m: Machine, d: Operand) -> Machine {
    let o = dec_outcome(m, d);
    put_operand(m.with_flags(flags_after_keeping_carry(m.regs.flags, o)), d, o.value)
}

/// What AND, OR, XOR and TEST compute.
pub open spec fn bit_op_outcome(m: Machine, d: Operand, s: Operand, op: BitOp) -> Outcome {
    logic_outcome(operand_value(m, d), source_value(m, s, d.is_word()), op, d.is_word())
}

/// The state after AND, OR, XOR or TEST: CF, OF and AF clear, PF, ZF and
/// SF from the result; the result written to the destination unless
/// `test` holds.
pub open spec fn bit_op_spec(m: Machine, d: Operand, s: Operand, op: BitOp, test: bool) -> Machine {
    let o = bit_op_outcome(m, d, s, op);
    let flagged = m.with_flags(flags_after(m.regs.flags, o));
    if test {
        flagged
    } else {
        put_operand(flagged, d, o.value)
    }
}

/// The state after NOT: every bit of the destination inverted, no flag
/// touched.
pub open spec fn not_spec(m: Machine, d: Operand) -> Machine {
    put_operand(m, d, (modulus(d.is_word()) - 1 - operand_value(m, d)) as u16)
}

/// What NEG computes: zero minus the operand. So CF is clear exactly when
/// the operand is zero, and OF is set exactly when it is the least
/// signed value of its width.
pub open spec fn neg_outcome(m: Machine, d: Operand) -> Outcome {
    difference_outcome(0, operand_value(m, d), false, d.is_word())
}

/// The state after NEG.
pub open spec fn neg_spec(m: Machine, d: Operand) -> Machine {
    let o = neg_outcome(m, d);
    put_operand(m.with_flags(flags_after(m.regs.flags, o)), d, o.value)
}

/// Writing a register or memory operand leaves the flags alone and
/// memory at its size.
pub proof fn lemma_put_operand_keeps_flags(m: Machine, d: Operand, val: u16)
    ensures
        put_operand(m, d, val).regs.flags == m.regs.flags,
        m.wf() ==> put_operand(m, d, val).wf(),
{
}

impl Cpu {
    /// The value of a source operand for an operation of the given width.
    pub fn source_value(&mut self, s: Operand, word: bool) -> (val: u16)
        requires
            old(self).wf(),
            s.is_value(),
        ensures
            final(self).wf(),
            final(self)@ == old(self)@,
            val == source_value(old(self)@, s, word),
            val < modulus(word),
    {
        let raw: u16 = self.operand_value(s);
        narrowed(wide(raw), word)
    }

    /// SUB, SBB (with `sbb`) and CMP (with `compare`).
    ///
    /// Afterwards ZF, SF and PF describe the result; CF says that the
    /// destination was below the source, unsigned; OF that the signed
    /// difference cannot be written in the operand's width; AF that the
    /// low nibbles borrow.
    pub fn sub(&mut self, d: Operand, s: Operand, sbb: bool, compare: bool)
        requires
            old(self).wf(),
            d.is_place(),
            s.is_value(),
        ensures
            final(self).wf(),
            final(self)@ == sub_spec(old(self)@, d, s, sbb, compare),
            sub_outcome(old(self)@, d, s, sbb).describes_value(d.is_word()),
            status_shown(
                final(self).regs.flags,
                old(self).regs.flags,
                sub_outcome(old(self)@, d, s, sbb),
            ),
            final(self).regs.flags.has(CF) == sub_outcome(old(self)@, d, s, sbb).cf,
    {
        let word: bool = d.word();
        let dest: u16 = self.operand_value(d);
        let src: u16 = self.source_value(s, word);
        let borrow: bool = sbb && self.regs.flags.cf();
        let o: Outcome = difference(dest, src, borrow, word);
        self.set_status(&o);
        if !compare {
            self.write_operand(d, o.value);
        }
    }

    /// DEC: subtracts 1; CF stays as it was.
    pub fn dec(&mut self, d: Operand)
        requires
            old(self).wf(),
            d.is_place(),
        ensures
            final(self).wf(),
            final(self)@ == dec_spec(old(self)@, d),
            dec_outcome(old(self)@, d).describes_value(d.is_word()),
            status_shown(final(self).regs.flags, old(self).regs.flags, dec_outcome(old(self)@, d)),
            final(self).regs.flags.has(CF) == old(self).regs.flags.has(CF),
    {
        let word: bool = d.word();
        let dest: u16 = self.operand_value(d);
        let o: Outcome = difference(dest, 1, false, word);
        self.set_status_keeping_carry(&o);
        self.write_operand(d, o.value);
    }

    /// ADD and ADC (with `adc`).
    ///
    /// Afterwards ZF, SF and PF describe the result; CF says that the
    /// unsigned sum of the operands reaches 2^W; OF that their signed sum
    /// cannot be written in W bits; AF that the low nibbles carry.
    pub fn add(&mut self, d: Operand, s: Operand, adc: bool)
        requires
            old(self).wf(),
            d.is_place(),
            s.is_value(),
        ensures
            final(self).wf(),
            final(self)@ == add_spec(old(self)@, d, s, adc),
            add_outcome(old(self)@, d, s, adc).describes_value(d.is_word()),
            status_shown(
                final(self).regs.flags,
                old(self).regs.flags,
                add_outcome(old(self)@, d, s, adc),
            ),
            final(self).regs.flags.has(CF) == add_outcome(old(self)@, d, s, adc).cf,
    {
        let word: bool = d.word();
        let dest: u16 = self.operand_value(d);
        let src: u16 = self.source_value(s, word);
        let carry: bool = adc && self.regs.flags.cf();
        let o: Outcome = sum(dest, src, carry, word);
        self.set_status(&o);
        self.write_operand(d, o.value);
    }

    /// INC: adds 1; CF stays as it was.
    pub fn inc(&mut self, d: Operand)
        requires
            old(self).wf(),
            d.is_place(),
        ensures
            final(self).wf(),
            final(self)@ == inc_spec(old(self)@, d),
            inc_outcome(old(self)@, d).describes_value(d.is_word()),
            status_shown(final(self).regs.flags, old(self).regs.flags, inc_outcome(old(self)@, d)),
            final(self).regs.flags.has(CF) == old(self).regs.flags.has(CF),
    {
        let word: bool = d.word();
        let dest: u16 = self.operand_value(d);
        let o: Outcome = sum(dest, 1, false, word);
        self.set_status_keeping_carry(&o);
        self.write_operand(d, o.value);
    }

    /// AND, OR, XOR, and TEST (with `test`, which keeps the destination).
    pub fn bit_op(&mut self, d: Operand, s: Operand, op: BitOp, test: bool)
        requires
            old(self).wf(),
            d.is_place(),
            s.is_value(),
        ensures
            final(self).wf(),
            final(self)@ == bit_op_spec(old(self)@, d, s, op, test),
            bit_op_outcome(old(self)@, d, s, op).describes_value(d.is_word()),
            status_shown(
                final(self).regs.flags,
                old(self).regs.flags,
                bit_op_outcome(old(self)@, d, s, op),
            ),
            !final(self).regs.flags.has(CF),
    {
        let word: bool = d.word();
        let dest: u16 = self.operand_value(d);
        let src: u16 = self.source_value(s, word);
        let o: Outcome = logic(dest, src, op, word);
        self.set_status(&o);
        if !test {
            self.write_operand(d, o.value);
        }
    }

    /// NOT: inverts every bit of the destination; no flag changes.
    pub fn not(&mut self, inst: &Instruction)
        requires
            old(self).wf(),
            inst.dest.is_place(),
        ensures
            final(self).wf(),
            final(self)@ == not_spec(old(self)@, inst.dest),
    {
        let word: bool = inst.dest.word();
        let d: u16 = self.operand_value(inst.dest);
        let all: u16 = if word {
            0xffff
        } else {
            0xff
        };
        self.write_operand(inst.dest, all - d);
    }

    /// NEG: replaces the destination by zero minus it.
    pub fn neg(&mut self, inst: &Instruction)
        requires
            old(self).wf(),
            inst.dest.is_place(),
        ensures
            final(self).wf(),
            final(self)@ == neg_spec(old(self)@, inst.dest),
            neg_outcome(old(self)@, inst.dest).describes_value(inst.dest.is_word()),
            status_shown(
                final(self).regs.flags,
                old(self).regs.flags,
                neg_outcome(old(self)@, inst.dest),
            ),
            final(self).regs.flags.has(CF) == (operand_value(old(self)@, inst.dest) != 0),
    {
        let word: bool = inst.dest.word();
        let d: u16 = self.operand_value(inst.dest);
        let o: Outcome = difference(0, d, false, word);
        self.set_status(&o);
        self.write_operand(inst.dest, o.value);
    }
}

} // verus!
