//! The decimal adjustments: DAA, DAS, AAA, AAS, AAM and AAD. They work
//! on AL and AH only.

use vstd::prelude::*;
use crate::alu::{flags_after, outcome, outcome_of, parity_even, Outcome};
use crate::cpu::{word_of, Cpu, Machine};
use crate::regs::{hi, lo, with_hi, with_lo, Flags, Registers, AF, CF, PF, SF, ZF};

verus! {

/// `x` reduced to 8 bits.
pub open spec fn wrap8(x: int) -> u8 {
    (x % 0x100) as u8
}

/// `al` moved up (`add`) or down by `by`, modulo 256.
pub open spec fn nudged(al: u8, by: u8, add: bool) -> u8 {
    if add {
        wrap8(al + by)
    } else {
        wrap8(al - by)
    }
}

/// Whether the low digit of `al` calls for an adjustment: it is above 9,
/// or AF is set.
pub open spec fn low_digit_off(al: u8, af: bool) -> bool {
    al % 16 > 9 || af
}

/// What DAA (`add`) or DAS computes from AL, AF and CF.
///
/// If the low digit is off, 6 is added to AL (or taken from it) and AF
/// comes out set. If AL is then above 0x9F, or CF is set, 0x60 is added
/// (or taken) and CF comes out set. ZF, SF and PF describe the new AL,
/// and OF says that its top bit changed.
pub open spec fn decimal_outcome(al: u8, af: bool, cf: bool, add: bool) -> Outcome {
    let low = low_digit_off(al, af);
    let al1 = if low {
        nudged(al, 6, add)
    } else {
        al
    };
    let high = al1 > 0x9f || cf;
    let al2 = if high {
        nudged(al1, 0x60, add)
    } else {
        al1
    };
    outcome_of(al2 as int, false, high, (al2 >= 0x80) != (al >= 0x80), low)
}

/// The state after DAA (`add`) or DAS.
pub open spec fn decimal_spec(m: Machine, add: bool) -> Machine {
    let o = decimal_outcome(lo(m.regs.ax), m.regs.flags.has(AF), m.regs.flags.has(CF), add);
    m.with_regs(
        Registers {
            ax: with_lo(m.regs.ax, lo(o.value)),
            flags: flags_after(m.regs.flags, o),
            ..m.regs
        },
    )
}

/// The state after AAA (`add`) or AAS.
///
/// If the low digit is off, 6 is added to AL and 1 to AH (or taken from
/// them), and AF and CF come out set; else both come out clear. Then the
/// high digit of AL is cleared.
pub open spec fn ascii_spec(m: Machine, add: bool) -> Machine {
    let low = low_digit_off(lo(m.regs.ax), m.regs.flags.has(AF));
    let al = if low {
        nudged(lo(m.regs.ax), 6, add)
    } else {
        lo(m.regs.ax)
    };
    let ah = if low {
        nudged(hi(m.regs.ax), 1, add)
    } else {
        hi(m.regs.ax)
    };
    m.with_regs(
        Registers {
            ax: with_hi(with_lo(m.regs.ax, (al % 16) as u8), ah),
            flags: m.regs.flags.with(AF, low).with(CF, low),
            ..m.regs
        },
    )
}

/// The flags after AAM or AAD: SF, ZF and PF describe the new AL.
pub open spec fn digit_flags(f: Flags, al: u8) -> Flags {
    f.with(SF, al >= 0x80).with(ZF, al == 0).with(PF, parity_even(al))
}

/// The state after AAM: AH is AL divided by 10, AL the remainder.
pub open spec fn aam_spec(m: Machine) -> Machine {
    let al = lo(m.regs.ax);
    m.with_regs(
        Registers {
            ax: with_hi(with_lo(m.regs.ax, al % 10), al / 10),
            flags: digit_flags(m.regs.flags, al % 10),
            ..m.regs
        },
    )
}

/// The state after AAD: AL is `AH * 10 + AL` modulo 256, AH is zero.
pub open spec fn aad_spec(m: Machine) -> Machine {
    let al = wrap8(hi(m.regs.ax) * 10 + lo(m.regs.ax));
    m.with_regs(
        Registers {
            ax: with_hi(with_lo(m.regs.ax, al), 0),
            flags: digit_flags(m.regs.flags, al),
            ..m.regs
        },
    )
}

/// `a + b` reduced to 8 bits.
pub fn add8(a: u8, b: u8) -> (r: u8)
    ensures
        r == wrap8(a + b),
{
    ((a as u16 + b as u16) % 0x100) as u8
}

/// `a - b` reduced to 8 bits.
pub fn sub8(a: u8, b: u8) -> (r: u8)
    ensures
        r == wrap8(a - b),
{
    proof {
        vstd::arithmetic::div_mod::lemma_mod_add_multiples_vanish(a - b, 0x100);
    }
    ((a as u16 + 0x100 - b as u16) % 0x100) as u8
}

/// `al` moved up (`add`) or down by `by`, modulo 256.
pub fn nudge(al: u8, by: u8, add: bool) -> (r: u8)
    ensures
        r == nudged(al, by, add),
{
    if add {
        add8(al, by)
    } else {
        sub8(al, by)
    }
}

/// What DAA (`add`) or DAS computes from AL, AF and CF.
#[verifier::rlimit(50)]
pub fn decimal(al: u8, af: bool, cf: bool, add: bool) -> (o: Outcome)
    ensures
        o == decimal_outcome(al, af, cf, add),
        o.value < 0x100,
{
    let low: bool = al % 16 > 9 || af;
    let al1: u8 = if low {
        nudge(al, 6, add)
    } else {
        al
    };
    let high: bool = al1 > 0x9f || cf;
    let al2: u8 = if high {
        nudge(al1, 0x60, add)
    } else {
        al1
    };
    outcome(word_of(al2), false, high, (al2 >= 0x80) != (al >= 0x80), low)
}

impl Cpu {
    /// DAA (`add`) or DAS.
    pub fn decimal_adjust(&mut self, add: bool)
        ensures
            final(self)@ == decimal_spec(old(self)@, add),
            final(self).mem == old(self).mem,
    {
        let o: Outcome = decimal(
            self.regs.get_al(),
            self.regs.flags.af(),
            self.regs.flags.cf(),
            add,
        );
        self.set_status(&o);
        self.regs.set_al(crate::regs::low_byte(o.value));
    }

    /// DAA: decimal adjust after addition.
    pub fn daa(&mut self)
        ensures
            final(self)@ == decimal_spec(old(self)@, true),
            final(self).mem == old(self).mem,
    {
        self.decimal_adjust(true);
    }

    /// DAS: decimal adjust after subtraction.
    pub fn das(&mut self)
        ensures
            final(self)@ == decimal_spec(old(self)@, false),
            final(self).mem == old(self).mem,
    {
        self.decimal_adjust(false);
    }

    /// AAA (`add`) or AAS.
    pub fn ascii_adjust(&mut self, add: bool)
        ensures
            final(self)@ == ascii_spec(old(self)@, add),
            final(self).mem == old(self).mem,
    {
        let mut al: u8 = self.regs.get_al();
        let mut ah: u8 = self.regs.get_ah();
        let low: bool = al % 16 > 9 || self.regs.flags.af();
        if low {
            al = nudge(al, 6, add);
            ah = nudge(ah, 1, add);
        }
        self.regs.flags.put(AF, low);
        self.regs.flags.put(CF, low);
        self.regs.set_al(al % 16);
        self.regs.set_ah(ah);
    }

    /// AAA: ASCII adjust after addition.
    pub fn aaa(&mut self)
        ensures
            final(self)@ == ascii_spec(old(self)@, true),
            final(self).mem == old(self).mem,
    {
        self.ascii_adjust(true);
    }

    /// AAS: ASCII adjust after subtraction.
    pub fn aas(&mut self)
        ensures
            final(self)@ == ascii_spec(old(self)@, false),
            final(self).mem == old(self).mem,
    {
        self.ascii_adjust(false);
    }

    /// Sets SF, ZF and PF from a new AL.
    fn set_digit_flags(&mut self, al: u8)
        ensures
            final(self)@ == old(self)@.with_flags(digit_flags(old(self).regs.flags, al)),
            final(self).mem == old(self).mem,
    {
        self.regs.flags.put(SF, al >= 0x80);
        self.regs.flags.put(ZF, al == 0);
        self.regs.flags.put(PF, Cpu::even_parity(al));
    }

    /// AAD: ASCII adjust before division.
    pub fn aad(&mut self)
        ensures
            final(self)@ == aad_spec(old(self)@),
            final(self).mem == old(self).mem,
    {
        let al: u8 = ((self.regs.get_ah() as u16 * 10 + self.regs.get_al() as u16) % 0x100) as u8;
        self.set_digit_flags(al);
        self.regs.set_al(al);
        self.regs.set_ah(0);
    }

    /// AAM: ASCII adjust after multiplication.
    pub fn aam(&mut self)
        ensures
            final(self)@ == aam_spec(old(self)@),
            final(self).mem == old(self).mem,
    {
        let ah: u8 = self.regs.get_al() / 10;
        let al: u8 = self.regs.get_al() % 10;
        self.set_digit_flags(al);
        self.regs.set_al(al);
        self.regs.set_ah(ah);
    }
}

} // verus!
