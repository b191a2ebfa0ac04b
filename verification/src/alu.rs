//! Arithmetic and logic on operand values: what each operation yields and
//! which status flags it produces, for 8-bit and 16-bit operands.

use vstd::prelude::*;
use crate::cpu::{BitOp, Cpu};
use crate::regs::{low_byte, Flags, AF, CF, DF, IF, OF, PF, SF, TF, ZF};

verus! {

/// 2^W for an operand of W bits.
pub open spec fn modulus(word: bool) -> int {
    if word {
        0x1_0000
    } else {
        0x100
    }
}

/// 2^(W-1): the weight of the top bit of an operand of W bits.
pub open spec fn sign_bit(word: bool) -> int {
    if word {
        0x8000
    } else {
        0x80
    }
}

/// `x` reduced to W bits.
pub open spec fn truncated(x: int, word: bool) -> int {
    x % modulus(word)
}

/// The two's-complement reading of a W-bit value.
pub open spec fn signed(v: int, word: bool) -> int {
    if v >= sign_bit(word) {
        v - modulus(word)
    } else {
        v
    }
}

/// Whether `x` can be written in W bits of two's complement.
pub open spec fn representable(x: int, word: bool) -> bool {
    -sign_bit(word) <= x < sign_bit(word)
}

/// Number of one bits in the binary writing of `v`.
pub open spec fn ones(v: nat) -> nat
    decreases v,
{
    if v == 0 {
        0
    } else {
        (v % 2) + ones(v / 2)
    }
}

/// Whether `b` has an even number of one bits.
pub open spec fn parity_even(b: u8) -> bool {
    ones(b as nat) % 2 == 0
}

/// What an operation yields: the value written back, and the six status
/// flags.
pub struct Outcome {
    pub value: u16,
    pub cf: bool,
    pub pf: bool,
    pub af: bool,
    pub zf: bool,
    pub sf: bool,
    pub of: bool,
}

impl Outcome {
    /// ZF, SF and PF say of `value` what they must for a W-bit result:
    /// ZF that it is zero, SF that its top bit is set, PF that its low
    /// eight bits have even parity.
    pub open spec fn describes_value(self, word: bool) -> bool {
        &&& self.value < modulus(word)
        &&& self.zf == (self.value == 0)
        &&& self.sf == (self.value >= sign_bit(word))
        &&& self.pf == parity_even((self.value % 256) as u8)
    }
}

/// The W-bit result `v` with its ZF, SF and PF, and the given carry,
/// overflow and auxiliary carry.
pub open spec fn outcome_of(v: int, word: bool, cf: bool, of: bool, af: bool) -> Outcome {
    Outcome {
        value: v as u16,
        cf,
        of,
        af,
        zf: v == 0,
        sf: v >= sign_bit(word),
        pf: parity_even((v % 256) as u8),
    }
}

/// Addition of two W-bit values, with a carry folded into the result.
///
/// CF says that the unsigned sum of the two operands reaches 2^W, OF that
/// their signed sum cannot be written in W bits, AF that the low nibbles
/// carry. The incoming carry counts for the value, and so for ZF, SF and
/// PF, not for CF, OF and AF.
pub open spec fn sum_outcome(d: u16, s: u16, carry: bool, word: bool) -> Outcome {
    outcome_of(
        truncated(
            d + s + (if carry {
                1int
            } else {
                0int
            }),
            word,
        ),
        word,
        d + s >= modulus(word),
        !representable(signed(d as int, word) + signed(s as int, word), word),
        d % 16 + s % 16 > 15,
    )
}

/// Subtraction of two W-bit values, with a borrow folded into the result.
///
/// CF says that `d < s` unsigned, OF that the signed difference cannot be
/// written in W bits, AF that the low nibbles borrow. The incoming borrow
/// counts for the value, and so for ZF, SF and PF, not for CF, OF and AF.
pub open spec fn difference_outcome(d: u16, s: u16, borrow: bool, word: bool) -> Outcome {
    outcome_of(
        truncated(
            d - s - (if borrow {
                1int
            } else {
                0int
            }),
            word,
        ),
        word,
        d < s,
        !representable(signed(d as int, word) - signed(s as int, word), word),
        d % 16 < s % 16,
    )
}

/// The bitwise combination of two values.
pub open spec fn combined(d: u16, s: u16, op: BitOp) -> u16 {
    match op {
        BitOp::And => d & s,
        BitOp::Xor => d ^ s,
        BitOp::Or => d | s,
    }
}

/// A bitwise operation on two W-bit values: CF, OF and AF come out clear.
pub open spec fn logic_outcome(d: u16, s: u16, op: BitOp, word: bool) -> Outcome {
    outcome_of(truncated(combined(d, s, op) as int, word), word, false, false, false)
}

/// The flags after an operation that sets all six status flags.
pub open spec fn flags_after(f: Flags, o: Outcome) -> Flags {
    f.without_arith().raised(AF, o.af).raised(PF, o.pf).raised(ZF, o.zf).raised(CF, o.cf).raised(
        OF,
        o.of,
    ).raised(SF, o.sf)
}

/// The flags after an operation that sets AF, PF, ZF, OF and SF and
/// leaves CF as it was.
pub open spec fn flags_after_keeping_carry(f: Flags, o: Outcome) -> Flags {
    f.with(AF, false).with(SF, false).with(ZF, false).with(OF, false).with(PF, false).raised(
        AF,
        o.af,
    ).raised(PF, o.pf).raised(ZF, o.zf).raised(OF, o.of).raised(SF, o.sf)
}

/// The five flags that every arithmetic operation sets are those of `o`;
/// TF, IF and DF, bit 1 and the reserved bits are those of `old`.
pub open spec fn status_shown(new: Flags, old: Flags, o: Outcome) -> bool {
    &&& new.has(PF) == o.pf
    &&& new.has(AF) == o.af
    &&& new.has(ZF) == o.zf
    &&& new.has(SF) == o.sf
    &&& new.has(OF) == o.of
    &&& new.has(TF) == old.has(TF)
    &&& new.has(IF) == old.has(IF)
    &&& new.has(DF) == old.has(DF)
    &&& new.bi & 0xF02A == old.bi & 0xF02A
}

/// `flags_after` shows the whole outcome, carry included.
pub proof fn lemma_flags_after(f: Flags, o: Outcome)
    ensures
        status_shown(flags_after(f, o), f, o),
        flags_after(f, o).has(CF) == o.cf,
{
    crate::regs::lemma_flag_bits();
}

/// `flags_after_keeping_carry` shows the outcome but for its carry, and
/// leaves CF alone.
pub proof fn lemma_flags_after_keeping_carry(f: Flags, o: Outcome)
    ensures
        status_shown(flags_after_keeping_carry(f, o), f, o),
        flags_after_keeping_carry(f, o).has(CF) == f.has(CF),
{
    crate::regs::lemma_flag_bits();
}

/// 2^W as a number.
pub fn modulus_of(word: bool) -> (m: u32)
    ensures
        m == modulus(word),
{
    if word {
        0x1_0000
    } else {
        0x100
    }
}

/// `x` reduced to W bits.
pub fn narrowed(x: u32, word: bool) -> (v: u16)
    ensures
        v == truncated(x as int, word),
        v < modulus(word),
{
    if word {
        (x % 0x1_0000) as u16
    } else {
        (x % 0x100) as u16
    }
}

/// The two's-complement reading of a W-bit value.
pub fn signed_value(v: u16, word: bool) -> (x: i32)
    ensures
        x == signed(v as int, word),
{
    if word {
        if v >= 0x8000 {
            v as i32 - 0x1_0000
        } else {
            v as i32
        }
    } else {
        if v >= 0x80 {
            v as i32 - 0x100
        } else {
            v as i32
        }
    }
}

/// Whether `x` can be written in W bits of two's complement.
pub fn fits(x: i32, word: bool) -> (b: bool)
    ensures
        b == representable(x as int, word),
{
    if word {
        -0x8000 <= x && x < 0x8000
    } else {
        -0x80 <= x && x < 0x80
    }
}

/// Whether the top bit of a W-bit value is set.
pub fn top_bit(v: u16, word: bool) -> (b: bool)
    ensures
        b == (v >= sign_bit(word)),
{
    if word {
        v >= 0x8000
    } else {
        v >= 0x80
    }
}

impl Cpu {
    /// Whether `val` has an even number of one bits.
    pub fn even_parity(val: u8) -> (even: bool)
        ensures
            even == parity_even(val),
    {
        let mut rest: u8 = val;
        let mut res: u8 = 0;
        proof {
            vstd::arithmetic::power2::lemma2_to64();
            lemma_ones_bound(val as nat, 8);
        }
        while rest > 0
            invariant
                res + ones(rest as nat) == ones(val as nat),
                ones(val as nat) <= 8,
            decreases rest,
        {
            res += rest % 2;
            rest = rest / 2;
        }
        res % 2 == 0
    }

    /// Whether adding the low nibbles of `a` and `b` carries.
    pub fn aux_add(a: u16, b: u16) -> (carry: bool)
        ensures
            carry == (a % 16 + b % 16 > 15),
    {
        (a % 16) + (b % 16) > 15
    }

    /// Whether subtracting the low nibble of `b` from that of `a` borrows.
    pub fn aux_sub(a: u16, b: u16) -> (borrow: bool)
        ensures
            borrow == (a % 16 < b % 16),
    {
        (a % 16) < (b % 16)
    }

    /// Sets the six status flags from an outcome.
    pub fn set_status(&mut self, o: &Outcome)
        ensures
            final(self)@ == old(self)@.with_flags(flags_after(old(self).regs.flags, *o)),
            final(self).mem == old(self).mem,
            status_shown(final(self).regs.flags, old(self).regs.flags, *o),
            final(self).regs.flags.has(CF) == o.cf,
    {
        proof {
            lemma_flags_after(self.regs.flags, *o);
        }
        self.regs.flags.clear_arith();
        if o.af {
            self.regs.flags.set_af();
        }
        if o.pf {
            self.regs.flags.set_pf();
        }
        if o.zf {
            self.regs.flags.set_zf();
        }
        if o.cf {
            self.regs.flags.set_cf();
        }
        if o.of {
            self.regs.flags.set_of();
        }
        if o.sf {
            self.regs.flags.set_sf();
        }
    }

    /// Sets AF, PF, ZF, OF and SF from an outcome; CF stays as it was.
    pub fn set_status_keeping_carry(&mut self, o: &Outcome)
        ensures
            final(self)@ == old(self)@.with_flags(
                flags_after_keeping_carry(old(self).regs.flags, *o),
            ),
            final(self).mem == old(self).mem,
            status_shown(final(self).regs.flags, old(self).regs.flags, *o),
            final(self).regs.flags.has(CF) == old(self).regs.flags.has(CF),
    {
        proof {
            lemma_flags_after_keeping_carry(self.regs.flags, *o);
        }
        self.regs.flags.clear_af();
        self.regs.flags.clear_sf();
        self.regs.flags.clear_zf();
        self.regs.flags.clear_of();
        self.regs.flags.clear_pf();
        if o.af {
            self.regs.flags.set_af();
        }
        if o.pf {
            self.regs.flags.set_pf();
        }
        if o.zf {
            self.regs.flags.set_zf();
        }
        if o.of {
            self.regs.flags.set_of();
        }
        if o.sf {
            self.regs.flags.set_sf();
        }
    }
}

/// A number below 2^n has at most n one bits.
pub proof fn lemma_ones_bound(v: nat, n: nat)
    requires
        v < vstd::arithmetic::power2::pow2(n),
    ensures
        ones(v) <= n,
    decreases n,
{
    vstd::arithmetic::power2::lemma2_to64();
    if v == 0 {
    } else if n == 0 {
        assert(vstd::arithmetic::power2::pow2(0) == 1);
    } else {
        vstd::arithmetic::power2::lemma_pow2_unfold(n);
        lemma_ones_bound(v / 2, (n - 1) as nat);
    }
}

/// The outcome of a W-bit value: its ZF, SF and PF, with the given carry,
/// overflow and auxiliary carry.
pub fn outcome(value: u16, word: bool, cf: bool, of: bool, af: bool) -> (o: Outcome)
    requires
        value < modulus(word),
    ensures
        o == outcome_of(value as int, word, cf, of, af),
        o.describes_value(word),
{
    Outcome {
        value,
        cf,
        of,
        af,
        zf: value == 0,
        sf: top_bit(value, word),
        pf: Cpu::even_parity(low_byte(value)),
    }
}

/// Adds two W-bit values and the carry.
pub fn sum(d: u16, s: u16, carry: bool, word: bool) -> (o: Outcome)
    requires
        d < modulus(word),
        s < modulus(word),
    ensures
        o == sum_outcome(d, s, carry, word),
        o.describes_value(word),
{
    let total: u32 = d as u32 + s as u32;
    let value: u16 = narrowed(
        total + (if carry {
            1
        } else {
            0
        }),
        word,
    );
    let overflow: bool = !fits(signed_value(d, word) + signed_value(s, word), word);
    outcome(value, word, total >= modulus_of(word), overflow, Cpu::aux_add(d, s))
}

/// Subtracts `s` and the borrow from `d`, all of W bits.
pub fn difference(d: u16, s: u16, borrow: bool, word: bool) -> (o: Outcome)
    requires
        d < modulus(word),
        s < modulus(word),
    ensures
        o == difference_outcome(d, s, borrow, word),
        o.describes_value(word),
{
    let taken: u32 = s as u32 + (if borrow {
        1
    } else {
        0
    });
    let lifted: u32 = d as u32 + modulus_of(word) - taken;
    proof {
        vstd::arithmetic::div_mod::lemma_mod_add_multiples_vanish(d - taken, modulus(word));
    }
    let value: u16 = narrowed(lifted, word);
    let overflow: bool = !fits(signed_value(d, word) - signed_value(s, word), word);
    outcome(value, word, d < s, overflow, Cpu::aux_sub(d, s))
}

/// Combines two W-bit values bit by bit.
pub fn logic(d: u16, s: u16, op: BitOp, word: bool) -> (o: Outcome)
    ensures
        o == logic_outcome(d, s, op, word),
        o.describes_value(word),
{
    let bits: u16 = match op {
        BitOp::And => d & s,
        BitOp::Xor => d ^ s,
        BitOp::Or => d | s,
    };
    outcome(narrowed(bits as u32, word), word, false, false, false)
}

} // verus!
