//! Shifts and rotates: ROL, ROR, RCL, RCR, SHL, SHR and SAR, by 1 or by
//! the count in CL.
//!
//! An operation by a count is the one-bit operation done that many
//! times. With a count of zero nothing changes. Else CF is the last bit
//! moved out, and OF says that the top bit of the result differs from the
//! top bit of the operand. No other flag changes.

use vstd::prelude::*;
use crate::alu::{modulus, sign_bit, top_bit};
use crate::cpu::{operand_value, put_operand, word_of, Cpu, Instruction, Machine, Operand};
use crate::regs::{low_byte, Flags, CF, OF};

verus! {

/// The seven operations.
#[derive(Debug, Clone, Copy, PartialEq, Eq, Structural)]
pub enum Turn {
    /// Rotate left: the top bit comes back in at the bottom.
    Rol,
    /// Rotate right: the bottom bit comes back in at the top.
    Ror,
    /// Rotate left through CF, W+1 bits in all.
    Rcl,
    /// Rotate right through CF, W+1 bits in all.
    Rcr,
    /// Shift left: zero comes in at the bottom.
    Shl,
    /// Shift right: zero comes in at the top.
    Shr,
    /// Arithmetic shift right: the top bit stays.
    Sar,
}

/// A value with the carry that goes with it.
pub struct Turned {
    pub value: u16,
    pub cf: bool,
}

/// 1 if `b` holds, else 0.
pub open spec fn bit(b: bool) -> int {
    if b {
        1
    } else {
        0
    }
}

/// One bit of the operation on a W-bit value.
pub open spec fn turn_once(kind: Turn, t: Turned, word: bool) -> Turned {
    let v = t.value as int;
    let top = v >= sign_bit(word);
    let bottom = v % 2 == 1;
    let doubled = (v % sign_bit(word)) * 2;
    let halved = v / 2;
    match kind {
        Turn::Rol => Turned { value: (doubled + bit(top)) as u16, cf: top },
        Turn::Ror => Turned { value: (halved + bit(bottom) * sign_bit(word)) as u16, cf: bottom },
        Turn::Rcl => Turned { value: (doubled + bit(t.cf)) as u16, cf: top },
        Turn::Rcr => Turned { value: (halved + bit(t.cf) * sign_bit(word)) as u16, cf: bottom },
        Turn::Shl => Turned { value: doubled as u16, cf: top },
        Turn::Shr => Turned { value: halved as u16, cf: bottom },
        Turn::Sar => Turned { value: (halved + bit(top) * sign_bit(word)) as u16, cf: bottom },
    }
}

/// The one-bit operation done `count` times.
pub open spec fn turn_by(kind: Turn, t: Turned, word: bool, count: nat) -> Turned
    decreases count,
{
    if count == 0 {
        t
    } else {
        turn_by(kind, turn_once(kind, t, word), word, (count - 1) as nat)
    }
}

/// The flags after an operation by a count that is not zero: CF from the
/// last bit moved out, OF set if the top bit changed.
pub open spec fn turn_flags(f: Flags, before: u16, after: Turned, word: bool) -> Flags {
    f.with(CF, after.cf).with(
        OF,
        (after.value >= sign_bit(word)) != (before >= sign_bit(word)),
    )
}

/// The state after a shift or rotate of the W-bit `value` by `count`, as
/// far as the flags go: unchanged for a count of zero, else with CF and
/// OF set from the operation.
pub open spec fn turned_state(m: Machine, kind: Turn, value: u16, word: bool, count: nat) -> Machine {
    if count == 0 {
        m
    } else {
        m.with_flags(
            turn_flags(
                m.regs.flags,
                value,
                turn_by(kind, Turned { value, cf: m.regs.flags.has(CF) }, word, count),
                word,
            ),
        )
    }
}

/// Whether a shift or rotate takes these operands: a destination that
/// can be written, and an 8-bit count.
pub open spec fn turn_takes(dest: Operand, src: Operand) -> bool {
    dest.is_place() && src.is_value() && !src.is_word()
}

/// The state after a shift or rotate of `dest` by the value of `src`.
pub open spec fn turn_spec(m: Machine, kind: Turn, dest: Operand, src: Operand) -> Machine {
    let count = operand_value(m, src);
    let before = operand_value(m, dest);
    let after = turn_by(
        kind,
        Turned { value: before, cf: m.regs.flags.has(CF) },
        dest.is_word(),
        count as nat,
    );
    if count == 0 {
        m
    } else {
        put_operand(
            m.with_flags(turn_flags(m.regs.flags, before, after, dest.is_word())),
            dest,
            after.value,
        )
    }
}

/// The operation that ROL and ROR, or RCL and RCR, or SHL and SHR stand
/// for.
pub open spec fn rotation(left: bool) -> Turn {
    if left {
        Turn::Rol
    } else {
        Turn::Ror
    }
}

pub open spec fn rotation_through_carry(left: bool) -> Turn {
    if left {
        Turn::Rcl
    } else {
        Turn::Rcr
    }
}

pub open spec fn logical_shift(left: bool) -> Turn {
    if left {
        Turn::Shl
    } else {
        Turn::Shr
    }
}

/// One bit of the operation on a W-bit value.
pub fn once(kind: Turn, t: Turned, word: bool) -> (r: Turned)
    requires
        t.value < modulus(word),
    ensures
        r == turn_once(kind, t, word),
        r.value < modulus(word),
{
    let v: u16 = t.value;
    let top: bool = top_bit(v, word);
    let bottom: bool = v % 2 == 1;
    let high: u16 = if word {
        0x8000
    } else {
        0x80
    };
    let doubled: u16 = if word {
        (v % 0x8000) * 2
    } else {
        (v % 0x80) * 2
    };
    let halved: u16 = v / 2;
    match kind {
        Turn::Rol => Turned {
            value: if top {
                doubled + 1
            } else {
                doubled
            },
            cf: top,
        },
        Turn::Ror => Turned {
            value: if bottom {
                halved + high
            } else {
                halved
            },
            cf: bottom,
        },
        Turn::Rcl => Turned {
            value: if t.cf {
                doubled + 1
            } else {
                doubled
            },
            cf: top,
        },
        Turn::Rcr => Turned {
            value: if t.cf {
                halved + high
            } else {
                halved
            },
            cf: bottom,
        },
        Turn::Shl => Turned { value: doubled, cf: top },
        Turn::Shr => Turned { value: halved, cf: bottom },
        Turn::Sar => Turned {
            value: if top {
                halved + high
            } else {
                halved
            },
            cf: bottom,
        },
    }
}

/// The one-bit operation done `count` times.
pub fn turn(kind: Turn, value: u16, carry: bool, word: bool, count: u8) -> (t: Turned)
    requires
        value < modulus(word),
    ensures
        t == turn_by(kind, Turned { value, cf: carry }, word, count as nat),
        t.value < modulus(word),
{
    let mut cur = Turned { value, cf: carry };
    let mut left: u8 = count;
    while left > 0
        invariant
            cur.value < modulus(word),
            turn_by(kind, cur, word, left as nat) == turn_by(
                kind,
                Turned { value, cf: carry },
                word,
                count as nat,
            ),
        decreases left,
    {
        cur = once(kind, cur, word);
        left -= 1;
    }
    cur
}

impl Cpu {
    /// Shifts or rotates a W-bit value by `count` and sets CF and OF from
    /// it, unless `count` is zero.
    pub fn turned(&mut self, kind: Turn, value: u16, word: bool, count: u8) -> (r: u16)
        requires
            value < modulus(word),
        ensures
            r == turn_by(
                kind,
                Turned { value, cf: old(self).regs.flags.has(CF) },
                word,
                count as nat,
            ).value,
            r < modulus(word),
            final(self).mem == old(self).mem,
            final(self)@ == turned_state(old(self)@, kind, value, word, count as nat),
    {
        let t: Turned = turn(kind, value, self.regs.flags.cf(), word, count);
        if count > 0 {
            if t.cf {
                self.regs.flags.set_cf();
            } else {
                self.regs.flags.clear_cf();
            }
            if top_bit(t.value, word) != top_bit(value, word) {
                self.regs.flags.set_of();
            } else {
                self.regs.flags.clear_of();
            }
        }
        t.value
    }

    /// A shift or rotate of `dest` by the 8-bit value of `src`.
    pub fn turn(&mut self, kind: Turn, dest: Operand, src: Operand)
        requires
            old(self).wf(),
            turn_takes(dest, src),
        ensures
            final(self).wf(),
            final(self)@ == turn_spec(old(self)@, kind, dest, src),
    {
        let times: u8 = low_byte(self.operand_value(src));
        let before: u16 = self.operand_value(dest);
        let after: u16 = self.turned(kind, before, dest.word(), times);
        if times > 0 {
            self.write_operand(dest, after);
        }
    }

    /// ROL (`left`) or ROR of a byte; CF and OF follow.
    pub fn rot8(&mut self, dest: u8, times: u8, left: bool) -> (r: u8)
        ensures
            r == turn_by(
                rotation(left),
                Turned { value: dest as u16, cf: old(self).regs.flags.has(CF) },
                false,
                times as nat,
            ).value,
            final(self).mem == old(self).mem,
            final(self)@ == turned_state(old(self)@, rotation(left), dest as u16, false, times as nat),
    {
        let kind = if left {
            Turn::Rol
        } else {
            Turn::Ror
        };
        low_byte(self.turned(kind, word_of(dest), false, times))
    }

    /// ROL (`left`) or ROR of a word; CF and OF follow.
    pub fn rot16(&mut self, dest: u16, times: u8, left: bool) -> (r: u16)
        ensures
            r == turn_by(
                rotation(left),
                Turned { value: dest, cf: old(self).regs.flags.has(CF) },
                true,
                times as nat,
            ).value,
            final(self).mem == old(self).mem,
            final(self)@ == turned_state(old(self)@, rotation(left), dest, true, times as nat),
    {
        let kind = if left {
            Turn::Rol
        } else {
            Turn::Ror
        };
        self.turned(kind, dest, true, times)
    }

    /// ROL (`left`) or ROR.
    pub fn rotate(&mut self, inst: &Instruction, left: bool)
        requires
            old(self).wf(),
            turn_takes(inst.dest, inst.src),
        ensures
            final(self).wf(),
            final(self)@ == turn_spec(old(self)@, rotation(left), inst.dest, inst.src),
    {
        let kind = if left {
            Turn::Rol
        } else {
            Turn::Ror
        };
        self.turn(kind, inst.dest, inst.src);
    }

    /// RCL (`left`) or RCR of a byte; CF and OF follow.
    pub fn rotcf8(&mut self, dest: u8, times: u8, left: bool) -> (r: u8)
        ensures
            r == turn_by(
                rotation_through_carry(left),
                Turned { value: dest as u16, cf: old(self).regs.flags.has(CF) },
                false,
                times as nat,
            ).value,
            final(self).mem == old(self).mem,
            final(self)@ == turned_state(
                old(self)@,
                rotation_through_carry(left),
                dest as u16,
                false,
                times as nat,
            ),
    {
        let kind = if left {
            Turn::Rcl
        } else {
            Turn::Rcr
        };
        low_byte(self.turned(kind, word_of(dest), false, times))
    }

    /// RCL (`left`) or RCR of a word; CF and OF follow.
    pub fn rotcf16(&mut self, dest: u16, times: u8, left: bool) -> (r: u16)
        ensures
            r == turn_by(
                rotation_through_carry(left),
                Turned { value: dest, cf: old(self).regs.flags.has(CF) },
                true,
                times as nat,
            ).value,
            final(self).mem == old(self).mem,
            final(self)@ == turned_state(
                old(self)@,
                rotation_through_carry(left),
                dest,
                true,
                times as nat,
            ),
    {
        let kind = if left {
            Turn::Rcl
        } else {
            Turn::Rcr
        };
        self.turned(kind, dest, true, times)
    }

    /// RCL (`left`) or RCR.
    pub fn rotate_cf(&mut self, inst: &Instruction, left: bool)
        requires
            old(self).wf(),
            turn_takes(inst.dest, inst.src),
        ensures
            final(self).wf(),
            final(self)@ == turn_spec(
                old(self)@,
                rotation_through_carry(left),
                inst.dest,
                inst.src,
            ),
    {
        let kind = if left {
            Turn::Rcl
        } else {
            Turn::Rcr
        };
        self.turn(kind, inst.dest, inst.src);
    }

    /// SHL (`left`) or SHR of a byte by one bit; CF and OF follow.
    pub fn sh8(&mut self, val: u8, left: bool) -> (r: u8)
        ensures
            r == turn_once(
                logical_shift(left),
                Turned { value: val as u16, cf: old(self).regs.flags.has(CF) },
                false,
            ).value,
            final(self).mem == old(self).mem,
            final(self)@ == turned_state(old(self)@, logical_shift(left), val as u16, false, 1),
    {
        proof {
            reveal_with_fuel(turn_by, 2);
        }
        let kind = if left {
            Turn::Shl
        } else {
            Turn::Shr
        };
        low_byte(self.turned(kind, word_of(val), false, 1))
    }

    /// SHL (`left`) or SHR of a word by one bit; CF and OF follow.
    pub fn sh16(&mut self, val: u16, left: bool) -> (r: u16)
        ensures
            r == turn_once(
                logical_shift(left),
                Turned { value: val, cf: old(self).regs.flags.has(CF) },
                true,
            ).value,
            final(self).mem == old(self).mem,
            final(self)@ == turned_state(old(self)@, logical_shift(left), val, true, 1),
    {
        proof {
            reveal_with_fuel(turn_by, 2);
        }
        let kind = if left {
            Turn::Shl
        } else {
            Turn::Shr
        };
        self.turned(kind, val, true, 1)
    }

    /// SHL (`left`) or SHR.
    pub fn shift(&mut self, inst: &Instruction, left: bool)
        requires
            old(self).wf(),
            turn_takes(inst.dest, inst.src),
        ensures
            final(self).wf(),
            final(self)@ == turn_spec(old(self)@, logical_shift(left), inst.dest, inst.src),
    {
        let kind = if left {
            Turn::Shl
        } else {
            Turn::Shr
        };
        self.turn(kind, inst.dest, inst.src);
    }

    /// SAR of a byte by one bit; CF and OF follow.
    pub fn shal8(&mut self, val: u8) -> (r: u8)
        ensures
            r == turn_once(
                Turn::Sar,
                Turned { value: val as u16, cf: old(self).regs.flags.has(CF) },
                false,
            ).value,
            final(self).mem == old(self).mem,
            final(self)@ == turned_state(old(self)@, Turn::Sar, val as u16, false, 1),
    {
        proof {
            reveal_with_fuel(turn_by, 2);
        }
        low_byte(self.turned(Turn::Sar, word_of(val), false, 1))
    }

    /// SAR of a word by one bit; CF and OF follow.
    pub fn shal16(&mut self, val: u16) -> (r: u16)
        ensures
            r == turn_once(
                Turn::Sar,
                Turned { value: val, cf: old(self).regs.flags.has(CF) },
                true,
            ).value,
            final(self).mem == old(self).mem,
            final(self)@ == turned_state(old(self)@, Turn::Sar, val, true, 1),
    {
        proof {
            reveal_with_fuel(turn_by, 2);
        }
        self.turned(Turn::Sar, val, true, 1)
    }

    /// SAR.
    pub fn shalr(&mut self, inst: &Instruction)
        requires
            old(self).wf(),
            turn_takes(inst.dest, inst.src),
        ensures
            final(self).wf(),
            final(self)@ == turn_spec(old(self)@, Turn::Sar, inst.dest, inst.src),
    {
        self.turn(Turn::Sar, inst.dest, inst.src);
    }
}

} // verus!
