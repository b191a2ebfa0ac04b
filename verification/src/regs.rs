//! The register file: general, index, pointer and segment registers, the
//! instruction pointer and the FLAGS word.

use vstd::prelude::*;

verus! {

/// Carry flag, bit 0.
pub const CF: u16 = 0x0001;

/// Parity flag, bit 2.
pub const PF: u16 = 0x0004;

/// Auxiliary carry flag, bit 4.
pub const AF: u16 = 0x0010;

/// Zero flag, bit 6.
pub const ZF: u16 = 0x0040;

/// Sign flag, bit 7.
pub const SF: u16 = 0x0080;

/// Trap flag, bit 8.
pub const TF: u16 = 0x0100;

/// Interrupt-enable flag, bit 9.
pub const IF: u16 = 0x0200;

/// Direction flag, bit 10.
pub const DF: u16 = 0x0400;

/// Overflow flag, bit 11.
pub const OF: u16 = 0x0800;

/// Bit 1 of FLAGS, which always reads as 1.
pub const FLAGS_FIXED: u16 = 0x0002;

/// The nine architectural flag bits.
pub const FLAGS_DEFINED: u16 = 0x0FD5;

/// Whether `mask` is one of the nine architectural flag bits.
pub open spec fn is_flag(mask: u16) -> bool {
    mask == CF || mask == PF || mask == AF || mask == ZF || mask == SF || mask == TF || mask == IF
        || mask == DF || mask == OF
}

/// Whether the bit selected by `mask` is set in `bi`.
pub open spec fn flag_get(bi: u16, mask: u16) -> bool {
    bi & mask != 0
}

/// `bi` with the bit selected by `mask` set or cleared.
pub open spec fn flag_put(bi: u16, mask: u16, on: bool) -> u16 {
    if on {
        bi | mask
    } else {
        bi & !mask
    }
}

/// A word as FLAGS holds it: the nine flag bits kept, bit 1 set, every
/// reserved bit zero.
pub open spec fn flags_of_word(val: u16) -> u16 {
    (val & FLAGS_DEFINED) | FLAGS_FIXED
}

/// The low byte of a word.
pub open spec fn lo(w: u16) -> u8 {
    (w % 256) as u8
}

/// The high byte of a word.
pub open spec fn hi(w: u16) -> u8 {
    (w / 256) as u8
}

/// `w` with its low byte replaced.
pub open spec fn with_lo(w: u16, b: u8) -> u16 {
    ((w / 256) * 256 + b) as u16
}

/// `w` with its high byte replaced.
pub open spec fn with_hi(w: u16, b: u8) -> u16 {
    (b * 256 + w % 256) as u16
}

/// The base address of a segment.
pub open spec fn segment_base(seg: u16) -> u32 {
    (seg * 16) as u32
}

/// The segment register value for a base address: the low 16 bits of
/// `base / 16`.
pub open spec fn segment_of_base(base: u32) -> u16 {
    ((base / 16) % 0x1_0000) as u16
}

proof fn lemma_half_bits(w: u16, b: u8)
    by (bit_vector)
    ensures
        w & 0xff == w % 256,
        w >> 8 == w / 256,
        (w & 0xff00) | (b as u16) == (w / 256) * 256 + b,
        (w & 0xff) | ((b as u16) << 8) == b * 256 + w % 256,
{
}

/// The low byte of `w`.
pub fn low_byte(w: u16) -> (b: u8)
    ensures
        b == lo(w),
{
    proof {
        lemma_half_bits(w, 0);
    }
    (w & 0xff) as u8
}

/// The high byte of `w`.
pub fn high_byte(w: u16) -> (b: u8)
    ensures
        b == hi(w),
{
    proof {
        lemma_half_bits(w, 0);
    }
    (w >> 8) as u8
}

/// `w` with its low byte replaced by `b`.
pub fn replace_low(w: u16, b: u8) -> (r: u16)
    ensures
        r == with_lo(w, b),
        lo(r) == b,
        hi(r) == hi(w),
{
    proof {
        lemma_half_bits(w, b);
    }
    (w & 0xff00) | (b as u16)
}

/// `w` with its high byte replaced by `b`.
pub fn replace_high(w: u16, b: u8) -> (r: u16)
    ensures
        r == with_hi(w, b),
        hi(r) == b,
        lo(r) == lo(w),
{
    proof {
        lemma_half_bits(w, b);
    }
    (w & 0xff) | ((b as u16) << 8)
}

/// Setting or clearing one flag bit changes that bit and no other flag;
/// bit 1 and the reserved bits stay as they were.
pub proof fn lemma_flag_bits()
    ensures
        forall|bi: u16, m: u16, on: bool, k: u16|
            is_flag(m) && is_flag(k) ==> #[trigger] flag_get(flag_put(bi, m, on), k) == (if m == k {
                on
            } else {
                flag_get(bi, k)
            }),
        forall|bi: u16, m: u16, on: bool|
            is_flag(m) ==> (#[trigger] flag_put(bi, m, on)) & 0xF02A == bi & 0xF02A,
{
    assert forall|bi: u16, m: u16, on: bool, k: u16|
        is_flag(m) && is_flag(k) implies #[trigger] flag_get(flag_put(bi, m, on), k) == (if m == k {
        on
    } else {
        flag_get(bi, k)
    }) by {
        lemma_flag_pair(bi, m, k);
    }
    assert forall|bi: u16, m: u16, on: bool| is_flag(m) implies (#[trigger] flag_put(bi, m, on))
        & 0xF02A == bi & 0xF02A by {
        lemma_flag_pair(bi, m, m);
    }
}

proof fn lemma_flag_pair(bi: u16, m: u16, k: u16)
    by (bit_vector)
    requires
        m == 0x0001 || m == 0x0004 || m == 0x0010 || m == 0x0040 || m == 0x0080 || m == 0x0100 || m
            == 0x0200 || m == 0x0400 || m == 0x0800,
        k == 0x0001 || k == 0x0004 || k == 0x0010 || k == 0x0040 || k == 0x0080 || k == 0x0100 || k
            == 0x0200 || k == 0x0400 || k == 0x0800,
    ensures
        m == k ==> (bi | m) & k != 0,
        m == k ==> (bi & !m) & k == 0,
        m != k ==> (bi | m) & k == bi & k,
        m != k ==> (bi & !m) & k == bi & k,
        (bi | m) & 0xF02A == bi & 0xF02A,
        (bi & !m) & 0xF02A == bi & 0xF02A,
{
}

/// Loading FLAGS from a word keeps each of the nine flags of the word;
/// and the word itself, if its bit 1 is set and its reserved bits are
/// zero.
pub proof fn lemma_flags_of_word(w: u16)
    ensures
        forall|k: u16| is_flag(k) ==> flag_get(flags_of_word(w), k) == flag_get(w, k),
        w & 0xF02A == 2 ==> flags_of_word(w) == w,
        flags_of_word(w) & 0xF02A == 2,
{
    assert forall|k: u16| is_flag(k) implies flag_get(flags_of_word(w), k)
        == flag_get(w, k) by {
        assert((k == 0x0001 || k == 0x0004 || k == 0x0010 || k == 0x0040 || k == 0x0080 || k
            == 0x0100 || k == 0x0200 || k == 0x0400 || k == 0x0800) ==> ((w & 0x0FD5) | 2) & k == w
            & k) by (bit_vector);
    }
    assert(w & 0xF02A == 2 ==> (w & 0x0FD5) | 2 == w) by (bit_vector);
    assert(((w & 0x0FD5) | 2) & 0xF02A == 2) by (bit_vector);
}

/// The FLAGS word.
pub struct Flags {
    pub bi: u16,
}

impl Default for Flags {
    /// FLAGS with every flag clear: only bit 1 is set.
    fn default() -> (f: Self)
        ensures
            f.bi == 2,
    {
        Self { bi: 2 }
    }
}

impl Flags {
    /// Whether the flag selected by `mask` is set.
    pub open spec fn has(&self, mask: u16) -> bool {
        flag_get(self.bi, mask)
    }

    /// These flags with the one selected by `mask` set or cleared.
    pub open spec fn with(&self, mask: u16, on: bool) -> Flags {
        Flags { bi: flag_put(self.bi, mask, on) }
    }

    /// These flags with the one selected by `mask` set if `on` holds, and
    /// unchanged if not.
    pub open spec fn raised(&self, mask: u16, on: bool) -> Flags {
        if on {
            self.with(mask, true)
        } else {
            *self
        }
    }

    /// Bit 1 is set and every reserved bit is zero.
    pub open spec fn wf(&self) -> bool {
        self.bi & 0xF02A == 2
    }

    /// These flags with CF, AF, SF, ZF, OF and PF cleared.
    pub open spec fn without_arith(&self) -> Flags {
        self.with(CF, false).with(AF, false).with(SF, false).with(ZF, false).with(OF, false).with(
            PF,
            false,
        )
    }

    /// Clears CF, AF, SF, ZF, OF and PF; DF, IF and TF stay as they were,
    /// and so do bit 1 and the reserved bits.
    pub fn clear_arith(&mut self)
        ensures
            *final(self) == old(self).without_arith(),
            !final(self).has(CF) && !final(self).has(AF) && !final(self).has(SF),
            !final(self).has(ZF) && !final(self).has(OF) && !final(self).has(PF),
            final(self).has(DF) == old(self).has(DF),
            final(self).has(IF) == old(self).has(IF),
            final(self).has(TF) == old(self).has(TF),
            final(self).bi & 0xF02A == old(self).bi & 0xF02A,
    {
        proof {
            lemma_flag_bits();
        }
        self.clear_cf();
        self.clear_af();
        self.clear_sf();
        self.clear_zf();
        self.clear_of();
        self.clear_pf();
    }

    /// Sets or clears the flag selected by `mask`.
    pub fn put(&mut self, mask: u16, on: bool)
        ensures
            *final(self) == old(self).with(mask, on),
    {
        if on {
            self.bi = self.bi | mask;
        } else {
            self.bi = self.bi & !mask;
        }
    }

    /// The whole FLAGS word.
    pub fn to_u16(&self) -> (w: u16)
        ensures
            w == self.bi,
    {
        self.bi
    }

    /// Loads the nine flags from `val`. Bit 1 is set and the reserved bits
    /// are zero afterwards, whatever `val` holds there.
    pub fn set_from_u16(&mut self, val: u16)
        ensures
            final(self).bi == flags_of_word(val),
            final(self).wf(),
            forall|m: u16| is_flag(m) ==> final(self).has(m) == flag_get(val, m),
    {
        proof {
            lemma_flags_of_word(val);
        }
        self.bi = (val & FLAGS_DEFINED) | FLAGS_FIXED;
    }

    /// Clears the carry flag and leaves every other bit as it was.
    #[inline(always)]
    pub fn clear_cf(&mut self)
        ensures
            *final(self) == old(self).with(CF, false),
    {
        self.bi = self.bi & !CF;
    }

    /// Sets the carry flag and leaves every other bit as it was.
    #[inline(always)]
    pub fn set_cf(&mut self)
        ensures
            *final(self) == old(self).with(CF, true),
    {
        self.bi = self.bi | CF;
    }

    /// Reads the carry flag.
    #[inline(always)]
    pub fn cf(&self) -> (on: bool)
        ensures
            on == self.has(CF),
    {
        self.bi & CF != 0
    }

    /// Clears the parity flag and leaves every other bit as it was.
    #[inline(always)]
    pub fn clear_pf(&mut self)
        ensures
            *final(self) == old(self).with(PF, false),
    {
        self.bi = self.bi & !PF;
    }

    /// Sets the parity flag and leaves every other bit as it was.
    #[inline(always)]
    pub fn set_pf(&mut self)
        ensures
            *final(self) == old(self).with(PF, true),
    {
        self.bi = self.bi | PF;
    }

    /// Reads the parity flag.
    #[inline(always)]
    pub fn pf(&self) -> (on: bool)
        ensures
            on == self.has(PF),
    {
        self.bi & PF != 0
    }

    /// Clears the auxiliary carry flag and leaves every other bit as it was.
    #[inline(always)]
    pub fn clear_af(&mut self)
        ensures
            *final(self) == old(self).with(AF, false),
    {
        self.bi = self.bi & !AF;
    }

    /// Sets the auxiliary carry flag and leaves every other bit as it was.
    #[inline(always)]
    pub fn set_af(&mut self)
        ensures
            *final(self) == old(self).with(AF, true),
    {
        self.bi = self.bi | AF;
    }

    /// Reads the auxiliary carry flag.
    #[inline(always)]
    pub fn af(&self) -> (on: bool)
        ensures
            on == self.has(AF),
    {
        self.bi & AF != 0
    }

    /// Clears the zero flag and leaves every other bit as it was.
    #[inline(always)]
    pub fn clear_zf(&mut self)
        ensures
            *final(self) == old(self).with(ZF, false),
    {
        self.bi = self.bi & !ZF;
    }

    /// Sets the zero flag and leaves every other bit as it was.
    #[inline(always)]
    pub fn set_zf(&mut self)
        ensures
            *final(self) == old(self).with(ZF, true),
    {
        self.bi = self.bi | ZF;
    }

    /// Reads the zero flag.
    #[inline(always)]
    pub fn zf(&self) -> (on: bool)
        ensures
            on == self.has(ZF),
    {
        self.bi & ZF != 0
    }

    /// Clears the sign flag and leaves every other bit as it was.
    #[inline(always)]
    pub fn clear_sf(&mut self)
        ensures
            *final(self) == old(self).with(SF, false),
    {
        self.bi = self.bi & !SF;
    }

    /// Sets the sign flag and leaves every other bit as it was.
    #[inline(always)]
    pub fn set_sf(&mut self)
        ensures
            *final(self) == old(self).with(SF, true),
    {
        self.bi = self.bi | SF;
    }

    /// Reads the sign flag.
    #[inline(always)]
    pub fn sf(&self) -> (on: bool)
        ensures
            on == self.has(SF),
    {
        self.bi & SF != 0
    }

    /// Clears the trap flag and leaves every other bit as it was.
    #[inline(always)]
    pub fn clear_tf(&mut self)
        ensures
            *final(self) == old(self).with(TF, false),
    {
        self.bi = self.bi & !TF;
    }

    /// Sets the trap flag and leaves every other bit as it was.
    #[inline(always)]
    pub fn set_tf(&mut self)
        ensures
            *final(self) == old(self).with(TF, true),
    {
        self.bi = self.bi | TF;
    }

    /// Reads the trap flag.
    #[inline(always)]
    pub fn tf(&self) -> (on: bool)
        ensures
            on == self.has(TF),
    {
        self.bi & TF != 0
    }

    /// Clears the interrupt-enable flag and leaves every other bit as it was.
    #[inline(always)]
    pub fn clear_if(&mut self)
        ensures
            *final(self) == old(self).with(IF, false),
    {
        self.bi = self.bi & !IF;
    }

    /// Sets the interrupt-enable flag and leaves every other bit as it was.
    #[inline(always)]
    pub fn set_if(&mut self)
        ensures
            *final(self) == old(self).with(IF, true),
    {
        self.bi = self.bi | IF;
    }

    /// Reads the interrupt-enable flag.
    #[inline(always)]
    pub fn i_f(&self) -> (on: bool)
        ensures
            on == self.has(IF),
    {
        self.bi & IF != 0
    }

    /// Clears the direction flag and leaves every other bit as it was.
    #[inline(always)]
    pub fn clear_df(&mut self)
        ensures
            *final(self) == old(self).with(DF, false),
    {
        self.bi = self.bi & !DF;
    }

    /// Sets the direction flag and leaves every other bit as it was.
    #[inline(always)]
    pub fn set_df(&mut self)
        ensures
            *final(self) == old(self).with(DF, true),
    {
        self.bi = self.bi | DF;
    }

    /// Reads the direction flag.
    #[inline(always)]
    pub fn df(&self) -> (on: bool)
        ensures
            on == self.has(DF),
    {
        self.bi & DF != 0
    }

    /// Clears the overflow flag and leaves every other bit as it was.
    #[inline(always)]
    pub fn clear_of(&mut self)
        ensures
            *final(self) == old(self).with(OF, false),
    {
        self.bi = self.bi & !OF;
    }

    /// Sets the overflow flag and leaves every other bit as it was.
    #[inline(always)]
    pub fn set_of(&mut self)
        ensures
            *final(self) == old(self).with(OF, true),
    {
        self.bi = self.bi | OF;
    }

    /// Reads the overflow flag.
    #[inline(always)]
    pub fn of(&self) -> (on: bool)
        ensures
            on == self.has(OF),
    {
        self.bi & OF != 0
    }
}

/// The register file.
pub struct Registers {
    pub ax: u16,
    pub bx: u16,
    pub cx: u16,
    pub dx: u16,
    pub si: u16,
    pub di: u16,
    pub sp: u16,
    pub bp: u16,
    pub es: u16,
    pub ds: u16,
    pub cs: u16,
    pub ss: u16,
    pub flags: Flags,
    pub ip: u16,
}

impl Registers {
    /// Every register zero and FLAGS = 0x0002.
    pub open spec fn zeroed() -> Registers {
        Registers {
            ax: 0,
            bx: 0,
            cx: 0,
            dx: 0,
            si: 0,
            di: 0,
            sp: 0,
            bp: 0,
            es: 0,
            ds: 0,
            cs: 0,
            ss: 0,
            flags: Flags { bi: 2 },
            ip: 0,
        }
    }

    #[inline(always)]
    pub fn set_ax(&mut self, val: u16)
        ensures
            *final(self) == (Registers { ax: val, ..*old(self) }),
    {
        self.ax = val;
    }

    #[inline(always)]
    pub fn get_ax(&self) -> (v: u16)
        ensures
            v == self.ax,
    {
        self.ax
    }

    /// AL, the low byte of AX.
    #[inline(always)]
    pub fn get_al(&self) -> (v: u8)
        ensures
            v == lo(self.ax),
    {
        low_byte(self.ax)
    }

    /// Writes AL and leaves AH as it was.
    #[inline(always)]
    pub fn set_al(&mut self, val: u8)
        ensures
            *final(self) == (Registers { ax: with_lo(old(self).ax, val), ..*old(self) }),
            lo(final(self).ax) == val,
            hi(final(self).ax) == hi(old(self).ax),
    {
        self.ax = replace_low(self.ax, val);
    }

    /// AH, the high byte of AX.
    #[inline(always)]
    pub fn get_ah(&self) -> (v: u8)
        ensures
            v == hi(self.ax),
    {
        high_byte(self.ax)
    }

    /// Writes AH and leaves AL as it was.
    #[inline(always)]
    pub fn set_ah(&mut self, val: u8)
        ensures
            *final(self) == (Registers { ax: with_hi(old(self).ax, val), ..*old(self) }),
            hi(final(self).ax) == val,
            lo(final(self).ax) == lo(old(self).ax),
    {
        self.ax = replace_high(self.ax, val);
    }

    #[inline(always)]
    pub fn set_bx(&mut self, val: u16)
        ensures
            *final(self) == (Registers { bx: val, ..*old(self) }),
    {
        self.bx = val;
    }

    #[inline(always)]
    pub fn get_bx(&self) -> (v: u16)
        ensures
            v == self.bx,
    {
        self.bx
    }

    /// BL, the low byte of BX.
    #[inline(always)]
    pub fn get_bl(&self) -> (v: u8)
        ensures
            v == lo(self.bx),
    {
        low_byte(self.bx)
    }

    /// Writes BL and leaves BH as it was.
    #[inline(always)]
    pub fn set_bl(&mut self, val: u8)
        ensures
            *final(self) == (Registers { bx: with_lo(old(self).bx, val), ..*old(self) }),
            lo(final(self).bx) == val,
            hi(final(self).bx) == hi(old(self).bx),
    {
        self.bx = replace_low(self.bx, val);
    }

    /// BH, the high byte of BX.
    #[inline(always)]
    pub fn get_bh(&self) -> (v: u8)
        ensures
            v == hi(self.bx),
    {
        high_byte(self.bx)
    }

    /// Writes BH and leaves BL as it was.
    #[inline(always)]
    pub fn set_bh(&mut self, val: u8)
        ensures
            *final(self) == (Registers { bx: with_hi(old(self).bx, val), ..*old(self) }),
            hi(final(self).bx) == val,
            lo(final(self).bx) == lo(old(self).bx),
    {
        self.bx = replace_high(self.bx, val);
    }

    #[inline(always)]
    pub fn set_cx(&mut self, val: u16)
        ensures
            *final(self) == (Registers { cx: val, ..*old(self) }),
    {
        self.cx = val;
    }

    #[inline(always)]
    pub fn get_cx(&self) -> (v: u16)
        ensures
            v == self.cx,
    {
        self.cx
    }

    /// CL, the low byte of CX.
    #[inline(always)]
    pub fn get_cl(&self) -> (v: u8)
        ensures
            v == lo(self.cx),
    {
        low_byte(self.cx)
    }

    /// Writes CL and leaves CH as it was.
    #[inline(always)]
    pub fn set_cl(&mut self, val: u8)
        ensures
            *final(self) == (Registers { cx: with_lo(old(self).cx, val), ..*old(self) }),
            lo(final(self).cx) == val,
            hi(final(self).cx) == hi(old(self).cx),
    {
        self.cx = replace_low(self.cx, val);
    }

    /// CH, the high byte of CX.
    #[inline(always)]
    pub fn get_ch(&self) -> (v: u8)
        ensures
            v == hi(self.cx),
    {
        high_byte(self.cx)
    }

    /// Writes CH and leaves CL as it was.
    #[inline(always)]
    pub fn set_ch(&mut self, val: u8)
        ensures
            *final(self) == (Registers { cx: with_hi(old(self).cx, val), ..*old(self) }),
            hi(final(self).cx) == val,
            lo(final(self).cx) == lo(old(self).cx),
    {
        self.cx = replace_high(self.cx, val);
    }

    #[inline(always)]
    pub fn set_dx(&mut self, val: u16)
        ensures
            *final(self) == (Registers { dx: val, ..*old(self) }),
    {
        self.dx = val;
    }

    #[inline(always)]
    pub fn get_dx(&self) -> (v: u16)
        ensures
            v == self.dx,
    {
        self.dx
    }

    /// DL, the low byte of DX.
    #[inline(always)]
    pub fn get_dl(&self) -> (v: u8)
        ensures
            v == lo(self.dx),
    {
        low_byte(self.dx)
    }

    /// Writes DL and leaves DH as it was.
    #[inline(always)]
    pub fn set_dl(&mut self, val: u8)
        ensures
            *final(self) == (Registers { dx: with_lo(old(self).dx, val), ..*old(self) }),
            lo(final(self).dx) == val,
            hi(final(self).dx) == hi(old(self).dx),
    {
        self.dx = replace_low(self.dx, val);
    }

    /// DH, the high byte of DX.
    #[inline(always)]
    pub fn get_dh(&self) -> (v: u8)
        ensures
            v == hi(self.dx),
    {
        high_byte(self.dx)
    }

    /// Writes DH and leaves DL as it was.
    #[inline(always)]
    pub fn set_dh(&mut self, val: u8)
        ensures
            *final(self) == (Registers { dx: with_hi(old(self).dx, val), ..*old(self) }),
            hi(final(self).dx) == val,
            lo(final(self).dx) == lo(old(self).dx),
    {
        self.dx = replace_high(self.dx, val);
    }

    #[inline(always)]
    pub fn get_si(&self) -> (v: u16)
        ensures
            v == self.si,
    {
        self.si
    }

    #[inline(always)]
    pub fn set_si(&mut self, val: u16)
        ensures
            *final(self) == (Registers { si: val, ..*old(self) }),
    {
        self.si = val;
    }

    #[inline(always)]
    pub fn get_di(&self) -> (v: u16)
        ensures
            v == self.di,
    {
        self.di
    }

    #[inline(always)]
    pub fn set_di(&mut self, val: u16)
        ensures
            *final(self) == (Registers { di: val, ..*old(self) }),
    {
        self.di = val;
    }

    #[inline(always)]
    pub fn get_bp(&self) -> (v: u16)
        ensures
            v == self.bp,
    {
        self.bp
    }

    #[inline(always)]
    pub fn set_bp(&mut self, val: u16)
        ensures
            *final(self) == (Registers { bp: val, ..*old(self) }),
    {
        self.bp = val;
    }

    #[inline(always)]
    pub fn get_sp(&self) -> (v: u16)
        ensures
            v == self.sp,
    {
        self.sp
    }

    #[inline(always)]
    pub fn set_sp(&mut self, val: u16)
        ensures
            *final(self) == (Registers { sp: val, ..*old(self) }),
    {
        self.sp = val;
    }

    /// The base address of the SS segment: the register times 16.
    #[inline(always)]
    pub fn get_ss(&self) -> (base: u32)
        ensures
            base == segment_base(self.ss),
    {
        (self.ss as u32) * 16
    }

    /// Loads SS from a base address, which must be a multiple of 16. The
    /// register keeps the low 16 bits of `val / 16`.
    #[inline(always)]
    pub fn set_ss(&mut self, val: u32)
        requires
            val % 16 == 0,
        ensures
            *final(self) == (Registers { ss: segment_of_base(val), ..*old(self) }),
    {
        self.ss = ((val / 16) % 0x1_0000) as u16;
    }

    /// The base address of the CS segment: the register times 16.
    #[inline(always)]
    pub fn get_cs(&self) -> (base: u32)
        ensures
            base == segment_base(self.cs),
    {
        (self.cs as u32) * 16
    }

    /// Loads CS from a base address, which must be a multiple of 16. The
    /// register keeps the low 16 bits of `val / 16`.
    #[inline(always)]
    pub fn set_cs(&mut self, val: u32)
        requires
            val % 16 == 0,
        ensures
            *final(self) == (Registers { cs: segment_of_base(val), ..*old(self) }),
    {
        self.cs = ((val / 16) % 0x1_0000) as u16;
    }

    /// The base address of the DS segment: the register times 16.
    #[inline(always)]
    pub fn get_ds(&self) -> (base: u32)
        ensures
            base == segment_base(self.ds),
    {
        (self.ds as u32) * 16
    }

    /// Loads DS from a base address, which must be a multiple of 16. The
    /// register keeps the low 16 bits of `val / 16`.
    #[inline(always)]
    pub fn set_ds(&mut self, val: u32)
        requires
            val % 16 == 0,
        ensures
            *final(self) == (Registers { ds: segment_of_base(val), ..*old(self) }),
    {
        self.ds = ((val / 16) % 0x1_0000) as u16;
    }

    /// The base address of the ES segment: the register times 16.
    #[inline(always)]
    pub fn get_es(&self) -> (base: u32)
        ensures
            base == segment_base(self.es),
    {
        (self.es as u32) * 16
    }

    /// Loads ES from a base address, which must be a multiple of 16. The
    /// register keeps the low 16 bits of `val / 16`.
    #[inline(always)]
    pub fn set_es(&mut self, val: u32)
        requires
            val % 16 == 0,
        ensures
            *final(self) == (Registers { es: segment_of_base(val), ..*old(self) }),
    {
        self.es = ((val / 16) % 0x1_0000) as u16;
    }
}

impl Default for Registers {
    /// Every register zero and every flag clear.
    fn default() -> (r: Self)
        ensures
            r == Registers::zeroed(),
    {
        Self {
            ip: 0,
            ax: 0,
            bx: 0,
            cx: 0,
            dx: 0,
            si: 0,
            sp: 0,
            di: 0,
            bp: 0,
            ss: 0,
            ds: 0,
            es: 0,
            cs: 0,
            flags: Flags::default(),
        }
    }
}

} // verus!
