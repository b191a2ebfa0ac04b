//! The string instructions: MOVS, CMPS, SCAS, STOS and LODS, on bytes and
//! on words.
//!
//! The source is at `DS:SI`, or in the overriding segment when a prefix
//! set one; the destination is at `ES:DI`. After the access SI and DI
//! move by the operand size, each on its own: upwards when DF is clear,
//! downwards when it is set.

use vstd::prelude::*;
use crate::alu::{difference, difference_outcome, flags_after, status_shown, Outcome};
use crate::cpu::{
    add16,
    effective_segment,
    linear,
    put_reg,
    reg_value,
    segment_value,
    sub16,
    wide,
    word_of,
    wrap16,
    Cpu,
    Machine,
    Segment,
};
use crate::mem::{load16, load8, store16, store8};
use crate::regs::{lo, low_byte, Flags, Registers, CF, DF};

verus! {

/// The byte or word at a physical address; a byte is zero-extended.
pub open spec fn load(bytes: Seq<u8>, addr: int, word: bool) -> u16 {
    if word {
        load16(bytes, addr)
    } else {
        load8(bytes, addr) as u16
    }
}

/// Memory after storing a word, or the low byte of `val`.
pub open spec fn store(bytes: Seq<u8>, addr: int, val: u16, word: bool) -> Seq<u8> {
    if word {
        store16(bytes, addr, val)
    } else {
        store8(bytes, addr, lo(val))
    }
}

/// An index register after one string step.
pub open spec fn stepped(index: u16, word: bool, f: Flags) -> u16 {
    let size: int = if word {
        2
    } else {
        1
    };
    if f.has(DF) {
        wrap16(index - size)
    } else {
        wrap16(index + size)
    }
}

/// The physical address of the string source.
pub open spec fn source_addr(m: Machine) -> int {
    linear(
        segment_value(m.regs, effective_segment(m.seg_override, Segment::Ds)),
        m.regs.si as int,
    )
}

/// The physical address of the string destination.
pub open spec fn dest_addr(m: Machine) -> int {
    linear(m.regs.es, m.regs.di as int)
}

/// The state after MOVS: the source element copied to the destination,
/// SI and DI stepped.
pub open spec fn movs_spec(m: Machine, word: bool) -> Machine {
    Machine {
        mem: store(m.mem, dest_addr(m), load(m.mem, source_addr(m), word), word),
        regs: Registers {
            si: stepped(m.regs.si, word, m.regs.flags),
            di: stepped(m.regs.di, word, m.regs.flags),
            ..m.regs
        },
        ..m
    }
}

/// What CMPS computes: the source element minus the destination element.
pub open spec fn compare_outcome(m: Machine, word: bool) -> Outcome {
    difference_outcome(
        load(m.mem, source_addr(m), word),
        load(m.mem, dest_addr(m), word),
        false,
        word,
    )
}

/// The state after CMPS: the six status flags of the subtraction, SI and
/// DI stepped.
pub open spec fn compare_spec(m: Machine, word: bool) -> Machine {
    m.with_regs(
        Registers {
            flags: flags_after(m.regs.flags, compare_outcome(m, word)),
            si: stepped(m.regs.si, word, m.regs.flags),
            di: stepped(m.regs.di, word, m.regs.flags),
            ..m.regs
        },
    )
}

/// What SCAS computes: the accumulator (AL or AX) minus the destination
/// element.
pub open spec fn scan_outcome(m: Machine, word: bool) -> Outcome {
    difference_outcome(reg_value(m.regs, 0, word), load(m.mem, dest_addr(m), word), false, word)
}

/// The state after SCAS: the six status flags of the subtraction, DI
/// stepped.
pub open spec fn scan_spec(m: Machine, word: bool) -> Machine {
    m.with_regs(
        Registers {
            flags: flags_after(m.regs.flags, scan_outcome(m, word)),
            di: stepped(m.regs.di, word, m.regs.flags),
            ..m.regs
        },
    )
}

/// The state after STOS: the accumulator stored at the destination, DI
/// stepped.
pub open spec fn stos_spec(m: Machine, word: bool) -> Machine {
    Machine {
        mem: store(m.mem, dest_addr(m), reg_value(m.regs, 0, word), word),
        regs: Registers { di: stepped(m.regs.di, word, m.regs.flags), ..m.regs },
        ..m
    }
}

/// The state after LODS: the source element in the accumulator, SI
/// stepped.
pub open spec fn lods_spec(m: Machine, word: bool) -> Machine {
    let loaded = put_reg(m.regs, 0, word, load(m.mem, source_addr(m), word));
    m.with_regs(Registers { si: stepped(m.regs.si, word, m.regs.flags), ..loaded })
}

impl Cpu {
    /// The byte or word at a physical address.
    pub fn load(&mut self, addr: u32, word: bool) -> (val: u16)
        requires
            old(self).wf(),
        ensures
            final(self).wf(),
            final(self)@ == old(self)@,
            val == load(old(self)@.mem, addr as int, word),
    {
        if word {
            self.read_mem_u16(addr)
        } else {
            word_of(self.read_mem_u8(addr))
        }
    }

    /// Stores a word, or the low byte of `val`, at a physical address.
    pub fn store(&mut self, addr: u32, val: u16, word: bool)
        requires
            old(self).wf(),
        ensures
            final(self).wf(),
            final(self)@ == old(self)@.with_mem(store(old(self)@.mem, addr as int, val, word)),
    {
        if word {
            self.write_mem_u16(addr, val);
        } else {
            self.write_mem_u8(addr, low_byte(val));
        }
    }

    /// An index register after one string step.
    pub fn stepped(&self, index: u16, word: bool) -> (next: u16)
        ensures
            next == stepped(index, word, self.regs.flags),
    {
        let size: u16 = if word {
            2
        } else {
            1
        };
        if !self.regs.flags.df() {
            add16(index, size)
        } else {
            sub16(index, size)
        }
    }

    /// The physical address of the string source.
    pub fn source_addr(&mut self) -> (addr: u32)
        ensures
            addr == source_addr(old(self)@),
            final(self)@ == old(self)@,
            final(self).mem == old(self).mem,
    {
        self.get_segment_offset(Segment::Ds, wide(self.regs.si))
    }

    /// MOVS on bytes or words.
    pub fn movs(&mut self, word: bool)
        requires
            old(self).wf(),
        ensures
            final(self).wf(),
            final(self)@ == movs_spec(old(self)@, word),
    {
        let dest: u32 = self.extra_addr(self.regs.di);
        let src: u32 = self.source_addr();
        let val: u16 = self.load(src, word);
        self.store(dest, val, word);
        self.regs.si = self.stepped(self.regs.si, word);
        self.regs.di = self.stepped(self.regs.di, word);
    }

    /// CMPS on bytes or words: compares the source element with the
    /// destination element.
    pub fn compare(&mut self, word: bool)
        requires
            old(self).wf(),
        ensures
            final(self).wf(),
            final(self)@ == compare_spec(old(self)@, word),
            compare_outcome(old(self)@, word).describes_value(word),
            status_shown(
                final(self).regs.flags,
                old(self).regs.flags,
                compare_outcome(old(self)@, word),
            ),
            final(self).regs.flags.has(CF) == compare_outcome(old(self)@, word).cf,
    {
        let dest: u32 = self.extra_addr(self.regs.di);
        let src: u32 = self.source_addr();
        let a: u16 = self.load(src, word);
        let b: u16 = self.load(dest, word);
        let si: u16 = self.stepped(self.regs.si, word);
        let di: u16 = self.stepped(self.regs.di, word);
        let o: Outcome = difference(a, b, false, word);
        self.set_status(&o);
        self.regs.si = si;
        self.regs.di = di;
    }

    /// SCAS on bytes or words: compares the accumulator with the
    /// destination element.
    pub fn scan(&mut self, word: bool)
        requires
            old(self).wf(),
        ensures
            final(self).wf(),
            final(self)@ == scan_spec(old(self)@, word),
            scan_outcome(old(self)@, word).describes_value(word),
            status_shown(
                final(self).regs.flags,
                old(self).regs.flags,
                scan_outcome(old(self)@, word),
            ),
            final(self).regs.flags.has(CF) == scan_outcome(old(self)@, word).cf,
    {
        let dest: u32 = self.extra_addr(self.regs.di);
        let a: u16 = self.get_reg(0, word);
        let b: u16 = self.load(dest, word);
        let di: u16 = self.stepped(self.regs.di, word);
        let o: Outcome = difference(a, b, false, word);
        self.set_status(&o);
        self.regs.di = di;
    }

    /// STOS on bytes or words.
    pub fn stos(&mut self, word: bool)
        requires
            old(self).wf(),
        ensures
            final(self).wf(),
            final(self)@ == stos_spec(old(self)@, word),
    {
        let dest: u32 = self.extra_addr(self.regs.di);
        let val: u16 = self.get_reg(0, word);
        self.store(dest, val, word);
        self.regs.di = self.stepped(self.regs.di, word);
    }

    /// LODS on bytes or words.
    pub fn lods(&mut self, word: bool)
        requires
            old(self).wf(),
        ensures
            final(self).wf(),
            final(self)@ == lods_spec(old(self)@, word),
    {
        let src: u32 = self.source_addr();
        let val: u16 = self.load(src, word);
        let si: u16 = self.stepped(self.regs.si, word);
        self.set_reg(0, word, val);
        self.regs.si = si;
    }

    pub fn movsb(&mut self)
        requires
            old(self).wf(),
        ensures
            final(self).wf(),
            final(self)@ == movs_spec(old(self)@, false),
    {
        self.movs(false);
    }

    pub fn movsw(&mut self)
        requires
            old(self).wf(),
        ensures
            final(self).wf(),
            final(self)@ == movs_spec(old(self)@, true),
    {
        self.movs(true);
    }

    pub fn cmpsb(&mut self)
        requires
            old(self).wf(),
        ensures
            final(self).wf(),
            final(self)@ == compare_spec(old(self)@, false),
    {
        self.compare(false);
    }

    pub fn cmpsw(&mut self)
        requires
            old(self).wf(),
        ensures
            final(self).wf(),
            final(self)@ == compare_spec(old(self)@, true),
    {
        self.compare(true);
    }

    pub fn scasb(&mut self)
        requires
            old(self).wf(),
        ensures
            final(self).wf(),
            final(self)@ == scan_spec(old(self)@, false),
    {
        self.scan(false);
    }

    pub fn scasw(&mut self)
        requires
            old(self).wf(),
        ensures
            final(self).wf(),
            final(self)@ == scan_spec(old(self)@, true),
    {
        self.scan(true);
    }

    pub fn stosb(&mut self)
        requires
            old(self).wf(),
        ensures
            final(self).wf(),
            final(self)@ == stos_spec(old(self)@, false),
    {
        self.stos(false);
    }

    pub fn stosw(&mut self)
        requires
            old(self).wf(),
        ensures
            final(self).wf(),
            final(self)@ == stos_spec(old(self)@, true),
    {
        self.stos(true);
    }

    pub fn lodsb(&mut self)
        requires
            old(self).wf(),
        ensures
            final(self).wf(),
            final(self)@ == lods_spec(old(self)@, false),
    {
        self.lods(false);
    }

    pub fn lodsw(&mut self)
        requires
            old(self).wf(),
        ensures
            final(self).wf(),
            final(self)@ == lods_spec(old(self)@, true),
    {
        self.lods(true);
    }
}

} // verus!
