//! Linear memory with a movable cursor, and the two leading instruction bytes.

use vstd::prelude::*;

verus! {

/// Number of bytes of linear memory: the 20-bit physical address space.
pub const MEM_SIZE: usize = 0x10_0000;

/// A physical address reduced to the 20-bit address space.
pub open spec fn wrap(addr: int) -> int {
    addr % 0x10_0000
}

/// The byte stored at `addr`, wrapped.
pub open spec fn load8(bytes: Seq<u8>, addr: int) -> u8 {
    bytes[wrap(addr)]
}

/// The little-endian word whose low byte is at `addr`; the high byte is
/// at the next address, wrapped.
pub open spec fn load16(bytes: Seq<u8>, addr: int) -> u16 {
    (load8(bytes, addr) + 256 * load8(bytes, addr + 1)) as u16
}

/// Memory after storing one byte at `addr`, wrapped.
pub open spec fn store8(bytes: Seq<u8>, addr: int, val: u8) -> Seq<u8> {
    bytes.update(wrap(addr), val)
}

/// Memory after storing a little-endian word at `addr` and the next
/// address, each wrapped.
pub open spec fn store16(bytes: Seq<u8>, addr: int, val: u16) -> Seq<u8> {
    store8(store8(bytes, addr, (val % 256) as u8), addr + 1, (val / 256) as u8)
}

/// Where the cursor stands after a seek to `pos`: at `pos` if that is
/// inside memory or just past its end, else at `pos` wrapped.
pub open spec fn settled(pos: int) -> int {
    if 0 <= pos <= 0x10_0000 {
        pos
    } else {
        wrap(pos)
    }
}

/// Where the cursor stands after one access that started at `cursor`.
pub open spec fn after_access(cursor: int) -> int {
    wrap(cursor) + 1
}

/// Where the cursor stands after `n` one-byte accesses that started at
/// `cursor`.
pub open spec fn advanced(cursor: int, n: int) -> int {
    if n <= 0 {
        cursor
    } else {
        wrap(cursor + n - 1) + 1
    }
}

/// The two's-complement reading of a byte.
pub open spec fn signed8(b: u8) -> int {
    if b < 0x80 {
        b as int
    } else {
        b - 0x100
    }
}

/// The two's-complement reading of a word.
pub open spec fn signed16(w: u16) -> int {
    if w < 0x8000 {
        w as int
    } else {
        w - 0x1_0000
    }
}

/// The word whose two's-complement reading is `v`.
pub open spec fn unsigned16(v: i16) -> u16 {
    if v >= 0 {
        v as u16
    } else {
        (v + 0x1_0000) as u16
    }
}

proof fn lemma_byte_fields(b: u8)
    by (bit_vector)
    ensures
        (b & 1 > 0) == (b % 2 == 1),
        (b & 2 > 0) == ((b / 2) % 2 == 1),
        b >> 2 == b / 4,
        b >> 6 == b / 64,
        b & 7 == b % 8,
        (b >> 3) & 7 == (b / 8) % 8,
        b | 1 == (if b % 2 == 1 { b } else { (b + 1) as u8 }),
{
}

/// First byte of an instruction: six bits of primary opcode, then the
/// direction bit and the width bit.
#[derive(Clone, Copy)]
pub struct Byte1 {
    bp: u8,
}

impl Byte1 {
    /// The raw byte.
    pub closed spec fn view(&self) -> u8 {
        self.bp
    }

    pub fn new(bp: u8) -> (b: Self)
        ensures
            b@ == bp,
    {
        Self { bp }
    }

    /// The width bit: set for a 16-bit operation.
    pub fn word(&self) -> (w: bool)
        ensures
            w == (self@ % 2 == 1),
    {
        proof {
            lemma_byte_fields(self.bp);
        }
        self.bp & 0b1 > 0
    }

    /// The direction bit: set when the `reg` field names the destination.
    pub fn reg_is_dest(&self) -> (d: bool)
        ensures
            d == ((self@ / 2) % 2 == 1),
    {
        proof {
            lemma_byte_fields(self.bp);
        }
        self.bp & 0b10 > 0
    }

    /// The primary opcode group, 0 to 63.
    pub fn opcode(&self) -> (g: u8)
        ensures
            g == self@ / 4,
    {
        proof {
            lemma_byte_fields(self.bp);
        }
        self.bp >> 2
    }

    pub fn to_u8(&self) -> (b: u8)
        ensures
            b == self@,
    {
        self.bp
    }

    /// Forces the width bit on.
    pub fn set_word(&mut self)
        ensures
            final(self)@ == (if old(self)@ % 2 == 1 {
                old(self)@
            } else {
                (old(self)@ + 1) as u8
            }),
            final(self)@ % 2 == 1,
            final(self)@ / 4 == old(self)@ / 4,
    {
        proof {
            lemma_byte_fields(self.bp);
        }
        self.bp = self.bp | 1;
    }
}

/// Second byte of an instruction: `mod` (2 bits), `reg` (3 bits), `rm`
/// (3 bits).
#[derive(Clone, Copy)]
pub struct Byte2 {
    bp: u8,
}

impl Byte2 {
    /// The raw byte.
    pub closed spec fn view(&self) -> u8 {
        self.bp
    }

    pub fn new(bp: u8) -> (b: Self)
        ensures
            b@ == bp,
    {
        Self { bp }
    }

    pub fn to_u8(&self) -> (b: u8)
        ensures
            b == self@,
    {
        self.bp
    }

    /// The addressing-mode category, 0 to 3.
    pub fn modd(&self) -> (m: u8)
        ensures
            m == self@ / 64,
    {
        proof {
            lemma_byte_fields(self.bp);
        }
        self.bp >> 6
    }

    /// The register-or-memory selector, 0 to 7.
    pub fn rm(&self) -> (r: u8)
        ensures
            r == self@ % 8,
    {
        proof {
            lemma_byte_fields(self.bp);
        }
        self.bp & 0b111
    }

    /// The register selector or opcode extension, 0 to 7.
    pub fn reg(&self) -> (r: u8)
        ensures
            r == (self@ / 8) % 8,
    {
        proof {
            lemma_byte_fields(self.bp);
        }
        (self.bp >> 3) & 0b111
    }
}

/// One mebibyte of byte-addressable memory with a read/write cursor.
///
/// Every access happens at the cursor and moves it one byte forward per
/// byte touched. An access at the end of memory wraps to address 0.
pub struct Mem {
    data: Vec<u8>,
    cursor: usize,
}

impl Mem {
    /// The bytes of memory, by physical address.
    pub closed spec fn view(&self) -> Seq<u8> {
        self.data@
    }

    /// Where the next access happens.
    pub closed spec fn cursor(&self) -> int {
        self.cursor as int
    }

    /// Memory is exactly `MEM_SIZE` bytes and the cursor is inside it or
    /// just past its end.
    pub open spec fn wf(&self) -> bool {
        &&& self@.len() == MEM_SIZE
        &&& 0 <= self.cursor() <= MEM_SIZE
    }

    /// Whether memory has its size and the cursor is in range: the test of
    /// `wf` at run time.
    pub fn is_wf(&self) -> (b: bool)
        ensures
            b == self.wf(),
    {
        self.data.len() == MEM_SIZE && self.cursor <= MEM_SIZE
    }

    /// Zero-filled memory with the cursor at address 0.
    pub fn new() -> (m: Self)
        ensures
            m.wf(),
            m.cursor() == 0,
            forall|i: int| 0 <= i < MEM_SIZE ==> m@[i] == 0,
    {
        Self { data: vec![0u8; MEM_SIZE], cursor: 0 }
    }

    pub fn read_u8(&mut self) -> (v: u8)
        requires
            old(self).wf(),
        ensures
            final(self).wf(),
            v == load8(old(self)@, old(self).cursor()),
            final(self)@ == old(self)@,
            final(self).cursor() == after_access(old(self).cursor()),
    {
        let at: usize = self.cursor % MEM_SIZE;
        let v: u8 = self.data[at];
        self.cursor = at + 1;
        v
    }

    pub fn read_u16(&mut self) -> (v: u16)
        requires
            old(self).wf(),
        ensures
            final(self).wf(),
            v == load16(old(self)@, old(self).cursor()),
            final(self)@ == old(self)@,
            final(self).cursor() == after_access(old(self).cursor() + 1),
    {
        let lo: u8 = self.read_u8();
        let hi: u8 = self.read_u8();
        lo as u16 + 256 * (hi as u16)
    }

    pub fn read_i8(&mut self) -> (v: i8)
        requires
            old(self).wf(),
        ensures
            final(self).wf(),
            v == signed8(load8(old(self)@, old(self).cursor())),
            final(self)@ == old(self)@,
            final(self).cursor() == after_access(old(self).cursor()),
    {
        let b: u8 = self.read_u8();
        if b < 0x80 {
            b as i8
        } else {
            (b as i16 - 0x100) as i8
        }
    }

    pub fn read_i16(&mut self) -> (v: i16)
        requires
            old(self).wf(),
        ensures
            final(self).wf(),
            v == signed16(load16(old(self)@, old(self).cursor())),
            final(self)@ == old(self)@,
            final(self).cursor() == after_access(old(self).cursor() + 1),
    {
        let w: u16 = self.read_u16();
        if w < 0x8000 {
            w as i16
        } else {
            (w as i32 - 0x1_0000) as i16
        }
    }

    pub fn write_u8(&mut self, val: u8)
        requires
            old(self).wf(),
        ensures
            final(self).wf(),
            final(self)@ == store8(old(self)@, old(self).cursor(), val),
            final(self).cursor() == after_access(old(self).cursor()),
    {
        let at: usize = self.cursor % MEM_SIZE;
        self.data.set(at, val);
        self.cursor = at + 1;
    }

    pub fn write_u16(&mut self, val: u16)
        requires
            old(self).wf(),
        ensures
            final(self).wf(),
            final(self)@ == store16(old(self)@, old(self).cursor(), val),
            final(self).cursor() == after_access(old(self).cursor() + 1),
    {
        self.write_u8((val % 256) as u8);
        self.write_u8((val / 256) as u8);
    }

    /// Stores one byte; the same as `write_u8`.
    pub fn write_i8(&mut self, val: u8)
        requires
            old(self).wf(),
        ensures
            final(self).wf(),
            final(self)@ == store8(old(self)@, old(self).cursor(), val),
            final(self).cursor() == after_access(old(self).cursor()),
    {
        self.write_u8(val);
    }

    /// Stores a signed word in two's complement, little-endian.
    pub fn write_i16(&mut self, val: i16)
        requires
            old(self).wf(),
        ensures
            final(self).wf(),
            final(self)@ == store16(old(self)@, old(self).cursor(), unsigned16(val)),
            final(self).cursor() == after_access(old(self).cursor() + 1),
    {
        let w: u16 = if val >= 0 {
            val as u16
        } else {
            (val as i32 + 0x1_0000) as u16
        };
        self.write_u16(w);
    }

    /// Moves the cursor to the absolute address `val`; an address beyond
    /// the end of memory wraps.
    pub fn seek_to(&mut self, val: u64)
        requires
            old(self).wf(),
        ensures
            final(self).wf(),
            final(self)@ == old(self)@,
            final(self).cursor() == settled(val as int),
    {
        if val <= MEM_SIZE as u64 {
            self.cursor = val as usize;
        } else {
            self.cursor = (val % (MEM_SIZE as u64)) as usize;
        }
    }

    /// Moves the cursor by `val` bytes, forwards or backwards; a target
    /// outside memory wraps.
    pub fn seek_by(&mut self, val: i64)
        requires
            old(self).wf(),
        ensures
            final(self).wf(),
            final(self)@ == old(self)@,
            final(self).cursor() == settled(old(self).cursor() + val),
    {
        let size: u64 = MEM_SIZE as u64;
        let here: u64 = self.cursor as u64;
        if val >= 0 && val as u64 <= size - here {
            self.cursor = (here + val as u64) as usize;
        } else if val < 0 && val >= -(here as i64) {
            self.cursor = (here as i64 + val) as usize;
        } else {
            let shift: u64 = if val >= 0 {
                (val as u64) % size
            } else {
                let back: u64 = ((-(val + 1)) as u64) % size + 1;
                size - back
            };
            assert(shift as int % 0x10_0000 == (val as int) % 0x10_0000);
            self.cursor = ((here % size + shift) % size) as usize;
        }
    }

    /// The cursor's address.
    pub fn pos(&self) -> (p: u64)
        ensures
            p == self.cursor(),
    {
        self.cursor as u64
    }
}

} // verus!
