//! Loading a program image into memory.

use vstd::prelude::*;
use crate::cpu::{linear, Cpu, Machine};
use crate::mem::{advanced, wrap};

verus! {

/// The largest program that is loaded; what goes beyond is cut off.
pub const PROGRAM_LIMIT: usize = 1024;

/// Number of bytes of an image that are loaded.
pub open spec fn loaded_len(image: Seq<u8>) -> int {
    if image.len() < PROGRAM_LIMIT {
        image.len() as int
    } else {
        PROGRAM_LIMIT as int
    }
}

/// Memory after loading the first `n` bytes of `image` from the physical
/// address `base` on: byte `k` of the image stands at `base + k`,
/// wrapped, and every other address keeps what it held.
pub open spec fn holds_image(mem: Seq<u8>, before: Seq<u8>, base: int, image: Seq<u8>, n: int) -> bool {
    &&& mem.len() == before.len()
    &&& forall|a: int|
        0 <= a < mem.len() ==> #[trigger] mem[a] == (if wrap(a - base) < n {
            image[wrap(a - base)]
        } else {
            before[a]
        })
}

impl Cpu {
    /// Loads a program at `CS:0000`: at most `PROGRAM_LIMIT` bytes of
    /// `vec`, the rest is cut off. The program size is the number of
    /// bytes loaded. No register changes.
    #[verifier::rlimit(50)]
    pub fn load_code_vec(&mut self, vec: &[u8])
        requires
            old(self).wf(),
        ensures
            final(self).wf(),
            final(self).prog_size == loaded_len(vec@),
            holds_image(
                final(self)@.mem,
                old(self)@.mem,
                linear(old(self).regs.cs, 0),
                vec@,
                loaded_len(vec@),
            ),
            final(self)@ == (Machine {
                mem: final(self)@.mem,
                cursor: advanced(linear(old(self).regs.cs, 0), loaded_len(vec@)),
                prog_size: final(self).prog_size,
                ..old(self)@
            }),
    {
        let base: u32 = self.code_addr(0);
        self.mem.seek_to(base as u64);
        let n: usize = if vec.len() < PROGRAM_LIMIT {
            vec.len()
        } else {
            PROGRAM_LIMIT
        };
        let mut i: usize = 0;
        while i < n
            invariant
                self.wf(),
                i <= n,
                n == loaded_len(vec@),
                base == linear(old(self).regs.cs, 0),
                holds_image(self@.mem, old(self)@.mem, base as int, vec@, i as int),
                self@ == (Machine {
                    mem: self@.mem,
                    cursor: advanced(base as int, i as int),
                    ..old(self)@
                }),
            decreases n - i,
        {
            self.mem.write_u8(vec[i]);
            i += 1;
        }
        self.prog_size = n as u64;
    }
}

} // verus!
