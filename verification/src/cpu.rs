//! The processor: its instruction types, its state, and the accessors that
//! every instruction handler is built from.

use vstd::prelude::*;
use crate::mem::{advanced, load16, load8, store16, store8, wrap, Mem, MEM_SIZE};
use crate::regs::{hi, lo, with_hi, with_lo, Flags, Registers};

verus! {

/// One operand of a decoded instruction.
///
/// A memory operand carries the resolved 20-bit physical address first and
/// the 16-bit offset inside its segment second.
#[derive(Debug, PartialEq, Eq, Clone, Copy, Structural)]
pub enum Operand {
    Mem16(u32, u32),
    Mem8(u32, u32),
    Reg8(u8),
    Reg16(u8),
    Imm8(u8),
    Imm16(u16),
    Seg(u8),
}

/// The operations that the decoder tells apart.
#[derive(Debug, Clone, Copy, PartialEq, Eq, PartialOrd, Structural)]
pub enum Opcode {
    Add,
    PushEs,
    PopEs,
    Or,
    PushCs,
    Adc,
    PushSs,
    PopSs,
    Sbb,
    Sub,
    Cmp,
    PushDs,
    PopDs,
    And,
    Xor,
    OverrideEs,
    OverrideCs,
    OverrideSs,
    OverrideDs,
    Daa,
    Aas,
    Das,
    Aaa,
    IncAx,
    IncCx,
    IncBx,
    IncDx,
    IncSp,
    IncBp,
    IncSi,
    IncDi,
    DecAx,
    DecCx,
    DecBx,
    DecDx,
    DecSp,
    DecBp,
    DecSi,
    DecDi,
    PushAx,
    PushCx,
    PushBx,
    PushDx,
    PushSp,
    PushBp,
    PushSi,
    PushDi,
    PopAx,
    PopCx,
    PopBx,
    PopDx,
    PopSp,
    PopBp,
    PopSi,
    PopDi,
    Jo,
    Jno,
    Jb,
    Jnb,
    Jz,
    Jnz,
    Jbe,
    Jnbe,
    Js,
    Jns,
    Jp,
    Jnp,
    Jl,
    Jnl,
    Jle,
    Jnle,
    Test,
    Xchg,
    Mov,
    Lea,
    Pop,
    Push,
    Cbw,
    Cwd,
    CallFar,
    Wait,
    Pushf,
    Popf,
    Lahf,
    Sahf,
    Movsb,
    Movsw,
    Cmpsb,
    Cmpsw,
    Stosb,
    Stosw,
    Lodsb,
    Lodsw,
    Scasb,
    Scasw,
    Ret,
    Retf,
    Les,
    Lds,
    Int,
    Into,
    Iret,
    Rol,
    Ror,
    Rcl,
    Rcr,
    Shl,
    Shr,
    Sar,
    Aad,
    Aam,
    Xlat,
    Loop,
    Loope,
    Loopne,
    Jcxz,
    In,
    Out,
    Lock,
    Rep,
    Repne,
    Hlt,
    Cmc,
    CallNear,
    JmpNear,
    JmpFar,
    Not,
    Neg,
    Mul,
    Imul,
    Div,
    Idiv,
    Clc,
    Stc,
    Cli,
    Sti,
    Cld,
    Std,
    Inc,
    Dec,
}

/// The three bitwise operations of the logic handler.
#[derive(Debug, Clone, Copy, PartialEq, Eq, Structural)]
pub enum BitOp {
    And,
    Xor,
    Or,
}

/// A decoded instruction.
#[derive(Debug, Clone, Copy, PartialEq, Eq, Structural)]
pub struct Instruction {
    pub opcode: Opcode,
    pub dest: Operand,
    pub src: Operand,
}

/// The four segments.
#[derive(Debug, Clone, Copy, PartialEq, Eq, PartialOrd, Structural)]
pub enum Segment {
    Ds,
    Es,
    Ss,
    Cs,
}

/// Why the processor stopped, when it was not a `HLT`.
#[derive(Debug, Clone, Copy, PartialEq, Eq, Structural)]
pub enum Fault {
    /// The bytes at `CS:IP` are no instruction of this processor.
    Decode,
    /// Division by zero, or a quotient that does not fit.
    Divide,
    /// The instruction is decoded but has no implementation: `IN`, `OUT`,
    /// `WAIT`, `LOCK`.
    Unsupported,
    /// The operands are of a kind that the operation cannot take.
    Operands,
}

impl Instruction {
    pub fn opcode(&self) -> (op: Opcode)
        ensures
            op == self.opcode,
    {
        self.opcode
    }

    pub fn operands(&self) -> (ops: (Operand, Operand))
        ensures
            ops == (self.dest, self.src),
    {
        (self.dest, self.src)
    }
}

impl Operand {
    /// A register or a memory location: something a result can be written
    /// to. A register index must be below 8.
    pub open spec fn is_place(self) -> bool {
        match self {
            Operand::Reg8(r) => r < 8,
            Operand::Reg16(r) => r < 8,
            Operand::Mem8(_, _) => true,
            Operand::Mem16(_, _) => true,
            _ => false,
        }
    }

    /// A register, a memory location or a segment register: something a
    /// value can be moved to.
    pub open spec fn is_target(self) -> bool {
        self.is_place() || self is Seg
    }

    /// Anything that has a value: every kind, a register with an index
    /// below 8.
    pub open spec fn is_value(self) -> bool {
        match self {
            Operand::Reg8(r) => r < 8,
            Operand::Reg16(r) => r < 8,
            _ => true,
        }
    }

    /// Whether the operand is 16 bits wide.
    pub open spec fn is_word(self) -> bool {
        match self {
            Operand::Reg8(_) => false,
            Operand::Mem8(_, _) => false,
            Operand::Imm8(_) => false,
            _ => true,
        }
    }

    pub fn place(&self) -> (b: bool)
        ensures
            b == self.is_place(),
    {
        match *self {
            Operand::Reg8(r) => r < 8,
            Operand::Reg16(r) => r < 8,
            Operand::Mem8(_, _) => true,
            Operand::Mem16(_, _) => true,
            _ => false,
        }
    }

    pub fn target(&self) -> (b: bool)
        ensures
            b == self.is_target(),
    {
        match *self {
            Operand::Reg8(r) => r < 8,
            Operand::Reg16(r) => r < 8,
            Operand::Mem8(_, _) => true,
            Operand::Mem16(_, _) => true,
            Operand::Seg(_) => true,
            _ => false,
        }
    }

    pub fn value(&self) -> (b: bool)
        ensures
            b == self.is_value(),
    {
        match *self {
            Operand::Reg8(r) => r < 8,
            Operand::Reg16(r) => r < 8,
            _ => true,
        }
    }

    pub fn word(&self) -> (b: bool)
        ensures
            b == self.is_word(),
    {
        match *self {
            Operand::Reg8(_) => false,
            Operand::Mem8(_, _) => false,
            Operand::Imm8(_) => false,
            _ => true,
        }
    }
}

/// The whole architectural state as a mathematical value.
pub struct Machine {
    pub regs: Registers,
    /// Memory by physical address, `MEM_SIZE` bytes.
    pub mem: Seq<u8>,
    /// The memory cursor.
    pub cursor: int,
    pub prog_size: u64,
    pub seg_override: Option<Segment>,
    pub halt: bool,
    pub fault: Option<Fault>,
}

impl Machine {
    pub open spec fn wf(self) -> bool {
        &&& self.mem.len() == MEM_SIZE
        &&& 0 <= self.cursor <= MEM_SIZE
    }

    /// This state with other registers.
    pub open spec fn with_regs(self, regs: Registers) -> Machine {
        Machine { regs, ..self }
    }

    /// This state with other memory contents.
    pub open spec fn with_mem(self, mem: Seq<u8>) -> Machine {
        Machine { mem, ..self }
    }

    /// This state with other flags.
    pub open spec fn with_flags(self, flags: Flags) -> Machine {
        Machine { regs: Registers { flags, ..self.regs }, ..self }
    }

    /// This state with another instruction pointer.
    pub open spec fn with_ip(self, ip: u16) -> Machine {
        Machine { regs: Registers { ip, ..self.regs }, ..self }
    }

    /// This state with the cursor `n` bytes further on in the
    /// instruction stream.
    pub open spec fn skip(self, n: int) -> Machine {
        Machine { cursor: advanced(self.cursor, n), ..self }
    }

    /// The next byte of the instruction stream.
    pub open spec fn next8(self) -> u8 {
        load8(self.mem, self.cursor)
    }

    /// The next word of the instruction stream.
    pub open spec fn next16(self) -> u16 {
        load16(self.mem, self.cursor)
    }

    /// This state stopped by `fault`.
    pub open spec fn stopped(self, fault: Fault) -> Machine {
        Machine { halt: true, fault: Some(fault), ..self }
    }
}

/// The physical address of `offset` in the segment `seg`:
/// `(seg * 16 + offset) mod 2^20`.
pub open spec fn linear(seg: u16, offset: int) -> int {
    wrap(seg * 16 + offset)
}

/// The 16-bit register with the given index of the `reg` encoding:
/// AX, CX, DX, BX, SP, BP, SI, DI.
pub open spec fn reg16(r: Registers, id: u8) -> u16 {
    match id {
        0 => r.ax,
        1 => r.cx,
        2 => r.dx,
        3 => r.bx,
        4 => r.sp,
        5 => r.bp,
        6 => r.si,
        7 => r.di,
        _ => 0,
    }
}

/// The 8-bit register with the given index of the `reg` encoding:
/// AL, CL, DL, BL, AH, CH, DH, BH.
pub open spec fn reg8(r: Registers, id: u8) -> u8 {
    match id {
        0 => lo(r.ax),
        1 => lo(r.cx),
        2 => lo(r.dx),
        3 => lo(r.bx),
        4 => hi(r.ax),
        5 => hi(r.cx),
        6 => hi(r.dx),
        7 => hi(r.bx),
        _ => 0,
    }
}

/// The registers after writing a 16-bit register.
pub open spec fn put_reg16(r: Registers, id: u8, val: u16) -> Registers {
    match id {
        0 => Registers { ax: val, ..r },
        1 => Registers { cx: val, ..r },
        2 => Registers { dx: val, ..r },
        3 => Registers { bx: val, ..r },
        4 => Registers { sp: val, ..r },
        5 => Registers { bp: val, ..r },
        6 => Registers { si: val, ..r },
        7 => Registers { di: val, ..r },
        _ => r,
    }
}

/// The registers after writing an 8-bit register; the other half of its
/// 16-bit register stays as it was.
pub open spec fn put_reg8(r: Registers, id: u8, val: u8) -> Registers {
    match id {
        0 => Registers { ax: with_lo(r.ax, val), ..r },
        1 => Registers { cx: with_lo(r.cx, val), ..r },
        2 => Registers { dx: with_lo(r.dx, val), ..r },
        3 => Registers { bx: with_lo(r.bx, val), ..r },
        4 => Registers { ax: with_hi(r.ax, val), ..r },
        5 => Registers { cx: with_hi(r.cx, val), ..r },
        6 => Registers { dx: with_hi(r.dx, val), ..r },
        7 => Registers { bx: with_hi(r.bx, val), ..r },
        _ => r,
    }
}

/// The value of a register as `get_reg` gives it: a 16-bit register, or
/// an 8-bit one zero-extended.
pub open spec fn reg_value(r: Registers, id: u8, word: bool) -> u16 {
    if word {
        reg16(r, id)
    } else {
        reg8(r, id) as u16
    }
}

/// The registers after `set_reg`: a 16-bit register takes `val`, an 8-bit
/// one its low byte.
pub open spec fn put_reg(r: Registers, id: u8, word: bool, val: u16) -> Registers {
    if word {
        put_reg16(r, id, val)
    } else {
        put_reg8(r, id, lo(val))
    }
}

/// The segment register with the given index of the `sreg` encoding:
/// ES, CS, SS, DS. Only the low two bits of the index count.
pub open spec fn seg_reg(r: Registers, pos: u8) -> u16 {
    match pos % 4 {
        0 => r.es,
        1 => r.cs,
        2 => r.ss,
        _ => r.ds,
    }
}

/// The registers after writing a segment register.
pub open spec fn put_seg_reg(r: Registers, pos: u8, val: u16) -> Registers {
    match pos % 4 {
        0 => Registers { es: val, ..r },
        1 => Registers { cs: val, ..r },
        2 => Registers { ss: val, ..r },
        _ => Registers { ds: val, ..r },
    }
}

/// The value of the named segment register.
pub open spec fn segment_value(r: Registers, seg: Segment) -> u16 {
    match seg {
        Segment::Ds => r.ds,
        Segment::Es => r.es,
        Segment::Ss => r.ss,
        Segment::Cs => r.cs,
    }
}

/// The segment that a memory reference uses: the pending override if
/// there is one, else the default of the addressing form.
pub open spec fn effective_segment(ov: Option<Segment>, default: Segment) -> Segment {
    match ov {
        Some(s) => s,
        None => default,
    }
}

/// The value that an operand stands for. A byte is zero-extended.
pub open spec fn operand_value(m: Machine, op: Operand) -> u16 {
    match op {
        Operand::Mem16(a, _) => load16(m.mem, a as int),
        Operand::Mem8(a, _) => load8(m.mem, a as int) as u16,
        Operand::Reg8(i) => reg8(m.regs, i) as u16,
        Operand::Reg16(i) => reg16(m.regs, i),
        Operand::Imm8(v) => v as u16,
        Operand::Imm16(v) => v,
        Operand::Seg(i) => seg_reg(m.regs, i),
    }
}

/// The state after writing `val` to a register, memory or segment
/// register operand. A byte operand takes the low byte of `val`.
pub open spec fn put_operand(m: Machine, op: Operand, val: u16) -> Machine {
    match op {
        Operand::Mem16(a, _) => m.with_mem(store16(m.mem, a as int, val)),
        Operand::Mem8(a, _) => m.with_mem(store8(m.mem, a as int, lo(val))),
        Operand::Reg8(i) => m.with_regs(put_reg8(m.regs, i, lo(val))),
        Operand::Reg16(i) => m.with_regs(put_reg16(m.regs, i, val)),
        Operand::Seg(i) => m.with_regs(put_seg_reg(m.regs, i, val)),
        _ => m,
    }
}

/// `x` reduced to 16 bits.
pub open spec fn wrap16(x: int) -> u16 {
    (x % 0x1_0000) as u16
}

/// `val` as a `u32`.
pub fn wide(val: u16) -> (w: u32)
    ensures
        w == val,
{
    val as u32
}

/// `val` as a `u16`.
pub fn word_of(val: u8) -> (w: u16)
    ensures
        w == val,
{
    val as u16
}

/// The low 16 bits of `val`.
pub fn low_word(val: u32) -> (w: u16)
    ensures
        w == wrap16(val as int),
{
    (val % 0x1_0000) as u16
}

/// `a + b` reduced to 16 bits.
pub fn add16(a: u16, b: u16) -> (r: u16)
    ensures
        r == wrap16(a + b),
{
    ((a as u32 + b as u32) % 0x1_0000) as u16
}

/// `a - b` reduced to 16 bits.
pub fn sub16(a: u16, b: u16) -> (r: u16)
    ensures
        r == wrap16(a - b),
{
    proof {
        vstd::arithmetic::div_mod::lemma_mod_add_multiples_vanish(a - b, 0x1_0000);
    }
    ((a as u32 + 0x1_0000 - b as u32) % 0x1_0000) as u16
}

/// The value of a byte read as two's complement, reduced to 16 bits: its
/// sign extension.
pub fn sign_extended(b: u8) -> (r: u16)
    ensures
        r == wrap16(crate::mem::signed8(b)),
{
    if b < 0x80 {
        b as u16
    } else {
        0xff00 + b as u16
    }
}

/// The processor: registers, memory, and the state that lives between
/// instructions.
pub struct Cpu {
    pub regs: Registers,
    pub mem: Mem,
    /// Number of program bytes loaded at `CS:0000`.
    pub prog_size: u64,
    /// The segment override that the last prefix set, until the next
    /// instruction that is no prefix has run.
    pub seg_override: Option<Segment>,
    pub halt: bool,
    /// Set together with `halt` when the processor stopped on an error.
    pub fault: Option<Fault>,
}

impl Cpu {
    /// The state as a mathematical value.
    pub open spec fn view(&self) -> Machine {
        Machine {
            regs: self.regs,
            mem: self.mem@,
            cursor: self.mem.cursor(),
            prog_size: self.prog_size,
            seg_override: self.seg_override,
            halt: self.halt,
            fault: self.fault,
        }
    }

    pub open spec fn wf(&self) -> bool {
        self.mem.wf()
    }

    /// Whether the processor's memory is well-formed: the test of `wf` at
    /// run time.
    pub fn is_wf(&self) -> (b: bool)
        ensures
            b == self.wf(),
    {
        self.mem.is_wf()
    }

    /// A processor after reset: memory zeroed, CS = 0xFFFF, every other
    /// register zero, FLAGS = 0x0002, nothing loaded, not halted.
    pub fn init() -> (cpu: Self)
        ensures
            cpu.wf(),
            cpu.regs == (Registers { cs: 0xffff, ..Registers::zeroed() }),
            cpu.regs.flags.bi == 2,
            cpu@.cursor == 0,
            forall|i: int| 0 <= i < MEM_SIZE ==> cpu@.mem[i] == 0,
            cpu.prog_size == 0,
            cpu.seg_override.is_none(),
            !cpu.halt,
            cpu.fault.is_none(),
    {
        let mut cpu = Self {
            halt: false,
            fault: None,
            prog_size: 0,
            regs: Registers::default(),
            mem: Mem::new(),
            seg_override: None,
        };
        cpu.regs.cs = 0xffff;
        cpu.regs.flags.set_from_u16(2);
        assert((2u16 & 0x0FD5) | 2 == 2) by (bit_vector);
        cpu
    }

    /// Sets the segments and pointers for a program loaded at address 0:
    /// CS = DS = ES = 0, SS base = 0x1000, IP = 0, SP = 0x0FFF.
    pub fn test_mode(&mut self)
        ensures
            final(self)@ == old(self)@.with_regs(
                Registers { cs: 0, ds: 0, ss: 0x100, es: 0, ip: 0, sp: 4095, ..old(self).regs },
            ),
            final(self).mem == old(self).mem,
    {
        self.regs.cs = 0;
        self.regs.ds = 0;
        self.regs.set_ss(4096);
        self.regs.es = 0;
        self.regs.ip = 0;
        self.regs.sp = 4095;
    }

    /// Stops the processor on an error.
    pub fn raise(&mut self, fault: Fault)
        ensures
            final(self)@ == old(self)@.stopped(fault),
            final(self).mem == old(self).mem,
    {
        self.halt = true;
        self.fault = Some(fault);
    }

    pub fn get_seg_reg(&self, pos: u8) -> (v: u16)
        ensures
            v == seg_reg(self.regs, pos),
    {
        match pos % 4 {
            0 => self.regs.es,
            1 => self.regs.cs,
            2 => self.regs.ss,
            _ => self.regs.ds,
        }
    }

    pub fn set_seg_reg(&mut self, pos: u8, val: u16)
        ensures
            final(self)@ == old(self)@.with_regs(put_seg_reg(old(self).regs, pos, val)),
            final(self).mem == old(self).mem,
    {
        match pos % 4 {
            0 => self.regs.es = val,
            1 => self.regs.cs = val,
            2 => self.regs.ss = val,
            _ => self.regs.ds = val,
        };
    }

    /// Reads a register by its index in the `reg` encoding; an 8-bit
    /// register comes zero-extended.
    pub fn get_reg(&self, id: u8, word: bool) -> (v: u16)
        requires
            id < 8,
        ensures
            v == reg_value(self.regs, id, word),
    {
        if word {
            match id {
                0 => self.regs.get_ax(),
                3 => self.regs.get_bx(),
                2 => self.regs.get_dx(),
                6 => self.regs.get_si(),
                4 => self.regs.get_sp(),
                5 => self.regs.get_bp(),
                7 => self.regs.get_di(),
                _ => self.regs.get_cx(),
            }
        } else {
            word_of(
                match id {
                    0 => self.regs.get_al(),
                    3 => self.regs.get_bl(),
                    2 => self.regs.get_dl(),
                    6 => self.regs.get_dh(),
                    4 => self.regs.get_ah(),
                    5 => self.regs.get_ch(),
                    7 => self.regs.get_bh(),
                    _ => self.regs.get_cl(),
                },
            )
        }
    }

    /// Writes a register by its index in the `reg` encoding; an 8-bit
    /// register takes the low byte of `val`.
    pub fn set_reg(&mut self, id: u8, word: bool, val: u16)
        requires
            id < 8,
        ensures
            final(self)@ == old(self)@.with_regs(put_reg(old(self).regs, id, word, val)),
            final(self).mem == old(self).mem,
    {
        if word {
            match id {
                0 => self.regs.set_ax(val),
                3 => self.regs.set_bx(val),
                2 => self.regs.set_dx(val),
                6 => self.regs.set_si(val),
                4 => self.regs.set_sp(val),
                5 => self.regs.set_bp(val),
                7 => self.regs.set_di(val),
                _ => self.regs.set_cx(val),
            };
        } else {
            let b: u8 = crate::regs::low_byte(val);
            match id {
                0 => self.regs.set_al(b),
                3 => self.regs.set_bl(b),
                2 => self.regs.set_dl(b),
                6 => self.regs.set_dh(b),
                4 => self.regs.set_ah(b),
                5 => self.regs.set_ch(b),
                7 => self.regs.set_bh(b),
                _ => self.regs.set_cl(b),
            };
        };
    }

    /// The physical address of `offt` in the segment `seg`:
    /// `(segment * 16 + offt) mod 2^20`.
    pub fn ea(&self, seg: &Segment, offt: u32) -> (addr: u32)
        ensures
            addr == linear(segment_value(self.regs, *seg), offt as int),
    {
        let base: u32 = match seg {
            Segment::Ds => self.regs.get_ds(),
            Segment::Es => self.regs.get_es(),
            Segment::Ss => self.regs.get_ss(),
            Segment::Cs => self.regs.get_cs(),
        };
        ((base as u64 + offt as u64) % (MEM_SIZE as u64)) as u32
    }

    /// The physical address of `offt` in the pending override segment, or
    /// in `seg` when no override is pending.
    pub fn get_segment_offset(&mut self, seg: Segment, offt: u32) -> (addr: u32)
        ensures
            addr == linear(
                segment_value(old(self).regs, effective_segment(old(self).seg_override, seg)),
                offt as int,
            ),
            final(self)@ == old(self)@,
            final(self).mem == old(self).mem,
    {
        match self.seg_override {
            Some(ov) => self.ea(&ov, offt),
            None => self.ea(&seg, offt),
        }
    }

    /// The value of an operand; the cursor stays where it was.
    pub fn operand_value(&mut self, op: Operand) -> (val: u16)
        requires
            old(self).wf(),
            op.is_value(),
        ensures
            final(self).wf(),
            final(self)@ == old(self)@,
            val == operand_value(old(self)@, op),
    {
        let pos = self.mem.pos();
        let val = match op {
            Operand::Mem16(i, _) => {
                self.mem.seek_to(i as u64);
                self.mem.read_u16()
            },
            Operand::Mem8(i, _) => {
                self.mem.seek_to(i as u64);
                self.mem.read_u8() as u16
            },
            Operand::Reg8(i) => self.get_reg(i, false),
            Operand::Reg16(i) => self.get_reg(i, true),
            Operand::Imm8(i) => i as u16,
            Operand::Imm16(i) => i,
            Operand::Seg(i) => self.get_seg_reg(i),
        };
        self.restore(pos);
        val
    }

    /// Writes `val` to a register, memory or segment register operand;
    /// the cursor stays where it was.
    pub fn write_operand(&mut self, op: Operand, val: u16)
        requires
            old(self).wf(),
            op.is_target(),
        ensures
            final(self).wf(),
            final(self)@ == put_operand(old(self)@, op, val),
    {
        match op {
            Operand::Mem16(p, _) => self.write_mem_u16(p, val),
            Operand::Mem8(p, _) => self.write_mem_u8(p, crate::regs::low_byte(val)),
            Operand::Reg8(r) => self.set_reg(r, false, val),
            Operand::Reg16(r) => self.set_reg(r, true, val),
            Operand::Seg(r) => self.set_seg_reg(r, val),
            _ => {},
        }
    }

    /// Takes the next byte of the instruction stream.
    pub fn take_u8(&mut self) -> (v: u8)
        requires
            old(self).wf(),
        ensures
            final(self).wf(),
            v == old(self)@.next8(),
            final(self)@ == old(self)@.skip(1),
    {
        self.mem.read_u8()
    }

    /// Takes the next word of the instruction stream.
    pub fn take_u16(&mut self) -> (v: u16)
        requires
            old(self).wf(),
        ensures
            final(self).wf(),
            v == old(self)@.next16(),
            final(self)@ == old(self)@.skip(2),
    {
        self.mem.read_u16()
    }

    /// Puts the cursor back where `pos` says it was.
    fn restore(&mut self, pos: u64)
        requires
            old(self).wf(),
            pos <= MEM_SIZE,
        ensures
            final(self).wf(),
            final(self)@ == (Machine { cursor: pos as int, ..old(self)@ }),
    {
        self.mem.seek_to(pos);
    }

    /// Stores a word at the physical address `pos`, wrapped; the cursor
    /// stays where it was.
    pub fn write_mem_u16(&mut self, pos: u32, val: u16)
        requires
            old(self).wf(),
        ensures
            final(self).wf(),
            final(self)@ == old(self)@.with_mem(store16(old(self)@.mem, pos as int, val)),
    {
        let p = self.mem.pos();
        self.mem.seek_to(pos as u64);
        self.mem.write_u16(val);
        self.restore(p);
    }

    /// Stores a byte at the physical address `pos`, wrapped; the cursor
    /// stays where it was.
    pub fn write_mem_u8(&mut self, pos: u32, val: u8)
        requires
            old(self).wf(),
        ensures
            final(self).wf(),
            final(self)@ == old(self)@.with_mem(store8(old(self)@.mem, pos as int, val)),
    {
        let p = self.mem.pos();
        self.mem.seek_to(pos as u64);
        self.mem.write_u8(val);
        self.restore(p);
    }

    /// The word at the physical address `pos`, wrapped; the cursor stays
    /// where it was.
    pub fn read_mem_u16(&mut self, pos: u32) -> (val: u16)
        requires
            old(self).wf(),
        ensures
            final(self).wf(),
            final(self)@ == old(self)@,
            val == load16(old(self)@.mem, pos as int),
    {
        let p = self.mem.pos();
        self.mem.seek_to(pos as u64);
        let res = self.mem.read_u16();
        self.restore(p);
        res
    }

    /// The byte at the physical address `pos`, wrapped; the cursor stays
    /// where it was.
    pub fn read_mem_u8(&mut self, pos: u32) -> (val: u8)
        requires
            old(self).wf(),
        ensures
            final(self).wf(),
            final(self)@ == old(self)@,
            val == load8(old(self)@.mem, pos as int),
    {
        let p = self.mem.pos();
        self.mem.seek_to(pos as u64);
        let res = self.mem.read_u8();
        self.restore(p);
        res
    }

    /// The physical address of `offset` in the code segment.
    pub fn code_addr(&self, offset: u16) -> (addr: u32)
        ensures
            addr == linear(self.regs.cs, offset as int),
    {
        (self.regs.get_cs() + offset as u32) % (MEM_SIZE as u32)
    }

    /// The physical address of `offset` in the stack segment.
    pub fn stack_addr(&self, offset: u16) -> (addr: u32)
        ensures
            addr == linear(self.regs.ss, offset as int),
    {
        (self.regs.get_ss() + offset as u32) % (MEM_SIZE as u32)
    }

    /// The physical address of `offset` in the extra segment.
    pub fn extra_addr(&self, offset: u16) -> (addr: u32)
        ensures
            addr == linear(self.regs.es, offset as int),
    {
        (self.regs.get_es() + offset as u32) % (MEM_SIZE as u32)
    }

    /// The physical address of `offset` in the data segment.
    pub fn data_addr(&self, offset: u16) -> (addr: u32)
        ensures
            addr == linear(self.regs.ds, offset as int),
    {
        (self.regs.get_ds() + offset as u32) % (MEM_SIZE as u32)
    }
}

} // verus!
