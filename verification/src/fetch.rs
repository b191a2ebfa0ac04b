//! Fetching: the decoder at work on the instruction stream of a
//! processor.

use vstd::prelude::*;
use crate::cpu::{add16, sign_extended, wide, Cpu, Fault, Instruction, Machine, Opcode, Operand, Segment};
use crate::decode::{
    alu_op,
    bare_instruction,
    decode_arith,
    decode_direct,
    decode_group3,
    decode_group35,
    decode_group45,
    decode_group49,
    decode_immediate_group,
    decode_rest,
    decode_transfer,
    decode_turn,
    fetch_result,
    fetch_state,
    fixed_op,
    jump_op,
    lemma_skip_twice,
    register,
    register_op,
    rm_len,
    row_end_op,
    turn_op,
    unary_op,
    Decoded,
};
use crate::mem::{Byte1, Byte2, MEM_SIZE};

verus! {

/// Whether `after` is the state that decoding `d` leaves from `before`:
/// the cursor behind the bytes that were read, and nothing else changed.
pub open spec fn consumed(before: Machine, after: Machine, d: Decoded) -> bool {
    &&& after.wf()
    &&& after == before.skip(d.len)
}

/// An instruction has at most six bytes: `decode_rest` reads at most
/// five after the first.
pub proof fn lemma_decode_len(m: Machine, b1: u8)
    ensures
        0 <= decode_rest(m, b1).len <= 5,
{
    reveal(decode_rest);
}

impl Cpu {
    /// Decodes an instruction whose first byte is below 0x40.
    pub fn decode_arith(&mut self, b1: Byte1) -> (res: Option<Instruction>)
        requires
            old(self).wf(),
        ensures
            res == decode_arith(old(self)@, b1@).instr,
            consumed(old(self)@, final(self)@, decode_arith(old(self)@, b1@)),
    {
        let b: u8 = b1.to_u8();
        let opcode: Opcode = alu_op(b / 8);
        let form: u8 = b % 8;
        if form < 4 {
            Some(self.modrm_pair(opcode, b1))
        } else if form < 6 {
            let src: Operand = self.immediate(form == 5);
            Some(Instruction { opcode, dest: register(0, form == 5), src })
        } else {
            match row_end_op(b / 8, form == 7) {
                Some(op) => Some(bare_instruction(op)),
                None => None,
            }
        }
    }

    /// Decodes an instruction whose first byte is 0x80 to 0x83.
    pub fn decode_immediate_group(&mut self, b1: Byte1) -> (res: Option<Instruction>)
        requires
            old(self).wf(),
        ensures
            res == decode_immediate_group(old(self)@, b1@).instr,
            consumed(old(self)@, final(self)@, decode_immediate_group(old(self)@, b1@)),
    {
        let tail: u8 = b1.to_u8() % 4;
        let b2 = Byte2::new(self.take_u8());
        let dest: Operand = self.addr_mod(b1, b2);
        let src: Operand = if tail == 3 {
            Operand::Imm16(sign_extended(self.take_u8()))
        } else {
            self.immediate(tail == 1)
        };
        proof {
            lemma_skip_twice(old(self)@, 1, rm_len(b2@));
            lemma_skip_twice(old(self)@, 1 + rm_len(b2@), 1);
            lemma_skip_twice(old(self)@, 1 + rm_len(b2@), 2);
        }
        Some(Instruction { opcode: alu_op(b2.reg()), dest, src })
    }

    /// Decodes an instruction whose first byte is 0x8C to 0x8F.
    pub fn decode_group35(&mut self, b1: Byte1) -> (res: Option<Instruction>)
        requires
            old(self).wf(),
        ensures
            res == decode_group35(old(self)@, b1@).instr,
            consumed(old(self)@, final(self)@, decode_group35(old(self)@, b1@)),
    {
        let tail: u8 = b1.to_u8() % 4;
        let mut wide_form: Byte1 = b1;
        wide_form.set_word();
        let b2 = Byte2::new(self.take_u8());
        let reg: u8 = b2.reg();
        let rm: Operand = self.addr_mod(wide_form, b2);
        proof {
            lemma_skip_twice(old(self)@, 1, rm_len(b2@));
        }
        if tail == 0 {
            if reg < 4 {
                Some(Instruction { opcode: Opcode::Mov, dest: rm, src: Operand::Seg(reg) })
            } else {
                None
            }
        } else if tail == 1 {
            Some(Instruction { opcode: Opcode::Lea, dest: Operand::Reg16(reg), src: rm })
        } else if tail == 2 {
            if reg < 4 {
                Some(Instruction { opcode: Opcode::Mov, dest: Operand::Seg(reg), src: rm })
            } else {
                None
            }
        } else {
            if reg == 0 {
                Some(Instruction { opcode: Opcode::Pop, dest: rm, src: Operand::Reg8(0) })
            } else {
                None
            }
        }
    }

    /// Decodes an instruction whose first byte is 0xA0 to 0xA3.
    pub fn decode_direct(&mut self, b1: Byte1) -> (res: Option<Instruction>)
        requires
            old(self).wf(),
        ensures
            res == decode_direct(old(self)@, b1@).instr,
            consumed(old(self)@, final(self)@, decode_direct(old(self)@, b1@)),
    {
        let word: bool = b1.word();
        let offt: u16 = self.take_u16();
        let addr: u32 = self.get_segment_offset(Segment::Ds, wide(offt));
        let mem: Operand = if word {
            Operand::Mem16(addr, wide(offt))
        } else {
            Operand::Mem8(addr, wide(offt))
        };
        if b1.to_u8() % 4 < 2 {
            Some(Instruction { opcode: Opcode::Mov, dest: register(0, word), src: mem })
        } else {
            Some(Instruction { opcode: Opcode::Mov, dest: mem, src: register(0, word) })
        }
    }

    /// Decodes an instruction whose first byte is 0xC4 to 0xC7.
    pub fn decode_group49(&mut self, b1: Byte1) -> (res: Option<Instruction>)
        requires
            old(self).wf(),
        ensures
            res == decode_group49(old(self)@, b1@).instr,
            consumed(old(self)@, final(self)@, decode_group49(old(self)@, b1@)),
    {
        let tail: u8 = b1.to_u8() % 4;
        let b2 = Byte2::new(self.take_u8());
        let reg: u8 = b2.reg();
        proof {
            lemma_skip_twice(old(self)@, 1, rm_len(b2@));
            lemma_skip_twice(old(self)@, 1 + rm_len(b2@), 1);
            lemma_skip_twice(old(self)@, 1 + rm_len(b2@), 2);
        }
        if tail < 2 {
            let mut wide_form: Byte1 = b1;
            wide_form.set_word();
            let src: Operand = self.calc_op_displacement(wide_form, b2);
            Some(
                Instruction {
                    opcode: if tail == 0 {
                        Opcode::Les
                    } else {
                        Opcode::Lds
                    },
                    dest: Operand::Reg16(reg),
                    src,
                },
            )
        } else if reg == 0 {
            let dest: Operand = self.calc_op_displacement(b1, b2);
            let src: Operand = self.immediate(tail == 3);
            Some(Instruction { opcode: Opcode::Mov, dest, src })
        } else {
            None
        }
    }

    /// Decodes an instruction whose first byte is 0xD0 to 0xD3.
    pub fn decode_turn(&mut self, b1: Byte1) -> (res: Option<Instruction>)
        requires
            old(self).wf(),
        ensures
            res == decode_turn(old(self)@, b1@).instr,
            consumed(old(self)@, final(self)@, decode_turn(old(self)@, b1@)),
    {
        let b2 = Byte2::new(self.take_u8());
        let src: Operand = if b1.to_u8() % 4 < 2 {
            Operand::Imm8(1)
        } else {
            Operand::Reg8(1)
        };
        proof {
            lemma_skip_twice(old(self)@, 1, rm_len(b2@));
        }
        match turn_op(b2.reg()) {
            Some(opcode) => {
                let dest: Operand = self.addr_mod(b1, b2);
                Some(Instruction { opcode, dest, src })
            },
            None => None,
        }
    }

    /// Decodes an instruction whose first byte is 0xF6 or 0xF7.
    pub fn decode_group3(&mut self, b1: Byte1) -> (res: Option<Instruction>)
        requires
            old(self).wf(),
        ensures
            res == decode_group3(old(self)@, b1@).instr,
            consumed(old(self)@, final(self)@, decode_group3(old(self)@, b1@)),
    {
        let b2 = Byte2::new(self.take_u8());
        let reg: u8 = b2.reg();
        let dest: Operand = self.addr_mod(b1, b2);
        proof {
            lemma_skip_twice(old(self)@, 1, rm_len(b2@));
            lemma_skip_twice(old(self)@, 1 + rm_len(b2@), 1);
            lemma_skip_twice(old(self)@, 1 + rm_len(b2@), 2);
        }
        if reg == 0 {
            let src: Operand = self.immediate(b1.word());
            Some(Instruction { opcode: Opcode::Test, dest, src })
        } else {
            match unary_op(reg) {
                Some(opcode) => Some(Instruction { opcode, dest, src: Operand::Reg8(0) }),
                None => None,
            }
        }
    }

    /// Decodes an instruction whose first byte is 0xFE or 0xFF.
    pub fn decode_group45(&mut self, b1: Byte1) -> (res: Option<Instruction>)
        requires
            old(self).wf(),
        ensures
            res == decode_group45(old(self)@, b1@).instr,
            consumed(old(self)@, final(self)@, decode_group45(old(self)@, b1@)),
    {
        let word: bool = b1.word();
        let b2 = Byte2::new(self.take_u8());
        let reg: u8 = b2.reg();
        let rm: Operand = self.addr_mod(b1, b2);
        let none: Operand = Operand::Reg8(0);
        proof {
            lemma_skip_twice(old(self)@, 1, rm_len(b2@));
        }
        if reg == 0 {
            Some(Instruction { opcode: Opcode::Inc, dest: rm, src: none })
        } else if reg == 1 {
            Some(Instruction { opcode: Opcode::Dec, dest: rm, src: none })
        } else if !word || reg == 7 {
            None
        } else if reg == 2 {
            Some(Instruction { opcode: Opcode::CallNear, dest: none, src: rm })
        } else if reg == 3 {
            Some(Instruction { opcode: Opcode::CallFar, dest: rm, src: none })
        } else if reg == 4 {
            Some(Instruction { opcode: Opcode::JmpNear, dest: none, src: rm })
        } else if reg == 5 {
            Some(Instruction { opcode: Opcode::JmpFar, dest: none, src: rm })
        } else {
            Some(Instruction { opcode: Opcode::Push, dest: none, src: rm })
        }
    }

    /// Decodes an instruction whose first byte is 0xE0 to 0xEF.
    pub fn decode_transfer(&mut self, b1: Byte1) -> (res: Option<Instruction>)
        requires
            old(self).wf(),
        ensures
            res == decode_transfer(old(self)@, b1@).instr,
            consumed(old(self)@, final(self)@, decode_transfer(old(self)@, b1@)),
    {
        let b: u8 = b1.to_u8();
        let none: Operand = Operand::Reg8(0);
        let acc: Operand = register(0, b1.word());
        let io: Opcode = if b % 4 < 2 {
            Opcode::In
        } else {
            Opcode::Out
        };
        proof {
            lemma_skip_twice(old(self)@, 2, 2);
        }
        Some(
            match b {
                0xE0 => Instruction {
                    opcode: Opcode::Loopne,
                    dest: Operand::Imm8(self.take_u8()),
                    src: none,
                },
                0xE1 => Instruction {
                    opcode: Opcode::Loope,
                    dest: Operand::Imm8(self.take_u8()),
                    src: none,
                },
                0xE2 => Instruction {
                    opcode: Opcode::Loop,
                    dest: Operand::Imm8(self.take_u8()),
                    src: none,
                },
                0xE3 => Instruction {
                    opcode: Opcode::Jcxz,
                    dest: Operand::Imm8(self.take_u8()),
                    src: none,
                },
                0xE8 => Instruction {
                    opcode: Opcode::CallNear,
                    dest: none,
                    src: Operand::Imm16(self.take_u16()),
                },
                0xE9 => Instruction {
                    opcode: Opcode::JmpNear,
                    dest: none,
                    src: Operand::Imm16(self.take_u16()),
                },
                0xEA => {
                    let offset: u16 = self.take_u16();
                    let segment: u16 = self.take_u16();
                    Instruction {
                        opcode: Opcode::JmpFar,
                        dest: Operand::Imm16(offset),
                        src: Operand::Imm16(segment),
                    }
                },
                0xEB => Instruction {
                    opcode: Opcode::JmpNear,
                    dest: none,
                    src: Operand::Imm8(self.take_u8()),
                },
                _ => if b < 0xE8 {
                    Instruction { opcode: io, dest: acc, src: Operand::Imm8(self.take_u8()) }
                } else {
                    Instruction { opcode: io, dest: acc, src: Operand::Reg16(2) }
                },
            },
        )
    }

    /// Decodes the instruction that starts with `b1`, which has been read.
    #[verifier::rlimit(50)]
    pub fn decode_rest(&mut self, b1: Byte1) -> (res: Option<Instruction>)
        requires
            old(self).wf(),
        ensures
            res == decode_rest(old(self)@, b1@).instr,
            consumed(old(self)@, final(self)@, decode_rest(old(self)@, b1@)),
    {
        let b: u8 = b1.to_u8();
        let none: Operand = Operand::Reg8(0);
        proof {
            reveal(decode_rest);
            lemma_skip_twice(old(self)@, 2, 2);
        }
        match b1.opcode() {
            0..=15 => self.decode_arith(b1),
            16..=23 => Some(bare_instruction(register_op(b - 0x40))),
            28..=31 => Some(
                Instruction {
                    opcode: jump_op(b % 16),
                    dest: Operand::Imm8(self.take_u8()),
                    src: none,
                },
            ),
            32 => self.decode_immediate_group(b1),
            33 => Some(self.modrm_pair(Opcode::Test, b1)),
            34 => Some(self.modrm_pair(Opcode::Mov, b1)),
            35 => self.decode_group35(b1),
            36 | 37 => Some(
                Instruction {
                    opcode: Opcode::Xchg,
                    dest: Operand::Reg16(0),
                    src: Operand::Reg16(b % 8),
                },
            ),
            40 => self.decode_direct(b1),
            44..=47 => {
                let src: Operand = self.immediate(b >= 0xB8);
                Some(Instruction { opcode: Opcode::Mov, dest: register(b % 8, b >= 0xB8), src })
            },
            49 => self.decode_group49(b1),
            52 => self.decode_turn(b1),
            56..=59 => self.decode_transfer(b1),
            _ => match b {
                0x9A => {
                    let offset: u16 = self.take_u16();
                    let segment: u16 = self.take_u16();
                    Some(
                        Instruction {
                            opcode: Opcode::CallFar,
                            dest: Operand::Imm16(offset),
                            src: Operand::Imm16(segment),
                        },
                    )
                },
                0xA8 | 0xA9 => {
                    let src: Operand = self.immediate(b == 0xA9);
                    Some(Instruction { opcode: Opcode::Test, dest: register(0, b == 0xA9), src })
                },
                0xC2 => Some(
                    Instruction {
                        opcode: Opcode::Ret,
                        dest: Operand::Imm16(self.take_u16()),
                        src: none,
                    },
                ),
                0xCA => Some(
                    Instruction {
                        opcode: Opcode::Retf,
                        dest: Operand::Imm16(self.take_u16()),
                        src: none,
                    },
                ),
                0xCC => Some(Instruction { opcode: Opcode::Int, dest: Operand::Imm8(3), src: none }),
                0xCD => Some(
                    Instruction {
                        opcode: Opcode::Int,
                        dest: Operand::Imm8(self.take_u8()),
                        src: none,
                    },
                ),
                0xD4 | 0xD5 => {
                    if self.take_u8() == 0x0A {
                        Some(
                            bare_instruction(
                                if b == 0xD4 {
                                    Opcode::Aam
                                } else {
                                    Opcode::Aad
                                },
                            ),
                        )
                    } else {
                        None
                    }
                },
                0xF6 | 0xF7 => self.decode_group3(b1),
                0xFE | 0xFF => self.decode_group45(b1),
                _ => match fixed_op(b) {
                    Some(op) => Some(bare_instruction(op)),
                    None => None,
                },
            },
        }
    }

    /// Decodes the instruction at `CS:IP` and moves IP past it.
    ///
    /// Gives nothing when IP is at or past the end of the loaded program.
    /// Gives nothing either when the bytes are no instruction: the
    /// processor is then stopped with `Fault::Decode`, and IP stays.
    #[verifier::rlimit(50)]
    pub fn fetch(&mut self) -> (res: Option<Instruction>)
        requires
            old(self).wf(),
        ensures
            final(self).wf(),
            res == fetch_result(old(self)@),
            final(self)@ == fetch_state(old(self)@),
    {
        let at: u32 = self.code_addr(self.regs.ip);
        self.mem.seek_to(at as u64);
        if self.regs.ip as u64 >= self.prog_size {
            return None;
        }
        let ghost start = self@;
        let b1 = Byte1::new(self.take_u8());
        let res: Option<Instruction> = self.decode_rest(b1);
        proof {
            lemma_decode_len(start.skip(1), b1@);
            lemma_skip_twice(start, 1, decode_rest(start.skip(1), b1@).len);
        }
        match res {
            Some(_) => {
                let pos: u64 = self.mem.pos();
                let len: u64 = if pos > at as u64 {
                    pos - at as u64
                } else {
                    pos + MEM_SIZE as u64 - at as u64
                };
                self.regs.ip = add16(self.regs.ip, len as u16);
            },
            None => {
                self.mem.seek_to(at as u64);
                self.raise(Fault::Decode);
            },
        }
        res
    }
}

} // verus!
