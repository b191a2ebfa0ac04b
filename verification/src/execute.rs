//! The execution engine: what each instruction does to the processor,
//! the repeat prefixes, and the run loop.

use vstd::prelude::*;
use crate::arith::{add_spec, bit_op_spec, dec_spec, inc_spec, neg_spec, not_spec, sub_spec};
use crate::bcd::{aad_spec, aam_spec, ascii_spec, decimal_spec};
use crate::cpu::{BitOp, Cpu, Fault, Instruction, Machine, Opcode, Operand, Segment};
use crate::data::{
    cbw_spec,
    cwd_spec,
    exchg_spec,
    exchg_takes,
    lahf_spec,
    lea_spec,
    load_far_spec,
    mov_spec,
    mov_takes,
    pop_to_spec,
    popf_spec,
    push_from_spec,
    pushf_spec,
    reg_and_memory,
    sahf_spec,
    xlat_spec,
};
use crate::decode::{fetch_result, fetch_state};
use crate::flow::{
    call_far_spec,
    call_near_spec,
    cmc_spec,
    far_target,
    hlt_spec,
    int_spec,
    into_spec,
    iret_spec,
    jcxz_spec,
    jmp_far_spec,
    jmp_near_spec,
    jump_if_spec,
    loop_spec,
    near_target,
    ret_spec,
    retf_spec,
};
use crate::muldiv::{div_spec, idiv_spec, imul_spec, mul_spec};
use crate::regs::{Registers, CF, DF, IF, ZF};
use crate::shift::{turn_spec, turn_takes, Turn};
use crate::strings::{compare_spec, lods_spec, movs_spec, scan_spec, stos_spec};

verus! {

/// The segment that an override prefix names.
pub open spec fn override_segment(op: Opcode) -> Option<Segment> {
    match op {
        Opcode::OverrideEs => Some(Segment::Es),
        Opcode::OverrideCs => Some(Segment::Cs),
        Opcode::OverrideSs => Some(Segment::Ss),
        Opcode::OverrideDs => Some(Segment::Ds),
        _ => None,
    }
}

/// Whether the instruction is decoded but has no implementation.
pub open spec fn is_unsupported(op: Opcode) -> bool {
    op is In || op is Out || op is Wait || op is Lock
}

/// Whether the instruction is a string operation.
pub open spec fn is_string(op: Opcode) -> bool {
    op is Movsb || op is Movsw || op is Cmpsb || op is Cmpsw || op is Stosb || op is Stosw
        || op is Lodsb || op is Lodsw || op is Scasb || op is Scasw
}

/// Whether the string operation compares, so that a repeat prefix looks
/// at ZF after each step.
pub open spec fn is_comparison(op: Opcode) -> bool {
    op is Cmpsb || op is Cmpsw || op is Scasb || op is Scasw
}

/// Whether the operands of an instruction are of a kind that its
/// operation can take.
pub open spec fn accepts(inst: Instruction) -> bool {
    let d = inst.dest;
    let s = inst.src;
    match inst.opcode {
        Opcode::Add
        | Opcode::Adc
        | Opcode::Sub
        | Opcode::Sbb
        | Opcode::Cmp
        | Opcode::And
        | Opcode::Or
        | Opcode::Xor
        | Opcode::Test => d.is_place() && s.is_value(),
        Opcode::Inc
        | Opcode::Dec
        | Opcode::Not
        | Opcode::Neg
        | Opcode::Mul
        | Opcode::Imul
        | Opcode::Div
        | Opcode::Idiv => d.is_place(),
        Opcode::Mov => mov_takes(d, s),
        Opcode::Xchg => exchg_takes(d, s),
        Opcode::Lea | Opcode::Les | Opcode::Lds => reg_and_memory(d, s),
        Opcode::Pop => d.is_target() && d.is_word(),
        Opcode::Push => s.is_value() && s.is_word(),
        Opcode::Rol
        | Opcode::Ror
        | Opcode::Rcl
        | Opcode::Rcr
        | Opcode::Shl
        | Opcode::Shr
        | Opcode::Sar => turn_takes(d, s),
        Opcode::JmpNear | Opcode::CallNear => near_target(s),
        Opcode::JmpFar => far_target(s, d),
        Opcode::CallFar => far_target(d, s),
        _ => true,
    }
}

/// The families of instructions, by what they work on.
#[derive(Debug, Clone, Copy, PartialEq, Eq, Structural)]
pub enum Family {
    Arith,
    Accumulator,
    Stack,
    Data,
    Strings,
    Shift,
    Flow,
    Control,
    /// Prefixes, and instructions without an implementation.
    Other,
}

/// The family of an instruction.
pub open spec fn family_of(op: Opcode) -> Family {
    match op {
        Opcode::Add
        | Opcode::Adc
        | Opcode::Sub
        | Opcode::Sbb
        | Opcode::Cmp
        | Opcode::And
        | Opcode::Or
        | Opcode::Xor
        | Opcode::Test
        | Opcode::Inc
        | Opcode::Dec
        | Opcode::Not
        | Opcode::Neg
        | Opcode::IncAx
        | Opcode::IncCx
        | Opcode::IncDx
        | Opcode::IncBx
        | Opcode::IncSp
        | Opcode::IncBp
        | Opcode::IncSi
        | Opcode::IncDi
        | Opcode::DecAx
        | Opcode::DecCx
        | Opcode::DecDx
        | Opcode::DecBx
        | Opcode::DecSp
        | Opcode::DecBp
        | Opcode::DecSi
        | Opcode::DecDi => Family::Arith,
        Opcode::Mul
        | Opcode::Imul
        | Opcode::Div
        | Opcode::Idiv
        | Opcode::Daa
        | Opcode::Das
        | Opcode::Aaa
        | Opcode::Aas
        | Opcode::Aam
        | Opcode::Aad => Family::Accumulator,
        Opcode::PushAx
        | Opcode::PushCx
        | Opcode::PushDx
        | Opcode::PushBx
        | Opcode::PushSp
        | Opcode::PushBp
        | Opcode::PushSi
        | Opcode::PushDi
        | Opcode::PopAx
        | Opcode::PopCx
        | Opcode::PopDx
        | Opcode::PopBx
        | Opcode::PopSp
        | Opcode::PopBp
        | Opcode::PopSi
        | Opcode::PopDi
        | Opcode::PushEs
        | Opcode::PopEs
        | Opcode::PushCs
        | Opcode::PushSs
        | Opcode::PopSs
        | Opcode::PushDs
        | Opcode::PopDs
        | Opcode::Pop
        | Opcode::Push
        | Opcode::Pushf
        | Opcode::Popf => Family::Stack,
        Opcode::Xchg
        | Opcode::Mov
        | Opcode::Lea
        | Opcode::Les
        | Opcode::Lds
        | Opcode::Cbw
        | Opcode::Cwd
        | Opcode::Lahf
        | Opcode::Sahf
        | Opcode::Xlat => Family::Data,
        Opcode::Movsb
        | Opcode::Movsw
        | Opcode::Cmpsb
        | Opcode::Cmpsw
        | Opcode::Stosb
        | Opcode::Stosw
        | Opcode::Lodsb
        | Opcode::Lodsw
        | Opcode::Scasb
        | Opcode::Scasw => Family::Strings,
        Opcode::Rol
        | Opcode::Ror
        | Opcode::Rcl
        | Opcode::Rcr
        | Opcode::Shl
        | Opcode::Shr
        | Opcode::Sar => Family::Shift,
        Opcode::Jo
        | Opcode::Jno
        | Opcode::Jb
        | Opcode::Jnb
        | Opcode::Jz
        | Opcode::Jnz
        | Opcode::Jbe
        | Opcode::Jnbe
        | Opcode::Js
        | Opcode::Jns
        | Opcode::Jp
        | Opcode::Jnp
        | Opcode::Jl
        | Opcode::Jnl
        | Opcode::Jle
        | Opcode::Jnle
        | Opcode::Loop
        | Opcode::Loope
        | Opcode::Loopne
        | Opcode::Jcxz
        | Opcode::CallNear
        | Opcode::JmpNear
        | Opcode::JmpFar
        | Opcode::CallFar
        | Opcode::Ret
        | Opcode::Retf
        | Opcode::Int
        | Opcode::Into
        | Opcode::Iret => Family::Flow,
        Opcode::Hlt
        | Opcode::Cmc
        | Opcode::Clc
        | Opcode::Stc
        | Opcode::Cli
        | Opcode::Sti
        | Opcode::Cld
        | Opcode::Std => Family::Control,
        _ => Family::Other,
    }
}

/// What the arithmetic and logic instructions do, given acceptable operands.
#[verifier::opaque]
pub open spec fn arith_effect(m: Machine, inst: Instruction) -> Machine {
    let d = inst.dest;
    let s = inst.src;
    match inst.opcode {
        Opcode::Add => add_spec(m, d, s, false),
        Opcode::Adc => add_spec(m, d, s, true),
        Opcode::Sub => sub_spec(m, d, s, false, false),
        Opcode::Sbb => sub_spec(m, d, s, true, false),
        Opcode::Cmp => sub_spec(m, d, s, false, true),
        Opcode::And => bit_op_spec(m, d, s, BitOp::And, false),
        Opcode::Or => bit_op_spec(m, d, s, BitOp::Or, false),
        Opcode::Xor => bit_op_spec(m, d, s, BitOp::Xor, false),
        Opcode::Test => bit_op_spec(m, d, s, BitOp::And, true),
        Opcode::Inc => inc_spec(m, d),
        Opcode::Dec => dec_spec(m, d),
        Opcode::Not => not_spec(m, d),
        Opcode::Neg => neg_spec(m, d),
        Opcode::IncAx => inc_spec(m, Operand::Reg16(0)),
        Opcode::IncCx => inc_spec(m, Operand::Reg16(1)),
        Opcode::IncDx => inc_spec(m, Operand::Reg16(2)),
        Opcode::IncBx => inc_spec(m, Operand::Reg16(3)),
        Opcode::IncSp => inc_spec(m, Operand::Reg16(4)),
        Opcode::IncBp => inc_spec(m, Operand::Reg16(5)),
        Opcode::IncSi => inc_spec(m, Operand::Reg16(6)),
        Opcode::IncDi => inc_spec(m, Operand::Reg16(7)),
        Opcode::DecAx => dec_spec(m, Operand::Reg16(0)),
        Opcode::DecCx => dec_spec(m, Operand::Reg16(1)),
        Opcode::DecDx => dec_spec(m, Operand::Reg16(2)),
        Opcode::DecBx => dec_spec(m, Operand::Reg16(3)),
        Opcode::DecSp => dec_spec(m, Operand::Reg16(4)),
        Opcode::DecBp => dec_spec(m, Operand::Reg16(5)),
        Opcode::DecSi => dec_spec(m, Operand::Reg16(6)),
        Opcode::DecDi => dec_spec(m, Operand::Reg16(7)),
        _ => m,
    }
}

/// What multiplication, division and the decimal adjustments do, given acceptable operands.
#[verifier::opaque]
pub open spec fn accumulator_effect(m: Machine, inst: Instruction) -> Machine {
    let d = inst.dest;
    let s = inst.src;
    match inst.opcode {
        Opcode::Mul => mul_spec(m, d),
        Opcode::Imul => imul_spec(m, d),
        Opcode::Div => div_spec(m, d),
        Opcode::Idiv => idiv_spec(m, d),
        Opcode::Daa => decimal_spec(m, true),
        Opcode::Das => decimal_spec(m, false),
        Opcode::Aaa => ascii_spec(m, true),
        Opcode::Aas => ascii_spec(m, false),
        Opcode::Aam => aam_spec(m),
        Opcode::Aad => aad_spec(m),
        _ => m,
    }
}

/// What the stack instructions do, given acceptable operands.
#[verifier::opaque]
pub open spec fn stack_effect(m: Machine, inst: Instruction) -> Machine {
    let d = inst.dest;
    let s = inst.src;
    match inst.opcode {
        Opcode::PushAx => push_from_spec(m, Operand::Reg16(0)),
        Opcode::PushCx => push_from_spec(m, Operand::Reg16(1)),
        Opcode::PushDx => push_from_spec(m, Operand::Reg16(2)),
        Opcode::PushBx => push_from_spec(m, Operand::Reg16(3)),
        Opcode::PushSp => push_from_spec(m, Operand::Reg16(4)),
        Opcode::PushBp => push_from_spec(m, Operand::Reg16(5)),
        Opcode::PushSi => push_from_spec(m, Operand::Reg16(6)),
        Opcode::PushDi => push_from_spec(m, Operand::Reg16(7)),
        Opcode::PopAx => pop_to_spec(m, Operand::Reg16(0)),
        Opcode::PopCx => pop_to_spec(m, Operand::Reg16(1)),
        Opcode::PopDx => pop_to_spec(m, Operand::Reg16(2)),
        Opcode::PopBx => pop_to_spec(m, Operand::Reg16(3)),
        Opcode::PopSp => pop_to_spec(m, Operand::Reg16(4)),
        Opcode::PopBp => pop_to_spec(m, Operand::Reg16(5)),
        Opcode::PopSi => pop_to_spec(m, Operand::Reg16(6)),
        Opcode::PopDi => pop_to_spec(m, Operand::Reg16(7)),
        Opcode::PushEs => push_from_spec(m, Operand::Seg(0)),
        Opcode::PopEs => pop_to_spec(m, Operand::Seg(0)),
        Opcode::PushCs => push_from_spec(m, Operand::Seg(1)),
        Opcode::PushSs => push_from_spec(m, Operand::Seg(2)),
        Opcode::PopSs => pop_to_spec(m, Operand::Seg(2)),
        Opcode::PushDs => push_from_spec(m, Operand::Seg(3)),
        Opcode::PopDs => pop_to_spec(m, Operand::Seg(3)),
        Opcode::Pop => pop_to_spec(m, d),
        Opcode::Push => push_from_spec(m, s),
        Opcode::Pushf => pushf_spec(m),
        Opcode::Popf => popf_spec(m),
        _ => m,
    }
}

/// What the data movement instructions do, given acceptable operands.
#[verifier::opaque]
pub open spec fn data_effect(m: Machine, inst: Instruction) -> Machine {
    let d = inst.dest;
    let s = inst.src;
    match inst.opcode {
        Opcode::Xchg => exchg_spec(m, d, s),
        Opcode::Mov => mov_spec(m, d, s),
        Opcode::Lea => lea_spec(m, d, s),
        Opcode::Les => load_far_spec(m, d, s, true),
        Opcode::Lds => load_far_spec(m, d, s, false),
        Opcode::Cbw => cbw_spec(m),
        Opcode::Cwd => cwd_spec(m),
        Opcode::Lahf => lahf_spec(m),
        Opcode::Sahf => sahf_spec(m),
        Opcode::Xlat => xlat_spec(m),
        _ => m,
    }
}

/// What the string instructions, one step each do, given acceptable operands.
#[verifier::opaque]
pub open spec fn strings_effect(m: Machine, inst: Instruction) -> Machine {
    let d = inst.dest;
    let s = inst.src;
    match inst.opcode {
        Opcode::Movsb => movs_spec(m, false),
        Opcode::Movsw => movs_spec(m, true),
        Opcode::Cmpsb => compare_spec(m, false),
        Opcode::Cmpsw => compare_spec(m, true),
        Opcode::Stosb => stos_spec(m, false),
        Opcode::Stosw => stos_spec(m, true),
        Opcode::Lodsb => lods_spec(m, false),
        Opcode::Lodsw => lods_spec(m, true),
        Opcode::Scasb => scan_spec(m, false),
        Opcode::Scasw => scan_spec(m, true),
        _ => m,
    }
}

/// What the shifts and rotates do, given acceptable operands.
#[verifier::opaque]
pub open spec fn shift_effect(m: Machine, inst: Instruction) -> Machine {
    let d = inst.dest;
    let s = inst.src;
    match inst.opcode {
        Opcode::Rol => turn_spec(m, Turn::Rol, d, s),
        Opcode::Ror => turn_spec(m, Turn::Ror, d, s),
        Opcode::Rcl => turn_spec(m, Turn::Rcl, d, s),
        Opcode::Rcr => turn_spec(m, Turn::Rcr, d, s),
        Opcode::Shl => turn_spec(m, Turn::Shl, d, s),
        Opcode::Shr => turn_spec(m, Turn::Shr, d, s),
        Opcode::Sar => turn_spec(m, Turn::Sar, d, s),
        _ => m,
    }
}

/// What the control transfers do, given acceptable operands.
#[verifier::opaque]
pub open spec fn flow_effect(m: Machine, inst: Instruction) -> Machine {
    let d = inst.dest;
    let s = inst.src;
    match inst.opcode {
        Opcode::Jo => jump_if_spec(m, inst.opcode, d),
        Opcode::Jno => jump_if_spec(m, inst.opcode, d),
        Opcode::Jb => jump_if_spec(m, inst.opcode, d),
        Opcode::Jnb => jump_if_spec(m, inst.opcode, d),
        Opcode::Jz => jump_if_spec(m, inst.opcode, d),
        Opcode::Jnz => jump_if_spec(m, inst.opcode, d),
        Opcode::Jbe => jump_if_spec(m, inst.opcode, d),
        Opcode::Jnbe => jump_if_spec(m, inst.opcode, d),
        Opcode::Js => jump_if_spec(m, inst.opcode, d),
        Opcode::Jns => jump_if_spec(m, inst.opcode, d),
        Opcode::Jp => jump_if_spec(m, inst.opcode, d),
        Opcode::Jnp => jump_if_spec(m, inst.opcode, d),
        Opcode::Jl => jump_if_spec(m, inst.opcode, d),
        Opcode::Jnl => jump_if_spec(m, inst.opcode, d),
        Opcode::Jle => jump_if_spec(m, inst.opcode, d),
        Opcode::Jnle => jump_if_spec(m, inst.opcode, d),
        Opcode::Loop => loop_spec(m, d, None),
        Opcode::Loope => loop_spec(m, d, Some(true)),
        Opcode::Loopne => loop_spec(m, d, Some(false)),
        Opcode::Jcxz => jcxz_spec(m, d),
        Opcode::CallNear => call_near_spec(m, s),
        Opcode::JmpNear => jmp_near_spec(m, s),
        Opcode::JmpFar => jmp_far_spec(m, d, s),
        Opcode::CallFar => call_far_spec(m, d, s),
        Opcode::Ret => ret_spec(m, d),
        Opcode::Retf => retf_spec(m, d),
        Opcode::Int => int_spec(m, d),
        Opcode::Into => into_spec(m),
        Opcode::Iret => iret_spec(m),
        _ => m,
    }
}

/// What HLT and the flag instructions do, given acceptable operands.
#[verifier::opaque]
pub open spec fn control_effect(m: Machine, inst: Instruction) -> Machine {
    let d = inst.dest;
    let s = inst.src;
    match inst.opcode {
        Opcode::Hlt => hlt_spec(m),
        Opcode::Cmc => cmc_spec(m),
        Opcode::Clc => m.with_flags(m.regs.flags.with(CF, false)),
        Opcode::Stc => m.with_flags(m.regs.flags.with(CF, true)),
        Opcode::Cli => m.with_flags(m.regs.flags.with(IF, false)),
        Opcode::Sti => m.with_flags(m.regs.flags.with(IF, true)),
        Opcode::Cld => m.with_flags(m.regs.flags.with(DF, false)),
        Opcode::Std => m.with_flags(m.regs.flags.with(DF, true)),
        _ => m,
    }
}

/// What an instruction with acceptable operands does. Prefixes and
/// instructions without an implementation do nothing here.
pub open spec fn effect(m: Machine, inst: Instruction) -> Machine {
    match family_of(inst.opcode) {
        Family::Arith => arith_effect(m, inst),
        Family::Accumulator => accumulator_effect(m, inst),
        Family::Stack => stack_effect(m, inst),
        Family::Data => data_effect(m, inst),
        Family::Strings => strings_effect(m, inst),
        Family::Shift => shift_effect(m, inst),
        Family::Flow => flow_effect(m, inst),
        Family::Control => control_effect(m, inst),
        Family::Other => m,
    }
}

/// The state after executing an instruction that is no repeat prefix.
///
/// A segment override prefix sets the pending override. An instruction
/// without an implementation stops the processor with
/// `Fault::Unsupported`, one with operands that its operation cannot take
/// with `Fault::Operands`. Any other instruction has its effect, and the
/// pending override is cleared after it. A repeat prefix has no effect
/// here.
pub open spec fn plain_spec(m: Machine, inst: Instruction) -> Machine {
    if override_segment(inst.opcode).is_some() {
        Machine { seg_override: override_segment(inst.opcode), ..m }
    } else if is_unsupported(inst.opcode) {
        m.stopped(Fault::Unsupported)
    } else if !accepts(inst) {
        m.stopped(Fault::Operands)
    } else {
        Machine { seg_override: None, ..effect(m, inst) }
    }
}

/// One step of a string operation.
pub open spec fn string_spec(m: Machine, op: Opcode) -> Machine {
    strings_effect(m, Instruction { opcode: op, dest: Operand::Reg8(0), src: Operand::Reg8(0) })
}

/// The state after a repeated string operation.
///
/// While CX is not zero: one step of the operation, then CX goes down by
/// one. After a comparison the repetition also ends when ZF is not what
/// the prefix asks for: set under REP (`while_equal`), clear under REPNE.
pub open spec fn repeat_spec(m: Machine, op: Opcode, while_equal: bool) -> Machine
    decreases m.regs.cx,
{
    if m.regs.cx == 0 {
        m
    } else {
        let stepped = string_spec(m, op);
        let counted = stepped.with_regs(
            Registers { cx: (m.regs.cx - 1) as u16, ..stepped.regs },
        );
        if is_comparison(op) && counted.regs.flags.has(ZF) != while_equal {
            counted
        } else {
            repeat_spec(counted, op, while_equal)
        }
    }
}

/// The state after a repeat prefix, REP (`while_equal`) or REPNE.
///
/// The prefix fetches the instruction that follows it. A string
/// operation is repeated. A second repeat prefix is dropped. Any other
/// instruction is executed once. If nothing can be fetched, the state is
/// as the fetch left it.
pub open spec fn rep_spec(m: Machine, while_equal: bool) -> Machine {
    let fetched = fetch_state(m);
    match fetch_result(m) {
        None => fetched,
        Some(i) => if is_string(i.opcode) {
            repeat_spec(fetched, i.opcode, while_equal)
        } else {
            plain_spec(fetched, i)
        },
    }
}

/// The state after executing an instruction.
pub open spec fn execute_spec(m: Machine, inst: Instruction) -> Machine {
    match inst.opcode {
        Opcode::Rep => Machine { seg_override: None, ..rep_spec(m, true) },
        Opcode::Repne => Machine { seg_override: None, ..rep_spec(m, false) },
        _ => plain_spec(m, inst),
    }
}

/// Whether the run loop goes on: IP is inside the loaded program and the
/// processor has not stopped.
pub open spec fn running(m: Machine) -> bool {
    m.regs.ip < m.prog_size && !m.halt
}

/// The state after one fetch and the execution of what it gave.
pub open spec fn step_spec(m: Machine) -> Machine {
    match fetch_result(m) {
        Some(i) => execute_spec(fetch_state(m), i),
        None => fetch_state(m),
    }
}

/// The state after at most `limit` steps of the run loop.
pub open spec fn run_spec(m: Machine, limit: nat) -> Machine
    decreases limit,
{
    if limit == 0 || !running(m) {
        m
    } else {
        run_spec(step_spec(m), (limit - 1) as nat)
    }
}

/// Whether the operands are a 16-bit register and a 16-bit memory
/// location.
pub fn is_reg_and_memory(dest: Operand, src: Operand) -> (b: bool)
    ensures
        b == reg_and_memory(dest, src),
{
    match dest {
        Operand::Reg16(r) => match src {
            Operand::Mem16(_, _) => r < 8,
            _ => false,
        },
        _ => false,
    }
}

/// Whether a near JMP or CALL takes this source.
pub fn is_near_target(src: Operand) -> (b: bool)
    ensures
        b == near_target(src),
{
    match src {
        Operand::Imm16(_) => true,
        Operand::Imm8(_) => true,
        Operand::Reg16(r) => r < 8,
        Operand::Mem16(_, _) => true,
        _ => false,
    }
}

/// Whether a far JMP or CALL finds its target in `(ptr, other)`.
pub fn is_far_target(ptr: Operand, other: Operand) -> (b: bool)
    ensures
        b == far_target(ptr, other),
{
    match ptr {
        Operand::Mem16(_, _) => true,
        Operand::Imm16(_) => match other {
            Operand::Imm16(_) => true,
            _ => false,
        },
        _ => false,
    }
}

/// Whether the operands of an instruction are of a kind that its
/// operation can take.
pub fn accepted(inst: &Instruction) -> (b: bool)
    ensures
        b == accepts(*inst),
{
    let d = inst.dest;
    let s = inst.src;
    match inst.opcode {
        Opcode::Add
        | Opcode::Adc
        | Opcode::Sub
        | Opcode::Sbb
        | Opcode::Cmp
        | Opcode::And
        | Opcode::Or
        | Opcode::Xor
        | Opcode::Test => d.place() && s.value(),
        Opcode::Inc
        | Opcode::Dec
        | Opcode::Not
        | Opcode::Neg
        | Opcode::Mul
        | Opcode::Imul
        | Opcode::Div
        | Opcode::Idiv => d.place(),
        Opcode::Mov => d.target() && s.value() && d.word() == s.word(),
        Opcode::Xchg => d.place() && s.place() && d.word() == s.word(),
        Opcode::Lea | Opcode::Les | Opcode::Lds => is_reg_and_memory(d, s),
        Opcode::Pop => d.target() && d.word(),
        Opcode::Push => s.value() && s.word(),
        Opcode::Rol
        | Opcode::Ror
        | Opcode::Rcl
        | Opcode::Rcr
        | Opcode::Shl
        | Opcode::Shr
        | Opcode::Sar => d.place() && s.value() && !s.word(),
        Opcode::JmpNear | Opcode::CallNear => is_near_target(s),
        Opcode::JmpFar => is_far_target(s, d),
        Opcode::CallFar => is_far_target(d, s),
        _ => true,
    }
}

/// The family of an instruction.
pub fn family(op: Opcode) -> (f: Family)
    ensures
        f == family_of(op),
{
    match op {
        Opcode::Add
        | Opcode::Adc
        | Opcode::Sub
        | Opcode::Sbb
        | Opcode::Cmp
        | Opcode::And
        | Opcode::Or
        | Opcode::Xor
        | Opcode::Test
        | Opcode::Inc
        | Opcode::Dec
        | Opcode::Not
        | Opcode::Neg
        | Opcode::IncAx
        | Opcode::IncCx
        | Opcode::IncDx
        | Opcode::IncBx
        | Opcode::IncSp
        | Opcode::IncBp
        | Opcode::IncSi
        | Opcode::IncDi
        | Opcode::DecAx
        | Opcode::DecCx
        | Opcode::DecDx
        | Opcode::DecBx
        | Opcode::DecSp
        | Opcode::DecBp
        | Opcode::DecSi
        | Opcode::DecDi => Family::Arith,
        Opcode::Mul
        | Opcode::Imul
        | Opcode::Div
        | Opcode::Idiv
        | Opcode::Daa
        | Opcode::Das
        | Opcode::Aaa
        | Opcode::Aas
        | Opcode::Aam
        | Opcode::Aad => Family::Accumulator,
        Opcode::PushAx
        | Opcode::PushCx
        | Opcode::PushDx
        | Opcode::PushBx
        | Opcode::PushSp
        | Opcode::PushBp
        | Opcode::PushSi
        | Opcode::PushDi
        | Opcode::PopAx
        | Opcode::PopCx
        | Opcode::PopDx
        | Opcode::PopBx
        | Opcode::PopSp
        | Opcode::PopBp
        | Opcode::PopSi
        | Opcode::PopDi
        | Opcode::PushEs
        | Opcode::PopEs
        | Opcode::PushCs
        | Opcode::PushSs
        | Opcode::PopSs
        | Opcode::PushDs
        | Opcode::PopDs
        | Opcode::Pop
        | Opcode::Push
        | Opcode::Pushf
        | Opcode::Popf => Family::Stack,
        Opcode::Xchg
        | Opcode::Mov
        | Opcode::Lea
        | Opcode::Les
        | Opcode::Lds
        | Opcode::Cbw
        | Opcode::Cwd
        | Opcode::Lahf
        | Opcode::Sahf
        | Opcode::Xlat => Family::Data,
        Opcode::Movsb
        | Opcode::Movsw
        | Opcode::Cmpsb
        | Opcode::Cmpsw
        | Opcode::Stosb
        | Opcode::Stosw
        | Opcode::Lodsb
        | Opcode::Lodsw
        | Opcode::Scasb
        | Opcode::Scasw => Family::Strings,
        Opcode::Rol
        | Opcode::Ror
        | Opcode::Rcl
        | Opcode::Rcr
        | Opcode::Shl
        | Opcode::Shr
        | Opcode::Sar => Family::Shift,
        Opcode::Jo
        | Opcode::Jno
        | Opcode::Jb
        | Opcode::Jnb
        | Opcode::Jz
        | Opcode::Jnz
        | Opcode::Jbe
        | Opcode::Jnbe
        | Opcode::Js
        | Opcode::Jns
        | Opcode::Jp
        | Opcode::Jnp
        | Opcode::Jl
        | Opcode::Jnl
        | Opcode::Jle
        | Opcode::Jnle
        | Opcode::Loop
        | Opcode::Loope
        | Opcode::Loopne
        | Opcode::Jcxz
        | Opcode::CallNear
        | Opcode::JmpNear
        | Opcode::JmpFar
        | Opcode::CallFar
        | Opcode::Ret
        | Opcode::Retf
        | Opcode::Int
        | Opcode::Into
        | Opcode::Iret => Family::Flow,
        Opcode::Hlt
        | Opcode::Cmc
        | Opcode::Clc
        | Opcode::Stc
        | Opcode::Cli
        | Opcode::Sti
        | Opcode::Cld
        | Opcode::Std => Family::Control,
        _ => Family::Other,
    }
}

/// Whether the instruction is a string operation.
pub fn string_op(op: Opcode) -> (b: bool)
    ensures
        b == is_string(op),
{
    match op {
        Opcode::Movsb
        | Opcode::Movsw
        | Opcode::Cmpsb
        | Opcode::Cmpsw
        | Opcode::Stosb
        | Opcode::Stosw
        | Opcode::Lodsb
        | Opcode::Lodsw
        | Opcode::Scasb
        | Opcode::Scasw => true,
        _ => false,
    }
}

/// Whether the string operation compares.
pub fn comparison(op: Opcode) -> (b: bool)
    ensures
        b == is_comparison(op),
{
    match op {
        Opcode::Cmpsb | Opcode::Cmpsw | Opcode::Scasb | Opcode::Scasw => true,
        _ => false,
    }
}

impl Cpu {
    /// Carries out one of the arithmetic and logic instructions.
    #[verifier::rlimit(50)]
    pub fn perform_arith(&mut self, inst: &Instruction)
        requires
            old(self).wf(),
            accepts(*inst),
        ensures
            final(self).wf(),
            final(self)@ == arith_effect(old(self)@, *inst),
    {
        proof {
            reveal(arith_effect);
        }
        let d = inst.dest;
        let s = inst.src;
        match inst.opcode {
            Opcode::Add => self.add(d, s, false),
            Opcode::Adc => self.add(d, s, true),
            Opcode::Sub => self.sub(d, s, false, false),
            Opcode::Sbb => self.sub(d, s, true, false),
            Opcode::Cmp => self.sub(d, s, false, true),
            Opcode::And => self.bit_op(d, s, BitOp::And, false),
            Opcode::Or => self.bit_op(d, s, BitOp::Or, false),
            Opcode::Xor => self.bit_op(d, s, BitOp::Xor, false),
            Opcode::Test => self.bit_op(d, s, BitOp::And, true),
            Opcode::Inc => self.inc(d),
            Opcode::Dec => self.dec(d),
            Opcode::Not => self.not(inst),
            Opcode::Neg => self.neg(inst),
            Opcode::IncAx => self.inc(Operand::Reg16(0)),
            Opcode::IncCx => self.inc(Operand::Reg16(1)),
            Opcode::IncDx => self.inc(Operand::Reg16(2)),
            Opcode::IncBx => self.inc(Operand::Reg16(3)),
            Opcode::IncSp => self.inc(Operand::Reg16(4)),
            Opcode::IncBp => self.inc(Operand::Reg16(5)),
            Opcode::IncSi => self.inc(Operand::Reg16(6)),
            Opcode::IncDi => self.inc(Operand::Reg16(7)),
            Opcode::DecAx => self.dec(Operand::Reg16(0)),
            Opcode::DecCx => self.dec(Operand::Reg16(1)),
            Opcode::DecDx => self.dec(Operand::Reg16(2)),
            Opcode::DecBx => self.dec(Operand::Reg16(3)),
            Opcode::DecSp => self.dec(Operand::Reg16(4)),
            Opcode::DecBp => self.dec(Operand::Reg16(5)),
            Opcode::DecSi => self.dec(Operand::Reg16(6)),
            Opcode::DecDi => self.dec(Operand::Reg16(7)),
            _ => {},
        }
    }

    /// Carries out one of multiplication, division and the decimal adjustments.
    #[verifier::rlimit(50)]
    pub fn perform_accumulator(&mut self, inst: &Instruction)
        requires
            old(self).wf(),
            accepts(*inst),
        ensures
            final(self).wf(),
            final(self)@ == accumulator_effect(old(self)@, *inst),
    {
        proof {
            reveal(accumulator_effect);
        }
        let d = inst.dest;
        let s = inst.src;
        match inst.opcode {
            Opcode::Mul => self.mul(inst),
            Opcode::Imul => self.imul(inst),
            Opcode::Div => self.div(inst),
            Opcode::Idiv => self.idiv(inst),
            Opcode::Daa => self.daa(),
            Opcode::Das => self.das(),
            Opcode::Aaa => self.aaa(),
            Opcode::Aas => self.aas(),
            Opcode::Aam => self.aam(),
            Opcode::Aad => self.aad(),
            _ => {},
        }
    }

    /// Carries out one of the stack instructions.
    #[verifier::rlimit(50)]
    pub fn perform_stack(&mut self, inst: &Instruction)
        requires
            old(self).wf(),
            accepts(*inst),
        ensures
            final(self).wf(),
            final(self)@ == stack_effect(old(self)@, *inst),
    {
        proof {
            reveal(stack_effect);
        }
        let d = inst.dest;
        let s = inst.src;
        match inst.opcode {
            Opcode::PushAx => self.push(self.regs.ax),
            Opcode::PushCx => self.push(self.regs.cx),
            Opcode::PushDx => self.push(self.regs.dx),
            Opcode::PushBx => self.push(self.regs.bx),
            Opcode::PushSp => self.push(self.regs.sp),
            Opcode::PushBp => self.push(self.regs.bp),
            Opcode::PushSi => self.push(self.regs.si),
            Opcode::PushDi => self.push(self.regs.di),
            Opcode::PopAx => self.regs.ax = self.pop(),
            Opcode::PopCx => self.regs.cx = self.pop(),
            Opcode::PopDx => self.regs.dx = self.pop(),
            Opcode::PopBx => self.regs.bx = self.pop(),
            Opcode::PopSp => self.regs.sp = self.pop(),
            Opcode::PopBp => self.regs.bp = self.pop(),
            Opcode::PopSi => self.regs.si = self.pop(),
            Opcode::PopDi => self.regs.di = self.pop(),
            Opcode::PushEs => self.push(self.regs.es),
            Opcode::PopEs => self.regs.es = self.pop(),
            Opcode::PushCs => self.push(self.regs.cs),
            Opcode::PushSs => self.push(self.regs.ss),
            Opcode::PopSs => self.regs.ss = self.pop(),
            Opcode::PushDs => self.push(self.regs.ds),
            Opcode::PopDs => self.regs.ds = self.pop(),
            Opcode::Pop => self.pop2(inst),
            Opcode::Push => self.push_mem(inst),
            Opcode::Pushf => self.pushf(),
            Opcode::Popf => self.popf(),
            _ => {},
        }
    }

    /// Carries out one of the data movement instructions.
    #[verifier::rlimit(50)]
    pub fn perform_data(&mut self, inst: &Instruction)
        requires
            old(self).wf(),
            accepts(*inst),
        ensures
            final(self).wf(),
            final(self)@ == data_effect(old(self)@, *inst),
    {
        proof {
            reveal(data_effect);
        }
        let d = inst.dest;
        let s = inst.src;
        match inst.opcode {
            Opcode::Xchg => self.exchg(inst),
            Opcode::Mov => self.mov(inst),
            Opcode::Lea => self.lea(inst),
            Opcode::Les => self.les(inst),
            Opcode::Lds => self.lds(inst),
            Opcode::Cbw => self.cbw(),
            Opcode::Cwd => self.cwd(),
            Opcode::Lahf => self.lahf(),
            Opcode::Sahf => self.sahf(),
            Opcode::Xlat => self.xlat(),
            _ => {},
        }
    }

    /// Carries out one of the string instructions, one step each.
    pub fn perform_strings(&mut self, inst: &Instruction)
        requires
            old(self).wf(),
            accepts(*inst),
        ensures
            final(self).wf(),
            final(self)@ == strings_effect(old(self)@, *inst),
    {
        proof {
            reveal(strings_effect);
        }
        let d = inst.dest;
        let s = inst.src;
        match inst.opcode {
            Opcode::Movsb => self.movsb(),
            Opcode::Movsw => self.movsw(),
            Opcode::Cmpsb => self.cmpsb(),
            Opcode::Cmpsw => self.cmpsw(),
            Opcode::Stosb => self.stosb(),
            Opcode::Stosw => self.stosw(),
            Opcode::Lodsb => self.lodsb(),
            Opcode::Lodsw => self.lodsw(),
            Opcode::Scasb => self.scasb(),
            Opcode::Scasw => self.scasw(),
            _ => {},
        }
    }

    /// Carries out one of the shifts and rotates.
    pub fn perform_shift(&mut self, inst: &Instruction)
        requires
            old(self).wf(),
            accepts(*inst),
        ensures
            final(self).wf(),
            final(self)@ == shift_effect(old(self)@, *inst),
    {
        proof {
            reveal(shift_effect);
        }
        let d = inst.dest;
        let s = inst.src;
        match inst.opcode {
            Opcode::Rol => self.rotate(inst, true),
            Opcode::Ror => self.rotate(inst, false),
            Opcode::Rcl => self.rotate_cf(inst, true),
            Opcode::Rcr => self.rotate_cf(inst, false),
            Opcode::Shl => self.shift(inst, true),
            Opcode::Shr => self.shift(inst, false),
            Opcode::Sar => self.shalr(inst),
            _ => {},
        }
    }

    /// Carries out one of the control transfers.
    #[verifier::rlimit(50)]
    pub fn perform_flow(&mut self, inst: &Instruction)
        requires
            old(self).wf(),
            accepts(*inst),
        ensures
            final(self).wf(),
            final(self)@ == flow_effect(old(self)@, *inst),
    {
        proof {
            reveal(flow_effect);
        }
        let d = inst.dest;
        let s = inst.src;
        match inst.opcode {
            Opcode::Jo => self.jump_if(inst),
            Opcode::Jno => self.jump_if(inst),
            Opcode::Jb => self.jump_if(inst),
            Opcode::Jnb => self.jump_if(inst),
            Opcode::Jz => self.jump_if(inst),
            Opcode::Jnz => self.jump_if(inst),
            Opcode::Jbe => self.jump_if(inst),
            Opcode::Jnbe => self.jump_if(inst),
            Opcode::Js => self.jump_if(inst),
            Opcode::Jns => self.jump_if(inst),
            Opcode::Jp => self.jump_if(inst),
            Opcode::Jnp => self.jump_if(inst),
            Opcode::Jl => self.jump_if(inst),
            Opcode::Jnl => self.jump_if(inst),
            Opcode::Jle => self.jump_if(inst),
            Opcode::Jnle => self.jump_if(inst),
            Opcode::Loop => self.loopp(inst),
            Opcode::Loope => self.loope(inst),
            Opcode::Loopne => self.loopne(inst),
            Opcode::Jcxz => self.jcxz(inst),
            Opcode::CallNear => self.call_near(inst),
            Opcode::JmpNear => self.jmp_near(inst),
            Opcode::JmpFar => self.jmp_far(inst),
            Opcode::CallFar => self.call_far(inst),
            Opcode::Ret => self.ret(inst),
            Opcode::Retf => self.retf(inst),
            Opcode::Int => self.int_n(inst),
            Opcode::Into => self.into(inst),
            Opcode::Iret => self.iret(inst),
            _ => {},
        }
    }

    /// Carries out one of HLT and the flag instructions.
    pub fn perform_control(&mut self, inst: &Instruction)
        requires
            old(self).wf(),
            accepts(*inst),
        ensures
            final(self).wf(),
            final(self)@ == control_effect(old(self)@, *inst),
    {
        proof {
            reveal(control_effect);
        }
        let d = inst.dest;
        let s = inst.src;
        match inst.opcode {
            Opcode::Hlt => self.hlt(),
            Opcode::Cmc => self.cmc(),
            Opcode::Clc => self.regs.flags.clear_cf(),
            Opcode::Stc => self.regs.flags.set_cf(),
            Opcode::Cli => self.regs.flags.clear_if(),
            Opcode::Sti => self.regs.flags.set_if(),
            Opcode::Cld => self.regs.flags.clear_df(),
            Opcode::Std => self.regs.flags.set_df(),
            _ => {},
        }
    }

    /// Carries out an instruction whose operands were found acceptable.
    pub fn perform(&mut self, inst: &Instruction)
        requires
            old(self).wf(),
            accepts(*inst),
        ensures
            final(self).wf(),
            final(self)@ == effect(old(self)@, *inst),
    {
        match family(inst.opcode) {
            Family::Arith => self.perform_arith(inst),
            Family::Accumulator => self.perform_accumulator(inst),
            Family::Stack => self.perform_stack(inst),
            Family::Data => self.perform_data(inst),
            Family::Strings => self.perform_strings(inst),
            Family::Shift => self.perform_shift(inst),
            Family::Flow => self.perform_flow(inst),
            Family::Control => self.perform_control(inst),
            Family::Other => {},
        }
    }

    /// Executes an instruction that is no repeat prefix.
    #[verifier::rlimit(50)]
    pub fn execute_plain(&mut self, inst: &Instruction)
        requires
            old(self).wf(),
        ensures
            final(self).wf(),
            final(self)@ == plain_spec(old(self)@, *inst),
    {
        match inst.opcode {
            Opcode::OverrideEs => {
                self.seg_override = Some(Segment::Es);
            },
            Opcode::OverrideCs => {
                self.seg_override = Some(Segment::Cs);
            },
            Opcode::OverrideSs => {
                self.seg_override = Some(Segment::Ss);
            },
            Opcode::OverrideDs => {
                self.seg_override = Some(Segment::Ds);
            },
            Opcode::In | Opcode::Out | Opcode::Wait | Opcode::Lock => {
                self.raise(Fault::Unsupported);
            },
            _ => {
                if accepted(inst) {
                    self.perform(inst);
                    self.seg_override = None;
                } else {
                    self.raise(Fault::Operands);
                }
            },
        }
    }

    /// One step of a string operation.
    pub fn string_step(&mut self, op: Opcode)
        requires
            old(self).wf(),
        ensures
            final(self).wf(),
            final(self)@ == string_spec(old(self)@, op),
    {
        proof {
            reveal(strings_effect);
        }
        match op {
            Opcode::Movsb => self.movsb(),
            Opcode::Movsw => self.movsw(),
            Opcode::Cmpsb => self.cmpsb(),
            Opcode::Cmpsw => self.cmpsw(),
            Opcode::Stosb => self.stosb(),
            Opcode::Stosw => self.stosw(),
            Opcode::Lodsb => self.lodsb(),
            Opcode::Lodsw => self.lodsw(),
            Opcode::Scasb => self.scasb(),
            Opcode::Scasw => self.scasw(),
            _ => {},
        }
    }

    /// Repeats a string operation while CX is not zero and, after a
    /// comparison, ZF is what the prefix asks for.
    pub fn repeat(&mut self, op: Opcode, while_equal: bool)
        requires
            old(self).wf(),
        ensures
            final(self).wf(),
            final(self)@ == repeat_spec(old(self)@, op, while_equal),
    {
        let compares: bool = comparison(op);
        while self.regs.cx != 0
            invariant_except_break
                repeat_spec(self@, op, while_equal) == repeat_spec(old(self)@, op, while_equal),
            invariant
                self.wf(),
                compares == is_comparison(op),
            ensures
                self@ == repeat_spec(old(self)@, op, while_equal),
            decreases self.regs.cx,
        {
            let count: u16 = self.regs.cx;
            self.string_step(op);
            self.regs.cx = count - 1;
            if compares && self.regs.flags.zf() != while_equal {
                break ;
            }
        }
    }

    /// REP: repeats the string operation that follows.
    pub fn rep(&mut self)
        requires
            old(self).wf(),
        ensures
            final(self).wf(),
            final(self)@ == rep_spec(old(self)@, true),
    {
        if let Some(instr) = self.fetch() {
            if string_op(instr.opcode) {
                self.repeat(instr.opcode, true);
            } else {
                self.execute_plain(&instr);
            }
        }
    }

    /// Repeats a comparing string operation while CX is not zero and the
    /// elements are equal.
    pub fn repe(&mut self, instr: &Instruction)
        requires
            old(self).wf(),
        ensures
            final(self).wf(),
            final(self)@ == repeat_spec(old(self)@, instr.opcode, true),
    {
        self.repeat(instr.opcode, true);
    }

    /// REPNE: repeats the string operation that follows; a comparison
    /// ends it when the elements are equal.
    pub fn repne(&mut self)
        requires
            old(self).wf(),
        ensures
            final(self).wf(),
            final(self)@ == rep_spec(old(self)@, false),
    {
        if let Some(instr) = self.fetch() {
            if string_op(instr.opcode) {
                self.repeat(instr.opcode, false);
            } else {
                self.execute_plain(&instr);
            }
        }
    }

    /// Executes one instruction.
    pub fn execute(&mut self, inst: &Instruction)
        requires
            old(self).wf(),
        ensures
            final(self).wf(),
            final(self)@ == execute_spec(old(self)@, *inst),
    {
        match inst.opcode {
            Opcode::Rep => {
                self.rep();
                self.seg_override = None;
            },
            Opcode::Repne => {
                self.repne();
                self.seg_override = None;
            },
            _ => self.execute_plain(inst),
        }
    }

    /// Fetches and executes one instruction.
    pub fn step(&mut self)
        requires
            old(self).wf(),
        ensures
            final(self).wf(),
            final(self)@ == step_spec(old(self)@),
    {
        if let Some(i) = self.fetch() {
            self.execute(&i);
        }
    }

    /// Runs the program for at most `limit` instructions. Tells whether
    /// it came to its end: IP left the loaded program, or the processor
    /// stopped.
    pub fn run(&mut self, limit: u64) -> (ended: bool)
        requires
            old(self).wf(),
        ensures
            final(self).wf(),
            final(self)@ == run_spec(old(self)@, limit as nat),
            ended == !running(final(self)@),
    {
        let mut left: u64 = limit;
        while left > 0 && (self.regs.ip as u64) < self.prog_size && !self.halt
            invariant
                self.wf(),
                run_spec(self@, left as nat) == run_spec(old(self)@, limit as nat),
            decreases left,
        {
            self.step();
            left -= 1;
        }
        !((self.regs.ip as u64) < self.prog_size && !self.halt)
    }

    /// Runs the program until IP leaves it or the processor stops.
    ///
    /// The loop gives up after `u64::MAX` instructions.
    pub fn fire(&mut self)
        requires
            old(self).wf(),
        ensures
            final(self).wf(),
            final(self)@ == run_spec(old(self)@, u64::MAX as nat),
    {
        let _ = self.run(u64::MAX);
    }
}

} // verus!
