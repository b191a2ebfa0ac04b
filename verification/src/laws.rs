//! Laws of the processor model: what holds of every state and every
//! operand, proved from the definitions that the contracts use.

use vstd::prelude::*;
use crate::alu::{
    flags_after,
    flags_after_keeping_carry,
    lemma_flags_after,
    lemma_flags_after_keeping_carry,
    modulus,
    parity_even,
    representable,
    sign_bit,
    signed,
    Outcome,
};
use crate::arith::{
    add_outcome,
    add_spec,
    bit_op_outcome,
    bit_op_spec,
    dec_outcome,
    dec_spec,
    inc_outcome,
    inc_spec,
    neg_outcome,
    neg_spec,
    not_spec,
    source_value,
    sub_outcome,
    sub_spec,
};
use crate::cpu::{
    linear,
    operand_value,
    put_operand,
    put_reg16,
    put_reg8,
    reg16,
    reg8,
    wrap16,
    BitOp,
    Instruction,
    Machine,
    Opcode,
    Operand,
};
use crate::data::{
    cbw_spec,
    exchg_spec,
    lahf_spec,
    pop_spec,
    pop_to_spec,
    popf_spec,
    push_from_spec,
    push_spec,
    pushf_spec,
    sahf_spec,
    stack_top,
};
use crate::decode::{at_code, decode, decode_rest, fetch_result, fetch_state};
use crate::execute::{
    accepts,
    accumulator_effect,
    arith_effect,
    control_effect,
    data_effect,
    execute_spec,
    family_of,
    flow_effect,
    is_comparison,
    is_string,
    is_unsupported,
    override_segment,
    plain_spec,
    repeat_spec,
    run_spec,
    running,
    step_spec,
    string_spec,
    shift_effect,
    stack_effect,
    strings_effect,
};
use crate::fetch::lemma_decode_len;
use crate::mem::{advanced, signed8};
use crate::regs::{
    flags_of_word,
    hi,
    is_flag,
    lemma_flags_of_word,
    lo,
    segment_of_base,
    with_hi,
    with_lo,
    Flags,
    AF,
    CF,
    OF,
    PF,
    SF,
    ZF,
};

verus! {

/// Whether bit W-1 of a W-bit value is set.
pub open spec fn top_bit_set(v: int, word: bool) -> bool {
    (v / sign_bit(word)) % 2 == 1
}

/// ZF, SF and PF describe the W-bit `result`: ZF says that it is zero, SF
/// that its bit W-1 is set, PF that its low eight bits have even parity.
pub open spec fn describes(f: Flags, result: int, word: bool) -> bool {
    &&& f.has(ZF) <==> result % modulus(word) == 0
    &&& f.has(SF) <==> top_bit_set(result % modulus(word), word)
    &&& f.has(PF) <==> parity_even(((result % modulus(word)) % 256) as u8)
}

/// 1 if the carry flag is set and the operation takes it in, else 0.
pub open spec fn carry_in(m: Machine, taken: bool) -> int {
    if taken && m.regs.flags.has(CF) {
        1
    } else {
        0
    }
}

/// After ADD and ADC on width W, with operands `a` and `b`: ZF, SF and
/// PF describe the result; CF says that `a + b` reaches 2^W; OF that the
/// signed sum cannot be written in W bits; AF that the low nibbles carry.
pub proof fn lemma_add_flags(m: Machine, d: Operand, s: Operand, adc: bool)
    requires
        d.is_place(),
    ensures
        ({
            let word = d.is_word();
            let a = operand_value(m, d) as int;
            let b = source_value(m, s, word) as int;
            let f = add_spec(m, d, s, adc).regs.flags;
            &&& describes(f, a + b + carry_in(m, adc), word)
            &&& f.has(CF) <==> a + b >= modulus(word)
            &&& f.has(OF) <==> !representable(signed(a, word) + signed(b, word), word)
            &&& f.has(AF) <==> a % 16 + b % 16 > 15
        }),
{
    lemma_flags_after(m.regs.flags, add_outcome(m, d, s, adc));
}

/// After SUB, SBB and CMP on width W, with operands `a` and `b`: ZF, SF
/// and PF describe the result; CF says that `a < b` unsigned; OF that
/// the signed difference cannot be written in W bits; AF that the low
/// nibbles borrow.
pub proof fn lemma_sub_flags(m: Machine, d: Operand, s: Operand, sbb: bool, discard: bool)
    requires
        d.is_place(),
    ensures
        ({
            let word = d.is_word();
            let a = operand_value(m, d) as int;
            let b = source_value(m, s, word) as int;
            let f = sub_spec(m, d, s, sbb, discard).regs.flags;
            &&& describes(f, a - b - carry_in(m, sbb), word)
            &&& f.has(CF) <==> a < b
            &&& f.has(OF) <==> !representable(signed(a, word) - signed(b, word), word)
            &&& f.has(AF) <==> a % 16 < b % 16
        }),
{
    lemma_flags_after(m.regs.flags, sub_outcome(m, d, s, sbb));
}

/// After INC on width W: ZF, SF and PF describe the result, OF says that
/// the operand was the greatest signed value, and CF is as it was.
pub proof fn lemma_inc_flags(m: Machine, d: Operand)
    requires
        d.is_place(),
    ensures
        ({
            let word = d.is_word();
            let a = operand_value(m, d) as int;
            let f = inc_spec(m, d).regs.flags;
            &&& describes(f, a + 1, word)
            &&& f.has(CF) == m.regs.flags.has(CF)
            &&& f.has(OF) <==> a == sign_bit(word) - 1
            &&& f.has(AF) <==> a % 16 == 15
        }),
{
    lemma_flags_after_keeping_carry(m.regs.flags, inc_outcome(m, d));
}

/// After DEC on width W: ZF, SF and PF describe the result, OF says that
/// the operand was the least signed value, and CF is as it was.
pub proof fn lemma_dec_flags(m: Machine, d: Operand)
    requires
        d.is_place(),
    ensures
        ({
            let word = d.is_word();
            let a = operand_value(m, d) as int;
            let f = dec_spec(m, d).regs.flags;
            &&& describes(f, a - 1, word)
            &&& f.has(CF) == m.regs.flags.has(CF)
            &&& f.has(OF) <==> a == sign_bit(word)
            &&& f.has(AF) <==> a % 16 == 0
        }),
{
    lemma_flags_after_keeping_carry(m.regs.flags, dec_outcome(m, d));
}

/// After NEG on width W: ZF, SF and PF describe the result, CF is clear
/// exactly when the operand was zero, and OF is set exactly when it was
/// the least signed value.
pub proof fn lemma_neg_flags(m: Machine, d: Operand)
    requires
        d.is_place(),
    ensures
        ({
            let word = d.is_word();
            let a = operand_value(m, d) as int;
            let f = neg_spec(m, d).regs.flags;
            &&& describes(f, -a, word)
            &&& !f.has(CF) <==> a == 0
            &&& f.has(OF) <==> a == sign_bit(word)
        }),
{
    lemma_flags_after(m.regs.flags, neg_outcome(m, d));
}

/// After AND, OR, XOR and TEST: ZF, SF and PF describe the result, and
/// CF and OF are clear.
pub proof fn lemma_logic_flags(m: Machine, d: Operand, s: Operand, op: BitOp, test: bool)
    requires
        d.is_place(),
    ensures
        ({
            let f = bit_op_spec(m, d, s, op, test).regs.flags;
            &&& describes(f, bit_op_outcome(m, d, s, op).value as int, d.is_word())
            &&& !f.has(CF)
            &&& !f.has(OF)
        }),
{
    lemma_flags_after(m.regs.flags, bit_op_outcome(m, d, s, op));
}

/// A word pushed is the word at the top of the stack, and popping it
/// puts SP, and every other register, back.
pub proof fn lemma_push_pop(m: Machine, x: u16)
    requires
        m.wf(),
    ensures
        stack_top(push_spec(m, x)) == x,
        pop_spec(push_spec(m, x)).regs == m.regs,
{
    vstd::arithmetic::div_mod::lemma_mod_add_multiples_vanish(m.regs.sp - 2, 0x1_0000);
}

/// PUSH of `x` followed by POP to `y`: `y` holds what `x` held, and SP is
/// as it was. This is for every 16-bit `y` but SP itself, which a POP
/// overwrites.
pub proof fn lemma_push_then_pop(m: Machine, x: Operand, y: Operand)
    requires
        m.wf(),
        x.is_value(),
        x.is_word(),
        y.is_target(),
        y.is_word(),
        y != Operand::Reg16(4),
    ensures
        operand_value(pop_to_spec(push_from_spec(m, x), y), y) == operand_value(m, x),
        pop_to_spec(push_from_spec(m, x), y).regs.sp == m.regs.sp,
{
    lemma_push_pop(m, operand_value(m, x));
}

/// The same of the instructions: after PUSH of `x` and POP to `y`, `y`
/// holds what `x` held and SP is as it was, for every 16-bit `y` but SP.
pub proof fn lemma_push_pop_instructions(m: Machine, x: Operand, y: Operand)
    requires
        m.wf(),
        x.is_value(),
        x.is_word(),
        y.is_target(),
        y.is_word(),
        y != Operand::Reg16(4),
    ensures
        ({
            let push = Instruction { opcode: Opcode::Push, dest: Operand::Reg8(0), src: x };
            let pop = Instruction { opcode: Opcode::Pop, dest: y, src: Operand::Reg8(0) };
            let after = execute_spec(execute_spec(m, push), pop);
            &&& operand_value(after, y) == operand_value(m, x)
            &&& after.regs.sp == m.regs.sp
        }),
{
    reveal(stack_effect);
    let push = Instruction { opcode: Opcode::Push, dest: Operand::Reg8(0), src: x };
    let m1 = execute_spec(m, push);
    let pushed = push_from_spec(m, x);
    assert(m1 == Machine { seg_override: None, ..pushed });
    lemma_push_then_pop(m, x, y);
    assert(stack_top(m1) == stack_top(pushed));
    assert(pop_to_spec(m1, y) == Machine { seg_override: None, ..pop_to_spec(pushed, y) });
}

/// PUSHF followed by POPF leaves each of the nine flags and SP as they
/// were; and the whole FLAGS word, if bit 1 was set and the reserved bits
/// were zero.
pub proof fn lemma_pushf_popf(m: Machine)
    requires
        m.wf(),
    ensures
        forall|k: u16| is_flag(k) ==> popf_spec(pushf_spec(m)).regs.flags.has(k) == m.regs.flags.has(k),
        popf_spec(pushf_spec(m)).regs.sp == m.regs.sp,
        m.regs.flags.wf() ==> popf_spec(pushf_spec(m)).regs == m.regs,
{
    lemma_push_pop(m, m.regs.flags.bi);
    lemma_flags_of_word(m.regs.flags.bi);
}

/// CBW leaves an AX alone that is the sign extension of its low byte; so
/// CBW done twice is CBW done once.
pub proof fn lemma_cbw_settles(m: Machine)
    ensures
        m.regs.ax == wrap16(signed8(lo(m.regs.ax))) ==> cbw_spec(m) == m,
        cbw_spec(cbw_spec(m)) == cbw_spec(m),
{
}

/// LAHF followed by SAHF leaves the five flags of the low byte of FLAGS
/// as they were, and the others too.
pub proof fn lemma_lahf_sahf(m: Machine)
    ensures
        forall|k: u16| is_flag(k) ==> sahf_spec(lahf_spec(m)).regs.flags.has(k) == m.regs.flags.has(k),
{
    let w = with_lo(m.regs.flags.bi, lo(m.regs.flags.bi));
    assert(w == m.regs.flags.bi);
    lemma_flags_of_word(w);
}

/// A register or memory operand reads as what was last written to it: the
/// word, or its low byte for an 8-bit operand.
pub proof fn lemma_put_then_value(m: Machine, d: Operand, v: u16)
    requires
        d.is_place(),
        m.wf(),
    ensures
        operand_value(put_operand(m, d, v), d) == (if d.is_word() {
            v
        } else {
            lo(v) as u16
        }),
{
    match d {
        Operand::Reg8(i) => {
            lemma_byte_registers(m.regs, i, i, lo(v));
        },
        _ => {},
    }
}

/// After XCHG of two different registers each holds what the other held.
pub proof fn lemma_exchg_swaps(m: Machine, a: u8, b: u8, word: bool)
    requires
        a < 8,
        b < 8,
        a != b,
    ensures
        ({
            let x = crate::decode::register_operand(a, word);
            let y = crate::decode::register_operand(b, word);
            let after = exchg_spec(m, x, y);
            &&& operand_value(after, x) == operand_value(m, y)
            &&& operand_value(after, y) == operand_value(m, x)
        }),
{
    if word {
        lemma_exchg_words(m.regs, a, b);
    } else {
        let va = reg8(m.regs, a);
        let vb = reg8(m.regs, b);
        let r1 = put_reg8(m.regs, b, va);
        lemma_byte_registers(m.regs, b, b, va);
        lemma_byte_registers(r1, a, a, vb);
        lemma_byte_registers(r1, a, b, vb);
        assert(lo(va as u16) == va);
        assert(lo(vb as u16) == vb);
    }
}

/// Two different 16-bit registers written with each other's values read
/// as swapped.
proof fn lemma_exchg_words(r: crate::regs::Registers, a: u8, b: u8)
    requires
        a < 8,
        b < 8,
        a != b,
    ensures
        reg16(put_reg16(put_reg16(r, b, reg16(r, a)), a, reg16(r, b)), a) == reg16(r, b),
        reg16(put_reg16(put_reg16(r, b, reg16(r, a)), a, reg16(r, b)), b) == reg16(r, a),
{
}

/// NOT done twice gives the operand back.
pub proof fn lemma_not_twice(m: Machine, d: Operand)
    requires
        d.is_place(),
        m.wf(),
    ensures
        operand_value(not_spec(not_spec(m, d), d), d) == operand_value(m, d),
{
    let v = operand_value(m, d);
    let once = (modulus(d.is_word()) - 1 - v) as u16;
    lemma_put_then_value(m, d, once);
    let m1 = not_spec(m, d);
    crate::arith::lemma_put_operand_keeps_flags(m, d, once);
    let v1 = operand_value(m1, d);
    let twice = (modulus(d.is_word()) - 1 - v1) as u16;
    lemma_put_then_value(m1, d, twice);
}

/// Writing one half of a word and reading it back gives what was
/// written, and the other half is as it was.
pub proof fn lemma_halves(w: u16, b: u8)
    ensures
        hi(with_hi(w, b)) == b,
        lo(with_hi(w, b)) == lo(w),
        lo(with_lo(w, b)) == b,
        hi(with_lo(w, b)) == hi(w),
        with_hi(with_lo(w, lo(w)), hi(w)) == w,
{
}

/// Byte registers alias the halves of AX, BX, CX and DX: after writing
/// one of the eight, it reads as what was written, and each of the other
/// seven reads as before.
pub proof fn lemma_byte_registers(r: crate::regs::Registers, i: u8, j: u8, v: u8)
    requires
        i < 8,
        j < 8,
    ensures
        reg8(put_reg8(r, i, v), j) == (if i == j {
            v
        } else {
            reg8(r, j)
        }),
{
}

/// Whether the instruction may set IP: a control transfer, or a repeat
/// prefix, which fetches.
pub open spec fn moves_ip(op: Opcode) -> bool {
    family_of(op) is Flow || op is Rep || op is Repne
}

/// A fetch that gives an instruction moves IP by the length of that
/// instruction, modulo 2^16; the length is 1 to 6 bytes, and the cursor
/// stands behind them.
pub proof fn lemma_fetch_moves_ip(m: Machine)
    requires
        fetch_result(m).is_some(),
    ensures
        ({
            let d = decode(at_code(m));
            &&& 1 <= d.len <= 6
            &&& fetch_state(m).regs.ip == wrap16(m.regs.ip + d.len)
            &&& fetch_state(m).cursor == advanced(linear(m.regs.cs, m.regs.ip as int), d.len)
        }),
{
    lemma_decode_len(at_code(m).skip(1), at_code(m).next8());
}

/// What every instruction keeps in order: bit 1 of FLAGS set and the
/// reserved bits zero; the halt flag clear unless the instruction is HLT
/// or a fault is raised; and no fault without the halt flag.
pub open spec fn orderly(before: Machine, after: Machine, op: Opcode) -> bool {
    &&& before.regs.flags.wf() ==> after.regs.flags.wf()
    &&& after.halt ==> before.halt || op is Hlt || after.fault is Some
    &&& after.fault is Some ==> before.fault is Some || after.halt
}

/// Writing an operand changes neither IP nor the flags.
proof fn lemma_put_operand_apart()
    ensures
        forall|x: Machine, op: Operand, v: u16|
            (#[trigger] put_operand(x, op, v)).regs.ip == x.regs.ip && put_operand(
                x,
                op,
                v,
            ).regs.flags == x.regs.flags,
{
}

/// FLAGS loaded from a word has bit 1 set and the reserved bits zero.
proof fn lemma_loaded_flags()
    ensures
        forall|w: u16| (#[trigger] flags_of_word(w)) & 0xF02A == 2,
{
    assert forall|w: u16| (#[trigger] flags_of_word(w)) & 0xF02A == 2 by {
        lemma_flags_of_word(w);
    }
}

/// Setting the status flags from an outcome leaves bit 1 and the reserved
/// bits of FLAGS alone.
proof fn lemma_status_apart()
    ensures
        forall|f: Flags, o: Outcome| (#[trigger] flags_after(f, o)).bi & 0xF02A == f.bi & 0xF02A,
        forall|f: Flags, o: Outcome|
            (#[trigger] flags_after_keeping_carry(f, o)).bi & 0xF02A == f.bi & 0xF02A,
{
    assert forall|f: Flags, o: Outcome| (#[trigger] flags_after(f, o)).bi & 0xF02A == f.bi
        & 0xF02A by {
        lemma_flags_after(f, o);
    }
    assert forall|f: Flags, o: Outcome| (#[trigger] flags_after_keeping_carry(f, o)).bi & 0xF02A
        == f.bi & 0xF02A by {
        lemma_flags_after_keeping_carry(f, o);
    }
}

#[verifier::rlimit(50)]

proof fn lemma_arith_family(m: Machine, inst: Instruction)
    ensures
        arith_effect(m, inst).regs.ip == m.regs.ip,
        orderly(m, arith_effect(m, inst), inst.opcode),
{
    reveal(arith_effect);
    lemma_put_operand_apart();
    lemma_status_apart();
}

#[verifier::rlimit(50)]

proof fn lemma_accumulator_family(m: Machine, inst: Instruction)
    ensures
        accumulator_effect(m, inst).regs.ip == m.regs.ip,
        orderly(m, accumulator_effect(m, inst), inst.opcode),
{
    reveal(accumulator_effect);
    crate::regs::lemma_flag_bits();
    lemma_put_operand_apart();
    lemma_loaded_flags();
}

#[verifier::rlimit(50)]

proof fn lemma_stack_family(m: Machine, inst: Instruction)
    ensures
        stack_effect(m, inst).regs.ip == m.regs.ip,
        orderly(m, stack_effect(m, inst), inst.opcode),
{
    reveal(stack_effect);
    crate::regs::lemma_flag_bits();
    lemma_put_operand_apart();
    lemma_loaded_flags();
}

#[verifier::rlimit(50)]

proof fn lemma_data_family(m: Machine, inst: Instruction)
    ensures
        data_effect(m, inst).regs.ip == m.regs.ip,
        orderly(m, data_effect(m, inst), inst.opcode),
{
    reveal(data_effect);
    crate::regs::lemma_flag_bits();
    lemma_put_operand_apart();
    lemma_loaded_flags();
}

#[verifier::rlimit(50)]

proof fn lemma_strings_family(m: Machine, inst: Instruction)
    ensures
        strings_effect(m, inst).regs.ip == m.regs.ip,
        orderly(m, strings_effect(m, inst), inst.opcode),
{
    reveal(strings_effect);
    crate::regs::lemma_flag_bits();
    lemma_put_operand_apart();
    lemma_loaded_flags();
}

#[verifier::rlimit(50)]

proof fn lemma_shift_family(m: Machine, inst: Instruction)
    ensures
        shift_effect(m, inst).regs.ip == m.regs.ip,
        orderly(m, shift_effect(m, inst), inst.opcode),
{
    reveal(shift_effect);
    crate::regs::lemma_flag_bits();
    lemma_put_operand_apart();
    lemma_loaded_flags();
}

#[verifier::rlimit(50)]

proof fn lemma_flow_family(m: Machine, inst: Instruction)
    ensures
        orderly(m, flow_effect(m, inst), inst.opcode),
{
    reveal(flow_effect);
    crate::regs::lemma_flag_bits();
    lemma_put_operand_apart();
    lemma_loaded_flags();
}

#[verifier::rlimit(50)]

proof fn lemma_control_family(m: Machine, inst: Instruction)
    ensures
        control_effect(m, inst).regs.ip == m.regs.ip,
        orderly(m, control_effect(m, inst), inst.opcode),
{
    reveal(control_effect);
    crate::regs::lemma_flag_bits();
    lemma_put_operand_apart();
    lemma_loaded_flags();
}

/// An instruction that is no control transfer and no repeat prefix leaves
/// IP where the fetch put it: so after the step IP is its old value plus
/// the length of the instruction.
#[verifier::rlimit(50)]
pub proof fn lemma_step_keeps_ip(m: Machine, inst: Instruction)
    requires
        !moves_ip(inst.opcode),
    ensures
        execute_spec(m, inst).regs.ip == m.regs.ip,
{
    lemma_arith_family(m, inst);
    lemma_accumulator_family(m, inst);
    lemma_stack_family(m, inst);
    lemma_data_family(m, inst);
    lemma_strings_family(m, inst);
    lemma_shift_family(m, inst);
    lemma_control_family(m, inst);
}

/// Bit 1 of FLAGS stays set and the reserved bits stay zero, whatever
/// instruction is executed and whatever its operands are.
#[verifier::rlimit(50)]
pub proof fn lemma_plain_keeps_flags(m: Machine, inst: Instruction)
    requires
        m.regs.flags.wf(),
    ensures
        plain_spec(m, inst).regs.flags.wf(),
{
    lemma_arith_family(m, inst);
    lemma_accumulator_family(m, inst);
    lemma_stack_family(m, inst);
    lemma_data_family(m, inst);
    lemma_strings_family(m, inst);
    lemma_shift_family(m, inst);
    lemma_flow_family(m, inst);
    lemma_control_family(m, inst);
}

/// A repeated string operation keeps bit 1 of FLAGS set and the reserved
/// bits zero.
pub proof fn lemma_repeat_keeps_flags(m: Machine, op: Opcode, while_equal: bool)
    requires
        m.regs.flags.wf(),
    ensures
        repeat_spec(m, op, while_equal).regs.flags.wf(),
    decreases m.regs.cx,
{
    if m.regs.cx != 0 {
        let inst = Instruction { opcode: op, dest: Operand::Reg8(0), src: Operand::Reg8(0) };
        let stepped = string_spec(m, op);
        assert(stepped.regs.flags.wf()) by {
            lemma_strings_family(m, inst);
        }
        let counted = stepped.with_regs(
            crate::regs::Registers { cx: (m.regs.cx - 1) as u16, ..stepped.regs },
        );
        if !(is_comparison(op) && counted.regs.flags.has(ZF) != while_equal) {
            lemma_repeat_keeps_flags(counted, op, while_equal);
        }
    }
}

/// Every instruction keeps bit 1 of FLAGS set and the reserved bits zero.
pub proof fn lemma_execute_keeps_flags(m: Machine, inst: Instruction)
    requires
        m.regs.flags.wf(),
    ensures
        execute_spec(m, inst).regs.flags.wf(),
{
    if inst.opcode is Rep || inst.opcode is Repne {
        let fetched = fetch_state(m);
        match fetch_result(m) {
            None => {},
            Some(i) => {
                if is_string(i.opcode) {
                    lemma_repeat_keeps_flags(fetched, i.opcode, inst.opcode is Rep);
                } else {
                    lemma_plain_keeps_flags(fetched, i);
                }
            },
        }
    } else {
        lemma_plain_keeps_flags(m, inst);
    }
}

/// The run loop keeps bit 1 of FLAGS set and the reserved bits zero, for
/// every program and every number of steps.
pub proof fn lemma_run_keeps_flags(m: Machine, limit: nat)
    requires
        m.regs.flags.wf(),
    ensures
        run_spec(m, limit).regs.flags.wf(),
    decreases limit,
{
    if limit != 0 && running(m) {
        match fetch_result(m) {
            Some(i) => {
                lemma_execute_keeps_flags(fetch_state(m), i);
            },
            None => {},
        }
        lemma_run_keeps_flags(step_spec(m), (limit - 1) as nat);
    }
}

/// The processor stops only on HLT or on a fault, and a fault stops it:
/// an instruction that is no repeat prefix leaves the halt flag clear
/// unless it is HLT or raises a fault, and raises the halt flag with
/// every fault.
pub proof fn lemma_halt_has_a_cause(m: Machine, inst: Instruction)
    requires
        !m.halt,
        m.fault is None,
    ensures
        plain_spec(m, inst).halt ==> inst.opcode is Hlt || plain_spec(m, inst).fault is Some,
        plain_spec(m, inst).fault is Some ==> plain_spec(m, inst).halt,
{
    lemma_arith_family(m, inst);
    lemma_accumulator_family(m, inst);
    lemma_stack_family(m, inst);
    lemma_data_family(m, inst);
    lemma_strings_family(m, inst);
    lemma_shift_family(m, inst);
    lemma_flow_family(m, inst);
    lemma_control_family(m, inst);
}

/// A prefix sets the pending segment override and nothing else; any
/// other instruction that the engine carries out clears it.
pub proof fn lemma_override_lifetime(m: Machine, inst: Instruction)
    ensures
        override_segment(inst.opcode) is Some ==> execute_spec(m, inst) == (Machine {
            seg_override: override_segment(inst.opcode),
            ..m
        }),
        override_segment(inst.opcode) is None && !is_unsupported(inst.opcode) && accepts(inst)
            ==> execute_spec(m, inst).seg_override is None,
{
}

/// Running `a` steps and then `b` steps is running `a + b` steps.
pub proof fn lemma_run_adds(m: Machine, a: nat, b: nat)
    ensures
        run_spec(run_spec(m, a), b) == run_spec(m, a + b),
    decreases a,
{
    if a != 0 && running(m) {
        lemma_run_adds(step_spec(m), (a - 1) as nat, b);
    } else if a != 0 {
        lemma_run_rests(m, b);
        lemma_run_rests(m, a + b);
    }
}

/// A processor that has stopped, or whose IP is outside the program,
/// stays as it is.
pub proof fn lemma_run_rests(m: Machine, limit: nat)
    requires
        !running(m),
    ensures
        run_spec(m, limit) == m,
{
}

/// What `fetch` gives, the engine takes: see `lemma_decoded_is_accepted`.
pub proof fn lemma_fetched_is_accepted(m: Machine)
    ensures
        fetch_result(m) matches Some(i) ==> accepts(i) || register_for_memory(i),
{
    lemma_decoded_is_accepted(at_code(m).skip(1), at_code(m).next8());
}

/// Whether the instruction wants a far pointer or an address in memory
/// and names a register instead: LEA, LES, LDS, and the indirect far JMP
/// and CALL, with `mod` 3.
pub open spec fn register_for_memory(i: Instruction) -> bool {
    match i.opcode {
        Opcode::Lea | Opcode::Les | Opcode::Lds | Opcode::JmpFar => i.src is Reg16,
        Opcode::CallFar => i.dest is Reg16,
        _ => false,
    }
}

/// What the decoder gives, the engine takes: the operands of a decoded
/// instruction are of a kind that its operation accepts. The one
/// exception is an instruction that needs a memory operand and was
/// encoded with a register; executing it stops the processor.
#[verifier::rlimit(50)]
pub proof fn lemma_decoded_is_accepted(m: Machine, b1: u8)
    ensures
        decode_rest(m, b1).instr matches Some(i) ==> accepts(i) || register_for_memory(i),
{
    reveal(decode_rest);
    let g = b1 / 4;
    if g < 16 {
    } else if g < 24 {
    } else if 28 <= g < 32 {
    } else if g == 32 {
    } else if g == 33 || g == 34 {
    } else if g == 35 {
    } else if g == 36 || g == 37 {
    } else if g == 40 {
    } else if 44 <= g < 48 {
    } else if g == 49 {
    } else if g == 52 {
    } else if 56 <= g < 60 {
    } else if b1 == 0xF6 || b1 == 0xF7 {
    } else if b1 == 0xFE || b1 == 0xFF {
    } else {
    }
}

/// The physical address of segment and offset is
/// `(segment * 16 + offset) mod 2^20`, and so below 2^20.
pub proof fn lemma_linear(seg: u16, offset: u16)
    ensures
        linear(seg, offset as int) == ((seg as int) * 16 + offset) % 0x10_0000,
        0 <= linear(seg, offset as int) < 0x10_0000,
{
}

/// A segment register loaded from a base address that is a multiple of
/// 16 addresses `(base + offset) mod 2^20`.
pub proof fn lemma_linear_from_base(base: u32, offset: u16)
    requires
        base % 16 == 0,
    ensures
        linear(segment_of_base(base), offset as int) == (base + offset) % 0x10_0000,
{
}

} // verus!
