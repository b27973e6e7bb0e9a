//! Machine-level laws of the interpreter, each proved against the spec
//! functions of [`crate::model`] that the engine's contracts are stated in.

use vstd::prelude::*;

use crate::disassembler::{
    spec_cycles, spec_decode, spec_size, Condition, Instruction, RegisterPair, StackPair,
};
use crate::model::{
    add_flags, add_result, adv2, b2i, dcx_spec, exec_instruction_spec, flag_ac, flag_cy, flag_p,
    flag_padding, flag_s, flag_z, flags_byte, high_byte, inx_spec, low_byte, pair16, pair_read,
    pair_write, parity8, step_spec, sub_flags, sub_result, wrap16, CpuView,
};

verus! {

// ---------------------------------------------------------------------------
// Small arithmetic facts the laws lean on
// ---------------------------------------------------------------------------

/// Wrapping 16-bit arithmetic composes: reducing an intermediate result
/// does not change the final reduction.
pub proof fn lemma_wrap16_add(x: int, y: int)
    ensures
        wrap16(wrap16(x) + y) == wrap16(x + y),
{
    let m = 0x10000int;
    vstd::arithmetic::div_mod::lemma_mod_twice(x, m);
    vstd::arithmetic::div_mod::lemma_add_mod_noop(x % m, y, m);
    vstd::arithmetic::div_mod::lemma_add_mod_noop(x, y, m);
}

/// A value already inside the 16-bit range reduces to itself.
pub proof fn lemma_wrap16_identity(v: u16)
    ensures
        wrap16(v as int) == v,
{
    vstd::arithmetic::div_mod::lemma_small_mod(v as nat, 0x10000nat);
}

/// Two addresses one apart stay distinct after wrapping.
pub proof fn lemma_wrap16_adjacent_distinct(x: int)
    ensures
        wrap16(x) != wrap16(x - 1),
{
    vstd::arithmetic::div_mod::lemma_mod_equivalence(x, x - 1, 0x10000);
}

/// A 16-bit value splits into its high and low bytes and reassembles.
pub proof fn lemma_pair16_split(v: u16)
    ensures
        pair16(high_byte(v), low_byte(v)) == v,
{
    vstd::arithmetic::div_mod::lemma_fundamental_div_mod(v as int, 256);
}

/// The padding part of any flag byte is a multiple of 32.
pub proof fn lemma_flag_padding_aligned(flags: u8)
    ensures
        flag_padding(flags) % 32 == 0,
{
}

/// Reading the five flags and the padding back out of an assembled flag
/// byte gives exactly what was put in.
pub proof fn lemma_flags_byte_fields(padding: u8, z: bool, s: bool, p: bool, cy: bool, ac: bool)
    requires
        padding % 32 == 0,
    ensures
        flag_z(flags_byte(padding, z, s, p, cy, ac)) == z,
        flag_s(flags_byte(padding, z, s, p, cy, ac)) == s,
        flag_p(flags_byte(padding, z, s, p, cy, ac)) == p,
        flag_cy(flags_byte(padding, z, s, p, cy, ac)) == cy,
        flag_ac(flags_byte(padding, z, s, p, cy, ac)) == ac,
        flag_padding(flags_byte(padding, z, s, p, cy, ac)) == padding,
{
}

// ---------------------------------------------------------------------------
// Decode totality
// ---------------------------------------------------------------------------

/// Every opcode byte decodes to a defined identity whose size is one, two
/// or three bytes and whose cycle cost is positive.
pub proof fn lemma_decode_total(opcode: u8)
    ensures
        1 <= spec_size(spec_decode(opcode)) <= 3,
        spec_cycles(spec_decode(opcode)) >= 1,
{
}

// ---------------------------------------------------------------------------
// Flag round-trip through the stack
// ---------------------------------------------------------------------------

/// Pushing the accumulator+flags pair and popping it restores the flag
/// byte bit for bit, padding bits included, for every flag-byte value, and
/// brings the stack pointer back where it was.
pub proof fn lemma_flags_push_pop_round_trip(m: CpuView)
    requires
        m.wf(),
    ensures
        ({
            let pushed = exec_instruction_spec(m, Instruction::Push(StackPair::PSW), Option::None);
            let popped = exec_instruction_spec(
                pushed,
                Instruction::Pop(StackPair::PSW),
                Option::None,
            );
            &&& popped.flags == m.flags
            &&& popped.a == m.a
            &&& popped.sp == m.sp
        }),
{
    lemma_wrap16_adjacent_distinct(m.sp - 1);
    lemma_wrap16_add(m.sp - 2, 1);
    lemma_wrap16_add(m.sp - 2, 2);
    lemma_wrap16_identity(m.sp);
}

// ---------------------------------------------------------------------------
// 16-bit wraparound
// ---------------------------------------------------------------------------

/// A register-pair increment adds one modulo 65536; from 0xFFFF it yields
/// zero.
pub proof fn lemma_inx_wraps(m: CpuView, p: RegisterPair)
    ensures
        pair_read(inx_spec(m, p), p) == wrap16(pair_read(m, p) + 1),
        pair_read(m, p) == 0xFFFF ==> pair_read(inx_spec(m, p), p) == 0,
{
    lemma_pair_read_write(m, p, wrap16(pair_read(m, p) + 1));
}

/// A register-pair decrement subtracts one modulo 65536; from zero it
/// yields 0xFFFF.
pub proof fn lemma_dcx_wraps(m: CpuView, p: RegisterPair)
    ensures
        pair_read(dcx_spec(m, p), p) == wrap16(pair_read(m, p) - 1),
        pair_read(m, p) == 0 ==> pair_read(dcx_spec(m, p), p) == 0xFFFF,
{
    lemma_pair_read_write(m, p, wrap16(pair_read(m, p) - 1));
}

/// Writing a register pair and reading it back gives the written value.
pub proof fn lemma_pair_read_write(m: CpuView, p: RegisterPair, v: u16)
    ensures
        pair_read(pair_write(m, p, v), p) == v,
{
    lemma_pair16_split(v);
}

/// The machine after a sequence of pushes, one for each listed pair.
pub open spec fn pushing_sequence(m: CpuView, pairs: Seq<StackPair>) -> CpuView
    decreases pairs.len(),
{
    if pairs.len() == 0 {
        m
    } else {
        pushing_sequence(
            exec_instruction_spec(m, Instruction::Push(pairs[0]), Option::None),
            pairs.subrange(1, pairs.len() as int),
        )
    }
}

/// The machine after a number of pops into the B/C pair.
pub open spec fn popping_count(m: CpuView, n: nat) -> CpuView
    decreases n,
{
    if n == 0 {
        m
    } else {
        popping_count(
            exec_instruction_spec(m, Instruction::Pop(StackPair::BC), Option::None),
            (n - 1) as nat,
        )
    }
}

/// Every push drops the stack pointer by two, wrapping, whatever pair it
/// pushes; a sequence of pushes drops it by two per push.
pub proof fn lemma_pushing_sequence_sp(m: CpuView, pairs: Seq<StackPair>)
    requires
        m.wf(),
    ensures
        pushing_sequence(m, pairs).sp == wrap16(m.sp - 2 * pairs.len()),
        pushing_sequence(m, pairs).wf(),
    decreases pairs.len(),
{
    if pairs.len() == 0 {
        lemma_wrap16_identity(m.sp);
    } else {
        let m1 = exec_instruction_spec(m, Instruction::Push(pairs[0]), Option::None);
        assert(m1.sp == wrap16(m.sp - 2));
        lemma_pushing_sequence_sp(m1, pairs.subrange(1, pairs.len() as int));
        lemma_wrap16_add(m.sp - 2, -2 * (pairs.len() - 1));
    }
}

/// Every pop raises the stack pointer by two, wrapping; a run of pops
/// raises it by two per pop.
pub proof fn lemma_popping_count_sp(m: CpuView, n: nat)
    requires
        m.wf(),
    ensures
        popping_count(m, n).sp == wrap16(m.sp + 2 * n),
        popping_count(m, n).wf(),
    decreases n,
{
    if n == 0 {
        lemma_wrap16_identity(m.sp);
    } else {
        let m1 = exec_instruction_spec(m, Instruction::Pop(StackPair::BC), Option::None);
        assert(m1.sp == wrap16(m.sp + 2));
        lemma_popping_count_sp(m1, (n - 1) as nat);
        lemma_wrap16_add(m.sp + 2, 2 * (n - 1));
    }
}

/// A push/pop sequence of any depth returns the stack pointer to its
/// original value.
pub proof fn lemma_stack_depth_balance(m: CpuView, pairs: Seq<StackPair>)
    requires
        m.wf(),
    ensures
        popping_count(pushing_sequence(m, pairs), pairs.len()).sp == m.sp,
{
    lemma_pushing_sequence_sp(m, pairs);
    lemma_popping_count_sp(pushing_sequence(m, pairs), pairs.len());
    lemma_wrap16_add(m.sp - 2 * pairs.len(), 2 * pairs.len() as int);
    lemma_wrap16_identity(m.sp);
}

// ---------------------------------------------------------------------------
// Arithmetic flag correctness
// ---------------------------------------------------------------------------

/// The flags of an addition follow the documented truth table: zero, sign
/// and parity from the truncated result, carry from the untruncated sum
/// exceeding 0xFF, auxiliary carry from the low nibbles and the incoming
/// carry overflowing a nibble.
pub proof fn lemma_add_flag_truth_table(flags: u8, a: u8, v: u8, carry_in: bool)
    ensures
        flag_z(add_flags(flags, a, v, carry_in)) == (add_result(a, v, carry_in) == 0),
        flag_s(add_flags(flags, a, v, carry_in)) == (add_result(a, v, carry_in) >= 0x80),
        flag_p(add_flags(flags, a, v, carry_in)) == parity8(add_result(a, v, carry_in)),
        flag_cy(add_flags(flags, a, v, carry_in)) == (a + v + b2i(carry_in) > 0xFF),
        flag_ac(add_flags(flags, a, v, carry_in)) == (a % 16 + v % 16 + b2i(carry_in) > 0xF),
        flag_padding(add_flags(flags, a, v, carry_in)) == flag_padding(flags),
{
    let res = add_result(a, v, carry_in);
    lemma_flag_padding_aligned(flags);
    lemma_flags_byte_fields(
        flag_padding(flags),
        res == 0,
        res >= 0x80,
        parity8(res),
        a + v + b2i(carry_in) > 0xFF,
        a % 16 + v % 16 + b2i(carry_in) > 0xF,
    );
}

/// The flags of a subtraction follow the documented truth table: carry
/// records the borrow, auxiliary carry the carry out of the low nibble of
/// the internal two's-complement addition.
pub proof fn lemma_sub_flag_truth_table(flags: u8, a: u8, v: u8, borrow_in: bool)
    ensures
        flag_z(sub_flags(flags, a, v, borrow_in)) == (sub_result(a, v, borrow_in) == 0),
        flag_s(sub_flags(flags, a, v, borrow_in)) == (sub_result(a, v, borrow_in) >= 0x80),
        flag_p(sub_flags(flags, a, v, borrow_in)) == parity8(sub_result(a, v, borrow_in)),
        flag_cy(sub_flags(flags, a, v, borrow_in)) == (a < v + b2i(borrow_in)),
        flag_ac(sub_flags(flags, a, v, borrow_in)) == (a % 16 >= v % 16 + b2i(borrow_in)),
        flag_padding(sub_flags(flags, a, v, borrow_in)) == flag_padding(flags),
{
    let res = sub_result(a, v, borrow_in);
    lemma_flag_padding_aligned(flags);
    lemma_flags_byte_fields(
        flag_padding(flags),
        res == 0,
        res >= 0x80,
        parity8(res),
        a < v + b2i(borrow_in),
        a % 16 >= v % 16 + b2i(borrow_in),
    );
}

// ---------------------------------------------------------------------------
// Decimal adjust on valid BCD
// ---------------------------------------------------------------------------

/// Adjusting an accumulator that already holds two valid BCD digits, with
/// carry and auxiliary carry clear, changes nothing: the value stays, no
/// correction flag rises, and zero, sign and parity just restate the
/// value's own bit pattern.
pub proof fn lemma_daa_preserves_valid_bcd(m: CpuView)
    requires
        m.a % 16 <= 9,
        m.a / 16 <= 9,
        !flag_cy(m.flags),
        !flag_ac(m.flags),
    ensures
        ({
            let r = exec_instruction_spec(m, Instruction::Daa, Option::None);
            &&& r.a == m.a
            &&& !flag_cy(r.flags)
            &&& !flag_ac(r.flags)
            &&& flag_z(r.flags) == (m.a == 0)
            &&& flag_s(r.flags) == (m.a >= 0x80)
            &&& flag_p(r.flags) == parity8(m.a)
            &&& flag_padding(r.flags) == flag_padding(m.flags)
            &&& r.pc == m.pc
            &&& r.sp == m.sp
            &&& r.mem == m.mem
        }),
{
    vstd::arithmetic::div_mod::lemma_small_mod(m.a as nat, 256nat);
    lemma_flag_padding_aligned(m.flags);
    lemma_flags_byte_fields(
        flag_padding(m.flags),
        m.a == 0,
        m.a >= 0x80,
        parity8(m.a),
        false,
        false,
    );
}

// ---------------------------------------------------------------------------
// Call/return symmetry
// ---------------------------------------------------------------------------

/// A call followed by a return leaves the program counter at the byte
/// right after the call's operands — the instruction that follows the
/// three-byte call — and the stack pointer where it started.
pub proof fn lemma_call_then_return(m: CpuView)
    requires
        m.wf(),
    ensures
        ({
            let called = exec_instruction_spec(m, Instruction::Call, Option::None);
            let returned = exec_instruction_spec(called, Instruction::Ret, Option::None);
            &&& returned.pc == wrap16(m.pc + 2)
            &&& returned.sp == m.sp
        }),
{
    let m2 = adv2(m);
    lemma_wrap16_adjacent_distinct(m.sp - 1);
    lemma_wrap16_add(m.sp - 2, 1);
    lemma_wrap16_add(m.sp - 2, 2);
    lemma_wrap16_identity(m.sp);
    lemma_pair16_split(m2.pc);
}

// ---------------------------------------------------------------------------
// A conditional branch not taken still consumes its operands
// ---------------------------------------------------------------------------

/// Stepping over a jump-if-not-zero with the zero flag set takes no jump:
/// the program counter just moves past the three-byte instruction, and
/// registers, flags, pointers and memory are untouched.
pub proof fn lemma_branch_not_taken_advances(m: CpuView)
    requires
        m.wf(),
        flag_z(m.flags),
        m.mem[m.pc as int] == 0xC2,
    ensures
        ({
            let r = step_spec(m, Option::None);
            &&& r.pc == wrap16(m.pc + 3)
            &&& r.sp == m.sp
            &&& r.a == m.a
            &&& r.b == m.b
            &&& r.c == m.c
            &&& r.d == m.d
            &&& r.e == m.e
            &&& r.h == m.h
            &&& r.l == m.l
            &&& r.flags == m.flags
            &&& r.mem == m.mem
            &&& r.last_cycles == spec_cycles(Instruction::Jcond(Condition::NotZero))
        }),
{
    assert(spec_decode(0xC2) == Instruction::Jcond(Condition::NotZero));
    lemma_wrap16_add(m.pc + 1, 2);
}

} // verus!
