//! The mathematical model of the processor.
//!
//! [`CpuView`] is the ghost image of the machine: registers, pointers, the
//! condition-flag byte, the interrupt and halt bits, the cycle counter of the
//! last executed instruction, and the 64KB memory as a sequence of bytes.
//! The spec functions in this module define every instruction's effect on
//! that image; the executable engine in [`crate::emulator`] is proved to
//! follow them exactly.

use vstd::prelude::*;

use crate::disassembler::{
    spec_cycles, spec_decode, Condition, Instruction, Register, RegisterPair, StackPair,
};

verus! {

/// The number of addressable memory cells: the machine has a flat 64KB image.
pub const MEMORY_SIZE: usize = 0x10000;

// ---------------------------------------------------------------------------
// Condition flags
//
// The five meaningful flags live in the low bits of the flag byte: zero,
// sign, parity, carry and auxiliary carry, in that order. The three high
// bits are architectural padding: no flag-setting operation touches them,
// and popping the accumulator+flags pair restores them verbatim.
// ---------------------------------------------------------------------------

/// The zero flag: bit 0 of the flag byte.
pub open spec fn flag_z(flags: u8) -> bool {
    flags % 2 == 1
}

/// The sign flag: bit 1 of the flag byte.
pub open spec fn flag_s(flags: u8) -> bool {
    (flags / 2) % 2 == 1
}

/// The parity flag: bit 2 of the flag byte.
pub open spec fn flag_p(flags: u8) -> bool {
    (flags / 4) % 2 == 1
}

/// The carry flag: bit 3 of the flag byte.
pub open spec fn flag_cy(flags: u8) -> bool {
    (flags / 8) % 2 == 1
}

/// The auxiliary-carry flag: bit 4 of the flag byte.
pub open spec fn flag_ac(flags: u8) -> bool {
    (flags / 16) % 2 == 1
}

/// The padding bits of the flag byte (bits 5 to 7), kept in place.
pub open spec fn flag_padding(flags: u8) -> u8 {
    ((flags / 32) * 32) as u8
}

/// A one for a set flag, a zero for a clear one.
pub open spec fn b2i(b: bool) -> int {
    if b {
        1
    } else {
        0
    }
}

/// Assembles a flag byte from the five flags and the preserved padding bits.
pub open spec fn flags_byte(padding: u8, z: bool, s: bool, p: bool, cy: bool, ac: bool) -> u8 {
    (padding + b2i(z) + 2 * b2i(s) + 4 * b2i(p) + 8 * b2i(cy) + 16 * b2i(ac)) as u8
}

/// How many of the eight bits of `v` are set.
pub open spec fn ones_count(v: u8) -> int {
    (v as int) % 2 + (v / 2) % 2 + (v / 4) % 2 + (v / 8) % 2 + (v / 16) % 2 + (v / 32) % 2 + (v
        / 64) % 2 + (v / 128) % 2
}

/// Even parity: true when an even number of bits of `v` are set.
pub open spec fn parity8(v: u8) -> bool {
    ones_count(v) % 2 == 0
}

// ---------------------------------------------------------------------------
// 16-bit values
// ---------------------------------------------------------------------------

/// The 16-bit value formed by a (high, low) byte pair.
pub open spec fn pair16(high: u8, low: u8) -> u16 {
    (high * 256 + low) as u16
}

/// The high byte of a 16-bit value.
pub open spec fn high_byte(v: u16) -> u8 {
    (v / 256) as u8
}

/// The low byte of a 16-bit value.
pub open spec fn low_byte(v: u16) -> u8 {
    (v % 256) as u8
}

/// Reduction of an unbounded integer into the 16-bit address space: all
/// pointer arithmetic of the machine wraps modulo 65536.
pub open spec fn wrap16(v: int) -> u16 {
    (v % 0x10000) as u16
}

// ---------------------------------------------------------------------------
// The machine image
// ---------------------------------------------------------------------------

/// The ghost image of the whole machine.
#[verifier::ext_equal]
pub struct CpuView {
    pub a: u8,
    pub b: u8,
    pub c: u8,
    pub d: u8,
    pub e: u8,
    pub h: u8,
    pub l: u8,
    pub sp: u16,
    pub pc: u16,
    pub flags: u8,
    pub interrupt_enabled: bool,
    pub halted: bool,
    pub last_cycles: u32,
    pub mem: Seq<u8>,
}

impl CpuView {
    /// A well-formed image holds exactly the 64KB memory the machine owns.
    pub open spec fn wf(self) -> bool {
        self.mem.len() == MEMORY_SIZE
    }

    /// The B/C register pair read as one 16-bit value.
    pub open spec fn bc(self) -> u16 {
        pair16(self.b, self.c)
    }

    /// The D/E register pair read as one 16-bit value.
    pub open spec fn de(self) -> u16 {
        pair16(self.d, self.e)
    }

    /// The H/L register pair read as one 16-bit value.
    pub open spec fn hl(self) -> u16 {
        pair16(self.h, self.l)
    }

    pub open spec fn with_a(self, v: u8) -> CpuView {
        CpuView { a: v, ..self }
    }

    pub open spec fn with_b(self, v: u8) -> CpuView {
        CpuView { b: v, ..self }
    }

    pub open spec fn with_c(self, v: u8) -> CpuView {
        CpuView { c: v, ..self }
    }

    pub open spec fn with_d(self, v: u8) -> CpuView {
        CpuView { d: v, ..self }
    }

    pub open spec fn with_e(self, v: u8) -> CpuView {
        CpuView { e: v, ..self }
    }

    pub open spec fn with_h(self, v: u8) -> CpuView {
        CpuView { h: v, ..self }
    }

    pub open spec fn with_l(self, v: u8) -> CpuView {
        CpuView { l: v, ..self }
    }

    pub open spec fn with_bc(self, v: u16) -> CpuView {
        CpuView { b: high_byte(v), c: low_byte(v), ..self }
    }

    pub open spec fn with_de(self, v: u16) -> CpuView {
        CpuView { d: high_byte(v), e: low_byte(v), ..self }
    }

    pub open spec fn with_hl(self, v: u16) -> CpuView {
        CpuView { h: high_byte(v), l: low_byte(v), ..self }
    }

    pub open spec fn with_sp(self, v: u16) -> CpuView {
        CpuView { sp: v, ..self }
    }

    pub open spec fn with_pc(self, v: u16) -> CpuView {
        CpuView { pc: v, ..self }
    }

    pub open spec fn with_flags(self, v: u8) -> CpuView {
        CpuView { flags: v, ..self }
    }

    pub open spec fn with_interrupt_enabled(self, v: bool) -> CpuView {
        CpuView { interrupt_enabled: v, ..self }
    }

    pub open spec fn with_halted(self, v: bool) -> CpuView {
        CpuView { halted: v, ..self }
    }

    pub open spec fn with_last_cycles(self, v: u32) -> CpuView {
        CpuView { last_cycles: v, ..self }
    }

    pub open spec fn with_mem(self, m: Seq<u8>) -> CpuView {
        CpuView { mem: m, ..self }
    }
}

// ---------------------------------------------------------------------------
// Operand access
// ---------------------------------------------------------------------------

/// The value a register slot holds; the `M` slot reads the memory cell the
/// H/L pair addresses.
pub open spec fn reg_read(m: CpuView, r: Register) -> u8 {
    match r {
        Register::B => m.b,
        Register::C => m.c,
        Register::D => m.d,
        Register::E => m.e,
        Register::H => m.h,
        Register::L => m.l,
        Register::M => m.mem[m.hl() as int],
        Register::A => m.a,
    }
}

/// Writes a register slot; the `M` slot writes the memory cell the H/L pair
/// addresses.
pub open spec fn reg_write(m: CpuView, r: Register, v: u8) -> CpuView {
    match r {
        Register::B => m.with_b(v),
        Register::C => m.with_c(v),
        Register::D => m.with_d(v),
        Register::E => m.with_e(v),
        Register::H => m.with_h(v),
        Register::L => m.with_l(v),
        Register::M => m.with_mem(m.mem.update(m.hl() as int, v)),
        Register::A => m.with_a(v),
    }
}

/// The 16-bit value a register pair holds.
pub open spec fn pair_read(m: CpuView, p: RegisterPair) -> u16 {
    match p {
        RegisterPair::BC => m.bc(),
        RegisterPair::DE => m.de(),
        RegisterPair::HL => m.hl(),
        RegisterPair::SP => m.sp,
    }
}

/// Writes a 16-bit value into a register pair.
pub open spec fn pair_write(m: CpuView, p: RegisterPair, v: u16) -> CpuView {
    match p {
        RegisterPair::BC => m.with_bc(v),
        RegisterPair::DE => m.with_de(v),
        RegisterPair::HL => m.with_hl(v),
        RegisterPair::SP => m.with_sp(v),
    }
}

/// Whether a branch condition holds of the current flags.
pub open spec fn condition_met(m: CpuView, c: Condition) -> bool {
    match c {
        Condition::NotZero => !flag_z(m.flags),
        Condition::Zero => flag_z(m.flags),
        Condition::NoCarry => !flag_cy(m.flags),
        Condition::Carry => flag_cy(m.flags),
        Condition::ParityOdd => !flag_p(m.flags),
        Condition::ParityEven => flag_p(m.flags),
        Condition::Plus => !flag_s(m.flags),
        Condition::Minus => flag_s(m.flags),
    }
}

/// The byte at the program counter: a one-byte immediate operand.
pub open spec fn imm8(m: CpuView) -> u8 {
    m.mem[m.pc as int]
}

/// The two bytes at the program counter read little-endian: a 16-bit
/// immediate operand or address.
pub open spec fn imm16(m: CpuView) -> u16 {
    pair16(m.mem[wrap16(m.pc + 1) as int], m.mem[m.pc as int])
}

/// The program counter advanced one byte, wrapping.
pub open spec fn adv1(m: CpuView) -> CpuView {
    m.with_pc(wrap16(m.pc + 1))
}

/// The program counter advanced two bytes, wrapping.
pub open spec fn adv2(m: CpuView) -> CpuView {
    m.with_pc(wrap16(m.pc + 2))
}

/// The byte at the stack pointer: the low half of the top stack slot.
pub open spec fn stack_low(m: CpuView) -> u8 {
    m.mem[m.sp as int]
}

/// The byte one above the stack pointer: the high half of the top stack
/// slot.
pub open spec fn stack_high(m: CpuView) -> u8 {
    m.mem[wrap16(m.sp + 1) as int]
}

// ---------------------------------------------------------------------------
// Arithmetic and logic
// ---------------------------------------------------------------------------

/// The truncated sum of the accumulator, an operand and an incoming carry.
pub open spec fn add_result(a: u8, v: u8, carry_in: bool) -> u8 {
    ((a + v + b2i(carry_in)) % 256) as u8
}

/// The flag byte an addition produces: zero, sign and parity from the
/// result byte, carry from the untruncated sum, auxiliary carry from the
/// low nibbles.
pub open spec fn add_flags(flags: u8, a: u8, v: u8, carry_in: bool) -> u8 {
    let res = add_result(a, v, carry_in);
    flags_byte(
        flag_padding(flags),
        res == 0,
        res >= 0x80,
        parity8(res),
        a + v + b2i(carry_in) > 0xFF,
        a % 16 + v % 16 + b2i(carry_in) > 0xF,
    )
}

/// Addition into the accumulator.
pub open spec fn add_spec(m: CpuView, v: u8, carry_in: bool) -> CpuView {
    m.with_a(add_result(m.a, v, carry_in)).with_flags(add_flags(m.flags, m.a, v, carry_in))
}

/// The truncated difference of the accumulator, an operand and an incoming
/// borrow.
pub open spec fn sub_result(a: u8, v: u8, borrow_in: bool) -> u8 {
    ((a - v - b2i(borrow_in)) % 256) as u8
}

/// The flag byte a subtraction produces: carry records the borrow, and
/// auxiliary carry records the absence of a borrow out of the low nibble,
/// as the two's-complement addition inside the chip computes it.
pub open spec fn sub_flags(flags: u8, a: u8, v: u8, borrow_in: bool) -> u8 {
    let res = sub_result(a, v, borrow_in);
    flags_byte(
        flag_padding(flags),
        res == 0,
        res >= 0x80,
        parity8(res),
        a < v + b2i(borrow_in),
        a % 16 >= v % 16 + b2i(borrow_in),
    )
}

/// Subtraction from the accumulator.
pub open spec fn sub_spec(m: CpuView, v: u8, borrow_in: bool) -> CpuView {
    m.with_a(sub_result(m.a, v, borrow_in)).with_flags(sub_flags(m.flags, m.a, v, borrow_in))
}

/// Comparison: the flags of a subtraction, with the accumulator untouched.
pub open spec fn cmp_spec(m: CpuView, v: u8) -> CpuView {
    m.with_flags(sub_flags(m.flags, m.a, v, false))
}

/// Bitwise AND into the accumulator. Carry clears; auxiliary carry takes
/// bit 3 of the OR of the two operands, the documented quirk of the chip.
pub open spec fn and_spec(m: CpuView, v: u8) -> CpuView {
    let res = m.a & v;
    m.with_a(res).with_flags(
        flags_byte(
            flag_padding(m.flags),
            res == 0,
            res >= 0x80,
            parity8(res),
            false,
            (m.a / 8) % 2 == 1 || (v / 8) % 2 == 1,
        ),
    )
}

/// Bitwise exclusive OR into the accumulator; carry and auxiliary carry
/// clear.
pub open spec fn xor_spec(m: CpuView, v: u8) -> CpuView {
    let res = m.a ^ v;
    m.with_a(res).with_flags(
        flags_byte(flag_padding(m.flags), res == 0, res >= 0x80, parity8(res), false, false),
    )
}

/// Bitwise OR into the accumulator; carry and auxiliary carry clear.
pub open spec fn or_spec(m: CpuView, v: u8) -> CpuView {
    let res = m.a | v;
    m.with_a(res).with_flags(
        flags_byte(flag_padding(m.flags), res == 0, res >= 0x80, parity8(res), false, false),
    )
}

/// An 8-bit increment of a register slot: zero, sign, parity and auxiliary
/// carry follow the result; carry is never touched.
pub open spec fn inr_spec(m: CpuView, r: Register) -> CpuView {
    let v = reg_read(m, r);
    let res = ((v + 1) % 256) as u8;
    reg_write(m, r, res).with_flags(
        flags_byte(
            flag_padding(m.flags),
            res == 0,
            res >= 0x80,
            parity8(res),
            flag_cy(m.flags),
            v % 16 == 15,
        ),
    )
}

/// An 8-bit decrement of a register slot: zero, sign, parity and auxiliary
/// carry follow the result; carry is never touched.
pub open spec fn dcr_spec(m: CpuView, r: Register) -> CpuView {
    let v = reg_read(m, r);
    let res = ((v - 1) % 256) as u8;
    reg_write(m, r, res).with_flags(
        flags_byte(
            flag_padding(m.flags),
            res == 0,
            res >= 0x80,
            parity8(res),
            flag_cy(m.flags),
            v % 16 >= 1,
        ),
    )
}

/// A 16-bit increment of a register pair, wrapping, with no flag effect.
pub open spec fn inx_spec(m: CpuView, p: RegisterPair) -> CpuView {
    pair_write(m, p, wrap16(pair_read(m, p) + 1))
}

/// A 16-bit decrement of a register pair, wrapping, with no flag effect.
pub open spec fn dcx_spec(m: CpuView, p: RegisterPair) -> CpuView {
    pair_write(m, p, wrap16(pair_read(m, p) - 1))
}

/// The 16-bit add of a register pair into H/L: carry records the 16-bit
/// overflow, no other flag moves.
pub open spec fn dad_spec(m: CpuView, p: RegisterPair) -> CpuView {
    m.with_hl(wrap16(m.hl() + pair_read(m, p))).with_flags(
        flags_byte(
            flag_padding(m.flags),
            flag_z(m.flags),
            flag_s(m.flags),
            flag_p(m.flags),
            m.hl() + pair_read(m, p) > 0xFFFF,
            flag_ac(m.flags),
        ),
    )
}

/// Decimal adjust of the accumulator: six is added to the low nibble when
/// it exceeds nine or auxiliary carry is set, then 0x60 to the corrected
/// value when its second nibble exceeds nine or carry is set. Carry is set
/// when the high correction was needed or the corrected value overflowed
/// eight bits; auxiliary carry records the carry out of the low nibble.
pub open spec fn daa_spec(m: CpuView) -> CpuView {
    let low_adjust = m.a % 16 > 9 || flag_ac(m.flags);
    let low_corrected = m.a + (if low_adjust {
        6int
    } else {
        0int
    });
    let high_adjust = (low_corrected / 16) % 16 > 9 || flag_cy(m.flags);
    let corrected = low_corrected + (if high_adjust {
        0x60int
    } else {
        0int
    });
    let res = (corrected % 256) as u8;
    m.with_a(res).with_flags(
        flags_byte(
            flag_padding(m.flags),
            res == 0,
            res >= 0x80,
            parity8(res),
            high_adjust || corrected > 0xFF,
            m.a % 16 > 9,
        ),
    )
}

/// Rotate the accumulator left one bit, the leaving bit entering both the
/// carry flag and bit 0.
pub open spec fn rlc_spec(m: CpuView) -> CpuView {
    let res = ((m.a % 128) * 2 + m.a / 128) as u8;
    m.with_a(res).with_flags(set_cy_flag(m.flags, m.a >= 128))
}

/// Rotate the accumulator right one bit, the leaving bit entering both the
/// carry flag and bit 7.
pub open spec fn rrc_spec(m: CpuView) -> CpuView {
    let res = (m.a / 2 + (m.a % 2) * 128) as u8;
    m.with_a(res).with_flags(set_cy_flag(m.flags, m.a % 2 == 1))
}

/// Rotate left through the carry link: the old carry enters bit 0, the
/// leaving bit becomes the new carry.
pub open spec fn ral_spec(m: CpuView) -> CpuView {
    let res = ((m.a % 128) * 2 + b2i(flag_cy(m.flags))) as u8;
    m.with_a(res).with_flags(set_cy_flag(m.flags, m.a >= 128))
}

/// Rotate right through the carry link: the old carry enters bit 7, the
/// leaving bit becomes the new carry.
pub open spec fn rar_spec(m: CpuView) -> CpuView {
    let res = (m.a / 2 + b2i(flag_cy(m.flags)) * 128) as u8;
    m.with_a(res).with_flags(set_cy_flag(m.flags, m.a % 2 == 1))
}

/// The flag byte with only the carry flag replaced.
pub open spec fn set_cy_flag(flags: u8, cy: bool) -> u8 {
    flags_byte(
        flag_padding(flags),
        flag_z(flags),
        flag_s(flags),
        flag_p(flags),
        cy,
        flag_ac(flags),
    )
}

// ---------------------------------------------------------------------------
// Stack, branch and control
// ---------------------------------------------------------------------------

/// Pushes a (high, low) byte pair: high lands one below the stack pointer,
/// low two below, and the pointer drops by two, wrapping.
pub open spec fn push_spec(m: CpuView, high: u8, low: u8) -> CpuView {
    m.with_mem(
        m.mem.update(wrap16(m.sp - 1) as int, high).update(wrap16(m.sp - 2) as int, low),
    ).with_sp(wrap16(m.sp - 2))
}

/// Pushes a register pair, or the accumulator paired with the flag byte.
pub open spec fn push_pair_spec(m: CpuView, p: StackPair) -> CpuView {
    match p {
        StackPair::BC => push_spec(m, m.b, m.c),
        StackPair::DE => push_spec(m, m.d, m.e),
        StackPair::HL => push_spec(m, m.h, m.l),
        StackPair::PSW => push_spec(m, m.a, m.flags),
    }
}

/// Pops a register pair, or the accumulator paired with the flag byte; the
/// popped flag byte is restored verbatim, padding bits included.
pub open spec fn pop_pair_spec(m: CpuView, p: StackPair) -> CpuView {
    let low = stack_low(m);
    let high = stack_high(m);
    let m2 = m.with_sp(wrap16(m.sp + 2));
    match p {
        StackPair::BC => m2.with_b(high).with_c(low),
        StackPair::DE => m2.with_d(high).with_e(low),
        StackPair::HL => m2.with_h(high).with_l(low),
        StackPair::PSW => m2.with_a(high).with_flags(low),
    }
}

/// Exchanges H/L with the two bytes at the top of the stack.
pub open spec fn xthl_spec(m: CpuView) -> CpuView {
    m.with_h(stack_high(m)).with_l(stack_low(m)).with_mem(
        m.mem.update(m.sp as int, m.l).update(wrap16(m.sp + 1) as int, m.h),
    )
}

/// An absolute jump: the two operand bytes are always consumed; the program
/// counter moves to the operand address only when the condition holds.
pub open spec fn jump_spec(m: CpuView, condition: bool) -> CpuView {
    let m2 = adv2(m);
    if condition {
        m2.with_pc(imm16(m))
    } else {
        m2
    }
}

/// A subroutine call: the two operand bytes are always consumed; when the
/// condition holds, the address of the following instruction is pushed and
/// the program counter moves to the operand address.
pub open spec fn call_spec(m: CpuView, condition: bool) -> CpuView {
    let m2 = adv2(m);
    if condition {
        push_spec(m2, high_byte(m2.pc), low_byte(m2.pc)).with_pc(imm16(m))
    } else {
        m2
    }
}

/// A subroutine return: when the condition holds, two bytes are popped into
/// the program counter.
pub open spec fn ret_spec(m: CpuView, condition: bool) -> CpuView {
    if condition {
        m.with_pc(pair16(stack_high(m), stack_low(m))).with_sp(wrap16(m.sp + 2))
    } else {
        m
    }
}

/// A restart: an unconditional call to eight times the restart index.
pub open spec fn rst_spec(m: CpuView, index: u8) -> CpuView {
    push_spec(m, high_byte(m.pc), low_byte(m.pc)).with_pc(wrap16(8 * index))
}

/// Interrupt entry: the current program counter is pushed, the counter
/// moves to eight times the vector number, and interrupts are disabled.
pub open spec fn interrupt_spec(m: CpuView, vector: u16) -> CpuView {
    push_spec(m, high_byte(m.pc), low_byte(m.pc)).with_pc(wrap16(8 * vector))
        .with_interrupt_enabled(false)
}

// ---------------------------------------------------------------------------
// The step transition
// ---------------------------------------------------------------------------

/// The effect of one decoded instruction on the machine image. The program
/// counter has already advanced past the opcode byte; instructions with
/// immediate operands read them at the counter and advance it further.
/// `input` is the byte an I/O handler supplied to the IN instruction, if
/// one did: with no handler the accumulator is left as it was.
pub open spec fn exec_instruction_spec(m: CpuView, i: Instruction, input: Option<u8>) -> CpuView {
    match i {
        Instruction::Nop => m,
        Instruction::Mov(dst, src) => reg_write(m, dst, reg_read(m, src)),
        Instruction::Mvi(r) => reg_write(adv1(m), r, imm8(m)),
        Instruction::Lxi(p) => pair_write(adv2(m), p, imm16(m)),
        Instruction::Stax(p) => m.with_mem(m.mem.update(pair_read(m, p) as int, m.a)),
        Instruction::Ldax(p) => m.with_a(m.mem[pair_read(m, p) as int]),
        Instruction::Sta => adv2(m).with_mem(m.mem.update(imm16(m) as int, m.a)),
        Instruction::Lda => adv2(m).with_a(m.mem[imm16(m) as int]),
        Instruction::Shld => adv2(m).with_mem(
            m.mem.update(imm16(m) as int, m.l).update(wrap16(imm16(m) + 1) as int, m.h),
        ),
        Instruction::Lhld => adv2(m).with_l(m.mem[imm16(m) as int]).with_h(
            m.mem[wrap16(imm16(m) + 1) as int],
        ),
        Instruction::Xchg => m.with_h(m.d).with_l(m.e).with_d(m.h).with_e(m.l),
        Instruction::Add(r) => add_spec(m, reg_read(m, r), false),
        Instruction::Adc(r) => add_spec(m, reg_read(m, r), flag_cy(m.flags)),
        Instruction::Sub(r) => sub_spec(m, reg_read(m, r), false),
        Instruction::Sbb(r) => sub_spec(m, reg_read(m, r), flag_cy(m.flags)),
        Instruction::Ana(r) => and_spec(m, reg_read(m, r)),
        Instruction::Xra(r) => xor_spec(m, reg_read(m, r)),
        Instruction::Ora(r) => or_spec(m, reg_read(m, r)),
        Instruction::Cmp(r) => cmp_spec(m, reg_read(m, r)),
        Instruction::Adi => add_spec(adv1(m), imm8(m), false),
        Instruction::Aci => add_spec(adv1(m), imm8(m), flag_cy(m.flags)),
        Instruction::Sui => sub_spec(adv1(m), imm8(m), false),
        Instruction::Sbi => sub_spec(adv1(m), imm8(m), flag_cy(m.flags)),
        Instruction::Ani => and_spec(adv1(m), imm8(m)),
        Instruction::Xri => xor_spec(adv1(m), imm8(m)),
        Instruction::Ori => or_spec(adv1(m), imm8(m)),
        Instruction::Cpi => cmp_spec(adv1(m), imm8(m)),
        Instruction::Inr(r) => inr_spec(m, r),
        Instruction::Dcr(r) => dcr_spec(m, r),
        Instruction::Inx(p) => inx_spec(m, p),
        Instruction::Dcx(p) => dcx_spec(m, p),
        Instruction::Dad(p) => dad_spec(m, p),
        Instruction::Daa => daa_spec(m),
        Instruction::Rlc => rlc_spec(m),
        Instruction::Rrc => rrc_spec(m),
        Instruction::Ral => ral_spec(m),
        Instruction::Rar => rar_spec(m),
        Instruction::Cma => m.with_a((255 - m.a) as u8),
        Instruction::Cmc => m.with_flags(set_cy_flag(m.flags, !flag_cy(m.flags))),
        Instruction::Stc => m.with_flags(set_cy_flag(m.flags, true)),
        Instruction::Jmp => jump_spec(m, true),
        Instruction::Jcond(c) => jump_spec(m, condition_met(m, c)),
        Instruction::Call => call_spec(m, true),
        Instruction::Ccond(c) => call_spec(m, condition_met(m, c)),
        Instruction::Ret => ret_spec(m, true),
        Instruction::Rcond(c) => ret_spec(m, condition_met(m, c)),
        Instruction::Rst(n) => rst_spec(m, n),
        Instruction::Pchl => m.with_pc(m.hl()),
        Instruction::Push(p) => push_pair_spec(m, p),
        Instruction::Pop(p) => pop_pair_spec(m, p),
        Instruction::Xthl => xthl_spec(m),
        Instruction::Sphl => m.with_sp(m.hl()),
        Instruction::In => match input {
            Option::Some(v) => adv1(m).with_a(v),
            Option::None => adv1(m),
        },
        Instruction::Out => adv1(m),
        Instruction::Di => m.with_interrupt_enabled(false),
        Instruction::Ei => m.with_interrupt_enabled(true),
        Instruction::Hlt => m.with_halted(true),
    }
}

/// One full step of the machine: the opcode byte at the program counter is
/// read and decoded, the counter advances past it, the instruction's effect
/// applies, and the cycle counter records the instruction's nominal cost.
pub open spec fn step_spec(m: CpuView, input: Option<u8>) -> CpuView {
    let i = spec_decode(m.mem[m.pc as int]);
    exec_instruction_spec(adv1(m), i, input).with_last_cycles(spec_cycles(i))
}

} // verus!
