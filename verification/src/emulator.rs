//! The processor state machine.
//!
//! [`State8080`] owns the registers, the flag byte, the 64KB memory image
//! and the interrupt and halt bits. Every operation consumes the state and
//! returns the transformed one; each contract states the new machine image
//! in terms of the spec functions of [`crate::model`].

use vstd::prelude::*;

use crate::disassembler::{
    decode, spec_decode, Condition, Instruction, Register, RegisterPair, StackPair,
};
use crate::model::{
    add_spec, adv1, adv2, and_spec, cmp_spec, condition_met, daa_spec, dcr_spec,
    exec_instruction_spec, flag_ac, flag_cy, flag_p, flag_padding, flag_s, flag_z, flags_byte,
    imm16, imm8, inr_spec, interrupt_spec, jump_spec, or_spec, pair16, pair_read, pair_write,
    parity8, push_spec, ral_spec, rar_spec, reg_read, reg_write, ret_spec, rlc_spec, rrc_spec,
    rst_spec, set_cy_flag, stack_high, stack_low, step_spec, sub_flags, sub_result, sub_spec,
    wrap16, xor_spec, CpuView, MEMORY_SIZE,
};

verus! {

/// 16-bit address arithmetic: addition wrapping modulo 65536.
fn wrapped_add16(x: u16, d: u16) -> (r: u16)
    ensures
        r == wrap16(x + d),
{
    x.wrapping_add(d)
}

/// 16-bit address arithmetic: subtraction wrapping modulo 65536.
fn wrapped_sub16(x: u16, d: u16) -> (r: u16)
    ensures
        r == wrap16(x - d),
{
    x.wrapping_sub(d)
}

/// Even parity of a byte: true when an even number of its bits are set.
fn parity(value: u8) -> (r: bool)
    ensures
        r == parity8(value),
{
    let count: u8 = value % 2 + (value / 2) % 2 + (value / 4) % 2 + (value / 8) % 2 + (value / 16)
        % 2 + (value / 32) % 2 + (value / 64) % 2 + (value / 128) % 2;
    count % 2 == 0
}

/// The condition-flag byte: zero, sign, parity, carry and auxiliary carry
/// in the five low bits, architectural padding in the three high bits.
#[derive(Clone, Copy, Debug, PartialEq, Eq, Structural)]
pub struct ConditionCodes {
    pub bits: u8,
}

impl ConditionCodes {
    /// The zero flag.
    pub fn z(&self) -> (r: bool)
        ensures
            r == flag_z(self.bits),
    {
        self.bits % 2 == 1
    }

    /// The sign flag.
    pub fn s(&self) -> (r: bool)
        ensures
            r == flag_s(self.bits),
    {
        (self.bits / 2) % 2 == 1
    }

    /// The parity flag.
    pub fn p(&self) -> (r: bool)
        ensures
            r == flag_p(self.bits),
    {
        (self.bits / 4) % 2 == 1
    }

    /// The carry flag.
    pub fn cy(&self) -> (r: bool)
        ensures
            r == flag_cy(self.bits),
    {
        (self.bits / 8) % 2 == 1
    }

    /// The auxiliary-carry flag.
    pub fn ac(&self) -> (r: bool)
        ensures
            r == flag_ac(self.bits),
    {
        (self.bits / 16) % 2 == 1
    }

    /// Rebuilds the flag byte from all five flags, keeping the padding bits.
    pub fn setting_all(self, z: bool, s: bool, p: bool, cy: bool, ac: bool) -> (r: Self)
        ensures
            r.bits == flags_byte(flag_padding(self.bits), z, s, p, cy, ac),
    {
        let padding: u8 = (self.bits / 32) * 32;
        let mut bits: u8 = padding;
        if z {
            bits = bits + 1;
        }
        if s {
            bits = bits + 2;
        }
        if p {
            bits = bits + 4;
        }
        if cy {
            bits = bits + 8;
        }
        if ac {
            bits = bits + 16;
        }
        ConditionCodes { bits }
    }

    /// Replaces only the carry flag.
    pub fn setting_cy(self, cy: bool) -> (r: Self)
        ensures
            r.bits == flags_byte(
                flag_padding(self.bits),
                flag_z(self.bits),
                flag_s(self.bits),
                flag_p(self.bits),
                cy,
                flag_ac(self.bits),
            ),
    {
        let z = self.z();
        let s = self.s();
        let p = self.p();
        let ac = self.ac();
        self.setting_all(z, s, p, cy, ac)
    }
}

/// The instructions the data-transfer handler accepts.
spec fn is_transfer_instruction(i: Instruction) -> bool {
    match i {
        Instruction::Nop => true,
        Instruction::Mov(_, _) => true,
        Instruction::Mvi(_) => true,
        Instruction::Lxi(_) => true,
        Instruction::Stax(_) => true,
        Instruction::Ldax(_) => true,
        Instruction::Sta => true,
        Instruction::Lda => true,
        Instruction::Shld => true,
        Instruction::Lhld => true,
        Instruction::Xchg => true,
        _ => false,
    }
}

/// The instructions the 8-bit arithmetic handler accepts.
spec fn is_arithmetic_instruction(i: Instruction) -> bool {
    match i {
        Instruction::Add(_) => true,
        Instruction::Adc(_) => true,
        Instruction::Sub(_) => true,
        Instruction::Sbb(_) => true,
        Instruction::Cmp(_) => true,
        Instruction::Adi => true,
        Instruction::Aci => true,
        Instruction::Sui => true,
        Instruction::Sbi => true,
        Instruction::Cpi => true,
        Instruction::Inr(_) => true,
        Instruction::Dcr(_) => true,
        Instruction::Daa => true,
        _ => false,
    }
}

/// The instructions the logical handler accepts.
spec fn is_logic_instruction(i: Instruction) -> bool {
    match i {
        Instruction::Ana(_) => true,
        Instruction::Xra(_) => true,
        Instruction::Ora(_) => true,
        Instruction::Ani => true,
        Instruction::Xri => true,
        Instruction::Ori => true,
        Instruction::Rlc => true,
        Instruction::Rrc => true,
        Instruction::Ral => true,
        Instruction::Rar => true,
        Instruction::Cma => true,
        Instruction::Cmc => true,
        Instruction::Stc => true,
        _ => false,
    }
}

/// The instructions the branch handler accepts.
spec fn is_branch_instruction(i: Instruction) -> bool {
    match i {
        Instruction::Jmp => true,
        Instruction::Jcond(_) => true,
        Instruction::Call => true,
        Instruction::Ccond(_) => true,
        Instruction::Ret => true,
        Instruction::Rcond(_) => true,
        Instruction::Rst(_) => true,
        Instruction::Pchl => true,
        _ => false,
    }
}

/// The instructions the stack and control handler accepts.
spec fn is_stack_or_control_instruction(i: Instruction) -> bool {
    match i {
        Instruction::Inx(_) => true,
        Instruction::Dcx(_) => true,
        Instruction::Dad(_) => true,
        Instruction::Push(_) => true,
        Instruction::Pop(_) => true,
        Instruction::Xthl => true,
        Instruction::Sphl => true,
        Instruction::In => true,
        Instruction::Out => true,
        Instruction::Di => true,
        Instruction::Ei => true,
        Instruction::Hlt => true,
        _ => false,
    }
}

/// The whole processor: registers, pointers, flags, interrupt and halt
/// state, the cycle cost of the last step, and the 64KB memory image.
pub struct State8080 {
    pub a: u8,
    pub b: u8,
    pub c: u8,
    pub d: u8,
    pub e: u8,
    pub h: u8,
    pub l: u8,
    pub sp: u16,
    pub pc: u16,
    pub cc: ConditionCodes,
    pub interrupt_enabled: bool,
    pub halted: bool,
    last_cycles: u32,
    memory: Vec<u8>,
}

impl View for State8080 {
    type V = CpuView;

    closed spec fn view(&self) -> CpuView {
        CpuView {
            a: self.a,
            b: self.b,
            c: self.c,
            d: self.d,
            e: self.e,
            h: self.h,
            l: self.l,
            sp: self.sp,
            pc: self.pc,
            flags: self.cc.bits,
            interrupt_enabled: self.interrupt_enabled,
            halted: self.halted,
            last_cycles: self.last_cycles,
            mem: self.memory@,
        }
    }
}

/// The machine image a freshly constructed processor presents: everything
/// zero, interrupts disabled, memory blank.
pub open spec fn initial_view() -> CpuView {
    CpuView {
        a: 0,
        b: 0,
        c: 0,
        d: 0,
        e: 0,
        h: 0,
        l: 0,
        sp: 0,
        pc: 0,
        flags: 0,
        interrupt_enabled: false,
        halted: false,
        last_cycles: 0,
        mem: Seq::new(MEMORY_SIZE as nat, |i: int| 0u8),
    }
}

impl State8080 {
    /// A well-formed processor owns exactly the 64KB memory image.
    pub open spec fn wf(&self) -> bool {
        self@.wf()
    }

    /// Constructs a processor with zeroed registers and blank memory.
    pub fn new() -> (r: Self)
        ensures
            r@ == initial_view(),
            r.wf(),
    {
        let mut memory: Vec<u8> = Vec::new();
        while memory.len() < MEMORY_SIZE
            invariant
                memory@ =~= Seq::new(memory@.len(), |i: int| 0u8),
                memory@.len() <= MEMORY_SIZE,
            decreases MEMORY_SIZE - memory@.len(),
        {
            memory.push(0);
        }
        let r = State8080 {
            a: 0,
            b: 0,
            c: 0,
            d: 0,
            e: 0,
            h: 0,
            l: 0,
            sp: 0,
            pc: 0,
            cc: ConditionCodes { bits: 0 },
            interrupt_enabled: false,
            halted: false,
            last_cycles: 0,
            memory,
        };
        assert(r@ =~= initial_view());
        r
    }

    /// The cycle cost of the most recently executed instruction.
    pub fn last_cycles(&self) -> (r: u32)
        ensures
            r == self@.last_cycles,
    {
        self.last_cycles
    }

    /// The byte the memory image holds at `index`.
    pub fn memory_at(&self, index: u16) -> (r: u8)
        requires
            self.wf(),
        ensures
            r == self@.mem[index as int],
    {
        self.memory[index as usize]
    }

    /// Copies a buffer into the memory image starting at `index`. The buffer
    /// must fit below the end of the 64KB image.
    pub fn loading_buffer_into_memory_at(self, buffer: Vec<u8>, index: u16) -> (r: Self)
        requires
            self.wf(),
            index + buffer@.len() <= MEMORY_SIZE,
        ensures
            r@ == self@.with_mem(
                Seq::new(
                    self@.mem.len(),
                    |i: int|
                        if index <= i < index + buffer@.len() {
                            buffer@[i - index]
                        } else {
                            self@.mem[i]
                        },
                ),
            ),
            r.wf(),
    {
        let mut state = self;
        let mut offset: usize = 0;
        while offset < buffer.len()
            invariant
                state.wf(),
                offset <= buffer@.len(),
                index + buffer@.len() <= MEMORY_SIZE,
                state@.mem.len() == MEMORY_SIZE,
                forall|j: int|
                    0 <= j < offset ==> state@.mem[index + j] == buffer@[j],
                forall|j: int|
                    0 <= j < MEMORY_SIZE && !(index <= j < index + offset) ==> state@.mem[j]
                        == self@.mem[j],
                state@ == self@.with_mem(state@.mem),
            decreases buffer@.len() - offset,
        {
            let byte = buffer[offset];
            state.memory.set(index as usize + offset, byte);
            offset = offset + 1;
        }
        assert(state@.mem =~= Seq::new(
            self@.mem.len(),
            |i: int|
                if index <= i < index + buffer@.len() {
                    buffer@[i - index]
                } else {
                    self@.mem[i]
                },
        ));
        state
    }

    /// Replaces the single memory byte at `index`.
    pub fn setting_memory_at(self, byte: u8, index: u16) -> (r: Self)
        requires
            self.wf(),
        ensures
            r@ == self@.with_mem(self@.mem.update(index as int, byte)),
            r.wf(),
    {
        let mut state = self;
        state.memory.set(index as usize, byte);
        state
    }

    /// The B/C pair as one 16-bit value.
    pub fn bc(&self) -> (r: u16)
        ensures
            r == self@.bc(),
    {
        (self.b as u16) * 256 + (self.c as u16)
    }

    /// The D/E pair as one 16-bit value.
    pub fn de(&self) -> (r: u16)
        ensures
            r == self@.de(),
    {
        (self.d as u16) * 256 + (self.e as u16)
    }

    /// The H/L pair as one 16-bit value.
    pub fn hl(&self) -> (r: u16)
        ensures
            r == self@.hl(),
    {
        (self.h as u16) * 256 + (self.l as u16)
    }

    /// Writes a 16-bit value into the B/C pair.
    fn setting_bc(self, value: u16) -> (r: Self)
        ensures
            r@ == self@.with_bc(value),
    {
        Self { b: (value / 256) as u8, c: (value % 256) as u8, ..self }
    }

    /// Writes a 16-bit value into the D/E pair.
    fn setting_de(self, value: u16) -> (r: Self)
        ensures
            r@ == self@.with_de(value),
    {
        Self { d: (value / 256) as u8, e: (value % 256) as u8, ..self }
    }

    /// Writes a 16-bit value into the H/L pair.
    fn setting_hl(self, value: u16) -> (r: Self)
        ensures
            r@ == self@.with_hl(value),
    {
        Self { h: (value / 256) as u8, l: (value % 256) as u8, ..self }
    }

    /// Writes the stack pointer.
    fn setting_sp(self, value: u16) -> (r: Self)
        ensures
            r@ == self@.with_sp(value),
    {
        Self { sp: value, ..self }
    }

    /// Writes the program counter.
    fn setting_pc(self, value: u16) -> (r: Self)
        ensures
            r@ == self@.with_pc(value),
    {
        Self { pc: value, ..self }
    }

    /// Writes the accumulator.
    fn setting_a(self, value: u8) -> (r: Self)
        ensures
            r@ == self@.with_a(value),
    {
        Self { a: value, ..self }
    }

    /// Reads the byte at the program counter and advances the counter past
    /// it, wrapping.
    fn reading_next_byte(self) -> (r: (Self, u8))
        requires
            self.wf(),
        ensures
            r.0@ == adv1(self@),
            r.1 == imm8(self@),
            r.0.wf(),
    {
        let byte = self.memory[self.pc as usize];
        let pc = wrapped_add16(self.pc, 1);
        (Self { pc, ..self }, byte)
    }

    /// Reads the two bytes at the program counter little-endian and advances
    /// the counter past them, wrapping.
    fn reading_next_pair(self) -> (r: (Self, u16))
        requires
            self.wf(),
        ensures
            r.0@ == adv2(self@),
            r.1 == imm16(self@),
            r.0.wf(),
    {
        let low = self.memory[self.pc as usize];
        let high = self.memory[wrapped_add16(self.pc, 1) as usize];
        let pc = wrapped_add16(self.pc, 2);
        (Self { pc, ..self }, (high as u16) * 256 + (low as u16))
    }

    /// The value of a register slot; the `M` slot reads memory at H/L.
    fn reading_register(&self, r: Register) -> (v: u8)
        requires
            self.wf(),
        ensures
            v == reg_read(self@, r),
    {
        match r {
            Register::B => self.b,
            Register::C => self.c,
            Register::D => self.d,
            Register::E => self.e,
            Register::H => self.h,
            Register::L => self.l,
            Register::M => {
                let address = self.hl();
                self.memory[address as usize]
            },
            Register::A => self.a,
        }
    }

    /// Writes a register slot; the `M` slot writes memory at H/L.
    fn setting_register(self, r: Register, v: u8) -> (s: Self)
        requires
            self.wf(),
        ensures
            s@ == reg_write(self@, r, v),
            s.wf(),
    {
        match r {
            Register::B => Self { b: v, ..self },
            Register::C => Self { c: v, ..self },
            Register::D => Self { d: v, ..self },
            Register::E => Self { e: v, ..self },
            Register::H => Self { h: v, ..self },
            Register::L => Self { l: v, ..self },
            Register::M => {
                let address = self.hl();
                self.setting_memory_at(v, address)
            },
            Register::A => Self { a: v, ..self },
        }
    }

    /// The 16-bit value of a register pair.
    fn reading_register_pair(&self, p: RegisterPair) -> (v: u16)
        ensures
            v == pair_read(self@, p),
    {
        match p {
            RegisterPair::BC => self.bc(),
            RegisterPair::DE => self.de(),
            RegisterPair::HL => self.hl(),
            RegisterPair::SP => self.sp,
        }
    }

    /// Writes a 16-bit value into a register pair.
    fn setting_register_pair(self, p: RegisterPair, v: u16) -> (s: Self)
        ensures
            s@ == pair_write(self@, p, v),
    {
        match p {
            RegisterPair::BC => self.setting_bc(v),
            RegisterPair::DE => self.setting_de(v),
            RegisterPair::HL => self.setting_hl(v),
            RegisterPair::SP => self.setting_sp(v),
        }
    }

    /// Pushes a (high, low) byte pair onto the stack: high one below the
    /// stack pointer, low two below, the pointer dropping by two.
    fn pushing(self, high: u8, low: u8) -> (r: Self)
        requires
            self.wf(),
        ensures
            r@ == push_spec(self@, high, low),
            r.wf(),
    {
        let high_address = wrapped_sub16(self.sp, 1);
        let low_address = wrapped_sub16(self.sp, 2);
        let state = self.setting_memory_at(high, high_address).setting_memory_at(
            low,
            low_address,
        );
        state.setting_sp(low_address)
    }

    /// Pops the two bytes at the top of the stack as one 16-bit value, the
    /// stack pointer rising by two.
    fn popping(self) -> (r: (Self, u16))
        requires
            self.wf(),
        ensures
            r.0@ == self@.with_sp(wrap16(self@.sp + 2)),
            r.1 == pair16(stack_high(self@), stack_low(self@)),
            r.0.wf(),
    {
        let low = self.memory[self.sp as usize];
        let high = self.memory[wrapped_add16(self.sp, 1) as usize];
        let sp = wrapped_add16(self.sp, 2);
        (Self { sp, ..self }, (high as u16) * 256 + (low as u16))
    }

    /// Whether a branch condition holds of the current flags.
    fn testing_condition(&self, c: Condition) -> (r: bool)
        ensures
            r == condition_met(self@, c),
    {
        match c {
            Condition::NotZero => !self.cc.z(),
            Condition::Zero => self.cc.z(),
            Condition::NoCarry => !self.cc.cy(),
            Condition::Carry => self.cc.cy(),
            Condition::ParityOdd => !self.cc.p(),
            Condition::ParityEven => self.cc.p(),
            Condition::Plus => !self.cc.s(),
            Condition::Minus => self.cc.s(),
        }
    }

    /// Adds an operand and an optional incoming carry into the accumulator,
    /// deriving all five flags from the untruncated sum.
    fn adding(self, operand: u8, carry_in: bool) -> (r: Self)
        ensures
            r@ == add_spec(self@, operand, carry_in),
    {
        let carry: u8 = if carry_in {
            1
        } else {
            0
        };
        let total: u16 = self.a as u16 + operand as u16 + carry as u16;
        let res: u8 = (total % 256) as u8;
        let p = parity(res);
        let ac = self.a % 16 + operand % 16 + carry > 15;
        let cc = self.cc.setting_all(res == 0, res >= 0x80, p, total > 0xFF, ac);
        Self { a: res, cc, ..self }
    }

    /// Subtracts an operand and an optional incoming borrow from the
    /// accumulator: carry records the borrow, auxiliary carry the carry out
    /// of the low nibble of the two's-complement addition.
    #[verifier::rlimit(50)]
    fn subtracting(self, operand: u8, borrow_in: bool) -> (r: Self)
        ensures
            r@ == sub_spec(self@, operand, borrow_in),
    {
        let borrow: u8 = if borrow_in {
            1
        } else {
            0
        };
        let total: u16 = self.a as u16 + 0x100 - operand as u16 - borrow as u16;
        let res: u8 = (total % 256) as u8;
        proof {
            vstd::arithmetic::div_mod::lemma_mod_add_multiples_vanish(
                self.a - operand - borrow,
                256,
            );
            assert(res == sub_result(self.a, operand, borrow_in));
        }
        let p = parity(res);
        let cy = (self.a as u16) < operand as u16 + borrow as u16;
        let ac = self.a % 16 >= operand % 16 + borrow;
        let cc = self.cc.setting_all(res == 0, res >= 0x80, p, cy, ac);
        proof {
            assert(cc.bits == sub_flags(self@.flags, self.a, operand, borrow_in));
        }
        Self { a: res, cc, ..self }
    }

    /// Compares an operand against the accumulator: the flags of the
    /// subtraction, the accumulator untouched.
    #[verifier::rlimit(50)]
    fn comparing(self, operand: u8) -> (r: Self)
        ensures
            r@ == cmp_spec(self@, operand),
    {
        let total: u16 = self.a as u16 + 0x100 - operand as u16;
        let res: u8 = (total % 256) as u8;
        proof {
            vstd::arithmetic::div_mod::lemma_mod_add_multiples_vanish(self.a - operand, 256);
            assert(res == sub_result(self.a, operand, false));
        }
        let p = parity(res);
        let cy = (self.a as u16) < operand as u16;
        let ac = self.a % 16 >= operand % 16;
        let cc = self.cc.setting_all(res == 0, res >= 0x80, p, cy, ac);
        proof {
            assert(cc.bits == sub_flags(self@.flags, self.a, operand, false));
        }
        Self { cc, ..self }
    }

    /// Bitwise AND of an operand into the accumulator, with the chip's
    /// auxiliary-carry quirk: bit 3 of the OR of the operands.
    fn anding(self, operand: u8) -> (r: Self)
        ensures
            r@ == and_spec(self@, operand),
    {
        let res = self.a & operand;
        let p = parity(res);
        let ac = (self.a / 8) % 2 == 1 || (operand / 8) % 2 == 1;
        let cc = self.cc.setting_all(res == 0, res >= 0x80, p, false, ac);
        Self { a: res, cc, ..self }
    }

    /// Bitwise exclusive OR of an operand into the accumulator.
    fn xoring(self, operand: u8) -> (r: Self)
        ensures
            r@ == xor_spec(self@, operand),
    {
        let res = self.a ^ operand;
        let p = parity(res);
        let cc = self.cc.setting_all(res == 0, res >= 0x80, p, false, false);
        Self { a: res, cc, ..self }
    }

    /// Bitwise OR of an operand into the accumulator.
    fn oring(self, operand: u8) -> (r: Self)
        ensures
            r@ == or_spec(self@, operand),
    {
        let res = self.a | operand;
        let p = parity(res);
        let cc = self.cc.setting_all(res == 0, res >= 0x80, p, false, false);
        Self { a: res, cc, ..self }
    }

    /// Increments a register slot by one, wrapping; carry is never touched.
    #[verifier::rlimit(50)]
    fn incrementing(self, reg: Register) -> (r: Self)
        requires
            self.wf(),
        ensures
            r@ == inr_spec(self@, reg),
            r.wf(),
    {
        let v = self.reading_register(reg);
        let res: u8 = if v == 255 {
            0
        } else {
            v + 1
        };
        proof {
            assert(res == ((v + 1) % 256) as u8);
        }
        let p = parity(res);
        let cy = self.cc.cy();
        let cc = self.cc.setting_all(res == 0, res >= 0x80, p, cy, v % 16 == 15);
        proof {
            assert(cc.bits == flags_byte(
                flag_padding(self@.flags),
                res == 0,
                res >= 0x80,
                parity8(res),
                flag_cy(self@.flags),
                v % 16 == 15,
            ));
        }
        let state = self.setting_register(reg, res);
        Self { cc, ..state }
    }

    /// Decrements a register slot by one, wrapping; carry is never touched.
    #[verifier::rlimit(50)]
    fn decrementing(self, reg: Register) -> (r: Self)
        requires
            self.wf(),
        ensures
            r@ == dcr_spec(self@, reg),
            r.wf(),
    {
        let v = self.reading_register(reg);
        let res: u8 = if v == 0 {
            255
        } else {
            v - 1
        };
        proof {
            assert(res == ((v - 1) % 256) as u8);
        }
        let p = parity(res);
        let cy = self.cc.cy();
        let cc = self.cc.setting_all(res == 0, res >= 0x80, p, cy, v % 16 >= 1);
        proof {
            assert(cc.bits == flags_byte(
                flag_padding(self@.flags),
                res == 0,
                res >= 0x80,
                parity8(res),
                flag_cy(self@.flags),
                v % 16 >= 1,
            ));
        }
        let state = self.setting_register(reg, res);
        Self { cc, ..state }
    }

    /// Adds a 16-bit operand into H/L, wrapping; carry records the 16-bit
    /// overflow and no other flag moves.
    fn double_adding(self, operand: u16) -> (r: Self)
        ensures
            r@ == self@.with_hl(wrap16(self@.hl() + operand)).with_flags(
                set_cy_flag(self@.flags, self@.hl() + operand > 0xFFFF),
            ),
    {
        let sum: u32 = self.hl() as u32 + operand as u32;
        let new_hl: u16 = (sum % 0x10000) as u16;
        let cc = self.cc.setting_cy(sum > 0xFFFF);
        let state = self.setting_hl(new_hl);
        Self { cc, ..state }
    }

    /// Decimal adjust of the accumulator: the two-stage packed-BCD
    /// correction.
    fn adjusting_decimal(self) -> (r: Self)
        ensures
            r@ == daa_spec(self@),
    {
        let low_adjust = self.a % 16 > 9 || self.cc.ac();
        let low_corrected: u16 = self.a as u16 + if low_adjust {
            6
        } else {
            0
        };
        let high_adjust = (low_corrected / 16) % 16 > 9 || self.cc.cy();
        let corrected: u16 = low_corrected + if high_adjust {
            0x60
        } else {
            0
        };
        let res: u8 = (corrected % 256) as u8;
        let p = parity(res);
        let cy = high_adjust || corrected > 0xFF;
        let ac = self.a % 16 > 9;
        let cc = self.cc.setting_all(res == 0, res >= 0x80, p, cy, ac);
        Self { a: res, cc, ..self }
    }

    /// Rotates the accumulator left one bit; the leaving bit enters the
    /// carry flag and bit 0.
    fn rotating_left(self) -> (r: Self)
        ensures
            r@ == rlc_spec(self@),
    {
        let res: u8 = (self.a % 128) * 2 + self.a / 128;
        let cc = self.cc.setting_cy(self.a >= 128);
        Self { a: res, cc, ..self }
    }

    /// Rotates the accumulator right one bit; the leaving bit enters the
    /// carry flag and bit 7.
    fn rotating_right(self) -> (r: Self)
        ensures
            r@ == rrc_spec(self@),
    {
        let res: u8 = self.a / 2 + (self.a % 2) * 128;
        let cc = self.cc.setting_cy(self.a % 2 == 1);
        Self { a: res, cc, ..self }
    }

    /// Rotates left through the carry link: the old carry enters bit 0.
    fn rotating_left_through_carry(self) -> (r: Self)
        ensures
            r@ == ral_spec(self@),
    {
        let carry: u8 = if self.cc.cy() {
            1
        } else {
            0
        };
        let res: u8 = (self.a % 128) * 2 + carry;
        let cc = self.cc.setting_cy(self.a >= 128);
        Self { a: res, cc, ..self }
    }

    /// Rotates right through the carry link: the old carry enters bit 7.
    fn rotating_right_through_carry(self) -> (r: Self)
        ensures
            r@ == rar_spec(self@),
    {
        let carry: u8 = if self.cc.cy() {
            1
        } else {
            0
        };
        let res: u8 = self.a / 2 + carry * 128;
        let cc = self.cc.setting_cy(self.a % 2 == 1);
        Self { a: res, cc, ..self }
    }

    /// Reads the two operand bytes and moves the program counter to the
    /// operand address when the condition holds.
    fn jumping(self, condition: bool) -> (r: Self)
        requires
            self.wf(),
        ensures
            r@ == jump_spec(self@, condition),
            r.wf(),
    {
        let (state, address) = self.reading_next_pair();
        if condition {
            state.setting_pc(address)
        } else {
            state
        }
    }

    /// Reads the two operand bytes and, when the condition holds, pushes
    /// the address of the following instruction and jumps to the operand
    /// address.
    fn calling(self, condition: bool) -> (r: Self)
        requires
            self.wf(),
        ensures
            r@ == crate::model::call_spec(self@, condition),
            r.wf(),
    {
        let (state, address) = self.reading_next_pair();
        if condition {
            let high = (state.pc / 256) as u8;
            let low = (state.pc % 256) as u8;
            state.pushing(high, low).setting_pc(address)
        } else {
            state
        }
    }

    /// Pops the return address into the program counter when the condition
    /// holds.
    fn returning(self, condition: bool) -> (r: Self)
        requires
            self.wf(),
        ensures
            r@ == ret_spec(self@, condition),
            r.wf(),
    {
        if condition {
            let (state, address) = self.popping();
            state.setting_pc(address)
        } else {
            self
        }
    }

    /// An unconditional call to eight times the restart index.
    fn restarting(self, index: u8) -> (r: Self)
        requires
            self.wf(),
        ensures
            r@ == rst_spec(self@, index),
            r.wf(),
    {
        let high = (self.pc / 256) as u8;
        let low = (self.pc % 256) as u8;
        let target: u16 = 8 * (index as u16);
        self.pushing(high, low).setting_pc(target)
    }

    /// Applies one decoded instruction, the program counter already past the
    /// opcode byte. The IN instruction consumes its port byte and, with no
    /// handler attached here, leaves the accumulator as it was.
    fn evaluating_instruction(self, instruction: Instruction) -> (r: Self)
        requires
            self.wf(),
        ensures
            r@ == exec_instruction_spec(self@, instruction, Option::None),
            r.wf(),
    {
        match instruction {
            Instruction::Nop
            | Instruction::Mov(_, _)
            | Instruction::Mvi(_)
            | Instruction::Lxi(_)
            | Instruction::Stax(_)
            | Instruction::Ldax(_)
            | Instruction::Sta
            | Instruction::Lda
            | Instruction::Shld
            | Instruction::Lhld
            | Instruction::Xchg => self.evaluating_transfer(instruction),
            Instruction::Add(_)
            | Instruction::Adc(_)
            | Instruction::Sub(_)
            | Instruction::Sbb(_)
            | Instruction::Cmp(_)
            | Instruction::Adi
            | Instruction::Aci
            | Instruction::Sui
            | Instruction::Sbi
            | Instruction::Cpi
            | Instruction::Inr(_)
            | Instruction::Dcr(_)
            | Instruction::Daa => self.evaluating_arithmetic(instruction),
            Instruction::Ana(_)
            | Instruction::Xra(_)
            | Instruction::Ora(_)
            | Instruction::Ani
            | Instruction::Xri
            | Instruction::Ori
            | Instruction::Rlc
            | Instruction::Rrc
            | Instruction::Ral
            | Instruction::Rar
            | Instruction::Cma
            | Instruction::Cmc
            | Instruction::Stc => self.evaluating_logic(instruction),
            Instruction::Jmp
            | Instruction::Jcond(_)
            | Instruction::Call
            | Instruction::Ccond(_)
            | Instruction::Ret
            | Instruction::Rcond(_)
            | Instruction::Rst(_)
            | Instruction::Pchl => self.evaluating_branch(instruction),
            Instruction::Inx(_)
            | Instruction::Dcx(_)
            | Instruction::Dad(_)
            | Instruction::Push(_)
            | Instruction::Pop(_)
            | Instruction::Xthl
            | Instruction::Sphl
            | Instruction::In
            | Instruction::Out
            | Instruction::Di
            | Instruction::Ei
            | Instruction::Hlt => self.evaluating_stack_and_control(instruction),
        }
    }

    /// The data-transfer group: moves, immediate loads, and the direct and
    /// indirect loads and stores of the accumulator and H/L.
    #[verifier::rlimit(100)]
    fn evaluating_transfer(self, instruction: Instruction) -> (r: Self)
        requires
            self.wf(),
            is_transfer_instruction(instruction),
        ensures
            r@ == exec_instruction_spec(self@, instruction, Option::None),
            r.wf(),
    {
        match instruction {
            Instruction::Nop => self,
            Instruction::Mov(dst, src) => {
                let v = self.reading_register(src);
                self.setting_register(dst, v)
            },
            Instruction::Mvi(reg) => {
                let (state, byte) = self.reading_next_byte();
                state.setting_register(reg, byte)
            },
            Instruction::Lxi(p) => {
                let (state, value) = self.reading_next_pair();
                state.setting_register_pair(p, value)
            },
            Instruction::Stax(p) => {
                let address = self.reading_register_pair(p);
                let value = self.a;
                self.setting_memory_at(value, address)
            },
            Instruction::Ldax(p) => {
                let address = self.reading_register_pair(p);
                let value = self.memory_at(address);
                self.setting_a(value)
            },
            Instruction::Sta => {
                let (state, address) = self.reading_next_pair();
                let value = state.a;
                state.setting_memory_at(value, address)
            },
            Instruction::Lda => {
                let (state, address) = self.reading_next_pair();
                let value = state.memory_at(address);
                state.setting_a(value)
            },
            Instruction::Shld => {
                let (state, address) = self.reading_next_pair();
                let low = state.l;
                let high = state.h;
                state.setting_memory_at(low, address).setting_memory_at(
                    high,
                    wrapped_add16(address, 1),
                )
            },
            Instruction::Lhld => {
                let (state, address) = self.reading_next_pair();
                let l = state.memory_at(address);
                let h = state.memory_at(wrapped_add16(address, 1));
                Self { l, h, ..state }
            },
            Instruction::Xchg => Self { h: self.d, l: self.e, d: self.h, e: self.l, ..self },
            _ => {
                proof {
                    assert(false);
                }
                self
            },
        }
    }

    /// The 8-bit arithmetic group: adds, subtracts, compares, the single
    /// increments and decrements, and decimal adjust.
    #[verifier::rlimit(100)]
    fn evaluating_arithmetic(self, instruction: Instruction) -> (r: Self)
        requires
            self.wf(),
            is_arithmetic_instruction(instruction),
        ensures
            r@ == exec_instruction_spec(self@, instruction, Option::None),
            r.wf(),
    {
        match instruction {
            Instruction::Add(reg) => {
                let v = self.reading_register(reg);
                self.adding(v, false)
            },
            Instruction::Adc(reg) => {
                let v = self.reading_register(reg);
                let carry = self.cc.cy();
                self.adding(v, carry)
            },
            Instruction::Sub(reg) => {
                let v = self.reading_register(reg);
                self.subtracting(v, false)
            },
            Instruction::Sbb(reg) => {
                let v = self.reading_register(reg);
                let borrow = self.cc.cy();
                self.subtracting(v, borrow)
            },
            Instruction::Cmp(reg) => {
                let v = self.reading_register(reg);
                self.comparing(v)
            },
            Instruction::Adi => {
                let (state, v) = self.reading_next_byte();
                state.adding(v, false)
            },
            Instruction::Aci => {
                let (state, v) = self.reading_next_byte();
                let carry = state.cc.cy();
                state.adding(v, carry)
            },
            Instruction::Sui => {
                let (state, v) = self.reading_next_byte();
                state.subtracting(v, false)
            },
            Instruction::Sbi => {
                let (state, v) = self.reading_next_byte();
                let borrow = state.cc.cy();
                state.subtracting(v, borrow)
            },
            Instruction::Cpi => {
                let (state, v) = self.reading_next_byte();
                state.comparing(v)
            },
            Instruction::Inr(reg) => self.incrementing(reg),
            Instruction::Dcr(reg) => self.decrementing(reg),
            Instruction::Daa => self.adjusting_decimal(),
            _ => {
                proof {
                    assert(false);
                }
                self
            },
        }
    }

    /// The logical group: AND, XOR, OR, the four rotates, and the carry and
    /// accumulator complements.
    #[verifier::rlimit(100)]
    fn evaluating_logic(self, instruction: Instruction) -> (r: Self)
        requires
            self.wf(),
            is_logic_instruction(instruction),
        ensures
            r@ == exec_instruction_spec(self@, instruction, Option::None),
            r.wf(),
    {
        match instruction {
            Instruction::Ana(reg) => {
                let v = self.reading_register(reg);
                self.anding(v)
            },
            Instruction::Xra(reg) => {
                let v = self.reading_register(reg);
                self.xoring(v)
            },
            Instruction::Ora(reg) => {
                let v = self.reading_register(reg);
                self.oring(v)
            },
            Instruction::Ani => {
                let (state, v) = self.reading_next_byte();
                state.anding(v)
            },
            Instruction::Xri => {
                let (state, v) = self.reading_next_byte();
                state.xoring(v)
            },
            Instruction::Ori => {
                let (state, v) = self.reading_next_byte();
                state.oring(v)
            },
            Instruction::Rlc => self.rotating_left(),
            Instruction::Rrc => self.rotating_right(),
            Instruction::Ral => self.rotating_left_through_carry(),
            Instruction::Rar => self.rotating_right_through_carry(),
            Instruction::Cma => Self { a: 255 - self.a, ..self },
            Instruction::Cmc => {
                let carry = self.cc.cy();
                Self { cc: self.cc.setting_cy(!carry), ..self }
            },
            Instruction::Stc => Self { cc: self.cc.setting_cy(true), ..self },
            _ => {
                proof {
                    assert(false);
                }
                self
            },
        }
    }

    /// The branch group: jumps, calls, returns, restarts and the indirect
    /// jump through H/L.
    #[verifier::rlimit(100)]
    fn evaluating_branch(self, instruction: Instruction) -> (r: Self)
        requires
            self.wf(),
            is_branch_instruction(instruction),
        ensures
            r@ == exec_instruction_spec(self@, instruction, Option::None),
            r.wf(),
    {
        match instruction {
            Instruction::Jmp => self.jumping(true),
            Instruction::Jcond(c) => {
                let condition = self.testing_condition(c);
                self.jumping(condition)
            },
            Instruction::Call => self.calling(true),
            Instruction::Ccond(c) => {
                let condition = self.testing_condition(c);
                self.calling(condition)
            },
            Instruction::Ret => self.returning(true),
            Instruction::Rcond(c) => {
                let condition = self.testing_condition(c);
                self.returning(condition)
            },
            Instruction::Rst(n) => self.restarting(n),
            Instruction::Pchl => {
                let target = self.hl();
                self.setting_pc(target)
            },
            _ => {
                proof {
                    assert(false);
                }
                self
            },
        }
    }

    /// The stack, 16-bit arithmetic and control group: pushes and pops, the
    /// pair increments and the 16-bit add into H/L, the stack exchanges,
    /// I/O without a handler, and the interrupt and halt switches.
    #[verifier::rlimit(100)]
    fn evaluating_stack_and_control(self, instruction: Instruction) -> (r: Self)
        requires
            self.wf(),
            is_stack_or_control_instruction(instruction),
        ensures
            r@ == exec_instruction_spec(self@, instruction, Option::None),
            r.wf(),
    {
        match instruction {
            Instruction::Inx(p) => {
                let value = self.reading_register_pair(p);
                let incremented = wrapped_add16(value, 1);
                self.setting_register_pair(p, incremented)
            },
            Instruction::Dcx(p) => {
                let value = self.reading_register_pair(p);
                let decremented = wrapped_sub16(value, 1);
                self.setting_register_pair(p, decremented)
            },
            Instruction::Dad(p) => {
                let value = self.reading_register_pair(p);
                self.double_adding(value)
            },
            Instruction::Push(p) => match p {
                StackPair::BC => {
                    let high = self.b;
                    let low = self.c;
                    self.pushing(high, low)
                },
                StackPair::DE => {
                    let high = self.d;
                    let low = self.e;
                    self.pushing(high, low)
                },
                StackPair::HL => {
                    let high = self.h;
                    let low = self.l;
                    self.pushing(high, low)
                },
                StackPair::PSW => {
                    let high = self.a;
                    let low = self.cc.bits;
                    self.pushing(high, low)
                },
            },
            Instruction::Pop(p) => {
                let (state, value) = self.popping();
                let high = (value / 256) as u8;
                let low = (value % 256) as u8;
                match p {
                    StackPair::BC => Self { b: high, c: low, ..state },
                    StackPair::DE => Self { d: high, e: low, ..state },
                    StackPair::HL => Self { h: high, l: low, ..state },
                    StackPair::PSW => Self { a: high, cc: ConditionCodes { bits: low }, ..state },
                }
            },
            Instruction::Xthl => {
                let from_stack_low = self.memory_at(self.sp);
                let from_stack_high = self.memory_at(wrapped_add16(self.sp, 1));
                let to_stack_low = self.l;
                let to_stack_high = self.h;
                let low_address = self.sp;
                let high_address = wrapped_add16(self.sp, 1);
                let state = self.setting_memory_at(to_stack_low, low_address).setting_memory_at(
                    to_stack_high,
                    high_address,
                );
                Self { h: from_stack_high, l: from_stack_low, ..state }
            },
            Instruction::Sphl => {
                let value = self.hl();
                self.setting_sp(value)
            },
            Instruction::In => {
                let (state, _port) = self.reading_next_byte();
                state
            },
            Instruction::Out => {
                let (state, _port) = self.reading_next_byte();
                state
            },
            Instruction::Di => Self { interrupt_enabled: false, ..self },
            Instruction::Ei => Self { interrupt_enabled: true, ..self },
            Instruction::Hlt => Self { halted: true, ..self },
            _ => {
                proof {
                    assert(false);
                }
                self
            },
        }
    }

    /// One full step without an I/O handler: reads and decodes the opcode
    /// at the program counter, applies the instruction, and records its
    /// cycle cost. The IN instruction leaves the accumulator unchanged.
    pub fn evaluating_next(self) -> (r: Self)
        requires
            self.wf(),
        ensures
            r@ == step_spec(self@, Option::None),
            r.wf(),
    {
        let (state, opcode) = self.reading_next_byte();
        let instruction = decode(opcode);
        let state = state.evaluating_instruction(instruction);
        let cycles = instruction.cycles();
        Self { last_cycles: cycles, ..state }
    }

    /// Interrupt entry: pushes the current program counter, jumps to eight
    /// times the vector number, and disables interrupts. The caller decides
    /// when to raise an interrupt and which of the eight vectors to use.
    pub fn generating_interrupt(self, int_num: u16) -> (r: Self)
        requires
            self.wf(),
            int_num < 8,
        ensures
            r@ == interrupt_spec(self@, int_num),
            r.wf(),
    {
        let high = (self.pc / 256) as u8;
        let low = (self.pc % 256) as u8;
        let state = self.pushing(high, low).setting_pc(8 * int_num);
        Self { interrupt_enabled: false, ..state }
    }
}

/// The port-mapped I/O capability the IN and OUT instructions delegate to.
/// The engine hands the handler the current state and the port number; a
/// handler supplies the byte an input port reads, and consumes the byte an
/// output port is given.
pub trait IOHandler {
    /// Reads one byte from an input port.
    fn inp(&mut self, state: &State8080, port: u8) -> u8;

    /// Writes one byte to an output port.
    fn out(&mut self, state: &State8080, port: u8, value: u8);
}

/// The headless handler: input ports read back the accumulator, leaving it
/// unchanged, and output ports discard their byte.
pub struct DummyIOHandler;

impl IOHandler for DummyIOHandler {
    fn inp(&mut self, state: &State8080, _port: u8) -> u8 {
        state.a
    }

    fn out(&mut self, _state: &State8080, _port: u8, _value: u8) {
    }
}

impl State8080 {
    /// One full step with an I/O handler attached: as [`Self::evaluating_next`],
    /// except that the IN instruction loads the byte the handler supplies
    /// into the accumulator, and the OUT instruction hands the handler the
    /// accumulator byte. Whatever the handler answers, the step is one of
    /// the machine transitions for some input byte.
    pub fn evaluating_next_with_io<H: IOHandler>(self, io_handler: &mut H) -> (r: Self)
        requires
            self.wf(),
        ensures
            exists|v: u8| r@ == step_spec(self@, Option::Some(v)),
            !(spec_decode(imm8(self@)) is In) ==> r@ == step_spec(self@, Option::None),
            r.wf(),
    {
        let ghost m0 = self@;
        let (state, opcode) = self.reading_next_byte();
        let instruction = decode(opcode);
        let state = match instruction {
            Instruction::In => {
                let (fetched, port) = state.reading_next_byte();
                let value = io_handler.inp(&fetched, port);
                fetched.setting_a(value)
            },
            Instruction::Out => {
                let (fetched, port) = state.reading_next_byte();
                io_handler.out(&fetched, port, fetched.a);
                fetched
            },
            _ => state.evaluating_instruction(instruction),
        };
        let cycles = instruction.cycles();
        let r = Self { last_cycles: cycles, ..state };
        proof {
            if instruction is In {
                assert(r@ == step_spec(m0, Option::Some(r@.a)));
            } else {
                assert(r@ == step_spec(m0, Option::Some(0u8)));
                assert(r@ == step_spec(m0, Option::None));
            }
        }
        r
    }
}

} // verus!
