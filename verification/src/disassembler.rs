//! The instruction catalog.
//!
//! Every one of the 256 opcode bytes decodes to an instruction identity; the
//! undocumented bytes behave as the aliases the real chip gives them (seven
//! extra no-ops, a second jump, a second return and three extra calls).
//! Each identity knows its encoded size in bytes and its nominal cycle cost.

use vstd::prelude::*;

verus! {

/// An operand slot of the register-file encoding: the six general registers,
/// the memory cell addressed by the H/L pair (`M`), and the accumulator.
#[derive(Clone, Copy, Debug, PartialEq, Eq, Structural)]
pub enum Register {
    B,
    C,
    D,
    E,
    H,
    L,
    M,
    A,
}

/// A 16-bit register pair operand: B/C, D/E, H/L or the stack pointer.
#[derive(Clone, Copy, Debug, PartialEq, Eq, Structural)]
pub enum RegisterPair {
    BC,
    DE,
    HL,
    SP,
}

/// A 16-bit operand of the stack group: a register pair or the processor
/// status word, the accumulator paired with the flag byte.
#[derive(Clone, Copy, Debug, PartialEq, Eq, Structural)]
pub enum StackPair {
    BC,
    DE,
    HL,
    PSW,
}

/// A branch condition: each flag tested for either value.
#[derive(Clone, Copy, Debug, PartialEq, Eq, Structural)]
pub enum Condition {
    NotZero,
    Zero,
    NoCarry,
    Carry,
    ParityOdd,
    ParityEven,
    Plus,
    Minus,
}

/// The identity of a decoded instruction.
#[derive(Clone, Copy, Debug, PartialEq, Eq, Structural)]
pub enum Instruction {
    Nop,
    Lxi(RegisterPair),
    Stax(RegisterPair),
    Inx(RegisterPair),
    Inr(Register),
    Dcr(Register),
    Mvi(Register),
    Rlc,
    Dad(RegisterPair),
    Ldax(RegisterPair),
    Dcx(RegisterPair),
    Rrc,
    Ral,
    Rar,
    Shld,
    Daa,
    Lhld,
    Cma,
    Sta,
    Stc,
    Lda,
    Cmc,
    Mov(Register, Register),
    Hlt,
    Add(Register),
    Adc(Register),
    Sub(Register),
    Sbb(Register),
    Ana(Register),
    Xra(Register),
    Ora(Register),
    Cmp(Register),
    Rcond(Condition),
    Pop(StackPair),
    Jcond(Condition),
    Jmp,
    Ccond(Condition),
    Push(StackPair),
    Adi,
    Rst(u8),
    Ret,
    Call,
    Aci,
    Out,
    Sui,
    In,
    Sbi,
    Xthl,
    Ani,
    Pchl,
    Xchg,
    Xri,
    Di,
    Ori,
    Sphl,
    Ei,
    Cpi,
}

/// The register slot a three-bit field of the opcode selects.
pub open spec fn spec_register(code: u8) -> Register {
    if code == 0 {
        Register::B
    } else if code == 1 {
        Register::C
    } else if code == 2 {
        Register::D
    } else if code == 3 {
        Register::E
    } else if code == 4 {
        Register::H
    } else if code == 5 {
        Register::L
    } else if code == 6 {
        Register::M
    } else {
        Register::A
    }
}

/// The register pair a two-bit field of the opcode selects.
pub open spec fn spec_register_pair(code: u8) -> RegisterPair {
    if code == 0 {
        RegisterPair::BC
    } else if code == 1 {
        RegisterPair::DE
    } else if code == 2 {
        RegisterPair::HL
    } else {
        RegisterPair::SP
    }
}

/// The stack-group operand a two-bit field of the opcode selects.
pub open spec fn spec_stack_pair(code: u8) -> StackPair {
    if code == 0 {
        StackPair::BC
    } else if code == 1 {
        StackPair::DE
    } else if code == 2 {
        StackPair::HL
    } else {
        StackPair::PSW
    }
}

/// The branch condition a three-bit field of the opcode selects.
pub open spec fn spec_condition(code: u8) -> Condition {
    if code == 0 {
        Condition::NotZero
    } else if code == 1 {
        Condition::Zero
    } else if code == 2 {
        Condition::NoCarry
    } else if code == 3 {
        Condition::Carry
    } else if code == 4 {
        Condition::ParityOdd
    } else if code == 5 {
        Condition::ParityEven
    } else if code == 6 {
        Condition::Plus
    } else {
        Condition::Minus
    }
}

/// The identity of every opcode byte. Decoding is total: the undocumented
/// bytes carry the aliases the real chip gives them.
pub open spec fn spec_decode(opcode: u8) -> Instruction {
    if opcode < 0x40 {
        spec_decode_low(opcode)
    } else if opcode < 0x80 {
        if opcode == 0x76 {
            Instruction::Hlt
        } else {
            Instruction::Mov(spec_register((opcode / 8) % 8), spec_register(opcode % 8))
        }
    } else if opcode < 0xC0 {
        spec_decode_alu(opcode)
    } else {
        spec_decode_high(opcode)
    }
}

/// The identities of the first quadrant (bytes below 0x40): loads, stores,
/// increments, rotates and the accumulator adjustments.
pub open spec fn spec_decode_low(opcode: u8) -> Instruction {
    let column = opcode % 8;
    let row = opcode / 8;
    if column == 0 {
        Instruction::Nop
    } else if column == 1 {
        if row % 2 == 0 {
            Instruction::Lxi(spec_register_pair(row / 2))
        } else {
            Instruction::Dad(spec_register_pair(row / 2))
        }
    } else if column == 2 {
        if row == 0 {
            Instruction::Stax(RegisterPair::BC)
        } else if row == 1 {
            Instruction::Ldax(RegisterPair::BC)
        } else if row == 2 {
            Instruction::Stax(RegisterPair::DE)
        } else if row == 3 {
            Instruction::Ldax(RegisterPair::DE)
        } else if row == 4 {
            Instruction::Shld
        } else if row == 5 {
            Instruction::Lhld
        } else if row == 6 {
            Instruction::Sta
        } else {
            Instruction::Lda
        }
    } else if column == 3 {
        if row % 2 == 0 {
            Instruction::Inx(spec_register_pair(row / 2))
        } else {
            Instruction::Dcx(spec_register_pair(row / 2))
        }
    } else if column == 4 {
        Instruction::Inr(spec_register(row))
    } else if column == 5 {
        Instruction::Dcr(spec_register(row))
    } else if column == 6 {
        Instruction::Mvi(spec_register(row))
    } else {
        if row == 0 {
            Instruction::Rlc
        } else if row == 1 {
            Instruction::Rrc
        } else if row == 2 {
            Instruction::Ral
        } else if row == 3 {
            Instruction::Rar
        } else if row == 4 {
            Instruction::Daa
        } else if row == 5 {
            Instruction::Cma
        } else if row == 6 {
            Instruction::Stc
        } else {
            Instruction::Cmc
        }
    }
}

/// The identities of the arithmetic/logic quadrant (bytes 0x80 to 0xBF).
pub open spec fn spec_decode_alu(opcode: u8) -> Instruction {
    let operand = spec_register(opcode % 8);
    let group = (opcode / 8) % 8;
    if group == 0 {
        Instruction::Add(operand)
    } else if group == 1 {
        Instruction::Adc(operand)
    } else if group == 2 {
        Instruction::Sub(operand)
    } else if group == 3 {
        Instruction::Sbb(operand)
    } else if group == 4 {
        Instruction::Ana(operand)
    } else if group == 5 {
        Instruction::Xra(operand)
    } else if group == 6 {
        Instruction::Ora(operand)
    } else {
        Instruction::Cmp(operand)
    }
}

/// The identities of the last quadrant (bytes 0xC0 and above): branches,
/// calls, returns, the stack group, I/O and interrupt control.
pub open spec fn spec_decode_high(opcode: u8) -> Instruction {
    let column = opcode % 8;
    let row = (opcode / 8) % 8;
    if column == 0 {
        Instruction::Rcond(spec_condition(row))
    } else if column == 1 {
        if row % 2 == 0 {
            Instruction::Pop(spec_stack_pair(row / 2))
        } else if row == 1 || row == 3 {
            Instruction::Ret
        } else if row == 5 {
            Instruction::Pchl
        } else {
            Instruction::Sphl
        }
    } else if column == 2 {
        Instruction::Jcond(spec_condition(row))
    } else if column == 3 {
        if row == 0 || row == 1 {
            Instruction::Jmp
        } else if row == 2 {
            Instruction::Out
        } else if row == 3 {
            Instruction::In
        } else if row == 4 {
            Instruction::Xthl
        } else if row == 5 {
            Instruction::Xchg
        } else if row == 6 {
            Instruction::Di
        } else {
            Instruction::Ei
        }
    } else if column == 4 {
        Instruction::Ccond(spec_condition(row))
    } else if column == 5 {
        if row % 2 == 0 {
            Instruction::Push(spec_stack_pair(row / 2))
        } else {
            Instruction::Call
        }
    } else if column == 6 {
        if row == 0 {
            Instruction::Adi
        } else if row == 1 {
            Instruction::Aci
        } else if row == 2 {
            Instruction::Sui
        } else if row == 3 {
            Instruction::Sbi
        } else if row == 4 {
            Instruction::Ani
        } else if row == 5 {
            Instruction::Xri
        } else if row == 6 {
            Instruction::Ori
        } else {
            Instruction::Cpi
        }
    } else {
        Instruction::Rst(row)
    }
}

/// The number of bytes an instruction occupies: the opcode plus its
/// immediate operands.
pub open spec fn spec_size(i: Instruction) -> u8 {
    match i {
        Instruction::Lxi(_) => 3,
        Instruction::Shld => 3,
        Instruction::Lhld => 3,
        Instruction::Sta => 3,
        Instruction::Lda => 3,
        Instruction::Jmp => 3,
        Instruction::Jcond(_) => 3,
        Instruction::Call => 3,
        Instruction::Ccond(_) => 3,
        Instruction::Mvi(_) => 2,
        Instruction::Adi => 2,
        Instruction::Aci => 2,
        Instruction::Sui => 2,
        Instruction::Sbi => 2,
        Instruction::Ani => 2,
        Instruction::Xri => 2,
        Instruction::Ori => 2,
        Instruction::Cpi => 2,
        Instruction::In => 2,
        Instruction::Out => 2,
        _ => 1,
    }
}

/// The nominal cycle cost of an instruction, the datasheet figure; branch
/// costs are collapsed to the canonical taken value.
pub open spec fn spec_cycles(i: Instruction) -> u32 {
    match i {
        Instruction::Nop => 4,
        Instruction::Lxi(_) => 10,
        Instruction::Stax(_) => 7,
        Instruction::Inx(_) => 5,
        Instruction::Inr(r) => if r == Register::M {
            10
        } else {
            5
        },
        Instruction::Dcr(r) => if r == Register::M {
            10
        } else {
            5
        },
        Instruction::Mvi(r) => if r == Register::M {
            10
        } else {
            7
        },
        Instruction::Rlc => 4,
        Instruction::Dad(_) => 10,
        Instruction::Ldax(_) => 7,
        Instruction::Dcx(_) => 5,
        Instruction::Rrc => 4,
        Instruction::Ral => 4,
        Instruction::Rar => 4,
        Instruction::Shld => 16,
        Instruction::Daa => 4,
        Instruction::Lhld => 16,
        Instruction::Cma => 4,
        Instruction::Sta => 13,
        Instruction::Stc => 4,
        Instruction::Lda => 13,
        Instruction::Cmc => 4,
        Instruction::Mov(d, s) => if d == Register::M || s == Register::M {
            7
        } else {
            5
        },
        Instruction::Hlt => 7,
        Instruction::Add(r) => if r == Register::M {
            7
        } else {
            4
        },
        Instruction::Adc(r) => if r == Register::M {
            7
        } else {
            4
        },
        Instruction::Sub(r) => if r == Register::M {
            7
        } else {
            4
        },
        Instruction::Sbb(r) => if r == Register::M {
            7
        } else {
            4
        },
        Instruction::Ana(r) => if r == Register::M {
            7
        } else {
            4
        },
        Instruction::Xra(r) => if r == Register::M {
            7
        } else {
            4
        },
        Instruction::Ora(r) => if r == Register::M {
            7
        } else {
            4
        },
        Instruction::Cmp(r) => if r == Register::M {
            7
        } else {
            4
        },
        Instruction::Rcond(_) => 11,
        Instruction::Pop(_) => 10,
        Instruction::Jcond(_) => 10,
        Instruction::Jmp => 10,
        Instruction::Ccond(_) => 17,
        Instruction::Push(_) => 11,
        Instruction::Adi => 7,
        Instruction::Rst(_) => 11,
        Instruction::Ret => 10,
        Instruction::Call => 17,
        Instruction::Aci => 7,
        Instruction::Out => 10,
        Instruction::Sui => 7,
        Instruction::In => 10,
        Instruction::Sbi => 7,
        Instruction::Xthl => 18,
        Instruction::Ani => 7,
        Instruction::Pchl => 5,
        Instruction::Xchg => 4,
        Instruction::Xri => 7,
        Instruction::Di => 4,
        Instruction::Ori => 7,
        Instruction::Sphl => 5,
        Instruction::Ei => 4,
        Instruction::Cpi => 7,
    }
}

/// Decodes one opcode byte into its instruction identity. Total: every byte
/// value maps to a defined identity.
pub fn decode(opcode: u8) -> (r: Instruction)
    ensures
        r == spec_decode(opcode),
{
    if opcode < 0x40 {
        decode_low(opcode)
    } else if opcode < 0x80 {
        if opcode == 0x76 {
            Instruction::Hlt
        } else {
            Instruction::Mov(register_from_code((opcode / 8) % 8), register_from_code(opcode % 8))
        }
    } else if opcode < 0xC0 {
        decode_alu(opcode)
    } else {
        decode_high(opcode)
    }
}

fn register_from_code(code: u8) -> (r: Register)
    ensures
        r == spec_register(code),
{
    if code == 0 {
        Register::B
    } else if code == 1 {
        Register::C
    } else if code == 2 {
        Register::D
    } else if code == 3 {
        Register::E
    } else if code == 4 {
        Register::H
    } else if code == 5 {
        Register::L
    } else if code == 6 {
        Register::M
    } else {
        Register::A
    }
}

fn register_pair_from_code(code: u8) -> (r: RegisterPair)
    ensures
        r == spec_register_pair(code),
{
    if code == 0 {
        RegisterPair::BC
    } else if code == 1 {
        RegisterPair::DE
    } else if code == 2 {
        RegisterPair::HL
    } else {
        RegisterPair::SP
    }
}

fn stack_pair_from_code(code: u8) -> (r: StackPair)
    ensures
        r == spec_stack_pair(code),
{
    if code == 0 {
        StackPair::BC
    } else if code == 1 {
        StackPair::DE
    } else if code == 2 {
        StackPair::HL
    } else {
        StackPair::PSW
    }
}

fn condition_from_code(code: u8) -> (r: Condition)
    ensures
        r == spec_condition(code),
{
    if code == 0 {
        Condition::NotZero
    } else if code == 1 {
        Condition::Zero
    } else if code == 2 {
        Condition::NoCarry
    } else if code == 3 {
        Condition::Carry
    } else if code == 4 {
        Condition::ParityOdd
    } else if code == 5 {
        Condition::ParityEven
    } else if code == 6 {
        Condition::Plus
    } else {
        Condition::Minus
    }
}

fn decode_low(opcode: u8) -> (r: Instruction)
    requires
        opcode < 0x40,
    ensures
        r == spec_decode_low(opcode),
{
    let column = opcode % 8;
    let row = opcode / 8;
    if column == 0 {
        Instruction::Nop
    } else if column == 1 {
        if row % 2 == 0 {
            Instruction::Lxi(register_pair_from_code(row / 2))
        } else {
            Instruction::Dad(register_pair_from_code(row / 2))
        }
    } else if column == 2 {
        if row == 0 {
            Instruction::Stax(RegisterPair::BC)
        } else if row == 1 {
            Instruction::Ldax(RegisterPair::BC)
        } else if row == 2 {
            Instruction::Stax(RegisterPair::DE)
        } else if row == 3 {
            Instruction::Ldax(RegisterPair::DE)
        } else if row == 4 {
            Instruction::Shld
        } else if row == 5 {
            Instruction::Lhld
        } else if row == 6 {
            Instruction::Sta
        } else {
            Instruction::Lda
        }
    } else if column == 3 {
        if row % 2 == 0 {
            Instruction::Inx(register_pair_from_code(row / 2))
        } else {
            Instruction::Dcx(register_pair_from_code(row / 2))
        }
    } else if column == 4 {
        Instruction::Inr(register_from_code(row))
    } else if column == 5 {
        Instruction::Dcr(register_from_code(row))
    } else if column == 6 {
        Instruction::Mvi(register_from_code(row))
    } else {
        if row == 0 {
            Instruction::Rlc
        } else if row == 1 {
            Instruction::Rrc
        } else if row == 2 {
            Instruction::Ral
        } else if row == 3 {
            Instruction::Rar
        } else if row == 4 {
            Instruction::Daa
        } else if row == 5 {
            Instruction::Cma
        } else if row == 6 {
            Instruction::Stc
        } else {
            Instruction::Cmc
        }
    }
}

fn decode_alu(opcode: u8) -> (r: Instruction)
    requires
        0x80 <= opcode < 0xC0,
    ensures
        r == spec_decode_alu(opcode),
{
    let operand = register_from_code(opcode % 8);
    let group = (opcode / 8) % 8;
    if group == 0 {
        Instruction::Add(operand)
    } else if group == 1 {
        Instruction::Adc(operand)
    } else if group == 2 {
        Instruction::Sub(operand)
    } else if group == 3 {
        Instruction::Sbb(operand)
    } else if group == 4 {
        Instruction::Ana(operand)
    } else if group == 5 {
        Instruction::Xra(operand)
    } else if group == 6 {
        Instruction::Ora(operand)
    } else {
        Instruction::Cmp(operand)
    }
}

fn decode_high(opcode: u8) -> (r: Instruction)
    requires
        0xC0 <= opcode,
    ensures
        r == spec_decode_high(opcode),
{
    let column = opcode % 8;
    let row = (opcode / 8) % 8;
    if column == 0 {
        Instruction::Rcond(condition_from_code(row))
    } else if column == 1 {
        if row % 2 == 0 {
            Instruction::Pop(stack_pair_from_code(row / 2))
        } else if row == 1 || row == 3 {
            Instruction::Ret
        } else if row == 5 {
            Instruction::Pchl
        } else {
            Instruction::Sphl
        }
    } else if column == 2 {
        Instruction::Jcond(condition_from_code(row))
    } else if column == 3 {
        if row == 0 || row == 1 {
            Instruction::Jmp
        } else if row == 2 {
            Instruction::Out
        } else if row == 3 {
            Instruction::In
        } else if row == 4 {
            Instruction::Xthl
        } else if row == 5 {
            Instruction::Xchg
        } else if row == 6 {
            Instruction::Di
        } else {
            Instruction::Ei
        }
    } else if column == 4 {
        Instruction::Ccond(condition_from_code(row))
    } else if column == 5 {
        if row % 2 == 0 {
            Instruction::Push(stack_pair_from_code(row / 2))
        } else {
            Instruction::Call
        }
    } else if column == 6 {
        if row == 0 {
            Instruction::Adi
        } else if row == 1 {
            Instruction::Aci
        } else if row == 2 {
            Instruction::Sui
        } else if row == 3 {
            Instruction::Sbi
        } else if row == 4 {
            Instruction::Ani
        } else if row == 5 {
            Instruction::Xri
        } else if row == 6 {
            Instruction::Ori
        } else {
            Instruction::Cpi
        }
    } else {
        Instruction::Rst(row)
    }
}

impl Instruction {
    /// The number of bytes the instruction occupies: 1, 2 or 3.
    pub fn size(&self) -> (r: u8)
        ensures
            r == spec_size(*self),
    {
        match self {
            Instruction::Lxi(_) => 3,
            Instruction::Shld => 3,
            Instruction::Lhld => 3,
            Instruction::Sta => 3,
            Instruction::Lda => 3,
            Instruction::Jmp => 3,
            Instruction::Jcond(_) => 3,
            Instruction::Call => 3,
            Instruction::Ccond(_) => 3,
            Instruction::Mvi(_) => 2,
            Instruction::Adi => 2,
            Instruction::Aci => 2,
            Instruction::Sui => 2,
            Instruction::Sbi => 2,
            Instruction::Ani => 2,
            Instruction::Xri => 2,
            Instruction::Ori => 2,
            Instruction::Cpi => 2,
            Instruction::In => 2,
            Instruction::Out => 2,
            _ => 1,
        }
    }

    /// The nominal cycle cost of the instruction.
    pub fn cycles(&self) -> (r: u32)
        ensures
            r == spec_cycles(*self),
    {
        match self {
            Instruction::Nop => 4,
            Instruction::Lxi(_) => 10,
            Instruction::Stax(_) => 7,
            Instruction::Inx(_) => 5,
            Instruction::Inr(r) => if *r == Register::M {
                10
            } else {
                5
            },
            Instruction::Dcr(r) => if *r == Register::M {
                10
            } else {
                5
            },
            Instruction::Mvi(r) => if *r == Register::M {
                10
            } else {
                7
            },
            Instruction::Rlc => 4,
            Instruction::Dad(_) => 10,
            Instruction::Ldax(_) => 7,
            Instruction::Dcx(_) => 5,
            Instruction::Rrc => 4,
            Instruction::Ral => 4,
            Instruction::Rar => 4,
            Instruction::Shld => 16,
            Instruction::Daa => 4,
            Instruction::Lhld => 16,
            Instruction::Cma => 4,
            Instruction::Sta => 13,
            Instruction::Stc => 4,
            Instruction::Lda => 13,
            Instruction::Cmc => 4,
            Instruction::Mov(d, s) => if *d == Register::M || *s == Register::M {
                7
            } else {
                5
            },
            Instruction::Hlt => 7,
            Instruction::Add(r) => if *r == Register::M {
                7
            } else {
                4
            },
            Instruction::Adc(r) => if *r == Register::M {
                7
            } else {
                4
            },
            Instruction::Sub(r) => if *r == Register::M {
                7
            } else {
                4
            },
            Instruction::Sbb(r) => if *r == Register::M {
                7
            } else {
                4
            },
            Instruction::Ana(r) => if *r == Register::M {
                7
            } else {
                4
            },
            Instruction::Xra(r) => if *r == Register::M {
                7
            } else {
                4
            },
            Instruction::Ora(r) => if *r == Register::M {
                7
            } else {
                4
            },
            Instruction::Cmp(r) => if *r == Register::M {
                7
            } else {
                4
            },
            Instruction::Rcond(_) => 11,
            Instruction::Pop(_) => 10,
            Instruction::Jcond(_) => 10,
            Instruction::Jmp => 10,
            Instruction::Ccond(_) => 17,
            Instruction::Push(_) => 11,
            Instruction::Adi => 7,
            Instruction::Rst(_) => 11,
            Instruction::Ret => 10,
            Instruction::Call => 17,
            Instruction::Aci => 7,
            Instruction::Out => 10,
            Instruction::Sui => 7,
            Instruction::In => 10,
            Instruction::Sbi => 7,
            Instruction::Xthl => 18,
            Instruction::Ani => 7,
            Instruction::Pchl => 5,
            Instruction::Xchg => 4,
            Instruction::Xri => 7,
            Instruction::Di => 4,
            Instruction::Ori => 7,
            Instruction::Sphl => 5,
            Instruction::Ei => 4,
            Instruction::Cpi => 7,
        }
    }
}

} // verus!
