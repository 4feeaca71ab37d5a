//! Instruction decoding: field extraction from a raw 32-bit data-processing
//! word and barrel-shifter resolution of the second operand.

use crate::bit31;
use crate::bit_at;
use crate::cpu::Registers;
use vstd::prelude::*;

verus! {

/// The 16 data-processing opcodes, in their architecturally fixed order
/// (the value of the 4-bit opcode field).
#[derive(Clone, Copy, PartialEq, Eq, Structural, Debug)]
pub enum Opcode {
    And,
    Eor,
    Sub,
    Rsb,
    Add,
    Adc,
    Sbc,
    Rsc,
    Tst,
    Teq,
    Cmp,
    Cmn,
    Orr,
    Mov,
    Bic,
    Mvn,
}

/// The four barrel-shifter operations.
#[derive(Clone, Copy, PartialEq, Eq, Structural, Debug)]
pub enum ShiftKind {
    LogicalLeft,
    LogicalRight,
    ArithmeticRight,
    RotateRight,
}

/// Where a register-form operand takes its shift amount from: a 5-bit
/// immediate, or the low 8 bits of another register.
#[derive(Clone, Copy, PartialEq, Eq, Structural, Debug)]
pub enum ShiftAmount {
    Fixed(u32),
    FromRegister(u32),
}

/// The unresolved second operand: a rotated 8-bit immediate, or a register
/// shifted by the barrel shifter.
#[derive(Clone, Copy, PartialEq, Eq, Structural, Debug)]
pub enum Operand2 {
    Immediate { value: u32, rotate: u32 },
    Register { rm: u32, kind: ShiftKind, amount: ShiftAmount },
}

/// A decoded data-processing instruction.  The condition field is kept raw:
/// its validity is checked at execution time, not here.
#[derive(Clone, Copy, PartialEq, Eq, Structural, Debug)]
pub struct DecodedInstruction {
    pub condition: u32,
    pub opcode: Opcode,
    pub s_bit: bool,
    pub rn: u32,
    pub rd: u32,
    pub operand2: Operand2,
}

/// The opcode named by a 4-bit field value.
pub open spec fn opcode_of(bits: u32) -> Opcode {
    if bits == 0 {
        Opcode::And
    } else if bits == 1 {
        Opcode::Eor
    } else if bits == 2 {
        Opcode::Sub
    } else if bits == 3 {
        Opcode::Rsb
    } else if bits == 4 {
        Opcode::Add
    } else if bits == 5 {
        Opcode::Adc
    } else if bits == 6 {
        Opcode::Sbc
    } else if bits == 7 {
        Opcode::Rsc
    } else if bits == 8 {
        Opcode::Tst
    } else if bits == 9 {
        Opcode::Teq
    } else if bits == 10 {
        Opcode::Cmp
    } else if bits == 11 {
        Opcode::Cmn
    } else if bits == 12 {
        Opcode::Orr
    } else if bits == 13 {
        Opcode::Mov
    } else if bits == 14 {
        Opcode::Bic
    } else {
        Opcode::Mvn
    }
}

/// The shift kind named by the 2-bit shift-type field.
pub open spec fn shift_kind_of(bits: u32) -> ShiftKind {
    if bits == 0 {
        ShiftKind::LogicalLeft
    } else if bits == 1 {
        ShiftKind::LogicalRight
    } else if bits == 2 {
        ShiftKind::ArithmeticRight
    } else {
        ShiftKind::RotateRight
    }
}

// Field extraction from the raw word (bit positions, MSB = 31).
pub open spec fn cond_field(word: u32) -> u32 {
    word >> 28
}

pub open spec fn opcode_field(word: u32) -> u32 {
    (word >> 21) & 0xF
}

pub open spec fn s_field(word: u32) -> bool {
    (word >> 20) & 1 == 1
}

pub open spec fn rn_field(word: u32) -> u32 {
    (word >> 16) & 0xF
}

pub open spec fn rd_field(word: u32) -> u32 {
    (word >> 12) & 0xF
}

/// Bit 25: immediate form when set, register form when clear.
pub open spec fn immediate_field(word: u32) -> bool {
    (word >> 25) & 1 == 1
}

/// The operand-2 shape encoded in the low 12 bits (and bit 25) of the word.
pub open spec fn operand2_field(word: u32) -> Operand2 {
    if immediate_field(word) {
        Operand2::Immediate { value: word & 0xFF, rotate: (word >> 8) & 0xF }
    } else if (word >> 4) & 1 == 1 {
        Operand2::Register {
            rm: word & 0xF,
            kind: shift_kind_of((word >> 5) & 3),
            amount: ShiftAmount::FromRegister((word >> 8) & 0xF),
        }
    } else {
        Operand2::Register {
            rm: word & 0xF,
            kind: shift_kind_of((word >> 5) & 3),
            amount: ShiftAmount::Fixed((word >> 7) & 0x1F),
        }
    }
}

impl Operand2 {
    /// Field ranges that decoding guarantees: an 8-bit immediate with a
    /// 4-bit rotate, or 4-bit register indices with a 5-bit fixed shift.
    pub open spec fn wf(self) -> bool {
        match self {
            Operand2::Immediate { value, rotate } => value < 256 && rotate < 16,
            Operand2::Register { rm, kind, amount } => rm < 16 && match amount {
                ShiftAmount::Fixed(n) => n < 32,
                ShiftAmount::FromRegister(rs) => rs < 16,
            },
        }
    }
}

impl DecodedInstruction {
    /// Field ranges that decoding guarantees.
    pub open spec fn wf(self) -> bool {
        self.condition < 16 && self.rn < 16 && self.rd < 16 && self.operand2.wf()
    }
}

/// Decode a raw data-processing instruction word.  Total over all 32-bit
/// inputs; condition validity is checked downstream at execution time.
pub fn parse_instruction(instruction: u32) -> (r: DecodedInstruction)
    ensures
        r.condition == cond_field(instruction),
        r.opcode == opcode_of(opcode_field(instruction)),
        r.s_bit == s_field(instruction),
        r.rn == rn_field(instruction),
        r.rd == rd_field(instruction),
        r.operand2 == operand2_field(instruction),
        r.wf(),
{
    proof {
        lemma_field_ranges(instruction);
    }
    let condition: u32 = instruction >> 28;
    let opcode: Opcode = opcode_from_bits((instruction >> 21) & 0xF);
    let s_bit = (instruction >> 20) & 1 == 1;
    let rn: u32 = (instruction >> 16) & 0xF;
    let rd: u32 = (instruction >> 12) & 0xF;
    let operand2: Operand2 = if (instruction >> 25) & 1 == 1 {
        Operand2::Immediate { value: instruction & 0xFF, rotate: (instruction >> 8) & 0xF }
    } else if (instruction >> 4) & 1 == 1 {
        Operand2::Register {
            rm: instruction & 0xF,
            kind: shift_kind_from_bits((instruction >> 5) & 3),
            amount: ShiftAmount::FromRegister((instruction >> 8) & 0xF),
        }
    } else {
        Operand2::Register {
            rm: instruction & 0xF,
            kind: shift_kind_from_bits((instruction >> 5) & 3),
            amount: ShiftAmount::Fixed((instruction >> 7) & 0x1F),
        }
    };
    DecodedInstruction { condition, opcode, s_bit, rn, rd, operand2 }
}

/// The decoded fields all fit their architectural widths.
proof fn lemma_field_ranges(word: u32)
    by (bit_vector)
    ensures
        word >> 28 < 16,
        (word >> 21) & 0xF < 16,
        (word >> 16) & 0xF < 16,
        (word >> 12) & 0xF < 16,
        (word >> 8) & 0xF < 16,
        (word >> 7) & 0x1F < 32,
        (word >> 5) & 3 < 4,
        word & 0xFF < 256,
        word & 0xF < 16,
{
}

/// The opcode enum for a 4-bit field value.
pub fn opcode_from_bits(bits: u32) -> (r: Opcode)
    requires
        bits < 16,
    ensures
        r == opcode_of(bits),
{
    match bits {
        0 => Opcode::And,
        1 => Opcode::Eor,
        2 => Opcode::Sub,
        3 => Opcode::Rsb,
        4 => Opcode::Add,
        5 => Opcode::Adc,
        6 => Opcode::Sbc,
        7 => Opcode::Rsc,
        8 => Opcode::Tst,
        9 => Opcode::Teq,
        10 => Opcode::Cmp,
        11 => Opcode::Cmn,
        12 => Opcode::Orr,
        13 => Opcode::Mov,
        14 => Opcode::Bic,
        _ => Opcode::Mvn,
    }
}

/// The shift kind for a 2-bit field value.
pub fn shift_kind_from_bits(bits: u32) -> (r: ShiftKind)
    requires
        bits < 4,
    ensures
        r == shift_kind_of(bits),
{
    match bits {
        0 => ShiftKind::LogicalLeft,
        1 => ShiftKind::LogicalRight,
        2 => ShiftKind::ArithmeticRight,
        _ => ShiftKind::RotateRight,
    }
}

/// Rotate `x` right by `r` bit positions, `0 < r < 32`.
pub open spec fn ror32(x: u32, r: u32) -> u32
    recommends
        0 < r < 32,
{
    (x >> r) | (x << ((32 - r) as u32))
}

/// Arithmetic shift right: the sign bit is replicated into the vacated
/// positions, `0 < n < 32`.
pub open spec fn asr32(x: u32, n: u32) -> u32
    recommends
        0 < n < 32,
{
    if bit31(x) {
        (x >> n) | (0xFFFF_FFFFu32 << ((32 - n) as u32))
    } else {
        x >> n
    }
}

/// The value the barrel shifter produces for shift kind `kind`, input `x`
/// and amount `amt` (0 to 255).  An amount of 0 is a no-op for every kind.
pub open spec fn shift_value(kind: ShiftKind, x: u32, amt: u32) -> u32 {
    if amt == 0 {
        x
    } else {
        match kind {
            ShiftKind::LogicalLeft => if amt < 32 {
                x << amt
            } else {
                0
            },
            ShiftKind::LogicalRight => if amt < 32 {
                x >> amt
            } else {
                0
            },
            ShiftKind::ArithmeticRight => if amt < 32 {
                asr32(x, amt)
            } else {
                if bit31(x) {
                    0xFFFF_FFFFu32
                } else {
                    0
                }
            },
            ShiftKind::RotateRight => if amt % 32 == 0 {
                x
            } else {
                ror32(x, amt % 32)
            },
        }
    }
}

/// The carry the barrel shifter produces: the last bit shifted out, or the
/// incoming carry `c_in` when the amount is 0.
pub open spec fn shift_carry(kind: ShiftKind, x: u32, amt: u32, c_in: bool) -> bool {
    if amt == 0 {
        c_in
    } else {
        match kind {
            ShiftKind::LogicalLeft => if amt <= 32 {
                bit_at(x, (32 - amt) as u32)
            } else {
                false
            },
            ShiftKind::LogicalRight => if amt <= 32 {
                bit_at(x, (amt - 1) as u32)
            } else {
                false
            },
            ShiftKind::ArithmeticRight => if amt < 32 {
                bit_at(x, (amt - 1) as u32)
            } else {
                bit31(x)
            },
            ShiftKind::RotateRight => if amt % 32 == 0 {
                bit31(x)
            } else {
                bit_at(x, (amt % 32 - 1) as u32)
            },
        }
    }
}

/// The shift amount a register-form operand uses: the fixed 5-bit field, or
/// the low 8 bits of the named register.
pub open spec fn shift_amount_value(amount: ShiftAmount, s: Registers) -> u32 {
    match amount {
        ShiftAmount::Fixed(n) => n,
        ShiftAmount::FromRegister(rs) => s.reg(rs as int) & 0xFF,
    }
}

/// The 32-bit value operand 2 resolves to in register state `s`.
pub open spec fn shifter_value(op2: Operand2, s: Registers) -> u32 {
    match op2 {
        Operand2::Immediate { value, rotate } => if rotate == 0 {
            value
        } else {
            ror32(value, (2 * rotate) as u32)
        },
        Operand2::Register { rm, kind, amount } => shift_value(
            kind,
            s.reg(rm as int),
            shift_amount_value(amount, s),
        ),
    }
}

/// The shifter carry-out operand 2 resolves to in register state `s`.  A
/// zero rotate or shift amount leaves the current carry flag unchanged.
pub open spec fn shifter_carry(op2: Operand2, s: Registers) -> bool {
    match op2 {
        Operand2::Immediate { value, rotate } => if rotate == 0 {
            s.carry_flag()
        } else {
            bit31(ror32(value, (2 * rotate) as u32))
        },
        Operand2::Register { rm, kind, amount } => shift_carry(
            kind,
            s.reg(rm as int),
            shift_amount_value(amount, s),
            s.carry_flag(),
        ),
    }
}

/// Law: an immediate operand with rotate amount 0 resolves to its 8-bit
/// value unchanged, and the shifter carry-out is the current carry flag.
pub proof fn lemma_immediate_rotate_zero(value: u32, s: Registers)
    ensures
        shifter_value((Operand2::Immediate { value, rotate: 0 }), s) == value,
        shifter_carry((Operand2::Immediate { value, rotate: 0 }), s) == s.carry_flag(),
{
}

/// Law: a register operand with a logical-left shift of amount 0 resolves
/// to the unshifted register value, and the shifter carry-out is the
/// current carry flag.
pub proof fn lemma_register_shift_zero(rm: u32, s: Registers)
    ensures
        shifter_value(
            (Operand2::Register {
                rm,
                kind: ShiftKind::LogicalLeft,
                amount: ShiftAmount::Fixed(0),
            }),
            s,
        ) == s.reg(rm as int),
        shifter_carry(
            (Operand2::Register {
                rm,
                kind: ShiftKind::LogicalLeft,
                amount: ShiftAmount::Fixed(0),
            }),
            s,
        ) == s.carry_flag(),
{
}

/// Test bit `i` of `x`.
fn test_bit(x: u32, i: u32) -> (b: bool)
    requires
        i < 32,
    ensures
        b == bit_at(x, i),
{
    x & (1u32 << i) != 0
}

/// Run the barrel shifter: value and carry-out for one shift operation.
pub fn barrel_shift(kind: ShiftKind, x: u32, amt: u32, carry_in: bool) -> (r: (u32, bool))
    requires
        amt < 256,
    ensures
        r.0 == shift_value(kind, x, amt),
        r.1 == shift_carry(kind, x, amt, carry_in),
{
    if amt == 0 {
        (x, carry_in)
    } else {
        match kind {
            ShiftKind::LogicalLeft => {
                let value: u32 = if amt < 32 {
                    x << amt
                } else {
                    0
                };
                let carry: bool = if amt <= 32 {
                    test_bit(x, 32 - amt)
                } else {
                    false
                };
                (value, carry)
            },
            ShiftKind::LogicalRight => {
                let value: u32 = if amt < 32 {
                    x >> amt
                } else {
                    0
                };
                let carry: bool = if amt <= 32 {
                    test_bit(x, amt - 1)
                } else {
                    false
                };
                (value, carry)
            },
            ShiftKind::ArithmeticRight => {
                if amt < 32 {
                    let base: u32 = x >> amt;
                    let value: u32 = if x & 0x8000_0000 != 0 {
                        base | (0xFFFF_FFFFu32 << (32 - amt))
                    } else {
                        base
                    };
                    (value, test_bit(x, amt - 1))
                } else {
                    let sign: bool = x & 0x8000_0000 != 0;
                    let value: u32 = if sign {
                        0xFFFF_FFFFu32
                    } else {
                        0
                    };
                    (value, sign)
                }
            },
            ShiftKind::RotateRight => {
                let r: u32 = amt % 32;
                if r == 0 {
                    (x, x & 0x8000_0000 != 0)
                } else {
                    ((x >> r) | (x << (32 - r)), test_bit(x, r - 1))
                }
            },
        }
    }
}

/// Resolve operand 2 against the current register state: the 32-bit value
/// and the shifter carry-out.
pub fn resolve_operand2(op2: &Operand2, registers: &Registers) -> (r: (u32, bool))
    requires
        op2.wf(),
    ensures
        r.0 == shifter_value(*op2, *registers),
        r.1 == shifter_carry(*op2, *registers),
{
    match op2 {
        Operand2::Immediate { value, rotate } => {
            if *rotate == 0 {
                (*value, registers.is_carry_set())
            } else {
                let r: u32 = 2 * *rotate;
                let rotated: u32 = (*value >> r) | (*value << (32 - r));
                (rotated, rotated & 0x8000_0000 != 0)
            }
        },
        Operand2::Register { rm, kind, amount } => {
            let x: u32 = registers.get_register(*rm);
            let amt: u32 = match amount {
                ShiftAmount::Fixed(n) => *n,
                ShiftAmount::FromRegister(rs) => {
                    let raw: u32 = registers.get_register(*rs);
                    proof {
                        assert(raw & 0xFF < 256) by (bit_vector);
                    }
                    raw & 0xFF
                },
            };
            barrel_shift(*kind, x, amt, registers.is_carry_set())
        },
    }
}

} // verus!
