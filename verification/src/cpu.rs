//! Register file, packed status flags and the condition-code evaluator.

use crate::ExecError;
use vstd::prelude::*;

verus! {

// CPSR — current program status register.
// N - negative
// Z - zero
// C - carry
// V - overflow
// Q - underflow
pub const MASK_NEGATIVE: u32 = 0x8000_0000;
pub const MASK_ZERO: u32 = 0x4000_0000;
pub const MASK_CARRY: u32 = 0x2000_0000;
pub const MASK_OVERFLOW: u32 = 0x1000_0000;
pub const MASK_UNDERFLOW: u32 = 0x0800_0000;

/// Bits of the CPSR outside the five architected flag positions; they are
/// reserved and every flag operation must leave them untouched.
pub const MASK_RESERVED: u32 = 0x07FF_FFFF;

// Condition-field encodings: the 4-bit condition code held in bits [7:4].
pub const COND_EQ: u32 = 0x00;
pub const COND_NE: u32 = 0x10;
pub const COND_CS: u32 = 0x20;
pub const COND_CC: u32 = 0x30;
pub const COND_MI: u32 = 0x40;
pub const COND_PL: u32 = 0x50;
pub const COND_VS: u32 = 0x60;
pub const COND_VC: u32 = 0x70;
pub const COND_HI: u32 = 0x80;
pub const COND_LS: u32 = 0x90;
pub const COND_GE: u32 = 0xA0;
pub const COND_LT: u32 = 0xB0;
pub const COND_GT: u32 = 0xC0;
pub const COND_LE: u32 = 0xD0;
pub const COND_AL: u32 = 0xE0;

/// The 16 architectural registers (R0-R12, SP, LR, PC) and the status
/// register.  PC is register index 15, SP index 13, LR index 14 by
/// convention.
#[derive(Clone, Copy, PartialEq, Eq, Debug)]
pub struct Registers {
    pub r0: u32,
    pub r1: u32,
    pub r2: u32,
    pub r3: u32,
    pub r4: u32,
    pub r5: u32,
    pub r6: u32,
    pub r7: u32,
    pub r8: u32,
    pub r9: u32,
    pub r10: u32,
    pub r11: u32,
    pub r12: u32,
    pub sp: u32,
    pub lr: u32,
    pub pc: u32,
    pub cpsr: u32,
}

impl Registers {
    /// The general-purpose register at index `i`.
    pub open spec fn reg(self, i: int) -> u32 {
        if i == 0 {
            self.r0
        } else if i == 1 {
            self.r1
        } else if i == 2 {
            self.r2
        } else if i == 3 {
            self.r3
        } else if i == 4 {
            self.r4
        } else if i == 5 {
            self.r5
        } else if i == 6 {
            self.r6
        } else if i == 7 {
            self.r7
        } else if i == 8 {
            self.r8
        } else if i == 9 {
            self.r9
        } else if i == 10 {
            self.r10
        } else if i == 11 {
            self.r11
        } else if i == 12 {
            self.r12
        } else if i == 13 {
            self.sp
        } else if i == 14 {
            self.lr
        } else {
            self.pc
        }
    }

    /// The raw status register word.
    pub open spec fn status(self) -> u32 {
        self.cpsr
    }

    pub open spec fn negative_flag(self) -> bool {
        self.cpsr & MASK_NEGATIVE != 0
    }

    pub open spec fn zero_flag(self) -> bool {
        self.cpsr & MASK_ZERO != 0
    }

    pub open spec fn carry_flag(self) -> bool {
        self.cpsr & MASK_CARRY != 0
    }

    pub open spec fn overflow_flag(self) -> bool {
        self.cpsr & MASK_OVERFLOW != 0
    }

    pub open spec fn underflow_flag(self) -> bool {
        self.cpsr & MASK_UNDERFLOW != 0
    }

    pub fn new() -> (r: Registers)
        ensures
            r.status() == 0,
            forall|i: int| 0 <= i < 16 ==> r.reg(i) == 0,
    {
        Registers {
            r0: 0,
            r1: 0,
            r2: 0,
            r3: 0,
            r4: 0,
            r5: 0,
            r6: 0,
            r7: 0,
            r8: 0,
            r9: 0,
            r10: 0,
            r11: 0,
            r12: 0,
            sp: 0,
            lr: 0,
            pc: 0,
            cpsr: 0,
        }
    }

    /// Indexed read of a general-purpose register.
    pub fn get_register(&self, index: u32) -> (r: u32)
        requires
            index < 16,
        ensures
            r == self.reg(index as int),
    {
        match index {
            0 => self.r0,
            1 => self.r1,
            2 => self.r2,
            3 => self.r3,
            4 => self.r4,
            5 => self.r5,
            6 => self.r6,
            7 => self.r7,
            8 => self.r8,
            9 => self.r9,
            10 => self.r10,
            11 => self.r11,
            12 => self.r12,
            13 => self.sp,
            14 => self.lr,
            _ => self.pc,
        }
    }

    /// Indexed write of a general-purpose register; the status register and
    /// every other register keep their values.
    pub fn set_register(&mut self, index: u32, value: u32)
        requires
            index < 16,
        ensures
            final(self).reg(index as int) == value,
            forall|i: int|
                0 <= i < 16 && i != index as int ==> final(self).reg(i) == old(self).reg(i),
            final(self).status() == old(self).status(),
    {
        match index {
            0 => self.r0 = value,
            1 => self.r1 = value,
            2 => self.r2 = value,
            3 => self.r3 = value,
            4 => self.r4 = value,
            5 => self.r5 = value,
            6 => self.r6 = value,
            7 => self.r7 = value,
            8 => self.r8 = value,
            9 => self.r9 = value,
            10 => self.r10 = value,
            11 => self.r11 = value,
            12 => self.r12 = value,
            13 => self.sp = value,
            14 => self.lr = value,
            _ => self.pc = value,
        }
    }

    // Check condition flags.
    pub fn is_negative_set(&self) -> (r: bool)
        ensures
            r == self.negative_flag(),
    {
        self.cpsr & MASK_NEGATIVE > 0
    }

    pub fn is_zero_set(&self) -> (r: bool)
        ensures
            r == self.zero_flag(),
    {
        self.cpsr & MASK_ZERO > 0
    }

    pub fn is_carry_set(&self) -> (r: bool)
        ensures
            r == self.carry_flag(),
    {
        self.cpsr & MASK_CARRY > 0
    }

    pub fn is_overflow_set(&self) -> (r: bool)
        ensures
            r == self.overflow_flag(),
    {
        self.cpsr & MASK_OVERFLOW > 0
    }

    pub fn is_underflow_set(&self) -> (r: bool)
        ensures
            r == self.underflow_flag(),
    {
        self.cpsr & MASK_UNDERFLOW > 0
    }

    // Set condition flags.  Each is a masked read-modify-write: the chosen
    // bit is set, every other bit of the CPSR is preserved.
    pub fn set_negative(&mut self)
        ensures
            final(self).status() == (old(self).status() | MASK_NEGATIVE),
            final(self).negative_flag(),
            final(self).zero_flag() == old(self).zero_flag(),
            final(self).carry_flag() == old(self).carry_flag(),
            final(self).overflow_flag() == old(self).overflow_flag(),
            final(self).underflow_flag() == old(self).underflow_flag(),
            final(self).status() & MASK_RESERVED == old(self).status() & MASK_RESERVED,
            forall|i: int| 0 <= i < 16 ==> final(self).reg(i) == old(self).reg(i),
    {
        proof {
            lemma_set_flag_bits(self.cpsr);
        }
        self.cpsr = self.cpsr | MASK_NEGATIVE;
    }

    pub fn set_zero(&mut self)
        ensures
            final(self).status() == (old(self).status() | MASK_ZERO),
            final(self).zero_flag(),
            final(self).negative_flag() == old(self).negative_flag(),
            final(self).carry_flag() == old(self).carry_flag(),
            final(self).overflow_flag() == old(self).overflow_flag(),
            final(self).underflow_flag() == old(self).underflow_flag(),
            final(self).status() & MASK_RESERVED == old(self).status() & MASK_RESERVED,
            forall|i: int| 0 <= i < 16 ==> final(self).reg(i) == old(self).reg(i),
    {
        proof {
            lemma_set_flag_bits(self.cpsr);
        }
        self.cpsr = self.cpsr | MASK_ZERO;
    }

    pub fn set_carry(&mut self)
        ensures
            final(self).status() == (old(self).status() | MASK_CARRY),
            final(self).carry_flag(),
            final(self).negative_flag() == old(self).negative_flag(),
            final(self).zero_flag() == old(self).zero_flag(),
            final(self).overflow_flag() == old(self).overflow_flag(),
            final(self).underflow_flag() == old(self).underflow_flag(),
            final(self).status() & MASK_RESERVED == old(self).status() & MASK_RESERVED,
            forall|i: int| 0 <= i < 16 ==> final(self).reg(i) == old(self).reg(i),
    {
        proof {
            lemma_set_flag_bits(self.cpsr);
        }
        self.cpsr = self.cpsr | MASK_CARRY;
    }

    pub fn set_overflow(&mut self)
        ensures
            final(self).status() == (old(self).status() | MASK_OVERFLOW),
            final(self).overflow_flag(),
            final(self).negative_flag() == old(self).negative_flag(),
            final(self).zero_flag() == old(self).zero_flag(),
            final(self).carry_flag() == old(self).carry_flag(),
            final(self).underflow_flag() == old(self).underflow_flag(),
            final(self).status() & MASK_RESERVED == old(self).status() & MASK_RESERVED,
            forall|i: int| 0 <= i < 16 ==> final(self).reg(i) == old(self).reg(i),
    {
        proof {
            lemma_set_flag_bits(self.cpsr);
        }
        self.cpsr = self.cpsr | MASK_OVERFLOW;
    }

    pub fn set_underflow(&mut self)
        ensures
            final(self).status() == (old(self).status() | MASK_UNDERFLOW),
            final(self).underflow_flag(),
            final(self).negative_flag() == old(self).negative_flag(),
            final(self).zero_flag() == old(self).zero_flag(),
            final(self).carry_flag() == old(self).carry_flag(),
            final(self).overflow_flag() == old(self).overflow_flag(),
            final(self).status() & MASK_RESERVED == old(self).status() & MASK_RESERVED,
            forall|i: int| 0 <= i < 16 ==> final(self).reg(i) == old(self).reg(i),
    {
        proof {
            lemma_set_flag_bits(self.cpsr);
        }
        self.cpsr = self.cpsr | MASK_UNDERFLOW;
    }

    // Clear condition flags.
    pub fn clear_negative(&mut self)
        ensures
            final(self).status() == (old(self).status() & !MASK_NEGATIVE),
            !final(self).negative_flag(),
            final(self).zero_flag() == old(self).zero_flag(),
            final(self).carry_flag() == old(self).carry_flag(),
            final(self).overflow_flag() == old(self).overflow_flag(),
            final(self).underflow_flag() == old(self).underflow_flag(),
            final(self).status() & MASK_RESERVED == old(self).status() & MASK_RESERVED,
            forall|i: int| 0 <= i < 16 ==> final(self).reg(i) == old(self).reg(i),
    {
        proof {
            lemma_clear_flag_bits(self.cpsr);
        }
        self.cpsr = self.cpsr & !MASK_NEGATIVE;
    }

    pub fn clear_zero(&mut self)
        ensures
            final(self).status() == (old(self).status() & !MASK_ZERO),
            !final(self).zero_flag(),
            final(self).negative_flag() == old(self).negative_flag(),
            final(self).carry_flag() == old(self).carry_flag(),
            final(self).overflow_flag() == old(self).overflow_flag(),
            final(self).underflow_flag() == old(self).underflow_flag(),
            final(self).status() & MASK_RESERVED == old(self).status() & MASK_RESERVED,
            forall|i: int| 0 <= i < 16 ==> final(self).reg(i) == old(self).reg(i),
    {
        proof {
            lemma_clear_flag_bits(self.cpsr);
        }
        self.cpsr = self.cpsr & !MASK_ZERO;
    }

    pub fn clear_carry(&mut self)
        ensures
            final(self).status() == (old(self).status() & !MASK_CARRY),
            !final(self).carry_flag(),
            final(self).negative_flag() == old(self).negative_flag(),
            final(self).zero_flag() == old(self).zero_flag(),
            final(self).overflow_flag() == old(self).overflow_flag(),
            final(self).underflow_flag() == old(self).underflow_flag(),
            final(self).status() & MASK_RESERVED == old(self).status() & MASK_RESERVED,
            forall|i: int| 0 <= i < 16 ==> final(self).reg(i) == old(self).reg(i),
    {
        proof {
            lemma_clear_flag_bits(self.cpsr);
        }
        self.cpsr = self.cpsr & !MASK_CARRY;
    }

    pub fn clear_overflow(&mut self)
        ensures
            final(self).status() == (old(self).status() & !MASK_OVERFLOW),
            !final(self).overflow_flag(),
            final(self).negative_flag() == old(self).negative_flag(),
            final(self).zero_flag() == old(self).zero_flag(),
            final(self).carry_flag() == old(self).carry_flag(),
            final(self).underflow_flag() == old(self).underflow_flag(),
            final(self).status() & MASK_RESERVED == old(self).status() & MASK_RESERVED,
            forall|i: int| 0 <= i < 16 ==> final(self).reg(i) == old(self).reg(i),
    {
        proof {
            lemma_clear_flag_bits(self.cpsr);
        }
        self.cpsr = self.cpsr & !MASK_OVERFLOW;
    }

    pub fn clear_underflow(&mut self)
        ensures
            final(self).status() == (old(self).status() & !MASK_UNDERFLOW),
            !final(self).underflow_flag(),
            final(self).negative_flag() == old(self).negative_flag(),
            final(self).zero_flag() == old(self).zero_flag(),
            final(self).carry_flag() == old(self).carry_flag(),
            final(self).overflow_flag() == old(self).overflow_flag(),
            final(self).status() & MASK_RESERVED == old(self).status() & MASK_RESERVED,
            forall|i: int| 0 <= i < 16 ==> final(self).reg(i) == old(self).reg(i),
    {
        proof {
            lemma_clear_flag_bits(self.cpsr);
        }
        self.cpsr = self.cpsr & !MASK_UNDERFLOW;
    }
}

impl Default for Registers {
    /// A freshly powered-up register file: every register and every status
    /// bit is zero.
    fn default() -> (r: Registers)
        ensures
            r.status() == 0,
            forall|i: int| 0 <= i < 16 ==> r.reg(i) == 0,
    {
        Registers::new()
    }
}

/// Setting any one flag bit by OR leaves the four other flags and the
/// reserved bits as they were.
proof fn lemma_set_flag_bits(c: u32)
    by (bit_vector)
    ensures
        (c | MASK_NEGATIVE) & MASK_NEGATIVE != 0,
        ((c | MASK_NEGATIVE) & MASK_ZERO != 0) == (c & MASK_ZERO != 0),
        ((c | MASK_NEGATIVE) & MASK_CARRY != 0) == (c & MASK_CARRY != 0),
        ((c | MASK_NEGATIVE) & MASK_OVERFLOW != 0) == (c & MASK_OVERFLOW != 0),
        ((c | MASK_NEGATIVE) & MASK_UNDERFLOW != 0) == (c & MASK_UNDERFLOW != 0),
        (c | MASK_NEGATIVE) & MASK_RESERVED == c & MASK_RESERVED,
        (c | MASK_ZERO) & MASK_ZERO != 0,
        ((c | MASK_ZERO) & MASK_NEGATIVE != 0) == (c & MASK_NEGATIVE != 0),
        ((c | MASK_ZERO) & MASK_CARRY != 0) == (c & MASK_CARRY != 0),
        ((c | MASK_ZERO) & MASK_OVERFLOW != 0) == (c & MASK_OVERFLOW != 0),
        ((c | MASK_ZERO) & MASK_UNDERFLOW != 0) == (c & MASK_UNDERFLOW != 0),
        (c | MASK_ZERO) & MASK_RESERVED == c & MASK_RESERVED,
        (c | MASK_CARRY) & MASK_CARRY != 0,
        ((c | MASK_CARRY) & MASK_NEGATIVE != 0) == (c & MASK_NEGATIVE != 0),
        ((c | MASK_CARRY) & MASK_ZERO != 0) == (c & MASK_ZERO != 0),
        ((c | MASK_CARRY) & MASK_OVERFLOW != 0) == (c & MASK_OVERFLOW != 0),
        ((c | MASK_CARRY) & MASK_UNDERFLOW != 0) == (c & MASK_UNDERFLOW != 0),
        (c | MASK_CARRY) & MASK_RESERVED == c & MASK_RESERVED,
        (c | MASK_OVERFLOW) & MASK_OVERFLOW != 0,
        ((c | MASK_OVERFLOW) & MASK_NEGATIVE != 0) == (c & MASK_NEGATIVE != 0),
        ((c | MASK_OVERFLOW) & MASK_ZERO != 0) == (c & MASK_ZERO != 0),
        ((c | MASK_OVERFLOW) & MASK_CARRY != 0) == (c & MASK_CARRY != 0),
        ((c | MASK_OVERFLOW) & MASK_UNDERFLOW != 0) == (c & MASK_UNDERFLOW != 0),
        (c | MASK_OVERFLOW) & MASK_RESERVED == c & MASK_RESERVED,
        (c | MASK_UNDERFLOW) & MASK_UNDERFLOW != 0,
        ((c | MASK_UNDERFLOW) & MASK_NEGATIVE != 0) == (c & MASK_NEGATIVE != 0),
        ((c | MASK_UNDERFLOW) & MASK_ZERO != 0) == (c & MASK_ZERO != 0),
        ((c | MASK_UNDERFLOW) & MASK_CARRY != 0) == (c & MASK_CARRY != 0),
        ((c | MASK_UNDERFLOW) & MASK_OVERFLOW != 0) == (c & MASK_OVERFLOW != 0),
        (c | MASK_UNDERFLOW) & MASK_RESERVED == c & MASK_RESERVED,
{
}

/// Clearing any one flag bit by AND with the inverted mask leaves the four
/// other flags and the reserved bits as they were.
proof fn lemma_clear_flag_bits(c: u32)
    by (bit_vector)
    ensures
        (c & !MASK_NEGATIVE) & MASK_NEGATIVE == 0,
        ((c & !MASK_NEGATIVE) & MASK_ZERO != 0) == (c & MASK_ZERO != 0),
        ((c & !MASK_NEGATIVE) & MASK_CARRY != 0) == (c & MASK_CARRY != 0),
        ((c & !MASK_NEGATIVE) & MASK_OVERFLOW != 0) == (c & MASK_OVERFLOW != 0),
        ((c & !MASK_NEGATIVE) & MASK_UNDERFLOW != 0) == (c & MASK_UNDERFLOW != 0),
        (c & !MASK_NEGATIVE) & MASK_RESERVED == c & MASK_RESERVED,
        (c & !MASK_ZERO) & MASK_ZERO == 0,
        ((c & !MASK_ZERO) & MASK_NEGATIVE != 0) == (c & MASK_NEGATIVE != 0),
        ((c & !MASK_ZERO) & MASK_CARRY != 0) == (c & MASK_CARRY != 0),
        ((c & !MASK_ZERO) & MASK_OVERFLOW != 0) == (c & MASK_OVERFLOW != 0),
        ((c & !MASK_ZERO) & MASK_UNDERFLOW != 0) == (c & MASK_UNDERFLOW != 0),
        (c & !MASK_ZERO) & MASK_RESERVED == c & MASK_RESERVED,
        (c & !MASK_CARRY) & MASK_CARRY == 0,
        ((c & !MASK_CARRY) & MASK_NEGATIVE != 0) == (c & MASK_NEGATIVE != 0),
        ((c & !MASK_CARRY) & MASK_ZERO != 0) == (c & MASK_ZERO != 0),
        ((c & !MASK_CARRY) & MASK_OVERFLOW != 0) == (c & MASK_OVERFLOW != 0),
        ((c & !MASK_CARRY) & MASK_UNDERFLOW != 0) == (c & MASK_UNDERFLOW != 0),
        (c & !MASK_CARRY) & MASK_RESERVED == c & MASK_RESERVED,
        (c & !MASK_OVERFLOW) & MASK_OVERFLOW == 0,
        ((c & !MASK_OVERFLOW) & MASK_NEGATIVE != 0) == (c & MASK_NEGATIVE != 0),
        ((c & !MASK_OVERFLOW) & MASK_ZERO != 0) == (c & MASK_ZERO != 0),
        ((c & !MASK_OVERFLOW) & MASK_CARRY != 0) == (c & MASK_CARRY != 0),
        ((c & !MASK_OVERFLOW) & MASK_UNDERFLOW != 0) == (c & MASK_UNDERFLOW != 0),
        (c & !MASK_OVERFLOW) & MASK_RESERVED == c & MASK_RESERVED,
        (c & !MASK_UNDERFLOW) & MASK_UNDERFLOW == 0,
        ((c & !MASK_UNDERFLOW) & MASK_NEGATIVE != 0) == (c & MASK_NEGATIVE != 0),
        ((c & !MASK_UNDERFLOW) & MASK_ZERO != 0) == (c & MASK_ZERO != 0),
        ((c & !MASK_UNDERFLOW) & MASK_CARRY != 0) == (c & MASK_CARRY != 0),
        ((c & !MASK_UNDERFLOW) & MASK_OVERFLOW != 0) == (c & MASK_OVERFLOW != 0),
        (c & !MASK_UNDERFLOW) & MASK_RESERVED == c & MASK_RESERVED,
{
}

/// The 15 defined condition codes; the 16th encoding of the 4-bit field is
/// reserved and rejected.
#[derive(Clone, Copy, PartialEq, Eq, Structural, Debug)]
pub enum ConditionCode {
    Equal,
    NotEqual,
    CarrySet,
    CarryClear,
    Negative,
    Positive,
    OverflowSet,
    OverflowClear,
    UnsignedHigher,
    UnsignedLowerOrSame,
    GreaterOrEqual,
    LessThan,
    GreaterThan,
    LessOrEqual,
    Always,
}

/// The condition code named by a 4-bit field value below 15.
pub open spec fn code_of(bits: u32) -> ConditionCode {
    if bits == 0 {
        ConditionCode::Equal
    } else if bits == 1 {
        ConditionCode::NotEqual
    } else if bits == 2 {
        ConditionCode::CarrySet
    } else if bits == 3 {
        ConditionCode::CarryClear
    } else if bits == 4 {
        ConditionCode::Negative
    } else if bits == 5 {
        ConditionCode::Positive
    } else if bits == 6 {
        ConditionCode::OverflowSet
    } else if bits == 7 {
        ConditionCode::OverflowClear
    } else if bits == 8 {
        ConditionCode::UnsignedHigher
    } else if bits == 9 {
        ConditionCode::UnsignedLowerOrSame
    } else if bits == 10 {
        ConditionCode::GreaterOrEqual
    } else if bits == 11 {
        ConditionCode::LessThan
    } else if bits == 12 {
        ConditionCode::GreaterThan
    } else if bits == 13 {
        ConditionCode::LessOrEqual
    } else {
        ConditionCode::Always
    }
}

/// The architectural truth table: whether a condition code passes for the
/// given N, Z, C, V flag values.
pub open spec fn condition_holds(code: ConditionCode, n: bool, z: bool, c: bool, v: bool) -> bool {
    match code {
        ConditionCode::Equal => z,
        ConditionCode::NotEqual => !z,
        ConditionCode::CarrySet => c,
        ConditionCode::CarryClear => !c,
        ConditionCode::Negative => n,
        ConditionCode::Positive => !n,
        ConditionCode::OverflowSet => v,
        ConditionCode::OverflowClear => !v,
        ConditionCode::UnsignedHigher => c && !z,
        ConditionCode::UnsignedLowerOrSame => !c || z,
        ConditionCode::GreaterOrEqual => n == v,
        ConditionCode::LessThan => n != v,
        ConditionCode::GreaterThan => !z && (n == v),
        ConditionCode::LessOrEqual => z || (n != v),
        ConditionCode::Always => true,
    }
}

/// Whether the 4-bit condition field `bits` passes against the flags of `s`.
pub open spec fn condition_passes(bits: u32, s: Registers) -> bool {
    condition_holds(
        code_of(bits),
        s.negative_flag(),
        s.zero_flag(),
        s.carry_flag(),
        s.overflow_flag(),
    )
}

impl ConditionCode {
    /// Validated conversion from the raw 4-bit condition field; the one
    /// reserved encoding (and anything wider) is rejected.
    pub fn from_bits(bits: u32) -> (r: Result<ConditionCode, ExecError>)
        ensures
            bits < 15 <==> r.is_ok(),
            bits < 15 ==> r == Ok::<ConditionCode, ExecError>(code_of(bits)),
            bits >= 15 ==> r == Err::<ConditionCode, ExecError>(ExecError::IllegalCondition),
    {
        match bits {
            0 => Ok(ConditionCode::Equal),
            1 => Ok(ConditionCode::NotEqual),
            2 => Ok(ConditionCode::CarrySet),
            3 => Ok(ConditionCode::CarryClear),
            4 => Ok(ConditionCode::Negative),
            5 => Ok(ConditionCode::Positive),
            6 => Ok(ConditionCode::OverflowSet),
            7 => Ok(ConditionCode::OverflowClear),
            8 => Ok(ConditionCode::UnsignedHigher),
            9 => Ok(ConditionCode::UnsignedLowerOrSame),
            10 => Ok(ConditionCode::GreaterOrEqual),
            11 => Ok(ConditionCode::LessThan),
            12 => Ok(ConditionCode::GreaterThan),
            13 => Ok(ConditionCode::LessOrEqual),
            14 => Ok(ConditionCode::Always),
            _ => Err(ExecError::IllegalCondition),
        }
    }
}

/// Decide a condition code against the current flags, per the truth table.
pub fn eval_code(code: ConditionCode, registers: &Registers) -> (r: bool)
    ensures
        r == condition_holds(
            code,
            registers.negative_flag(),
            registers.zero_flag(),
            registers.carry_flag(),
            registers.overflow_flag(),
        ),
{
    match code {
        ConditionCode::Equal => registers.is_zero_set(),
        ConditionCode::NotEqual => !registers.is_zero_set(),
        ConditionCode::CarrySet => registers.is_carry_set(),
        ConditionCode::CarryClear => !registers.is_carry_set(),
        ConditionCode::Negative => registers.is_negative_set(),
        ConditionCode::Positive => !registers.is_negative_set(),
        ConditionCode::OverflowSet => registers.is_overflow_set(),
        ConditionCode::OverflowClear => !registers.is_overflow_set(),
        ConditionCode::UnsignedHigher => registers.is_carry_set() && !registers.is_zero_set(),
        ConditionCode::UnsignedLowerOrSame => !registers.is_carry_set() || registers.is_zero_set(),
        ConditionCode::GreaterOrEqual => registers.is_negative_set() == registers.is_overflow_set(),
        ConditionCode::LessThan => registers.is_negative_set() != registers.is_overflow_set(),
        ConditionCode::GreaterThan => !registers.is_zero_set() && (registers.is_negative_set()
            == registers.is_overflow_set()),
        ConditionCode::LessOrEqual => registers.is_zero_set() || (registers.is_negative_set()
            != registers.is_overflow_set()),
        ConditionCode::Always => true,
    }
}

/// Evaluate a raw 4-bit condition field against the current flags.  The
/// reserved encoding fails with `IllegalCondition`.
pub fn evaluate(condition: u32, registers: &Registers) -> (r: Result<bool, ExecError>)
    ensures
        condition < 15 ==> r == Ok::<bool, ExecError>(condition_passes(condition, *registers)),
        condition >= 15 ==> r == Err::<bool, ExecError>(ExecError::IllegalCondition),
{
    match ConditionCode::from_bits(condition) {
        Ok(code) => Ok(eval_code(code, registers)),
        Err(e) => Err(e),
    }
}

/// True when `cond` is one of the 15 condition-field encodings accepted by
/// `process_condition` (the 4-bit code held in bits [7:4]).
pub open spec fn is_condition_encoding(cond: u32) -> bool {
    cond % 0x10 == 0 && cond <= 0xE0
}

/// Decide an encoded condition field (one of the `COND_*` constants)
/// against the current flags.
pub fn process_condition(cond: u32, registers: &Registers) -> (r: bool)
    requires
        is_condition_encoding(cond),
    ensures
        r == condition_passes(cond / 0x10, *registers),
{
    match evaluate(cond / 0x10, registers) {
        Ok(b) => b,
        Err(_) => {
            // Unreachable: every accepted encoding names a defined code.
            proof {
                assert(cond / 0x10 < 15);
            }
            false
        },
    }
}

} // verus!
