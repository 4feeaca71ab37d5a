//! The ALU and executor: opcode semantics, flag computation and the
//! commit of one data-processing instruction to the register file.

use crate::ExecError;
use crate::bit31;
use crate::cpu::MASK_RESERVED;
use crate::cpu::Registers;
use crate::cpu::condition_passes;
use crate::cpu::evaluate;
use crate::decode::DecodedInstruction;
use crate::decode::Opcode;
use crate::decode::resolve_operand2;
use crate::decode::shifter_carry;
use crate::decode::shifter_value;
use vstd::prelude::*;

verus! {

/// Numeric value of a carry or borrow bit.
pub open spec fn bit_val(b: bool) -> u32 {
    if b {
        1
    } else {
        0
    }
}

/// Addition modulo 2^32 of two operands and a carry bit.
pub open spec fn wrap_add(a: u32, b: u32, carry: u32) -> u32 {
    (((a + b + carry) % 0x1_0000_0000) as u32)
}

/// Subtraction `a - b - borrow` modulo 2^32 (`borrow` is 0 or 1).
pub open spec fn wrap_sub(a: u32, b: u32, borrow: u32) -> u32
    recommends
        borrow <= 1,
{
    (((a + 0x1_0000_0000 - b - borrow) % 0x1_0000_0000) as u32)
}

/// The opcodes that write their result into Rd; the four comparison
/// opcodes update flags only.
pub open spec fn writes_rd(op: Opcode) -> bool {
    match op {
        Opcode::Tst | Opcode::Teq | Opcode::Cmp | Opcode::Cmn => false,
        _ => true,
    }
}

/// The logical opcodes: their C flag comes from the shifter carry-out and
/// they leave V unchanged.
pub open spec fn is_logical(op: Opcode) -> bool {
    match op {
        Opcode::And | Opcode::Eor | Opcode::Tst | Opcode::Teq | Opcode::Orr | Opcode::Mov
            | Opcode::Bic | Opcode::Mvn => true,
        _ => false,
    }
}

/// The 32-bit result of one ALU operation, with `c_in` the current carry
/// flag (used by ADC, SBC and RSC).
pub open spec fn alu_result(op: Opcode, op1: u32, op2: u32, c_in: bool) -> u32 {
    match op {
        Opcode::And => op1 & op2,
        Opcode::Eor => op1 ^ op2,
        Opcode::Sub => wrap_sub(op1, op2, 0),
        Opcode::Rsb => wrap_sub(op2, op1, 0),
        Opcode::Add => wrap_add(op1, op2, 0),
        Opcode::Adc => wrap_add(op1, op2, bit_val(c_in)),
        Opcode::Sbc => wrap_sub(op1, op2, (1 - bit_val(c_in)) as u32),
        Opcode::Rsc => wrap_sub(op2, op1, (1 - bit_val(c_in)) as u32),
        Opcode::Tst => op1 & op2,
        Opcode::Teq => op1 ^ op2,
        Opcode::Cmp => wrap_sub(op1, op2, 0),
        Opcode::Cmn => wrap_add(op1, op2, 0),
        Opcode::Orr => op1 | op2,
        Opcode::Mov => op2,
        Opcode::Bic => op1 & !op2,
        Opcode::Mvn => !op2,
    }
}

/// The carry produced by an arithmetic opcode: unsigned overflow of the
/// addition, or absence of borrow for the subtractive forms.
pub open spec fn arith_carry(op: Opcode, op1: u32, op2: u32, c_in: bool) -> bool {
    match op {
        Opcode::Add | Opcode::Cmn => op1 + op2 >= 0x1_0000_0000,
        Opcode::Adc => op1 + op2 + bit_val(c_in) >= 0x1_0000_0000,
        Opcode::Sub | Opcode::Cmp => op1 >= op2,
        Opcode::Rsb => op2 >= op1,
        Opcode::Sbc => op1 + bit_val(c_in) >= op2 + 1,
        Opcode::Rsc => op2 + bit_val(c_in) >= op1 + 1,
        _ => false,
    }
}

/// The signed-overflow bit produced by an arithmetic opcode: for addition,
/// both operands share a sign and the result's sign differs; for
/// subtraction, the operands differ in sign and the result's sign matches
/// the subtrahend's.
pub open spec fn arith_overflow(op: Opcode, op1: u32, op2: u32, c_in: bool) -> bool {
    match op {
        Opcode::Add | Opcode::Adc | Opcode::Cmn => bit31(op1) == bit31(op2) && bit31(
            alu_result(op, op1, op2, c_in),
        ) != bit31(op1),
        Opcode::Sub | Opcode::Sbc | Opcode::Cmp => bit31(op1) != bit31(op2) && bit31(
            alu_result(op, op1, op2, c_in),
        ) == bit31(op2),
        Opcode::Rsb | Opcode::Rsc => bit31(op1) != bit31(op2) && bit31(
            alu_result(op, op1, op2, c_in),
        ) == bit31(op1),
        _ => false,
    }
}

/// The C flag after an S-bit update: the shifter carry-out for logical
/// opcodes, the arithmetic carry otherwise.
pub open spec fn flag_c_after(op: Opcode, op1: u32, op2: u32, c_in: bool, shift_c: bool) -> bool {
    if is_logical(op) {
        shift_c
    } else {
        arith_carry(op, op1, op2, c_in)
    }
}

/// The V flag after an S-bit update: unchanged for logical opcodes, the
/// signed-overflow bit otherwise.
pub open spec fn flag_v_after(op: Opcode, op1: u32, op2: u32, c_in: bool, v_old: bool) -> bool {
    if is_logical(op) {
        v_old
    } else {
        arith_overflow(op, op1, op2, c_in)
    }
}

// The inputs one instruction hands the ALU, read from the pre-state.
/// First ALU operand: the register named by Rn.
pub open spec fn op1_of(d: DecodedInstruction, s: Registers) -> u32 {
    s.reg(d.rn as int)
}

/// Second ALU operand: operand 2 resolved through the barrel shifter.
pub open spec fn op2_of(d: DecodedInstruction, s: Registers) -> u32 {
    shifter_value(d.operand2, s)
}

/// The result the instruction computes in pre-state `s`.
pub open spec fn result_of(d: DecodedInstruction, s: Registers) -> u32 {
    alu_result(d.opcode, op1_of(d, s), op2_of(d, s), s.carry_flag())
}

/// The C flag an S-bit update writes in pre-state `s`.
pub open spec fn carry_of(d: DecodedInstruction, s: Registers) -> bool {
    flag_c_after(d.opcode, op1_of(d, s), op2_of(d, s), s.carry_flag(), shifter_carry(d.operand2, s))
}

/// The V flag an S-bit update writes in pre-state `s`.
pub open spec fn overflow_of(d: DecodedInstruction, s: Registers) -> bool {
    flag_v_after(d.opcode, op1_of(d, s), op2_of(d, s), s.carry_flag(), s.overflow_flag())
}

/// Whether the instruction executes at all: its condition passes against
/// the pre-state flags.
pub open spec fn runs(d: DecodedInstruction, s: Registers) -> bool {
    condition_passes(d.condition, s)
}

/// Compute one ALU operation: result, carry and signed overflow.  The
/// returned carry already folds in the shifter carry-out for logical
/// opcodes; the returned overflow bit is meaningful for arithmetic opcodes
/// only (execution leaves V untouched for logical ones).
pub fn alu_compute(op: Opcode, op1: u32, op2: u32, carry_in: bool, shift_carry: bool) -> (r: (
    u32,
    bool,
    bool,
))
    ensures
        r.0 == alu_result(op, op1, op2, carry_in),
        r.1 == flag_c_after(op, op1, op2, carry_in, shift_carry),
        r.2 == arith_overflow(op, op1, op2, carry_in),
{
    match op {
        Opcode::And | Opcode::Tst => (op1 & op2, shift_carry, false),
        Opcode::Eor | Opcode::Teq => (op1 ^ op2, shift_carry, false),
        Opcode::Orr => (op1 | op2, shift_carry, false),
        Opcode::Mov => (op2, shift_carry, false),
        Opcode::Bic => (op1 & !op2, shift_carry, false),
        Opcode::Mvn => (!op2, shift_carry, false),
        Opcode::Add | Opcode::Cmn => {
            let wide: u64 = op1 as u64 + op2 as u64;
            let value: u32 = (wide % 0x1_0000_0000) as u32;
            let carry: bool = wide >= 0x1_0000_0000;
            let overflow: bool = sign_of(op1) == sign_of(op2) && sign_of(value) != sign_of(op1);
            (value, carry, overflow)
        },
        Opcode::Adc => {
            let c: u64 = if carry_in {
                1
            } else {
                0
            };
            let wide: u64 = op1 as u64 + op2 as u64 + c;
            let value: u32 = (wide % 0x1_0000_0000) as u32;
            let carry: bool = wide >= 0x1_0000_0000;
            let overflow: bool = sign_of(op1) == sign_of(op2) && sign_of(value) != sign_of(op1);
            (value, carry, overflow)
        },
        Opcode::Sub | Opcode::Cmp => {
            let wide: u64 = op1 as u64 + 0x1_0000_0000 - op2 as u64;
            let value: u32 = (wide % 0x1_0000_0000) as u32;
            let carry: bool = op1 >= op2;
            let overflow: bool = sign_of(op1) != sign_of(op2) && sign_of(value) == sign_of(op2);
            (value, carry, overflow)
        },
        Opcode::Rsb => {
            let wide: u64 = op2 as u64 + 0x1_0000_0000 - op1 as u64;
            let value: u32 = (wide % 0x1_0000_0000) as u32;
            let carry: bool = op2 >= op1;
            let overflow: bool = sign_of(op1) != sign_of(op2) && sign_of(value) == sign_of(op1);
            (value, carry, overflow)
        },
        Opcode::Sbc => {
            let borrow: u64 = if carry_in {
                0
            } else {
                1
            };
            let wide: u64 = op1 as u64 + 0x1_0000_0000 - op2 as u64 - borrow;
            let value: u32 = (wide % 0x1_0000_0000) as u32;
            let carry: bool = op1 as u64 + 1 - borrow >= op2 as u64 + 1;
            let overflow: bool = sign_of(op1) != sign_of(op2) && sign_of(value) == sign_of(op2);
            (value, carry, overflow)
        },
        Opcode::Rsc => {
            let borrow: u64 = if carry_in {
                0
            } else {
                1
            };
            let wide: u64 = op2 as u64 + 0x1_0000_0000 - op1 as u64 - borrow;
            let value: u32 = (wide % 0x1_0000_0000) as u32;
            let carry: bool = op2 as u64 + 1 - borrow >= op1 as u64 + 1;
            let overflow: bool = sign_of(op1) != sign_of(op2) && sign_of(value) == sign_of(op1);
            (value, carry, overflow)
        },
    }
}

/// Sign bit (bit 31) of a 32-bit value.
fn sign_of(x: u32) -> (b: bool)
    ensures
        b == bit31(x),
{
    x & 0x8000_0000 != 0
}

/// Whether the opcode writes its result into Rd.
pub fn opcode_writes_rd(op: Opcode) -> (r: bool)
    ensures
        r == writes_rd(op),
{
    match op {
        Opcode::Tst | Opcode::Teq | Opcode::Cmp | Opcode::Cmn => false,
        _ => true,
    }
}

/// Whether the opcode is a logical one.
pub fn opcode_is_logical(op: Opcode) -> (r: bool)
    ensures
        r == is_logical(op),
{
    match op {
        Opcode::And | Opcode::Eor | Opcode::Tst | Opcode::Teq | Opcode::Orr | Opcode::Mov
            | Opcode::Bic | Opcode::Mvn => true,
        _ => false,
    }
}

/// Law: the four comparison opcodes never write Rd, whatever the S bit
/// says; together with the contract of `execute` this means CMP, CMN, TST
/// and TEQ leave every general-purpose register unchanged.
pub proof fn lemma_compare_opcodes_write_nothing()
    ensures
        !writes_rd(Opcode::Tst),
        !writes_rd(Opcode::Teq),
        !writes_rd(Opcode::Cmp),
        !writes_rd(Opcode::Cmn),
{
}

/// Law: MOV hands operand 2 through unchanged, takes its C flag from the
/// shifter carry-out, and never touches V.
pub proof fn lemma_mov_result_and_flags(op1: u32, op2: u32, c_in: bool, shift_c: bool, v_old: bool)
    ensures
        alu_result(Opcode::Mov, op1, op2, c_in) == op2,
        flag_c_after(Opcode::Mov, op1, op2, c_in, shift_c) == shift_c,
        flag_v_after(Opcode::Mov, op1, op2, c_in, v_old) == v_old,
{
}

/// Execute one decoded data-processing instruction against the register
/// file.
///
/// The instruction is an atomic unit: a reserved condition encoding fails
/// with `IllegalCondition` before any mutation; a condition that evaluates
/// false is a successful no-op; the S bit with PC as destination fails with
/// `IllegalDestination` before any mutation; otherwise the result is
/// written to Rd (unless the opcode is comparison-only) and, if the S bit
/// is set, N/Z/C/V are updated while Q and every reserved CPSR bit keep
/// their values.
pub fn execute(decoded: &DecodedInstruction, registers: &mut Registers) -> (r: Result<
    (),
    ExecError,
>)
    requires
        decoded.wf(),
    ensures
        decoded.condition >= 15 ==> r == Err::<(), ExecError>(ExecError::IllegalCondition)
            && *final(registers) == *old(registers),
        decoded.condition < 15 && !runs(*decoded, *old(registers)) ==> r == Ok::<(), ExecError>(())
            && *final(registers) == *old(registers),
        decoded.condition < 15 && runs(*decoded, *old(registers)) && decoded.s_bit && decoded.rd
            == 15 ==> r == Err::<(), ExecError>(ExecError::IllegalDestination) && *final(registers)
            == *old(registers),
        decoded.condition < 15 && runs(*decoded, *old(registers)) && !(decoded.s_bit && decoded.rd
            == 15) ==> {
            &&& r == Ok::<(), ExecError>(())
            &&& (writes_rd(decoded.opcode) ==> final(registers).reg(decoded.rd as int) == result_of(
                *decoded,
                *old(registers),
            ))
            &&& (!writes_rd(decoded.opcode) ==> final(registers).reg(decoded.rd as int) == old(
                registers,
            ).reg(decoded.rd as int))
            &&& (forall|i: int|
                0 <= i < 16 && i != decoded.rd as int ==> final(registers).reg(i) == old(
                    registers,
                ).reg(i))
            &&& (!decoded.s_bit ==> final(registers).status() == old(registers).status())
            &&& (decoded.s_bit ==> {
                &&& final(registers).negative_flag() == bit31(result_of(*decoded, *old(registers)))
                &&& final(registers).zero_flag() == (result_of(*decoded, *old(registers)) == 0)
                &&& final(registers).carry_flag() == carry_of(*decoded, *old(registers))
                &&& final(registers).overflow_flag() == overflow_of(*decoded, *old(registers))
                &&& final(registers).underflow_flag() == old(registers).underflow_flag()
                &&& final(registers).status() & MASK_RESERVED == old(registers).status()
                    & MASK_RESERVED
            })
        },
{
    let passes: bool = match evaluate(decoded.condition, registers) {
        Ok(b) => b,
        Err(e) => {
            return Err(e);
        },
    };
    if !passes {
        return Ok(());
    }
    if decoded.s_bit && decoded.rd == 15 {
        return Err(ExecError::IllegalDestination);
    }
    let op1: u32 = registers.get_register(decoded.rn);
    let resolved: (u32, bool) = resolve_operand2(&decoded.operand2, registers);
    let op2: u32 = resolved.0;
    let shift_c: bool = resolved.1;
    let carry_in: bool = registers.is_carry_set();
    let computed: (u32, bool, bool) = alu_compute(decoded.opcode, op1, op2, carry_in, shift_c);
    let result: u32 = computed.0;
    if decoded.s_bit {
        if result & 0x8000_0000 != 0 {
            registers.set_negative();
        } else {
            registers.clear_negative();
        }
        if result == 0 {
            registers.set_zero();
        } else {
            registers.clear_zero();
        }
        if computed.1 {
            registers.set_carry();
        } else {
            registers.clear_carry();
        }
        if !opcode_is_logical(decoded.opcode) {
            if computed.2 {
                registers.set_overflow();
            } else {
                registers.clear_overflow();
            }
        }
    }
    if opcode_writes_rd(decoded.opcode) {
        registers.set_register(decoded.rd, result);
    }
    Ok(())
}

} // verus!
