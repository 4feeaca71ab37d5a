use arm_core::ExecError;
use arm_core::cpu::COND_AL;
use arm_core::cpu::COND_CC;
use arm_core::cpu::COND_CS;
use arm_core::cpu::COND_EQ;
use arm_core::cpu::COND_GE;
use arm_core::cpu::COND_GT;
use arm_core::cpu::COND_HI;
use arm_core::cpu::COND_LE;
use arm_core::cpu::COND_LS;
use arm_core::cpu::COND_LT;
use arm_core::cpu::COND_MI;
use arm_core::cpu::COND_NE;
use arm_core::cpu::COND_PL;
use arm_core::cpu::COND_VC;
use arm_core::cpu::COND_VS;
use arm_core::cpu::ConditionCode;
use arm_core::cpu::Registers;
use arm_core::cpu::evaluate;
use arm_core::cpu::process_condition;

// EQ - equal
// True when Z set
#[test]
fn condition_equal_true() {
    let condition: u32 = COND_EQ;

    let mut registers = Registers::default();
    registers.set_zero();

    let result = process_condition(condition, &registers);

    assert_eq!(result, true);
}

#[test]
fn condition_equal_false() {
    let condition: u32 = COND_EQ;

    let mut registers = Registers::default();
    registers.clear_zero();

    let result = process_condition(condition, &registers);

    assert_eq!(result, false);
}

// NE - not equal
// True when Z clear
#[test]
fn condition_not_equal_true() {
    let condition: u32 = COND_NE;

    let mut registers = Registers::default();
    registers.clear_zero();

    let result = process_condition(condition, &registers);

    assert_eq!(result, true);
}

#[test]
fn condition_not_equal_false() {
    let condition: u32 = COND_NE;

    let mut registers = Registers::default();
    registers.set_zero();

    let result = process_condition(condition, &registers);

    assert_eq!(result, false);
}

// CS - unsigned higher or same
// True when C set
#[test]
fn condition_carry_set_true() {
    let condition: u32 = COND_CS;

    let mut registers = Registers::default();
    registers.set_carry();

    let result = process_condition(condition, &registers);

    assert_eq!(result, true);
}

#[test]
fn condition_carry_set_false() {
    let condition: u32 = COND_CS;

    let mut registers = Registers::default();
    registers.clear_carry();

    let result = process_condition(condition, &registers);

    assert_eq!(result, false);
}

// CC - unsigned lower
// True when C clear
#[test]
fn condition_carry_clear_true() {
    let condition: u32 = COND_CC;

    let mut registers = Registers::default();
    registers.clear_carry();

    let result = process_condition(condition, &registers);

    assert_eq!(result, true);
}

#[test]
fn condition_carry_clear_false() {
    let condition: u32 = COND_CC;

    let mut registers = Registers::default();
    registers.set_carry();

    let result = process_condition(condition, &registers);

    assert_eq!(result, false);
}

// MI - negative
// True when N set
#[test]
fn condition_negative_set_true() {
    let condition: u32 = COND_MI;

    let mut registers = Registers::default();
    registers.set_negative();

    let result = process_condition(condition, &registers);

    assert_eq!(result, true);
}

#[test]
fn condition_negative_set_false() {
    let condition: u32 = COND_MI;

    let mut registers = Registers::default();
    registers.clear_negative();

    let result = process_condition(condition, &registers);

    assert_eq!(result, false);
}

// PL - positive or zero
// True when N clear
#[test]
fn condition_negative_clear_true() {
    let condition: u32 = COND_PL;

    let mut registers = Registers::default();
    registers.clear_negative();

    let result = process_condition(condition, &registers);

    assert_eq!(result, true);
}

#[test]
fn condition_negative_clear_false() {
    let condition: u32 = COND_PL;

    let mut registers = Registers::default();
    registers.set_negative();

    let result = process_condition(condition, &registers);

    assert_eq!(result, false);
}

// VS - overflow
// True when V set
#[test]
fn condition_overflow_set_true() {
    let condition: u32 = COND_VS;

    let mut registers = Registers::default();
    registers.set_overflow();

    let result = process_condition(condition, &registers);

    assert_eq!(result, true);
}

#[test]
fn condition_overflow_set_false() {
    let condition: u32 = COND_VS;

    let mut registers = Registers::default();
    registers.clear_overflow();

    let result = process_condition(condition, &registers);

    assert_eq!(result, false);
}

// VC - no overflow
// True when V clear
#[test]
fn condition_overflow_clear_true() {
    let condition: u32 = COND_VC;

    let mut registers = Registers::default();
    registers.clear_overflow();

    let result = process_condition(condition, &registers);

    assert_eq!(result, true);
}

#[test]
fn condition_overflow_clear_false() {
    let condition: u32 = COND_VC;

    let mut registers = Registers::default();
    registers.set_overflow();

    let result = process_condition(condition, &registers);

    assert_eq!(result, false);
}

// HI - unsigned higher
// True when C set and Z clear
#[test]
fn condition_hi_true() {
    let condition: u32 = COND_HI;

    let mut registers = Registers::default();
    registers.set_carry();
    registers.clear_zero();

    let result = process_condition(condition, &registers);

    assert_eq!(result, true);
}

#[test]
fn condition_hi_false_1() {
    let condition: u32 = COND_HI;

    let mut registers = Registers::default();
    registers.set_carry();
    registers.set_zero();

    let result = process_condition(condition, &registers);

    assert_eq!(result, false);
}

#[test]
fn condition_hi_false_2() {
    let condition: u32 = COND_HI;

    let mut registers = Registers::default();
    registers.clear_carry();
    registers.set_zero();

    let result = process_condition(condition, &registers);

    assert_eq!(result, false);
}

// AL - always
#[test]
fn condition_always() {
    let registers = Registers::default();
    registers.is_negative_set();
    let condition: u32 = COND_AL;

    let result = process_condition(condition, &registers);

    assert_eq!(result, true);
}

// LS - unsigned lower or same
// True when C clear or Z set
#[test]
fn condition_ls_true_carry_clear() {
    let mut registers = Registers::default();
    registers.clear_carry();
    registers.clear_zero();

    assert_eq!(process_condition(COND_LS, &registers), true);
}

#[test]
fn condition_ls_true_zero_set() {
    let mut registers = Registers::default();
    registers.set_carry();
    registers.set_zero();

    assert_eq!(process_condition(COND_LS, &registers), true);
}

#[test]
fn condition_ls_false() {
    let mut registers = Registers::default();
    registers.set_carry();
    registers.clear_zero();

    assert_eq!(process_condition(COND_LS, &registers), false);
}

// GE - signed greater or equal
// True when N == V
#[test]
fn condition_ge_true_both_clear() {
    let registers = Registers::default();

    assert_eq!(process_condition(COND_GE, &registers), true);
}

#[test]
fn condition_ge_true_both_set() {
    let mut registers = Registers::default();
    registers.set_negative();
    registers.set_overflow();

    assert_eq!(process_condition(COND_GE, &registers), true);
}

#[test]
fn condition_ge_false() {
    let mut registers = Registers::default();
    registers.set_negative();
    registers.clear_overflow();

    assert_eq!(process_condition(COND_GE, &registers), false);
}

// LT - signed less than
// True when N != V
#[test]
fn condition_lt_true() {
    let mut registers = Registers::default();
    registers.clear_negative();
    registers.set_overflow();

    assert_eq!(process_condition(COND_LT, &registers), true);
}

#[test]
fn condition_lt_false() {
    let registers = Registers::default();

    assert_eq!(process_condition(COND_LT, &registers), false);
}

// GT - signed greater than
// True when Z clear and N == V
#[test]
fn condition_gt_true() {
    let mut registers = Registers::default();
    registers.clear_zero();

    assert_eq!(process_condition(COND_GT, &registers), true);
}

#[test]
fn condition_gt_false_zero_set() {
    let mut registers = Registers::default();
    registers.set_zero();

    assert_eq!(process_condition(COND_GT, &registers), false);
}

#[test]
fn condition_gt_false_sign_mismatch() {
    let mut registers = Registers::default();
    registers.clear_zero();
    registers.set_negative();

    assert_eq!(process_condition(COND_GT, &registers), false);
}

// LE - signed less than or equal
// True when Z set or N != V
#[test]
fn condition_le_true_zero_set() {
    let mut registers = Registers::default();
    registers.set_zero();

    assert_eq!(process_condition(COND_LE, &registers), true);
}

#[test]
fn condition_le_true_sign_mismatch() {
    let mut registers = Registers::default();
    registers.clear_zero();
    registers.set_negative();

    assert_eq!(process_condition(COND_LE, &registers), true);
}

#[test]
fn condition_le_false() {
    let registers = Registers::default();

    assert_eq!(process_condition(COND_LE, &registers), false);
}

// The reserved 4-bit encoding is rejected, never silently evaluated.
#[test]
fn evaluate_rejects_reserved_encoding() {
    let registers = Registers::default();

    assert_eq!(evaluate(15, &registers), Err(ExecError::IllegalCondition));
    assert_eq!(evaluate(255, &registers), Err(ExecError::IllegalCondition));
}

#[test]
fn evaluate_accepts_defined_codes() {
    let mut registers = Registers::default();
    registers.set_zero();

    assert_eq!(evaluate(0, &registers), Ok(true));
    assert_eq!(evaluate(1, &registers), Ok(false));
    assert_eq!(evaluate(14, &registers), Ok(true));
}

#[test]
fn from_bits_rejects_only_reserved() {
    for bits in 0u32..15u32 {
        assert!(ConditionCode::from_bits(bits).is_ok());
    }
    assert_eq!(ConditionCode::from_bits(15), Err(ExecError::IllegalCondition));
    assert_eq!(ConditionCode::from_bits(16), Err(ExecError::IllegalCondition));
}

// Flag updates are masked read-modify-writes: reserved CPSR bits survive
// every set and clear.
#[test]
fn flag_updates_preserve_reserved_bits() {
    let mut registers = Registers::default();
    registers.cpsr = 0x0034_5678;

    registers.set_carry();
    assert_eq!(registers.cpsr, 0x2034_5678);
    assert!(registers.is_carry_set());

    registers.clear_carry();
    assert_eq!(registers.cpsr, 0x0034_5678);
    assert!(!registers.is_carry_set());

    registers.set_negative();
    registers.set_zero();
    registers.set_overflow();
    registers.set_underflow();
    assert_eq!(registers.cpsr, 0xD834_5678);

    registers.clear_negative();
    registers.clear_zero();
    registers.clear_overflow();
    registers.clear_underflow();
    assert_eq!(registers.cpsr, 0x0034_5678);
}

#[test]
fn underflow_flag_roundtrip() {
    let mut registers = Registers::default();
    assert!(!registers.is_underflow_set());

    registers.set_underflow();
    assert!(registers.is_underflow_set());
    assert!(!registers.is_negative_set());
    assert!(!registers.is_zero_set());
    assert!(!registers.is_carry_set());
    assert!(!registers.is_overflow_set());

    registers.clear_underflow();
    assert!(!registers.is_underflow_set());
}
