use arm_core::cpu::Registers;
use arm_core::decode::Opcode;
use arm_core::decode::Operand2;
use arm_core::decode::ShiftAmount;
use arm_core::decode::ShiftKind;
use arm_core::decode::barrel_shift;
use arm_core::decode::parse_instruction;
use arm_core::decode::resolve_operand2;

// ADDS r2, r0, #0xFF ROR 8  (cond = AL, immediate form, rotate field 4)
#[test]
fn parse_immediate_form_fields() {
    let word: u32 = (0xE << 28) | (1 << 25) | (0x4 << 21) | (1 << 20) | (0 << 16) | (2 << 12)
        | (4 << 8) | 0xFF;

    let decoded = parse_instruction(word);

    assert_eq!(decoded.condition, 0xE);
    assert_eq!(decoded.opcode, Opcode::Add);
    assert_eq!(decoded.s_bit, true);
    assert_eq!(decoded.rn, 0);
    assert_eq!(decoded.rd, 2);
    assert_eq!(decoded.operand2, Operand2::Immediate { value: 0xFF, rotate: 4 });
}

// SUBEQ r3, r1, r2 LSL #5  (register form, fixed shift amount)
#[test]
fn parse_register_form_fixed_shift() {
    let word: u32 = (0x0 << 28) | (0x2 << 21) | (1 << 16) | (3 << 12) | (5 << 7) | (0 << 5) | 2;

    let decoded = parse_instruction(word);

    assert_eq!(decoded.condition, 0x0);
    assert_eq!(decoded.opcode, Opcode::Sub);
    assert_eq!(decoded.s_bit, false);
    assert_eq!(decoded.rn, 1);
    assert_eq!(decoded.rd, 3);
    assert_eq!(
        decoded.operand2,
        Operand2::Register { rm: 2, kind: ShiftKind::LogicalLeft, amount: ShiftAmount::Fixed(5) }
    );
}

// MOV r4, r2 ASR r3  (register form, amount from a register; bit 4 set)
#[test]
fn parse_register_form_register_shift() {
    let word: u32 = (0xE << 28) | (0xD << 21) | (4 << 12) | (3 << 8) | (2 << 5) | (1 << 4) | 2;

    let decoded = parse_instruction(word);

    assert_eq!(decoded.opcode, Opcode::Mov);
    assert_eq!(decoded.rd, 4);
    assert_eq!(
        decoded.operand2,
        Operand2::Register {
            rm: 2,
            kind: ShiftKind::ArithmeticRight,
            amount: ShiftAmount::FromRegister(3),
        }
    );
}

#[test]
fn parse_covers_every_opcode() {
    let opcodes = [
        Opcode::And,
        Opcode::Eor,
        Opcode::Sub,
        Opcode::Rsb,
        Opcode::Add,
        Opcode::Adc,
        Opcode::Sbc,
        Opcode::Rsc,
        Opcode::Tst,
        Opcode::Teq,
        Opcode::Cmp,
        Opcode::Cmn,
        Opcode::Orr,
        Opcode::Mov,
        Opcode::Bic,
        Opcode::Mvn,
    ];
    for (i, expected) in opcodes.iter().enumerate() {
        let word: u32 = (0xE << 28) | ((i as u32) << 21);
        assert_eq!(parse_instruction(word).opcode, *expected);
    }
}

// Rotate amount 0 leaves the 8-bit value unchanged and hands the current
// carry flag through.
#[test]
fn immediate_rotate_zero_is_identity() {
    let mut registers = Registers::default();
    registers.set_carry();

    let op2 = Operand2::Immediate { value: 0xAB, rotate: 0 };
    assert_eq!(resolve_operand2(&op2, &registers), (0xAB, true));

    registers.clear_carry();
    assert_eq!(resolve_operand2(&op2, &registers), (0xAB, false));
}

// Rotate field 4 rotates right by 8: 0xFF lands in the top byte, and the
// carry-out is the bit rotated into position 31.
#[test]
fn immediate_rotate_four_wraps() {
    let registers = Registers::default();

    let op2 = Operand2::Immediate { value: 0xFF, rotate: 4 };
    assert_eq!(resolve_operand2(&op2, &registers), (0xFF00_0000, true));
}

// A logical-left shift of amount 0 returns the unshifted register value
// and the unchanged carry flag.
#[test]
fn register_shift_zero_is_identity() {
    let mut registers = Registers::default();
    registers.set_register(2, 0x1234_5678);
    registers.set_carry();

    let op2 = Operand2::Register {
        rm: 2,
        kind: ShiftKind::LogicalLeft,
        amount: ShiftAmount::Fixed(0),
    };
    assert_eq!(resolve_operand2(&op2, &registers), (0x1234_5678, true));

    registers.clear_carry();
    assert_eq!(resolve_operand2(&op2, &registers), (0x1234_5678, false));
}

#[test]
fn logical_left_shifts_out_carry() {
    assert_eq!(barrel_shift(ShiftKind::LogicalLeft, 0xF000_000F, 4, false), (0x0000_00F0, true));
    assert_eq!(barrel_shift(ShiftKind::LogicalLeft, 1, 31, false), (0x8000_0000, false));
    assert_eq!(barrel_shift(ShiftKind::LogicalLeft, 3, 32, false), (0, true));
    assert_eq!(barrel_shift(ShiftKind::LogicalLeft, 0xFFFF_FFFF, 33, true), (0, false));
}

// A logical-right shift of 32 yields 0 with carry = bit 31; amounts past
// 32 yield 0 with no carry.
#[test]
fn logical_right_edge_amounts() {
    assert_eq!(barrel_shift(ShiftKind::LogicalRight, 0x8000_0001, 1, false), (0x4000_0000, true));
    assert_eq!(barrel_shift(ShiftKind::LogicalRight, 0x8000_0001, 32, false), (0, true));
    assert_eq!(barrel_shift(ShiftKind::LogicalRight, 0x7FFF_FFFF, 32, true), (0, false));
    assert_eq!(barrel_shift(ShiftKind::LogicalRight, 0xFFFF_FFFF, 40, true), (0, false));
}

#[test]
fn arithmetic_right_replicates_sign() {
    assert_eq!(
        barrel_shift(ShiftKind::ArithmeticRight, 0x8000_0000, 4, false),
        (0xF800_0000, false)
    );
    assert_eq!(barrel_shift(ShiftKind::ArithmeticRight, 0x0000_00F0, 4, true), (0x0000_000F, false));
    assert_eq!(
        barrel_shift(ShiftKind::ArithmeticRight, 0x8000_0000, 40, false),
        (0xFFFF_FFFF, true)
    );
    assert_eq!(barrel_shift(ShiftKind::ArithmeticRight, 0x7FFF_FFFF, 40, false), (0, false));
}

#[test]
fn rotate_right_wraps_bits() {
    assert_eq!(barrel_shift(ShiftKind::RotateRight, 0x0000_00F1, 4, false), (0x1000_000F, false));
    assert_eq!(barrel_shift(ShiftKind::RotateRight, 0x0000_000F, 4, false), (0xF000_0000, true));
    assert_eq!(barrel_shift(ShiftKind::RotateRight, 0x8000_0001, 32, false), (0x8000_0001, true));
    assert_eq!(barrel_shift(ShiftKind::RotateRight, 0x0000_0001, 33, false), (0x8000_0000, true));
}

// A register-supplied shift amount uses only the low 8 bits of Rs.
#[test]
fn register_shift_amount_uses_low_byte() {
    let mut registers = Registers::default();
    registers.set_register(1, 0x0000_0010);
    registers.set_register(3, 0xFFFF_FF04);

    let op2 = Operand2::Register {
        rm: 1,
        kind: ShiftKind::LogicalLeft,
        amount: ShiftAmount::FromRegister(3),
    };
    assert_eq!(resolve_operand2(&op2, &registers), (0x0000_0100, false));
}
