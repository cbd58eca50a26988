use std::mem;
use oil::bytecode::{Bytecode, BytecodeError, Instruction, OpCode, Value, ValueType, check_bytecode};

#[test]
fn check_opcode_enum_size() {
    assert_eq!(mem::size_of::<OpCode>(), 1);
}

#[test]
fn check_opcode_byte_values() {
    assert_eq!(0, OpCode::Const as u8);
    assert_eq!(1, OpCode::VarAccess as u8);
    assert_eq!(2, OpCode::Not as u8);
    assert_eq!(3, OpCode::Sign as u8);
    assert_eq!(4, OpCode::Add as u8);
    assert_eq!(5, OpCode::Sub as u8);
    assert_eq!(6, OpCode::Mul as u8);
    assert_eq!(7, OpCode::Div as u8);
    assert_eq!(8, OpCode::Pow as u8);
    assert_eq!(9, OpCode::Mod as u8);
    assert_eq!(10, OpCode::Or as u8);
    assert_eq!(11, OpCode::And as u8);
    assert_eq!(12, OpCode::EqEq as u8);
    assert_eq!(13, OpCode::NotEq as u8);
    assert_eq!(14, OpCode::LessThan as u8);
    assert_eq!(15, OpCode::GreaterThan as u8);
    assert_eq!(16, OpCode::LessThanOrEq as u8);
    assert_eq!(17, OpCode::GreaterThanOrEq as u8);
    assert_eq!(18, OpCode::SkipnIfNZ as u8);
}

#[test]
fn check_opcode_byte_table_round_trip() {
    // Every byte of the table decodes to the opcode that encodes back to
    // it, and bytes past the table decode to nothing.
    for b in 0u8..=19u8 {
        let op = OpCode::from_byte(b).unwrap();
        assert_eq!(op.to_byte(), b);
    }
    for b in 20u8..=255u8 {
        assert!(OpCode::from_byte(b).is_none());
    }
}

#[test]
fn test_iter_instr() {
    let bytecode = Bytecode::new(
        vec![],
        vec![
            // Const 3
            0, 0, 0, 0, 0, 0, 0, 8, 64, // Const 2
            0, 0, 0, 0, 0, 0, 0, 0, 64, // Mul
            6, // Const 1
            0, 0, 0, 0, 0, 0, 0, 240, 63, // Add
            4,
        ],
    )
    .unwrap();
    let mut iter = bytecode.instr_iter();
    assert_eq!(
        iter.next(),
        Some(Instruction {
            op: OpCode::Const,
            val: Value::from_number_bits(3.0f64.to_bits())
        })
    );
    assert_eq!(
        iter.next(),
        Some(Instruction {
            op: OpCode::Const,
            val: Value::from_number_bits(2.0f64.to_bits())
        })
    );
    assert_eq!(
        iter.next(),
        Some(Instruction {
            op: OpCode::Mul,
            val: Value::null_val()
        })
    );
    assert_eq!(
        iter.next(),
        Some(Instruction {
            op: OpCode::Const,
            val: Value::from_number_bits(1.0f64.to_bits())
        })
    );
    assert_eq!(
        iter.next(),
        Some(Instruction {
            op: OpCode::Add,
            val: Value::null_val()
        })
    );
    assert_eq!(iter.next(), None);
}

#[test]
fn test_iter_instr_var_access() {
    let bytecode = Bytecode::new(
        vec![],
        vec![
            // VarAccess 0
            1, 0, 0, 0, 0, 0, 0, 0, 0, // Const 25.12
            0, 31, 133, 235, 81, 184, 30, 57, 64, // Mul
            6, // VarAccess 1
            1, 1, 0, 0, 0, 0, 0, 0, 0, // Add
            4, // SkipnIfNZ
            18, 1, 0, 0, 0, 0, 0, 0, 0,
        ],
    )
    .unwrap();
    let mut iter = bytecode.instr_iter();
    assert_eq!(
        iter.next(),
        Some(Instruction {
            op: OpCode::VarAccess,
            val: Value::from_var_access(0)
        })
    );
    assert_eq!(
        iter.next(),
        Some(Instruction {
            op: OpCode::Const,
            val: Value::from_number_bits(25.12f64.to_bits())
        })
    );
    assert_eq!(
        iter.next(),
        Some(Instruction {
            op: OpCode::Mul,
            val: Value::null_val()
        })
    );
    assert_eq!(
        iter.next(),
        Some(Instruction {
            op: OpCode::VarAccess,
            val: Value::from_var_access(1)
        })
    );
    assert_eq!(
        iter.next(),
        Some(Instruction {
            op: OpCode::Add,
            val: Value::null_val()
        })
    );
    let skip_inst = iter.next().unwrap();
    assert_eq!(skip_inst.op, OpCode::SkipnIfNZ);
    assert_eq!(skip_inst.val.raw_bits(), 1);
}

#[test]
fn check_stack_value_size() {
    assert_eq!(mem::size_of::<Value>(), 8);
}

#[test]
fn check_varaccess_type() {
    assert_eq!(Value::from_var_access(123).get_type(), ValueType::VarAccess);
    assert_eq!(123, Value::from_var_access(123).as_var_access().unwrap());
}

#[test]
fn check_bool_type() {
    assert_eq!(Value::from_bool(true).get_type(), ValueType::Boolean);
    assert_eq!(true, Value::from_bool(true).as_bool());
    assert_eq!(false, Value::from_bool(false).as_bool());
}

#[test]
fn check_number_type() {
    assert_eq!(
        Value::from_number_bits((12.3e10f64).to_bits()).get_type(),
        ValueType::Number
    );
    assert_eq!(
        23.3f64,
        f64::from_bits(Value::from_number_bits(23.3f64.to_bits()).as_number_bits().unwrap())
    );
    assert!(Value::from_bool(false).as_number_bits().is_err());
    assert!(Value::from_bool(true).as_number_bits().is_err());
    assert!(Value::from_var_access(23).as_number_bits().is_err());
}

#[test]
fn check_nan_boxing_round_trip() {
    // Numbers outside the reserved quiet-NaN range survive unchanged.
    for x in [0.0f64, -0.0, 1.5, -12.75, f64::MAX, f64::MIN, f64::MIN_POSITIVE, f64::INFINITY] {
        let v = Value::from_number_bits(x.to_bits());
        assert_eq!(v.get_type(), ValueType::Number);
        assert_eq!(f64::from_bits(v.as_number_bits().unwrap()), x);
    }
    // The last bit pattern before the reserved range is still a number.
    let edge = Value::from_number_bits(0x7ffbffffffffffffu64);
    assert_eq!(edge.get_type(), ValueType::Number);
    // Variable ids below the payload limit round-trip; at or above it,
    // construction fails instead of truncating.
    for id in [0u64, 1, 123, (1u64 << 50) - 1] {
        let v = Value::try_from_var_access(id).unwrap();
        assert_eq!(v.get_type(), ValueType::VarAccess);
        assert_eq!(v.as_var_access().unwrap(), id);
    }
    assert!(Value::try_from_var_access(1u64 << 50).is_none());
    assert!(Value::try_from_var_access(1u64 << 51).is_none());
    assert!(Value::try_from_var_access(u64::MAX).is_none());
}

#[test]
fn check_bytecode_validation() {
    // A truncated operand and an unknown opcode are reported with their
    // offsets; an oversized variable id is refused.
    assert!(check_bytecode(&vec![], &vec![]).is_ok());
    assert_eq!(
        check_bytecode(&vec![], &vec![0, 1, 2]),
        Err(BytecodeError::TruncatedOperand { location: 0 })
    );
    assert_eq!(
        check_bytecode(&vec![], &vec![2, 99]),
        Err(BytecodeError::InvalidOpcode { location: 1 })
    );
    let mut big_id = vec![1u8];
    big_id.extend_from_slice(&(1u64 << 51).to_le_bytes());
    assert_eq!(
        check_bytecode(&vec![], &big_id),
        Err(BytecodeError::OperandOutOfRange { location: 1 })
    );
}
