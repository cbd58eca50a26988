use oil::bytecode::{Bytecode, OpCode, Value, ValueType};
use oil::vm::{StepOutcome, VM, VmError};

/// Drives the machine over a bytecode stream, computing the arithmetic
/// the machine asks for with real doubles.
fn execute(bytecode: &Bytecode) -> Result<Value, VmError> {
    let mut vm = VM::new();
    let mut iter = bytecode.instr_iter();
    while let Some(instr) = iter.next() {
        match vm.step(instr) {
            StepOutcome::Continue => {}
            StepOutcome::Returned { value } => return Ok(value),
            StepOutcome::Failed { error } => return Err(error),
            StepOutcome::NeedsArith { op, lhs_bits, rhs_bits } => {
                let a = f64::from_bits(lhs_bits);
                let b = f64::from_bits(rhs_bits);
                let res = match op {
                    OpCode::Add => a + b,
                    OpCode::Sub => a - b,
                    OpCode::Mul => a * b,
                    OpCode::Div => a / b,
                    OpCode::Pow => a.powf(b),
                    OpCode::Mod => a % b,
                    _ => unreachable!(),
                };
                vm.resume_arith(res.to_bits());
            }
        }
    }
    match vm.finish() {
        StepOutcome::Returned { value } => Ok(value),
        StepOutcome::Failed { error } => Err(error),
        _ => unreachable!(),
    }
}

fn const_instr(x: f64) -> Vec<u8> {
    let mut v = vec![0u8];
    v.extend_from_slice(&x.to_bits().to_le_bytes());
    v
}

#[test]
fn vm_arithmetic_scenario() {
    // Const 3.0, Const 2.0, Mul, Const 1.0, Add evaluates to 7.0.
    let mut code = Vec::new();
    code.extend(const_instr(3.0));
    code.extend(const_instr(2.0));
    code.push(6);
    code.extend(const_instr(1.0));
    code.push(4);
    let bytecode = Bytecode::new(vec![], code).unwrap();
    let result = execute(&bytecode).unwrap();
    assert_eq!(f64::from_bits(result.as_number_bits().unwrap()), 7.0);
}

#[test]
fn vm_comparison_scenario() {
    // 1.0 < 2.0 pushes true.
    let mut code = Vec::new();
    code.extend(const_instr(1.0));
    code.extend(const_instr(2.0));
    code.push(14);
    let bytecode = Bytecode::new(vec![], code).unwrap();
    let result = execute(&bytecode).unwrap();
    assert_eq!(result.get_type(), ValueType::Boolean);
    assert!(result.as_bool());
}

#[test]
fn vm_comparison_matches_doubles() {
    // The machine's bit-level comparison agrees with the hardware on
    // ordinary values, signed zeroes, and unordered operands.
    let samples = [0.0f64, -0.0, 1.0, -1.0, 2.5, f64::INFINITY, f64::NEG_INFINITY, f64::NAN];
    for &a in &samples {
        for &b in &samples {
            let mut code = Vec::new();
            code.extend(const_instr(a));
            code.extend(const_instr(b));
            code.push(14); // LessThan
            let bytecode = Bytecode::new(vec![], code).unwrap();
            let lt = execute(&bytecode).unwrap().as_bool();
            assert_eq!(lt, a < b, "comparing {a} < {b}");

            let mut code = Vec::new();
            code.extend(const_instr(a));
            code.extend(const_instr(b));
            code.push(12); // EqEq
            let bytecode = Bytecode::new(vec![], code).unwrap();
            let eq = execute(&bytecode).unwrap().as_bool();
            assert_eq!(eq, a == b, "comparing {a} == {b}");
        }
    }
}

#[test]
fn vm_skip_scenario() {
    // SkipnIfNZ 1 drops the instruction after it.
    let mut code = vec![18u8];
    code.extend_from_slice(&1u64.to_le_bytes());
    code.extend(const_instr(5.0));
    code.extend(const_instr(9.0));
    let bytecode = Bytecode::new(vec![], code).unwrap();
    let result = execute(&bytecode).unwrap();
    assert_eq!(f64::from_bits(result.as_number_bits().unwrap()), 9.0);
}

#[test]
fn vm_sign_and_not() {
    let mut code = Vec::new();
    code.extend(const_instr(2.5));
    code.push(3); // Sign
    let bytecode = Bytecode::new(vec![], code).unwrap();
    let result = execute(&bytecode).unwrap();
    assert_eq!(f64::from_bits(result.as_number_bits().unwrap()), -2.5);

    // Not on a non-boolean treats it as false.
    let mut code = Vec::new();
    code.extend(const_instr(1.0));
    code.push(2); // Not
    let bytecode = Bytecode::new(vec![], code).unwrap();
    let result = execute(&bytecode).unwrap();
    assert!(result.as_bool());
}

#[test]
fn vm_comparison_underflow_fails() {
    // Comparisons demand two operands; an empty stack is an imbalance.
    let bytecode = Bytecode::new(vec![], vec![12]).unwrap();
    assert_eq!(execute(&bytecode), Err(VmError::StackImbalance));
}

#[test]
fn vm_arithmetic_defaults_missing_operands() {
    // Arithmetic tolerates missing operands, defaulting them to zero.
    let bytecode = Bytecode::new(vec![], vec![4]).unwrap();
    let result = execute(&bytecode).unwrap();
    assert_eq!(f64::from_bits(result.as_number_bits().unwrap()), 0.0);
}

#[test]
fn vm_var_access_unsupported() {
    let mut code = vec![1u8];
    code.extend_from_slice(&0u64.to_le_bytes());
    let bytecode = Bytecode::new(vec![], code).unwrap();
    assert_eq!(execute(&bytecode), Err(VmError::UnsupportedInstruction));
}

#[test]
fn vm_ambiguous_final_state_fails() {
    // Two values left at the end of the stream is an error, not a value.
    let mut code = Vec::new();
    code.extend(const_instr(1.0));
    code.extend(const_instr(2.0));
    let bytecode = Bytecode::new(vec![], code).unwrap();
    assert_eq!(execute(&bytecode), Err(VmError::StackImbalance));
}

#[test]
fn vm_empty_stream_returns_null() {
    let bytecode = Bytecode::new(vec![], vec![]).unwrap();
    let result = execute(&bytecode).unwrap();
    assert_eq!(result, Value::null_val());
}

#[test]
fn vm_type_mismatch_in_arithmetic() {
    // A boolean operand in arithmetic is a type error.
    let mut code = Vec::new();
    code.extend(const_instr(1.0));
    code.extend(const_instr(2.0));
    code.push(12); // EqEq: leaves a boolean
    code.extend(const_instr(1.0));
    code.push(4); // Add boolean + number
    let bytecode = Bytecode::new(vec![], code).unwrap();
    assert_eq!(execute(&bytecode), Err(VmError::TypeMismatch));
}
