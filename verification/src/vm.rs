use vstd::prelude::*;
use crate::bytecode::{
    Instruction, OpCode, Value, spec_is_number, spec_null_bits, spec_true_bits, spec_false_bits,
    SIGN_BIT,
};

verus! {

// The stack machine that evaluates an instruction stream. It owns every
// decision the interpreter makes: stack discipline, skip handling, type
// checks, comparison semantics, and the shape of the final state. Only
// the six arithmetic operations on doubles are left to the caller: when
// one is due, `step` hands out the two operand bit patterns and the
// caller feeds the numeric result back through `resume_arith`.
/// Runtime failures of the machine, each with its own kind.
#[derive(Debug, PartialEq, Eq, Clone, Copy, Structural)]
pub enum VmError {
    /// An operand had the wrong type for the operation.
    TypeMismatch,
    /// The stack held more than one value at return, or a comparison
    /// found no operands to pop.
    StackImbalance,
    /// The instruction has no execution semantics yet (variable access).
    UnsupportedInstruction,
}

/// What one executed instruction asks of the driver.
#[derive(Debug, PartialEq, Eq, Clone, Copy, Structural)]
pub enum StepOutcome {
    /// Feed the next instruction.
    Continue,
    /// Apply the arithmetic opcode to the two operand doubles, given by
    /// their bit patterns, and hand the result to `resume_arith`.
    NeedsArith { op: OpCode, lhs_bits: u64, rhs_bits: u64 },
    /// Execution finished with this value.
    Returned { value: Value },
    /// Execution failed; the machine must not be driven further.
    Failed { error: VmError },
}

// IEEE-754 double comparison, stated and computed on bit patterns alone.
// A NaN pattern has all exponent bits set and a non-zero mantissa; the
// two zeroes differ only in the sign bit; every other pattern orders by
// sign and then by magnitude, which is plain integer order on the
// remaining bits.
pub open spec fn f64_is_nan_bits(b: u64) -> bool {
    b & 0x7ff0000000000000 == 0x7ff0000000000000 && b & 0x000fffffffffffff != 0
}

pub open spec fn f64_is_zero_bits(b: u64) -> bool {
    b & 0x7fffffffffffffff == 0
}

pub open spec fn f64_eq_bits(a: u64, b: u64) -> bool {
    !f64_is_nan_bits(a) && !f64_is_nan_bits(b) && (a == b || (f64_is_zero_bits(a)
        && f64_is_zero_bits(b)))
}

pub open spec fn f64_lt_bits(a: u64, b: u64) -> bool {
    if f64_is_nan_bits(a) || f64_is_nan_bits(b) {
        false
    } else if f64_is_zero_bits(a) && f64_is_zero_bits(b) {
        false
    } else if a >> 63 != b >> 63 {
        a >> 63 == 1
    } else if a >> 63 == 0 {
        a < b
    } else {
        a > b
    }
}

pub open spec fn f64_le_bits(a: u64, b: u64) -> bool {
    f64_lt_bits(a, b) || f64_eq_bits(a, b)
}

fn exec_f64_is_nan_bits(b: u64) -> (r: bool)
    ensures
        r == f64_is_nan_bits(b),
{
    b & 0x7ff0000000000000 == 0x7ff0000000000000 && b & 0x000fffffffffffff != 0
}

fn exec_f64_is_zero_bits(b: u64) -> (r: bool)
    ensures
        r == f64_is_zero_bits(b),
{
    b & 0x7fffffffffffffff == 0
}

fn exec_f64_eq_bits(a: u64, b: u64) -> (r: bool)
    ensures
        r == f64_eq_bits(a, b),
{
    !exec_f64_is_nan_bits(a) && !exec_f64_is_nan_bits(b) && (a == b || (exec_f64_is_zero_bits(a)
        && exec_f64_is_zero_bits(b)))
}

fn exec_f64_lt_bits(a: u64, b: u64) -> (r: bool)
    ensures
        r == f64_lt_bits(a, b),
{
    if exec_f64_is_nan_bits(a) || exec_f64_is_nan_bits(b) {
        false
    } else if exec_f64_is_zero_bits(a) && exec_f64_is_zero_bits(b) {
        false
    } else if (a >> 63) != (b >> 63) {
        (a >> 63) == 1
    } else if (a >> 63) == 0 {
        a < b
    } else {
        a > b
    }
}

/// The boolean a comparison opcode pushes, given the two operand bit
/// patterns; unordered operands make every comparison false except the
/// inequality test.
pub open spec fn spec_compare(op: OpCode, a: u64, b: u64) -> bool {
    match op {
        OpCode::EqEq => f64_eq_bits(a, b),
        OpCode::NotEq => !f64_eq_bits(a, b),
        OpCode::LessThan => f64_lt_bits(a, b),
        OpCode::GreaterThan => f64_lt_bits(b, a),
        OpCode::LessThanOrEq => f64_le_bits(a, b),
        OpCode::GreaterThanOrEq => f64_le_bits(b, a),
        _ => false,
    }
}

pub open spec fn is_arith_opcode(op: OpCode) -> bool {
    op == OpCode::Add || op == OpCode::Sub || op == OpCode::Mul || op == OpCode::Div || op
        == OpCode::Pow || op == OpCode::Mod
}

pub open spec fn is_compare_opcode(op: OpCode) -> bool {
    op == OpCode::EqEq || op == OpCode::NotEq || op == OpCode::LessThan || op
        == OpCode::GreaterThan || op == OpCode::LessThanOrEq || op == OpCode::GreaterThanOrEq
}

/// The machine: an operand stack and the count of instructions still to
/// be skipped over.
#[derive(Debug, PartialEq, Eq, Clone)]
pub struct VM {
    stack: Vec<Value>,
    skip: u64,
}

pub open spec fn spec_bool_value(b: bool) -> Value {
    if b {
        Value(spec_true_bits())
    } else {
        Value(spec_false_bits())
    }
}

/// The return rule, shared by the return opcode and the end of the
/// stream: more than one value left is an ambiguous final state; one
/// value is the result; none means the null value.
pub open spec fn spec_return(stack: Seq<Value>) -> (Seq<Value>, StepOutcome) {
    if stack.len() > 1 {
        (stack, StepOutcome::Failed { error: VmError::StackImbalance })
    } else if stack.len() == 1 {
        (stack.drop_last(), StepOutcome::Returned { value: stack.last() })
    } else {
        (stack, StepOutcome::Returned { value: Value(spec_null_bits()) })
    }
}

/// The full transition relation of the machine for one decoded
/// instruction: the new stack, the new skip count, and what the driver
/// must do next.
pub open spec fn spec_step(stack: Seq<Value>, skip: u64, instr: Instruction) -> (
    Seq<Value>,
    u64,
    StepOutcome,
) {
    if skip > 0 {
        (stack, (skip - 1) as u64, StepOutcome::Continue)
    } else {
        match instr.op {
            OpCode::Ret => {
                let (st, out) = spec_return(stack);
                (st, skip, out)
            },
            OpCode::SkipnIfNZ => (stack, instr.val.bits(), StepOutcome::Continue),
            OpCode::VarAccess => (
                stack,
                skip,
                StepOutcome::Failed { error: VmError::UnsupportedInstruction },
            ),
            OpCode::Const => (stack.push(instr.val), skip, StepOutcome::Continue),
            OpCode::Not => {
                if stack.len() == 0 {
                    (stack, skip, StepOutcome::Continue)
                } else {
                    (
                        stack.drop_last().push(
                            spec_bool_value(!(stack.last().bits() == spec_true_bits())),
                        ),
                        skip,
                        StepOutcome::Continue,
                    )
                }
            },
            OpCode::Sign => {
                if stack.len() == 0 {
                    (stack, skip, StepOutcome::Continue)
                } else if !spec_is_number(stack.last().bits()) {
                    (stack, skip, StepOutcome::Failed { error: VmError::TypeMismatch })
                } else {
                    (
                        stack.drop_last().push(Value(stack.last().bits() ^ SIGN_BIT)),
                        skip,
                        StepOutcome::Continue,
                    )
                }
            },
            OpCode::Or | OpCode::And => {
                let b = if stack.len() >= 1 {
                    stack.last().bits() == spec_true_bits()
                } else {
                    false
                };
                let a = if stack.len() >= 2 {
                    stack[stack.len() - 2].bits() == spec_true_bits()
                } else {
                    false
                };
                let popped = if stack.len() >= 2 {
                    stack.take(stack.len() - 2)
                } else {
                    stack.take(0)
                };
                let r = if instr.op == OpCode::And {
                    a && b
                } else {
                    a || b
                };
                (popped.push(spec_bool_value(r)), skip, StepOutcome::Continue)
            },
            OpCode::EqEq | OpCode::NotEq | OpCode::LessThan | OpCode::GreaterThan
            | OpCode::LessThanOrEq | OpCode::GreaterThanOrEq => {
                if stack.len() < 2 {
                    (stack, skip, StepOutcome::Failed { error: VmError::StackImbalance })
                } else {
                    let b = stack.last();
                    let a = stack[stack.len() - 2];
                    if !spec_is_number(a.bits()) || !spec_is_number(b.bits()) {
                        (stack, skip, StepOutcome::Failed { error: VmError::TypeMismatch })
                    } else {
                        (
                            stack.take(stack.len() - 2).push(
                                spec_bool_value(spec_compare(instr.op, a.bits(), b.bits())),
                            ),
                            skip,
                            StepOutcome::Continue,
                        )
                    }
                }
            },
            OpCode::Add | OpCode::Sub | OpCode::Mul | OpCode::Div | OpCode::Pow | OpCode::Mod => {
                let b = if stack.len() >= 1 {
                    stack.last()
                } else {
                    Value(0)
                };
                let a = if stack.len() >= 2 {
                    stack[stack.len() - 2]
                } else {
                    Value(0)
                };
                let popped = if stack.len() >= 2 {
                    stack.take(stack.len() - 2)
                } else {
                    stack.take(0)
                };
                if !spec_is_number(a.bits()) || !spec_is_number(b.bits()) {
                    (stack, skip, StepOutcome::Failed { error: VmError::TypeMismatch })
                } else {
                    (
                        popped,
                        skip,
                        StepOutcome::NeedsArith {
                            op: instr.op,
                            lhs_bits: a.bits(),
                            rhs_bits: b.bits(),
                        },
                    )
                }
            },
        }
    }
}

impl VM {
    pub closed spec fn stack_model(self) -> Seq<Value> {
        self.stack@
    }

    pub closed spec fn skip_model(self) -> u64 {
        self.skip
    }

    pub fn new() -> (vm: VM)
        ensures
            vm.stack_model() == Seq::<Value>::empty(),
            vm.skip_model() == 0,
    {
        VM { stack: Vec::new(), skip: 0 }
    }

    /// Executes one decoded instruction, following `spec_step` exactly.
    pub fn step(&mut self, instr: Instruction) -> (r: StepOutcome)
        ensures
            (final(self).stack_model(), final(self).skip_model(), r) == spec_step(
                old(self).stack_model(),
                old(self).skip_model(),
                instr,
            ),
    {
        if self.skip > 0 {
            self.skip = self.skip - 1;
            return StepOutcome::Continue;
        }
        match instr.op {
            OpCode::Ret => self.return_to_callee(),
            OpCode::SkipnIfNZ => {
                self.skip = instr.val.raw_bits();
                StepOutcome::Continue
            },
            OpCode::VarAccess => StepOutcome::Failed { error: VmError::UnsupportedInstruction },
            OpCode::Const => {
                self.stack.push(instr.val);
                StepOutcome::Continue
            },
            OpCode::Not => {
                if self.stack.len() == 0 {
                    StepOutcome::Continue
                } else {
                    let v = self.stack.pop().unwrap();
                    self.stack.push(Value::from_bool(!v.as_bool()));
                    StepOutcome::Continue
                }
            },
            OpCode::Sign => {
                if self.stack.len() == 0 {
                    StepOutcome::Continue
                } else {
                    let v = self.stack[self.stack.len() - 1];
                    match v.as_number_bits() {
                        Ok(bits) => {
                            let _ = self.stack.pop();
                            self.stack.push(Value::from_number_bits(bits ^ SIGN_BIT));
                            StepOutcome::Continue
                        },
                        Err(_) => StepOutcome::Failed { error: VmError::TypeMismatch },
                    }
                }
            },
            OpCode::Or | OpCode::And => {
                let b = match self.stack.pop() {
                    Some(v) => v.as_bool(),
                    None => false,
                };
                let a = match self.stack.pop() {
                    Some(v) => v.as_bool(),
                    None => false,
                };
                let r = if matches!(instr.op, OpCode::And) {
                    a && b
                } else {
                    a || b
                };
                self.stack.push(Value::from_bool(r));
                StepOutcome::Continue
            },
            OpCode::EqEq | OpCode::NotEq | OpCode::LessThan | OpCode::GreaterThan
            | OpCode::LessThanOrEq | OpCode::GreaterThanOrEq => {
                if self.stack.len() < 2 {
                    return StepOutcome::Failed { error: VmError::StackImbalance };
                }
                let b = self.stack[self.stack.len() - 1];
                let a = self.stack[self.stack.len() - 2];
                let a_bits = match a.as_number_bits() {
                    Ok(bits) => bits,
                    Err(_) => {
                        return StepOutcome::Failed { error: VmError::TypeMismatch };
                    },
                };
                let b_bits = match b.as_number_bits() {
                    Ok(bits) => bits,
                    Err(_) => {
                        return StepOutcome::Failed { error: VmError::TypeMismatch };
                    },
                };
                let _ = self.stack.pop();
                let _ = self.stack.pop();
                let r = match instr.op {
                    OpCode::EqEq => exec_f64_eq_bits(a_bits, b_bits),
                    OpCode::NotEq => !exec_f64_eq_bits(a_bits, b_bits),
                    OpCode::LessThan => exec_f64_lt_bits(a_bits, b_bits),
                    OpCode::GreaterThan => exec_f64_lt_bits(b_bits, a_bits),
                    OpCode::LessThanOrEq => exec_f64_lt_bits(a_bits, b_bits) || exec_f64_eq_bits(
                        a_bits,
                        b_bits,
                    ),
                    _ => exec_f64_lt_bits(b_bits, a_bits) || exec_f64_eq_bits(b_bits, a_bits),
                };
                self.stack.push(Value::from_bool(r));
                StepOutcome::Continue
            },
            OpCode::Add | OpCode::Sub | OpCode::Mul | OpCode::Div | OpCode::Pow | OpCode::Mod => {
                let n = self.stack.len();
                let b = if n >= 1 {
                    self.stack[n - 1]
                } else {
                    Value::from_number_bits(0)
                };
                let a = if n >= 2 {
                    self.stack[n - 2]
                } else {
                    Value::from_number_bits(0)
                };
                let a_bits = match a.as_number_bits() {
                    Ok(bits) => bits,
                    Err(_) => {
                        return StepOutcome::Failed { error: VmError::TypeMismatch };
                    },
                };
                let b_bits = match b.as_number_bits() {
                    Ok(bits) => bits,
                    Err(_) => {
                        return StepOutcome::Failed { error: VmError::TypeMismatch };
                    },
                };
                if n >= 1 {
                    let _ = self.stack.pop();
                }
                if n >= 2 {
                    let _ = self.stack.pop();
                }
                proof {
                    if old(self).stack_model().len() >= 2 {
                        assert(self.stack@ =~= old(self).stack_model().take(
                            old(self).stack_model().len() - 2,
                        ));
                    } else {
                        assert(self.stack@ =~= old(self).stack_model().take(0));
                    }
                }
                StepOutcome::NeedsArith { op: instr.op, lhs_bits: a_bits, rhs_bits: b_bits }
            },
        }
    }

    /// Pushes the numeric result handed back by the driver after a
    /// `NeedsArith` outcome.
    pub fn resume_arith(&mut self, result_bits: u64)
        ensures
            final(self).stack_model() == old(self).stack_model().push(Value(result_bits)),
            final(self).skip_model() == old(self).skip_model(),
    {
        self.stack.push(Value::from_number_bits(result_bits));
    }

    /// The implicit return at the end of the stream: same rule as the
    /// return opcode.
    pub fn finish(&mut self) -> (r: StepOutcome)
        ensures
            (final(self).stack_model(), r) == spec_return(old(self).stack_model()),
            final(self).skip_model() == old(self).skip_model(),
    {
        self.return_to_callee()
    }

    fn return_to_callee(&mut self) -> (r: StepOutcome)
        ensures
            (final(self).stack_model(), r) == spec_return(old(self).stack_model()),
            final(self).skip_model() == old(self).skip_model(),
    {
        if self.stack.len() > 1 {
            StepOutcome::Failed { error: VmError::StackImbalance }
        } else if self.stack.len() == 1 {
            let v = self.stack.pop().unwrap();
            StepOutcome::Returned { value: v }
        } else {
            StepOutcome::Returned { value: Value::null_val() }
        }
    }
}

} // verus!
