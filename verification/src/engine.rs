//! The operation engine: applies the selected arithmetic operation to the
//! decoded state, enforcing the numeric constraints of each operation.

use vstd::prelude::*;

use crate::errors::CalcError;
use crate::instruction::Instruction;
use crate::instruction::OP_ADD;
use crate::instruction::OP_SUB;
use crate::state::CalcResult;

verus! {

/// One more than `u32::MAX`: the modulus of wrapping 32-bit arithmetic.
pub const U32_MODULUS: u64 = 0x1_0000_0000;

/// The single-step transition an instruction requests of a state.
///
/// Addition overwrites `add_result` with the operands' sum modulo 2^32
/// (wrapping arithmetic, the explicit overflow policy of this core) and
/// leaves `sub_result` untouched. Subtraction demands
/// `operand_a >= operand_b`, overwrites `sub_result` with their difference
/// and leaves `add_result` untouched. Any other selector is unsupported.
/// A rejected instruction leaves the state unchanged.
pub open spec fn apply_operation_spec(s: CalcResult, i: Instruction) -> Result<
    CalcResult,
    CalcError,
> {
    if i.operation == OP_ADD {
        Ok(
            (CalcResult {
                add_result: (((i.operand_a + i.operand_b) as int % U32_MODULUS as int) as u32),
                sub_result: s.sub_result,
            }),
        )
    } else if i.operation == OP_SUB {
        if i.operand_a >= i.operand_b {
            Ok(
                (CalcResult {
                    add_result: s.add_result,
                    sub_result: ((i.operand_a - i.operand_b) as u32),
                }),
            )
        } else {
            Err(CalcError::SubtractionUnderflow)
        }
    } else {
        Err(CalcError::UnsupportedOperation)
    }
}

/// Applies the requested operation to the current state, producing the
/// updated state or the error that rejected the instruction.
pub fn apply_operation(state: &CalcResult, instruction: &Instruction) -> (r: Result<
    CalcResult,
    CalcError,
>)
    ensures
        r == apply_operation_spec(*state, *instruction),
{
    if instruction.operation == OP_ADD {
        let sum = instruction.operand_a.wrapping_add(instruction.operand_b);
        proof {
            lemma_wrapping_add_is_mod(instruction.operand_a, instruction.operand_b);
        }
        Ok(CalcResult { add_result: sum, sub_result: state.sub_result })
    } else if instruction.operation == OP_SUB {
        if instruction.operand_a >= instruction.operand_b {
            Ok(
                CalcResult {
                    add_result: state.add_result,
                    sub_result: instruction.operand_a - instruction.operand_b,
                },
            )
        } else {
            Err(CalcError::SubtractionUnderflow)
        }
    } else {
        Err(CalcError::UnsupportedOperation)
    }
}

/// Wrapping 32-bit addition is addition modulo 2^32.
proof fn lemma_wrapping_add_is_mod(a: u32, b: u32)
    ensures
        vstd::wrapping::u32_specs::wrapping_add(a, b) == (((a + b) as int % U32_MODULUS as int)
            as u32),
{
    let sum = a + b;
    assert(0 <= sum < 2 * U32_MODULUS as int);
    assert(sum % U32_MODULUS as int == if sum < U32_MODULUS as int {
        sum
    } else {
        sum - U32_MODULUS as int
    }) by (nonlinear_arith)
        requires
            0 <= sum < 2 * U32_MODULUS as int,
    ;
}

/// Addition overwrites `add_result` with the operands' sum modulo 2^32 and
/// leaves `sub_result` unchanged, for every state and every pair of operands.
pub proof fn lemma_add_updates_only_add_result(s: CalcResult, i: Instruction)
    requires
        i.operation == OP_ADD,
    ensures
        apply_operation_spec(s, i) == Ok::<CalcResult, CalcError>(
            (CalcResult {
                add_result: (((i.operand_a + i.operand_b) as int % U32_MODULUS as int) as u32),
                sub_result: s.sub_result,
            }),
        ),
{
}

/// A subtraction whose first operand is at least its second overwrites
/// `sub_result` with the difference and leaves `add_result` unchanged, for
/// every state and every such pair of operands.
pub proof fn lemma_sub_updates_only_sub_result(s: CalcResult, i: Instruction)
    requires
        i.operation == OP_SUB,
        i.operand_a >= i.operand_b,
    ensures
        apply_operation_spec(s, i) == Ok::<CalcResult, CalcError>(
            (CalcResult {
                add_result: s.add_result,
                sub_result: ((i.operand_a - i.operand_b) as u32),
            }),
        ),
{
}

/// A subtraction whose first operand is below its second is rejected as an
/// underflow, for every state.
pub proof fn lemma_underflow_rejected(s: CalcResult, i: Instruction)
    requires
        i.operation == OP_SUB,
        i.operand_a < i.operand_b,
    ensures
        apply_operation_spec(s, i) == Err::<CalcResult, CalcError>(CalcError::SubtractionUnderflow),
{
}

/// An operation selector outside the supported set is rejected, for every
/// state and every pair of operands.
pub proof fn lemma_unsupported_rejected(s: CalcResult, i: Instruction)
    requires
        i.operation != OP_ADD,
        i.operation != OP_SUB,
    ensures
        apply_operation_spec(s, i) == Err::<CalcResult, CalcError>(CalcError::UnsupportedOperation),
{
}

} // verus!
