//! The instruction decoder: validates and decodes the fixed 12-byte
//! instruction payload into two operands and an operation selector.

use vstd::bytes::spec_u32_from_le_bytes;
use vstd::bytes::u32_from_le_bytes;
use vstd::prelude::*;
use vstd::slice::slice_subrange;

use crate::errors::CalcError;

verus! {

/// Number of bytes of an instruction payload: three little-endian `u32`s.
pub const INSTRUCTION_LEN: usize = 12;

/// The operation selector requesting an addition.
pub const OP_ADD: u32 = 0;

/// The operation selector requesting a subtraction.
pub const OP_SUB: u32 = 1;

/// A decoded instruction: two caller-supplied operands and the operation
/// selector choosing between addition and subtraction. It exists only for
/// the duration of one invocation and is never persisted.
#[derive(Clone, Copy, Debug, PartialEq, Eq, Structural)]
pub struct Instruction {
    /// The first operand.
    pub operand_a: u32,
    /// The second operand.
    pub operand_b: u32,
    /// The operation selector: `0` = add, `1` = subtract, anything else is
    /// rejected by the operation engine.
    pub operation: u32,
}

/// The instruction a 12-byte payload denotes: three consecutive 4-byte
/// little-endian unsigned integers, in order `operand_a`, `operand_b`,
/// `operation`.
pub open spec fn instruction_from_bytes(b: Seq<u8>) -> Instruction {
    Instruction {
        operand_a: spec_u32_from_le_bytes(b.subrange(0, 4)),
        operand_b: spec_u32_from_le_bytes(b.subrange(4, 8)),
        operation: spec_u32_from_le_bytes(b.subrange(8, 12)),
    }
}

/// Decodes an instruction payload. Succeeds exactly on 12-byte inputs; any
/// other length is rejected. The operation selector's range is not checked
/// here but by the operation engine.
pub fn decode_instruction(data: &[u8]) -> (r: Result<Instruction, CalcError>)
    ensures
        data@.len() == INSTRUCTION_LEN ==> r == Ok::<Instruction, CalcError>(
            instruction_from_bytes(data@),
        ),
        data@.len() != INSTRUCTION_LEN ==> r == Err::<Instruction, CalcError>(
            CalcError::InvalidInstructionSize,
        ),
{
    if data.len() != INSTRUCTION_LEN {
        return Err(CalcError::InvalidInstructionSize);
    }
    let operand_a = u32_from_le_bytes(slice_subrange(data, 0, 4));
    let operand_b = u32_from_le_bytes(slice_subrange(data, 4, 8));
    let operation = u32_from_le_bytes(slice_subrange(data, 8, 12));
    Ok(Instruction { operand_a, operand_b, operation })
}

} // verus!
