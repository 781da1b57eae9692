//! The handler: orchestrates, in strict order, instruction decoding, the
//! ownership check, state decoding, the arithmetic operation and the
//! write-back of the re-encoded state. Side effects are all-or-nothing:
//! the account buffer is written only after every validation succeeded.

use vstd::prelude::*;

use crate::account::Account;
use crate::account::validate_owner;
use crate::engine::apply_operation;
use crate::engine::apply_operation_spec;
use crate::errors::CalcError;
use crate::instruction::INSTRUCTION_LEN;
use crate::instruction::decode_instruction;
use crate::instruction::instruction_from_bytes;
use crate::state::CalcResult;
use crate::state::STATE_LEN;
use crate::state::decode_state;
use crate::state::encode_state;
use crate::state::state_from_bytes;
use crate::state::state_to_bytes;

verus! {

/// What one invocation decides, given the executing program's identity, the
/// first account's owner and stored bytes, and the instruction payload: the
/// state to persist, or the error rejecting the call. The checks apply in
/// the handler's strict order, so the first failing one names the error.
pub open spec fn handle_outcome(
    program_id: Seq<u8>,
    owner: Seq<u8>,
    stored: Seq<u8>,
    data: Seq<u8>,
) -> Result<CalcResult, CalcError> {
    if data.len() != INSTRUCTION_LEN {
        Err(CalcError::InvalidInstructionSize)
    } else if owner != program_id {
        Err(CalcError::UnauthorizedAccount)
    } else if stored.len() != STATE_LEN {
        Err(CalcError::MalformedState)
    } else {
        apply_operation_spec(state_from_bytes(stored), instruction_from_bytes(data))
    }
}

/// Processes one invocation against the first of the supplied accounts.
///
/// On success the first account's buffer holds the encoding of the updated
/// state and nothing else changed; on any rejection every account is left
/// exactly as it was. The instruction's size is checked before any account
/// is touched, and an empty account list is the collaborator-level
/// `MissingAccount` error.
pub fn handle_instruction(
    program_id: &[u8],
    accounts: &mut Vec<Account>,
    instruction_data: &[u8],
) -> (r: Result<(), CalcError>)
    ensures
        instruction_data@.len() != INSTRUCTION_LEN ==> r == Err::<(), CalcError>(
            CalcError::InvalidInstructionSize,
        ) && *final(accounts) == *old(accounts),
        instruction_data@.len() == INSTRUCTION_LEN && old(accounts)@.len() == 0 ==> r == Err::<
            (),
            CalcError,
        >(CalcError::MissingAccount) && *final(accounts) == *old(accounts),
        instruction_data@.len() == INSTRUCTION_LEN && old(accounts)@.len() > 0 ==> (match
            handle_outcome(
            program_id@,
            old(accounts)@[0].owner@,
            old(accounts)@[0].data@,
            instruction_data@,
        ) {
            Result::Err(e) => r == Err::<(), CalcError>(e) && *final(accounts) == *old(accounts),
            Result::Ok(new_state) => {
                &&& r == Ok::<(), CalcError>(())
                &&& final(accounts)@.len() == old(accounts)@.len()
                &&& final(accounts)@[0].owner@ == old(accounts)@[0].owner@
                &&& final(accounts)@[0].data@ == state_to_bytes(new_state)
                &&& forall|i: int|
                    1 <= i < old(accounts)@.len() ==> final(accounts)@[i] == old(accounts)@[i]
            },
        }),
{
    let instruction = match decode_instruction(instruction_data) {
        Ok(instruction) => instruction,
        Err(e) => {
            return Err(e);
        },
    };
    if accounts.len() == 0 {
        return Err(CalcError::MissingAccount);
    }
    match validate_owner(&accounts[0], program_id) {
        Ok(_) => (),
        Err(e) => {
            return Err(e);
        },
    }
    let state = match decode_state(accounts[0].data.as_slice()) {
        Ok(state) => state,
        Err(e) => {
            return Err(e);
        },
    };
    let new_state = match apply_operation(&state, &instruction) {
        Ok(new_state) => new_state,
        Err(e) => {
            return Err(e);
        },
    };
    accounts[0].data = encode_state(&new_state);
    Ok(())
}

/// A payload of any length other than 12 bytes is rejected for its size,
/// whatever the identities and the stored state hold; together with the
/// handler's contract, no account is read or written on that path.
pub proof fn lemma_wrong_size_rejected(
    program_id: Seq<u8>,
    owner: Seq<u8>,
    stored: Seq<u8>,
    data: Seq<u8>,
)
    requires
        data.len() != INSTRUCTION_LEN,
    ensures
        handle_outcome(program_id, owner, stored, data) == Err::<CalcResult, CalcError>(
            CalcError::InvalidInstructionSize,
        ),
{
}

/// A well-sized call against an account the executing program does not own
/// is rejected as unauthorized, whatever operands, selector and stored state
/// the call carries; together with the handler's contract, the state is
/// left unchanged.
pub proof fn lemma_unauthorized_rejected(
    program_id: Seq<u8>,
    owner: Seq<u8>,
    stored: Seq<u8>,
    data: Seq<u8>,
)
    requires
        data.len() == INSTRUCTION_LEN,
        owner != program_id,
    ensures
        handle_outcome(program_id, owner, stored, data) == Err::<CalcResult, CalcError>(
            CalcError::UnauthorizedAccount,
        ),
{
}

} // verus!
