//! Account records and the account validator: the sole authorization gate,
//! a read-only check that the account's recorded owner identity equals the
//! executing program's identity.

use vstd::prelude::*;

use crate::errors::CalcError;

verus! {

/// An account record as this core sees it: the owner identity under which
/// the surrounding runtime registered the account, and the raw byte buffer
/// holding the account's persisted state. The runtime's further metadata
/// (balances, flags) plays no role here and is left with the runtime.
pub struct Account {
    /// The identity of the program that owns this account, as opaque bytes.
    pub owner: Vec<u8>,
    /// The account's persisted storage.
    pub data: Vec<u8>,
}

/// Byte-for-byte equality of two identities.
pub fn bytes_eq(a: &[u8], b: &[u8]) -> (r: bool)
    ensures
        r == (a@ == b@),
{
    if a.len() != b.len() {
        return false;
    }
    let mut i: usize = 0;
    while i < a.len()
        invariant
            i <= a@.len(),
            a@.len() == b@.len(),
            forall|j: int| 0 <= j < i ==> a@[j] == b@[j],
        decreases a@.len() - i,
    {
        if a[i] != b[i] {
            return false;
        }
        i = i + 1;
    }
    proof {
        assert(a@ =~= b@);
    }
    true
}

/// Confirms that the account is owned by the executing program; on mismatch
/// the account is not under the program's control and must not be mutated.
/// Read-only: no side effect.
pub fn validate_owner(account: &Account, program_id: &[u8]) -> (r: Result<(), CalcError>)
    ensures
        account.owner@ == program_id@ ==> r == Ok::<(), CalcError>(()),
        account.owner@ != program_id@ ==> r == Err::<(), CalcError>(CalcError::UnauthorizedAccount),
{
    if bytes_eq(account.owner.as_slice(), program_id) {
        Ok(())
    } else {
        Err(CalcError::UnauthorizedAccount)
    }
}

} // verus!
