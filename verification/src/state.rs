//! The persisted state and its codec: a deterministic, byte-exact mapping
//! between the two-field state and its fixed 8-byte little-endian layout.

use vstd::bytes::lemma_auto_spec_u32_to_from_le_bytes;
use vstd::bytes::spec_u32_from_le_bytes;
use vstd::bytes::spec_u32_to_le_bytes;
use vstd::bytes::u32_from_le_bytes;
use vstd::bytes::u32_to_le_bytes;
use vstd::prelude::*;
use vstd::slice::slice_subrange;

use crate::errors::CalcError;

verus! {

/// Number of bytes of the serialized state: two little-endian `u32` fields.
pub const STATE_LEN: usize = 8;

/// The state persisted in an account's buffer: the running results of the
/// most recently successful addition and subtraction. A rejected operation
/// leaves both fields unchanged.
#[derive(Clone, Copy, Debug, PartialEq, Eq, Structural)]
pub struct CalcResult {
    /// Result of the addition operation
    pub add_result: u32,
    /// Result of the subtraction operation
    pub sub_result: u32,
}

/// The serialized form of a state: 4-byte little-endian `add_result`
/// followed by 4-byte little-endian `sub_result`.
pub open spec fn state_to_bytes(s: CalcResult) -> Seq<u8> {
    spec_u32_to_le_bytes(s.add_result) + spec_u32_to_le_bytes(s.sub_result)
}

/// The state an 8-byte buffer denotes.
pub open spec fn state_from_bytes(b: Seq<u8>) -> CalcResult {
    CalcResult {
        add_result: spec_u32_from_le_bytes(b.subrange(0, 4)),
        sub_result: spec_u32_from_le_bytes(b.subrange(4, 8)),
    }
}

/// Serializes a state into its fixed 8-byte layout. Always succeeds.
pub fn encode_state(s: &CalcResult) -> (r: Vec<u8>)
    ensures
        r@ == state_to_bytes(*s),
        r@.len() == STATE_LEN,
{
    proof {
        lemma_auto_spec_u32_to_from_le_bytes();
    }
    let mut out = u32_to_le_bytes(s.add_result);
    let mut tail = u32_to_le_bytes(s.sub_result);
    out.append(&mut tail);
    out
}

/// Deserializes an account buffer. Succeeds exactly on 8-byte buffers;
/// any other length is structurally invalid and rejected as malformed.
pub fn decode_state(buffer: &[u8]) -> (r: Result<CalcResult, CalcError>)
    ensures
        buffer@.len() == STATE_LEN ==> r == Ok::<CalcResult, CalcError>(state_from_bytes(buffer@)),
        buffer@.len() != STATE_LEN ==> r == Err::<CalcResult, CalcError>(CalcError::MalformedState),
{
    if buffer.len() != STATE_LEN {
        return Err(CalcError::MalformedState);
    }
    let add_result = u32_from_le_bytes(slice_subrange(buffer, 0, 4));
    let sub_result = u32_from_le_bytes(slice_subrange(buffer, 4, 8));
    Ok(CalcResult { add_result, sub_result })
}

/// Round-trip law: decoding an encoded state yields that state, for every
/// representable state.
pub proof fn lemma_state_round_trip(s: CalcResult)
    ensures
        state_from_bytes(state_to_bytes(s)) == s,
{
    lemma_auto_spec_u32_to_from_le_bytes();
    assert(state_to_bytes(s).subrange(0, 4) =~= spec_u32_to_le_bytes(s.add_result));
    assert(state_to_bytes(s).subrange(4, 8) =~= spec_u32_to_le_bytes(s.sub_result));
}

/// Converse round-trip law: re-encoding a decoded 8-byte buffer reproduces
/// the buffer byte for byte.
pub proof fn lemma_bytes_round_trip(b: Seq<u8>)
    requires
        b.len() == STATE_LEN,
    ensures
        state_to_bytes(state_from_bytes(b)) == b,
{
    lemma_auto_spec_u32_to_from_le_bytes();
    assert(state_to_bytes(state_from_bytes(b)) =~= b);
}

} // verus!
