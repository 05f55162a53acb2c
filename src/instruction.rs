//! The two commands the escrow accepts, and how they are read from bytes.
use vstd::prelude::*;
use vstd::bytes::{spec_u64_from_le_bytes, u64_from_le_bytes};

use crate::error::{EscrowError, ProcessError};

verus! {

/// A decoded escrow command.
#[derive(Debug, Clone, Copy, PartialEq, Eq, Structural)]
pub enum EscrowInstruction {
    /// Opens a trade: the initializer asks `amount` of the counter-asset.
    InitEscrow { amount: u64 },
    /// Completes a trade: the taker expects the holding slot to hold `amount`.
    Exchange { amount: u64 },
}

/// The command a buffer holds: a tag byte (0 or 1) and a little-endian
/// amount in the next eight bytes; anything after them is not read.
pub open spec fn spec_unpack_instruction(input: Seq<u8>) -> Option<EscrowInstruction> {
    if input.len() < 9 {
        None
    } else if input[0] == 0 {
        Some(EscrowInstruction::InitEscrow { amount: spec_u64_from_le_bytes(input.subrange(1, 9)) })
    } else if input[0] == 1 {
        Some(EscrowInstruction::Exchange { amount: spec_u64_from_le_bytes(input.subrange(1, 9)) })
    } else {
        None
    }
}

impl EscrowInstruction {
    /// Decodes a command, or fails with `InvalidInstruction`.
    pub fn unpack(input: &[u8]) -> (r: Result<EscrowInstruction, ProcessError>)
        ensures
            r == (match spec_unpack_instruction(input@) {
                Some(i) => Ok(i),
                None => Err(ProcessError::Custom(EscrowError::InvalidInstruction)),
            }),
    {
        if input.len() < 9 || input[0] > 1 {
            return Err(ProcessError::Custom(EscrowError::InvalidInstruction));
        }
        let amount = u64_from_le_bytes(vstd::slice::slice_subrange(input, 1, 9));
        if input[0] == 0 {
            Ok(EscrowInstruction::InitEscrow { amount })
        } else {
            Ok(EscrowInstruction::Exchange { amount })
        }
    }
}

} // verus!
