//! The two instructions of the program and their wire form: one byte that
//! selects the instruction, then the amount as eight little-endian bytes.

use crate::error::{EscrowError, ProcessorError};
use crate::wire::{le_u64, read_u64};
use vstd::prelude::*;

verus! {

/// What a caller asks the program to do.
#[derive(Clone, Copy, Debug, PartialEq, Eq, Structural)]
pub enum EscrowInstruction {
    /// Open a trade: the initializer has deposited one asset and expects
    /// `amount` units of the other in return.
    InitEscrow { amount: u64 },
    /// Complete a trade: the taker expects the deposit to hold `amount`
    /// units.
    Exchange { amount: u64 },
}

impl EscrowInstruction {
    /// The number of bytes that an instruction needs: the selector and the
    /// amount. What follows them is not looked at.
    pub const MIN_LEN: usize = 9;

    /// The instruction that a payload stands for. A payload of fewer than
    /// nine bytes, or one whose first byte is neither 0 nor 1, stands for
    /// none.
    pub open spec fn spec_unpack(input: Seq<u8>) -> Result<EscrowInstruction, ProcessorError> {
        if input.len() < 9 || input[0] > 1 {
            Err(ProcessorError::Escrow(EscrowError::InvalidInstruction))
        } else if input[0] == 0 {
            Ok(EscrowInstruction::InitEscrow { amount: le_u64(input.subrange(1, 9)) as u64 })
        } else {
            Ok(EscrowInstruction::Exchange { amount: le_u64(input.subrange(1, 9)) as u64 })
        }
    }

    /// Decodes a payload.
    pub fn unpack(input: &[u8]) -> (decoded: Result<EscrowInstruction, ProcessorError>)
        ensures
            decoded == Self::spec_unpack(input@),
    {
        if input.len() < Self::MIN_LEN {
            return Err(ProcessorError::Escrow(EscrowError::InvalidInstruction));
        }
        let tag: u8 = input[0];
        if tag > 1 {
            return Err(ProcessorError::Escrow(EscrowError::InvalidInstruction));
        }
        let amount: u64 = read_u64(input, 1);
        if tag == 0 {
            Ok(EscrowInstruction::InitEscrow { amount })
        } else {
            Ok(EscrowInstruction::Exchange { amount })
        }
    }
}

/// A payload is refused exactly when it is shorter than nine bytes or its
/// first byte is neither 0 nor 1, and then as an invalid instruction. Every
/// other payload is decoded: the first byte picks the instruction, the next
/// eight give the amount, and nothing after them matters.
pub proof fn lemma_unpack_total(input: Seq<u8>)
    ensures
        (input.len() < 9 || (input[0] != 0 && input[0] != 1))
            ==> EscrowInstruction::spec_unpack(input) == Err::<EscrowInstruction, ProcessorError>(
            ProcessorError::Escrow(EscrowError::InvalidInstruction),
        ),
        (input.len() >= 9 && input[0] == 0) ==> EscrowInstruction::spec_unpack(input) == Ok::<
            EscrowInstruction,
            ProcessorError,
        >(EscrowInstruction::InitEscrow { amount: le_u64(input.subrange(1, 9)) as u64 }),
        (input.len() >= 9 && input[0] == 1) ==> EscrowInstruction::spec_unpack(input) == Ok::<
            EscrowInstruction,
            ProcessorError,
        >(EscrowInstruction::Exchange { amount: le_u64(input.subrange(1, 9)) as u64 }),
        input.len() >= 9 ==> EscrowInstruction::spec_unpack(input)
            == EscrowInstruction::spec_unpack(input.subrange(0, 9)),
{
    if input.len() >= 9 {
        assert(input.subrange(0, 9).subrange(1, 9) =~= input.subrange(1, 9));
    }
}

} // verus!
