//! The instructions of the program and their wire format.
//!
//! An instruction is one tag byte followed by its payload. Tags 0 and 2
//! carry an amount: eight bytes, a little-endian unsigned integer. Tag 1
//! carries nothing. Bytes after the payload are ignored.

use crate::encoding::{le_u64, le_value, lemma_le_value_bound, radix};
use crate::error::ProcessError;
use vstd::prelude::*;
use vstd::slice::slice_subrange;

verus! {

/// A decoded instruction.
#[derive(Clone, Copy, Debug, PartialEq, Eq)]
pub enum SolanaInstruction {
    /// Increment the counter of the first account. The amount is required
    /// to be present and is otherwise unused.
    ExampleInstruction { amount: u64 },
    /// Have the host allocate space in the second account, then increment
    /// the counter of the first.
    CPIInstruction,
    /// Does nothing and succeeds. The amount is required to be present.
    TransferInstruction { amount: u64 },
}

/// The amount at the front of `payload`, if `payload` holds all eight bytes
/// of it.
pub open spec fn decoded_amount(payload: Seq<u8>) -> Result<u64, ProcessError> {
    if payload.len() >= 8 {
        Ok(le_value(payload.subrange(0, 8)) as u64)
    } else {
        Err(ProcessError::InvalidInstructionData)
    }
}

/// The instruction that `input` encodes, or the failure to decode it.
pub open spec fn decoded(input: Seq<u8>) -> Result<SolanaInstruction, ProcessError> {
    if input.len() == 0 {
        Err(ProcessError::InvalidInstructionData)
    } else if input[0] == 0 {
        match decoded_amount(input.skip(1)) {
            Ok(amount) => Ok(SolanaInstruction::ExampleInstruction { amount }),
            Err(e) => Err(e),
        }
    } else if input[0] == 1 {
        Ok(SolanaInstruction::CPIInstruction)
    } else if input[0] == 2 {
        match decoded_amount(input.skip(1)) {
            Ok(amount) => Ok(SolanaInstruction::TransferInstruction { amount }),
            Err(e) => Err(e),
        }
    } else {
        Err(ProcessError::InvalidInstructionData)
    }
}

impl SolanaInstruction {
    /// Decodes an instruction from its wire bytes.
    pub fn unpack(input: &[u8]) -> (r: Result<SolanaInstruction, ProcessError>)
        ensures
            r == decoded(input@),
            // An empty buffer holds no instruction.
            input@.len() == 0
                ==> r == Err::<SolanaInstruction, _>(ProcessError::InvalidInstructionData),
            // Only the tags 0, 1 and 2 are known, whatever follows them.
            input@.len() > 0 && input@[0] > 2
                ==> r == Err::<SolanaInstruction, _>(ProcessError::InvalidInstructionData),
            // An amount that is cut short is refused.
            0 < input@.len() < 9 && (input@[0] == 0 || input@[0] == 2)
                ==> r == Err::<SolanaInstruction, _>(ProcessError::InvalidInstructionData),
            // With all nine bytes there, decoding succeeds, and the amount is
            // the number that bytes 1 to 8 spell.
            input@.len() >= 9 && input@[0] == 0
                ==> (r matches Ok(SolanaInstruction::ExampleInstruction { amount })
                && amount == le_value(input@.subrange(1, 9))),
            input@.len() >= 9 && input@[0] == 2
                ==> (r matches Ok(SolanaInstruction::TransferInstruction { amount })
                && amount == le_value(input@.subrange(1, 9))),
            // Tag 1 needs nothing more.
            input@.len() > 0 && input@[0] == 1
                ==> r == Ok::<_, ProcessError>(SolanaInstruction::CPIInstruction),
    {
        if input.len() == 0 {
            return Err(ProcessError::InvalidInstructionData);
        }
        let tag = input[0];
        let rest = slice_subrange(input, 1, input.len());
        proof {
            assert(rest@ =~= input@.skip(1));
            if rest@.len() >= 8 {
                assert(rest@.subrange(0, 8) =~= input@.subrange(1, 9));
                lemma_amount_fits(rest@.subrange(0, 8));
            }
        }
        match tag {
            0 => {
                let amount = Self::unpack_amount(rest)?;
                Ok(SolanaInstruction::ExampleInstruction { amount })
            },
            1 => Ok(SolanaInstruction::CPIInstruction),
            2 => {
                let amount = Self::unpack_amount(rest)?;
                Ok(SolanaInstruction::TransferInstruction { amount })
            },
            _ => Err(ProcessError::InvalidInstructionData),
        }
    }

    /// Decodes the amount at the front of a payload.
    pub fn unpack_amount(input: &[u8]) -> (r: Result<u64, ProcessError>)
        ensures
            r == decoded_amount(input@),
            input@.len() < 8 ==> r == Err::<u64, _>(ProcessError::InvalidInstructionData),
            input@.len() >= 8
                ==> (r matches Ok(amount) && amount == le_value(input@.subrange(0, 8))),
    {
        if input.len() < 8 {
            return Err(ProcessError::InvalidInstructionData);
        }
        let field = slice_subrange(input, 0, 8);
        proof {
            lemma_amount_fits(field@);
        }
        Ok(le_u64(field))
    }
}

/// Eight bytes spell a number that fits in 64 bits.
pub proof fn lemma_amount_fits(field: Seq<u8>)
    requires
        field.len() == 8,
    ensures
        le_value(field) <= u64::MAX,
{
    lemma_le_value_bound(field);
    assert(radix(8) == 0x1_0000_0000_0000_0000) by {
        reveal_with_fuel(radix, 9);
    }
}

} // verus!
