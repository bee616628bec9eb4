//! The instruction wire format: one opcode byte followed by the payload.

use vstd::prelude::*;
use crate::error::EscrowError;
use crate::error::ProgramFailure;
use crate::encoding::{le_value, read_le_u64, AMOUNT_LEN};
use crate::encoding::{lemma_le_value_bound, lemma_pow256_8};

verus! {

/// Opcode of [`EscrowInstruction::InitEscrow`].
pub const INIT_ESCROW_TAG: u8 = 0;

#[derive(Clone, Copy, Debug, PartialEq, Eq, Structural)]
pub enum EscrowInstruction {
    /// Starts the trade by creating and populating an escrow account and transferring ownership of
    /// the given temp token account to the PDA
    ///
    /// Accounts expected:
    ///
    /// 0. `[signer]` The account of the person initializing the escrow
    /// 1. `[writable]` Temporary token account that should be created prior to this instruction
    ///    and owned by the initializer
    /// 2. `[]` The initializer's token account for the token they will receive should the trade go
    ///    through
    /// 3. `[writable]` The escrow account, it will hold all necessary info about the trade.
    /// 4. `[]` The rent sysvar
    /// 5. `[]` The token program
    ///
    /// * `Initializer` is party A(aka the signer) - the person that initialize the escrow.
    InitEscrow {
        /// The amount party A expects to receive of token Y.
        amount: u64,
    },
}

/// The failure with which malformed instruction bytes are rejected.
pub open spec fn invalid_instruction() -> ProgramFailure {
    EscrowError::InvalidInstruction.failure()
}

/// What a payload decodes to as an amount: the little-endian value of its
/// first eight bytes, if it has that many.
pub open spec fn spec_unpack_amount(input: Seq<u8>) -> Result<u64, ProgramFailure> {
    if input.len() >= AMOUNT_LEN {
        Ok(le_value(input.take(AMOUNT_LEN as int)) as u64)
    } else {
        Err(invalid_instruction())
    }
}

/// What an instruction buffer decodes to.
pub open spec fn spec_unpack(input: Seq<u8>) -> Result<EscrowInstruction, ProgramFailure> {
    if input.len() == 0 {
        Err(invalid_instruction())
    } else if input[0] == INIT_ESCROW_TAG {
        match spec_unpack_amount(input.drop_first()) {
            Ok(amount) => Ok(EscrowInstruction::InitEscrow { amount }),
            Err(e) => Err(e),
        }
    } else {
        Err(invalid_instruction())
    }
}

/// A buffer that is empty or starts with an opcode other than that of
/// `InitEscrow` is rejected as an invalid instruction, whatever follows the
/// opcode.
pub proof fn lemma_unknown_opcode_rejected(input: Seq<u8>)
    requires
        input.len() == 0 || input[0] != INIT_ESCROW_TAG,
    ensures
        spec_unpack(input) == Err::<EscrowInstruction, ProgramFailure>(
            EscrowError::InvalidInstruction.failure(),
        ),
{
}

/// A buffer that starts with the opcode of `InitEscrow` and is too short to
/// hold the amount after it is rejected as an invalid instruction.
pub proof fn lemma_truncated_amount_rejected(input: Seq<u8>)
    requires
        1 <= input.len() < 1 + AMOUNT_LEN,
        input[0] == INIT_ESCROW_TAG,
    ensures
        spec_unpack(input) == Err::<EscrowInstruction, ProgramFailure>(
            EscrowError::InvalidInstruction.failure(),
        ),
{
}

/// A buffer that starts with the opcode of `InitEscrow` and holds at least
/// eight bytes after it decodes to `InitEscrow` with the little-endian
/// value of those eight bytes, which fits the amount exactly.
pub proof fn lemma_init_escrow_decoded(input: Seq<u8>)
    requires
        input.len() >= 1 + AMOUNT_LEN,
        input[0] == INIT_ESCROW_TAG,
    ensures
        le_value(input.subrange(1, 1 + AMOUNT_LEN)) <= u64::MAX,
        spec_unpack(input) == Ok::<EscrowInstruction, ProgramFailure>(
            EscrowInstruction::InitEscrow {
                amount: le_value(input.subrange(1, 1 + AMOUNT_LEN)) as u64,
            },
        ),
{
    let digits = input.subrange(1, 1 + AMOUNT_LEN);
    assert(input.drop_first().take(AMOUNT_LEN as int) =~= digits);
    lemma_le_value_bound(digits);
    lemma_pow256_8();
}

/// Bytes after the amount have no part in what a buffer decodes to: two
/// buffers that agree on their first nine bytes decode alike.
pub proof fn lemma_trailing_bytes_ignored(a: Seq<u8>, b: Seq<u8>)
    requires
        a.len() >= 1 + AMOUNT_LEN,
        b.len() >= 1 + AMOUNT_LEN,
        a.take(1 + AMOUNT_LEN) == b.take(1 + AMOUNT_LEN),
    ensures
        spec_unpack(a) == spec_unpack(b),
{
    assert(a[0] == a.take(1 + AMOUNT_LEN)[0]);
    assert(b[0] == b.take(1 + AMOUNT_LEN)[0]);
    assert(a.drop_first().take(AMOUNT_LEN as int) =~= a.take(1 + AMOUNT_LEN).drop_first());
    assert(b.drop_first().take(AMOUNT_LEN as int) =~= b.take(1 + AMOUNT_LEN).drop_first());
}

impl EscrowInstruction {
    /// Unpacks a byte buffer into an [`EscrowInstruction`].
    pub fn unpack(input: &[u8]) -> (r: Result<Self, ProgramFailure>)
        ensures
            r == spec_unpack(input@),
    {
        if input.len() == 0 {
            return Err(ProgramFailure::from(EscrowError::InvalidInstruction));
        }
        let tag = input[0];
        if tag != INIT_ESCROW_TAG {
            return Err(ProgramFailure::from(EscrowError::InvalidInstruction));
        }
        let rest = vstd::slice::slice_subrange(input, 1, input.len());
        assert(rest@ =~= input@.drop_first());
        match Self::unpack_amount(rest) {
            Ok(amount) => Ok(EscrowInstruction::InitEscrow { amount }),
            Err(e) => Err(e),
        }
    }

    /// Reads the amount that a payload starts with.
    pub fn unpack_amount(input: &[u8]) -> (r: Result<u64, ProgramFailure>)
        ensures
            r == spec_unpack_amount(input@),
    {
        if input.len() < AMOUNT_LEN {
            return Err(ProgramFailure::from(EscrowError::InvalidInstruction));
        }
        Ok(read_le_u64(input, 0))
    }
}

} // verus!
