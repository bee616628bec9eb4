//! The persisted trade record and its fixed binary layout.

use vstd::prelude::*;
use crate::account::{read_key, Pubkey, PUBKEY_LEN};
use crate::encoding::{le_bytes, le_value, push_le_u64, read_le_u64, AMOUNT_LEN};
use crate::encoding::{lemma_le_bytes_len, lemma_le_bytes_of_value, lemma_le_value_bound};
use crate::encoding::{lemma_le_value_of_bytes, lemma_pow256_8};
use crate::error::ProgramFailure;

verus! {

/// Width in bytes of an encoded record.
pub const ESCROW_LEN: usize = 105;

/// Position of the initializer's identity in an encoded record.
pub const INITIALIZER_AT: usize = 1;

/// Position of the holding account's identity in an encoded record.
pub const TEMP_TOKEN_ACCOUNT_AT: usize = 33;

/// Position of the receiving account's identity in an encoded record.
pub const RECEIVING_ACCOUNT_AT: usize = 65;

/// Position of the expected amount in an encoded record.
pub const EXPECTED_AMOUNT_AT: usize = 97;

/// The terms of one pending trade.
#[derive(Clone, Copy, Debug, PartialEq, Eq)]
pub struct Escrow {
    /// Whether the record describes an opened trade.
    pub is_initialized: bool,
    /// Who opened the trade.
    pub initializer_pubkey: Pubkey,
    /// The account that holds the deposited token.
    pub temp_token_account_pubkey: Pubkey,
    /// Where the initializer wants to receive the counter-token.
    pub initializer_token_to_receive_account_pubkey: Pubkey,
    /// Quantity of counter-token required to complete the trade.
    pub expected_amount: u64,
}

/// The mathematical content of an [`Escrow`].
pub struct EscrowView {
    pub is_initialized: bool,
    pub initializer_pubkey: Seq<u8>,
    pub temp_token_account_pubkey: Seq<u8>,
    pub initializer_token_to_receive_account_pubkey: Seq<u8>,
    pub expected_amount: u64,
}

impl View for Escrow {
    type V = EscrowView;

    open spec fn view(&self) -> EscrowView {
        EscrowView {
            is_initialized: self.is_initialized,
            initializer_pubkey: self.initializer_pubkey@,
            temp_token_account_pubkey: self.temp_token_account_pubkey@,
            initializer_token_to_receive_account_pubkey: self
                .initializer_token_to_receive_account_pubkey@,
            expected_amount: self.expected_amount,
        }
    }
}

impl EscrowView {
    /// Whether each identity has the width of an identity, as it has in
    /// every [`Escrow`].
    pub open spec fn well_formed(self) -> bool {
        &&& self.initializer_pubkey.len() == PUBKEY_LEN
        &&& self.temp_token_account_pubkey.len() == PUBKEY_LEN
        &&& self.initializer_token_to_receive_account_pubkey.len() == PUBKEY_LEN
    }

    /// The encoded record: the flag byte, the three identities and the
    /// little-endian amount, in this order.
    pub open spec fn encoding(self) -> Seq<u8> {
        seq![if self.is_initialized { 1u8 } else { 0u8 }] + self.initializer_pubkey
            + self.temp_token_account_pubkey + self.initializer_token_to_receive_account_pubkey
            + le_bytes(self.expected_amount as nat, AMOUNT_LEN as nat)
    }
}

/// The record that `bytes` of the record's width hold. A flag byte other
/// than zero marks the record as initialized.
pub open spec fn record_in(bytes: Seq<u8>) -> EscrowView {
    EscrowView {
        is_initialized: bytes[0] != 0,
        initializer_pubkey: bytes.subrange(INITIALIZER_AT as int, TEMP_TOKEN_ACCOUNT_AT as int),
        temp_token_account_pubkey: bytes.subrange(
            TEMP_TOKEN_ACCOUNT_AT as int,
            RECEIVING_ACCOUNT_AT as int,
        ),
        initializer_token_to_receive_account_pubkey: bytes.subrange(
            RECEIVING_ACCOUNT_AT as int,
            EXPECTED_AMOUNT_AT as int,
        ),
        expected_amount: le_value(
            bytes.subrange(EXPECTED_AMOUNT_AT as int, ESCROW_LEN as int),
        ) as u64,
    }
}

/// What decoding without the validity check yields: the record, or a
/// failure when the bytes do not have the record's width.
pub open spec fn spec_unpack_unchecked(bytes: Seq<u8>) -> Result<EscrowView, ProgramFailure> {
    if bytes.len() == ESCROW_LEN {
        Ok(record_in(bytes))
    } else {
        Err(ProgramFailure::InvalidAccountData)
    }
}

/// What strict decoding yields: as without the check, but a record that was
/// never initialized is a failure.
pub open spec fn spec_unpack(bytes: Seq<u8>) -> Result<EscrowView, ProgramFailure> {
    match spec_unpack_unchecked(bytes) {
        Ok(record) => if record.is_initialized {
            Ok(record)
        } else {
            Err(ProgramFailure::UninitializedAccount)
        },
        Err(e) => Err(e),
    }
}

impl Escrow {
    /// Width in bytes of an encoded record.
    pub const LEN: usize = ESCROW_LEN;

    /// Whether the record describes an opened trade.
    pub fn is_initialized(&self) -> (b: bool)
        ensures
            b == self@.is_initialized,
    {
        self.is_initialized
    }

    /// Encodes the record in its fixed layout.
    pub fn pack(&self) -> (bytes: Vec<u8>)
        ensures
            bytes@ == self@.encoding(),
            bytes@.len() == ESCROW_LEN,
    {
        let mut bytes: Vec<u8> = Vec::new();
        bytes.push(if self.is_initialized { 1u8 } else { 0u8 });
        push_key(&mut bytes, &self.initializer_pubkey);
        push_key(&mut bytes, &self.temp_token_account_pubkey);
        push_key(&mut bytes, &self.initializer_token_to_receive_account_pubkey);
        push_le_u64(&mut bytes, self.expected_amount);
        proof {
            lemma_le_bytes_len(self.expected_amount as nat, AMOUNT_LEN as nat);
            assert(bytes@ =~= self@.encoding());
        }
        bytes
    }

    /// Decodes a record whether or not it was ever initialized.
    pub fn unpack_unchecked(input: &[u8]) -> (r: Result<Escrow, ProgramFailure>)
        ensures
            match r {
                Ok(record) => spec_unpack_unchecked(input@) == Ok::<EscrowView, ProgramFailure>(
                    record@,
                ),
                Err(e) => spec_unpack_unchecked(input@) == Err::<EscrowView, ProgramFailure>(e),
            },
    {
        if input.len() != ESCROW_LEN {
            return Err(ProgramFailure::InvalidAccountData);
        }
        Ok(
            Escrow {
                is_initialized: input[0] != 0,
                initializer_pubkey: read_key(input, INITIALIZER_AT),
                temp_token_account_pubkey: read_key(input, TEMP_TOKEN_ACCOUNT_AT),
                initializer_token_to_receive_account_pubkey: read_key(input, RECEIVING_ACCOUNT_AT),
                expected_amount: read_le_u64(input, EXPECTED_AMOUNT_AT),
            },
        )
    }

    /// Decodes a record and requires that it was initialized.
    pub fn unpack(input: &[u8]) -> (r: Result<Escrow, ProgramFailure>)
        ensures
            match r {
                Ok(record) => spec_unpack(input@) == Ok::<EscrowView, ProgramFailure>(record@),
                Err(e) => spec_unpack(input@) == Err::<EscrowView, ProgramFailure>(e),
            },
    {
        match Self::unpack_unchecked(input) {
            Ok(record) => if record.is_initialized {
                Ok(record)
            } else {
                Err(ProgramFailure::UninitializedAccount)
            },
            Err(e) => Err(e),
        }
    }
}

/// Appends the bytes of an identity to `out`.
pub fn push_key(out: &mut Vec<u8>, key: &Pubkey)
    ensures
        final(out)@ == old(out)@ + key@,
{
    let mut i: usize = 0;
    while i < PUBKEY_LEN
        invariant
            i <= PUBKEY_LEN,
            key@.len() == PUBKEY_LEN,
            out@ == old(out)@ + key@.take(i as int),
        decreases PUBKEY_LEN - i,
    {
        out.push(key[i]);
        proof {
            assert(key@.take(i + 1) =~= key@.take(i as int).push(key@[i as int]));
        }
        i = i + 1;
    }
    assert(key@.take(PUBKEY_LEN as int) =~= key@);
}

/// An encoded record has the record's width.
pub proof fn lemma_encoding_len(record: EscrowView)
    requires
        record.well_formed(),
    ensures
        record.encoding().len() == ESCROW_LEN,
{
    lemma_le_bytes_len(record.expected_amount as nat, AMOUNT_LEN as nat);
}

/// Decoding an encoded record gives the record back.
pub proof fn lemma_unpack_of_encoding(record: EscrowView)
    requires
        record.well_formed(),
    ensures
        spec_unpack_unchecked(record.encoding()) == Ok::<EscrowView, ProgramFailure>(record),
        record.is_initialized ==> spec_unpack(record.encoding()) == Ok::<
            EscrowView,
            ProgramFailure,
        >(record),
        !record.is_initialized ==> spec_unpack(record.encoding()) == Err::<
            EscrowView,
            ProgramFailure,
        >(ProgramFailure::UninitializedAccount),
{
    let bytes = record.encoding();
    let amount = le_bytes(record.expected_amount as nat, AMOUNT_LEN as nat);
    lemma_le_bytes_len(record.expected_amount as nat, AMOUNT_LEN as nat);
    lemma_pow256_8();
    lemma_le_value_of_bytes(record.expected_amount as nat, AMOUNT_LEN as nat);
    let got = record_in(bytes);
    assert(got.initializer_pubkey =~= record.initializer_pubkey);
    assert(got.temp_token_account_pubkey =~= record.temp_token_account_pubkey);
    assert(got.initializer_token_to_receive_account_pubkey
        =~= record.initializer_token_to_receive_account_pubkey);
    assert(bytes.subrange(EXPECTED_AMOUNT_AT as int, ESCROW_LEN as int) =~= amount);
}

/// Encoding the record that bytes hold gives the bytes back, provided the
/// flag byte is zero or one.
pub proof fn lemma_encoding_of_record(bytes: Seq<u8>)
    requires
        bytes.len() == ESCROW_LEN,
        bytes[0] <= 1,
    ensures
        record_in(bytes).well_formed(),
        record_in(bytes).encoding() == bytes,
{
    let digits = bytes.subrange(EXPECTED_AMOUNT_AT as int, ESCROW_LEN as int);
    lemma_le_value_bound(digits);
    lemma_pow256_8();
    lemma_le_bytes_of_value(digits);
    assert(record_in(bytes).encoding() =~= bytes);
}

} // verus!
