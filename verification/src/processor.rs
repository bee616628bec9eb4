//! Dispatch of decoded instructions, and the handler that opens an escrow.

use vstd::prelude::*;
use crate::account::{same_key, views, Account, AccountView, Pubkey};
use crate::error::{EscrowError, ProgramFailure};
use crate::host::{program_address, rent_sysvar_id, rent_sysvar_key, token_program_id};
use crate::host::{token_program_key, try_find_program_address};
use crate::instruction::{spec_unpack, EscrowInstruction};
use crate::rent::{balance_meets, meets_threshold, spec_rent_from_account, Rent, RentView};
use crate::state::{lemma_unpack_of_encoding, record_in, spec_unpack_unchecked, Escrow};
use crate::state::{EscrowView, ESCROW_LEN};

verus! {

/// Position of the initializer in the account list.
pub const INITIALIZER: usize = 0;

/// Position of the temporary token account in the account list.
pub const TEMP_TOKEN_ACCOUNT: usize = 1;

/// Position of the initializer's receiving account in the account list.
pub const RECEIVING_ACCOUNT: usize = 2;

/// Position of the escrow account in the account list.
pub const ESCROW_ACCOUNT: usize = 3;

/// Position of the rent sysvar in the account list.
pub const RENT_SYSVAR: usize = 4;

/// Position of the token program in the account list.
pub const TOKEN_PROGRAM: usize = 5;

/// The seed from which the authority over the holding accounts is derived.
pub open spec fn escrow_seed() -> Seq<u8> {
    seq![101u8, 115, 99, 114, 111, 119]
}

/// The change of authority over a token account that the token program has
/// to be asked for once an escrow was opened.
#[derive(Clone, Copy, Debug, PartialEq, Eq)]
pub struct AuthorityTransfer {
    /// Identity of the token program that is to perform the change.
    pub token_program: Pubkey,
    /// The token account whose authority changes.
    pub token_account: Pubkey,
    /// Who holds the authority now, and signed for the change.
    pub current_authority: Pubkey,
    /// The program-derived address that is to hold the authority.
    pub new_authority: Pubkey,
}

/// The mathematical content of an [`AuthorityTransfer`].
pub struct AuthorityTransferView {
    pub token_program: Seq<u8>,
    pub token_account: Seq<u8>,
    pub current_authority: Seq<u8>,
    pub new_authority: Seq<u8>,
}

impl View for AuthorityTransfer {
    type V = AuthorityTransferView;

    open spec fn view(&self) -> AuthorityTransferView {
        AuthorityTransferView {
            token_program: self.token_program@,
            token_account: self.token_account@,
            current_authority: self.current_authority@,
            new_authority: self.new_authority@,
        }
    }
}

/// What the inspection of the accounts yields, in the order of its checks:
/// the initializer has to have signed, the receiving account has to be
/// owned by the token program, and the rent sysvar has to hold the rent
/// parameters. An account that the list is too short for fails the check
/// that needs it.
pub open spec fn spec_check_accounts(
    accounts: Seq<AccountView>,
    token_program: Seq<u8>,
    rent_sysvar: Seq<u8>,
) -> Result<RentView, ProgramFailure> {
    if accounts.len() <= INITIALIZER {
        Err(ProgramFailure::NotEnoughAccountKeys)
    } else if !accounts[INITIALIZER as int].is_signer {
        Err(ProgramFailure::MissingRequiredSignature)
    } else if accounts.len() <= RECEIVING_ACCOUNT {
        Err(ProgramFailure::NotEnoughAccountKeys)
    } else if accounts[RECEIVING_ACCOUNT as int].owner != token_program {
        Err(ProgramFailure::IncorrectOwner)
    } else if accounts.len() <= RENT_SYSVAR {
        Err(ProgramFailure::NotEnoughAccountKeys)
    } else {
        spec_rent_from_account(accounts[RENT_SYSVAR as int], rent_sysvar)
    }
}

/// Whether the escrow account holds the balance that `threshold` asks for.
pub open spec fn spec_check_rent(threshold: Option<u64>, balance: u64) -> Result<
    (),
    ProgramFailure,
> {
    if meets_threshold(threshold, balance) {
        Ok(())
    } else {
        Err(EscrowError::NotRentExempt.failure())
    }
}

/// The record that opening the escrow stores, or the failure with which it
/// is refused: the escrow account has to hold a record that was never
/// initialized, the list has to hold all six accounts, and the authority
/// has to have been derived.
pub open spec fn spec_new_record(
    accounts: Seq<AccountView>,
    amount: u64,
    authority: Option<Seq<u8>>,
) -> Result<EscrowView, ProgramFailure> {
    if accounts.len() <= ESCROW_ACCOUNT {
        Err(ProgramFailure::NotEnoughAccountKeys)
    } else {
        match spec_unpack_unchecked(accounts[ESCROW_ACCOUNT as int].data) {
            Err(e) => Err(e),
            Ok(current) => if current.is_initialized {
                Err(ProgramFailure::AccountAlreadyInitialized)
            } else if accounts.len() <= TOKEN_PROGRAM {
                Err(ProgramFailure::NotEnoughAccountKeys)
            } else if authority is None {
                Err(ProgramFailure::InvalidSeeds)
            } else {
                Ok(
                    EscrowView {
                        is_initialized: true,
                        initializer_pubkey: accounts[INITIALIZER as int].key,
                        temp_token_account_pubkey: accounts[TEMP_TOKEN_ACCOUNT as int].key,
                        initializer_token_to_receive_account_pubkey: accounts[RECEIVING_ACCOUNT
                    as int].key,
                        expected_amount: amount,
                    },
                )
            },
        }
    }
}

/// The change of authority that follows the opening of an escrow on
/// `accounts`: the temporary token account passes from the initializer to
/// the derived address.
pub open spec fn spec_transfer(
    accounts: Seq<AccountView>,
    authority: Seq<u8>,
) -> AuthorityTransferView {
    AuthorityTransferView {
        token_program: accounts[TOKEN_PROGRAM as int].key,
        token_account: accounts[TEMP_TOKEN_ACCOUNT as int].key,
        current_authority: accounts[INITIALIZER as int].key,
        new_authority: authority,
    }
}

/// The accounts after `record` was stored in the escrow account: the data
/// of that account is the encoded record, and nothing else has changed.
pub open spec fn with_record(accounts: Seq<AccountView>, record: EscrowView) -> Seq<AccountView> {
    accounts.update(
        ESCROW_ACCOUNT as int,
        AccountView { data: record.encoding(), ..accounts[ESCROW_ACCOUNT as int] },
    )
}

/// The record that `InitEscrow` stores when it is invoked on `accounts` for
/// `amount`, or the failure with which it ends. The checks come in this
/// order: signature, owner of the receiving account, rent parameters, rent
/// exemption of the escrow account, state of the stored record.
pub open spec fn spec_init_escrow(
    accounts: Seq<AccountView>,
    amount: u64,
    program_id: Seq<u8>,
) -> Result<EscrowView, ProgramFailure> {
    match spec_check_accounts(accounts, token_program_key(), rent_sysvar_key()) {
        Err(e) => Err(e),
        Ok(rent) => {
            let escrow = accounts[ESCROW_ACCOUNT as int];
            match spec_check_rent(
                rent.minimum_balance(escrow.data.len() as usize),
                escrow.lamports,
            ) {
                Err(e) => Err(e),
                Ok(_) => spec_new_record(accounts, amount, spec_authority(program_id)),
            }
        },
    }
}

/// The address derived for `program_id` from the escrow seed, if there is
/// one.
pub open spec fn spec_authority(program_id: Seq<u8>) -> Option<Seq<u8>> {
    match program_address(escrow_seed(), program_id) {
        Some((address, _)) => Some(address),
        None => None,
    }
}

/// What the program does with an instruction on `accounts`: the record it
/// stores, or the failure with which it ends.
pub open spec fn spec_process(
    program_id: Seq<u8>,
    accounts: Seq<AccountView>,
    instruction_data: Seq<u8>,
) -> Result<EscrowView, ProgramFailure> {
    match spec_unpack(instruction_data) {
        Err(e) => Err(e),
        Ok(EscrowInstruction::InitEscrow { amount }) => spec_init_escrow(
            accounts,
            amount,
            program_id,
        ),
    }
}

/// Processing an instruction is decoding it and running its handler: bytes
/// that do not decode fail with the decoder's failure before any account is
/// looked at, and bytes that decode to `InitEscrow` give what its handler
/// gives for the decoded amount.
pub proof fn lemma_process_dispatches(
    program_id: Seq<u8>,
    accounts: Seq<AccountView>,
    instruction_data: Seq<u8>,
)
    ensures
        match spec_unpack(instruction_data) {
            Ok(EscrowInstruction::InitEscrow { amount }) => spec_process(
                program_id,
                accounts,
                instruction_data,
            ) == spec_init_escrow(accounts, amount, program_id),
            Err(e) => spec_process(program_id, accounts, instruction_data) == Err::<
                EscrowView,
                ProgramFailure,
            >(e),
        },
{
}

/// Without the initializer's signature `InitEscrow` fails for want of it,
/// whatever the other accounts hold.
pub proof fn lemma_signature_checked_first(
    accounts: Seq<AccountView>,
    amount: u64,
    program_id: Seq<u8>,
)
    requires
        accounts.len() > INITIALIZER,
        !accounts[INITIALIZER as int].is_signer,
    ensures
        spec_init_escrow(accounts, amount, program_id) == Err::<EscrowView, ProgramFailure>(
            ProgramFailure::MissingRequiredSignature,
        ),
{
}

/// With the initializer's signature, a receiving account that the token
/// program does not own makes `InitEscrow` fail with `IncorrectOwner`,
/// whatever the other accounts hold.
pub proof fn lemma_receiving_owner_checked(
    accounts: Seq<AccountView>,
    amount: u64,
    program_id: Seq<u8>,
)
    requires
        accounts.len() > RECEIVING_ACCOUNT,
        accounts[INITIALIZER as int].is_signer,
        accounts[RECEIVING_ACCOUNT as int].owner != token_program_key(),
    ensures
        spec_init_escrow(accounts, amount, program_id) == Err::<EscrowView, ProgramFailure>(
            ProgramFailure::IncorrectOwner,
        ),
{
}

/// Once the signature, the owner and the rent parameters were accepted, an
/// escrow account below the rent-exemption threshold makes `InitEscrow`
/// fail with `NotRentExempt`, whatever record the account holds.
pub proof fn lemma_rent_checked_before_record(
    accounts: Seq<AccountView>,
    amount: u64,
    program_id: Seq<u8>,
    rent: RentView,
)
    requires
        spec_check_accounts(accounts, token_program_key(), rent_sysvar_key()) == Ok::<
            RentView,
            ProgramFailure,
        >(rent),
        !rent.is_exempt(
            accounts[ESCROW_ACCOUNT as int].lamports,
            accounts[ESCROW_ACCOUNT as int].data.len() as usize,
        ),
    ensures
        spec_init_escrow(accounts, amount, program_id) == Err::<EscrowView, ProgramFailure>(
            EscrowError::NotRentExempt.failure(),
        ),
{
}

/// Once the earlier checks were passed, an escrow account whose record is
/// initialized makes `InitEscrow` fail with `AccountAlreadyInitialized`.
pub proof fn lemma_initialized_record_refused(
    accounts: Seq<AccountView>,
    amount: u64,
    program_id: Seq<u8>,
    rent: RentView,
)
    requires
        spec_check_accounts(accounts, token_program_key(), rent_sysvar_key()) == Ok::<
            RentView,
            ProgramFailure,
        >(rent),
        rent.is_exempt(
            accounts[ESCROW_ACCOUNT as int].lamports,
            accounts[ESCROW_ACCOUNT as int].data.len() as usize,
        ),
        accounts[ESCROW_ACCOUNT as int].data.len() == ESCROW_LEN,
        record_in(accounts[ESCROW_ACCOUNT as int].data).is_initialized,
    ensures
        spec_init_escrow(accounts, amount, program_id) == Err::<EscrowView, ProgramFailure>(
            ProgramFailure::AccountAlreadyInitialized,
        ),
{
}

/// On six accounts that pass every check, with an escrow account whose
/// record was never initialized, `InitEscrow` stores an initialized record
/// with the identities of the initializer, the temporary token account and
/// the receiving account and with the amount, and the bytes it leaves in
/// the escrow account decode to that record.
pub proof fn lemma_init_escrow_stores_record(
    accounts: Seq<AccountView>,
    amount: u64,
    program_id: Seq<u8>,
    rent: RentView,
)
    requires
        accounts.len() > TOKEN_PROGRAM,
        forall|i: int| 0 <= i < accounts.len() ==> (#[trigger] accounts[i]).well_formed(),
        spec_check_accounts(accounts, token_program_key(), rent_sysvar_key()) == Ok::<
            RentView,
            ProgramFailure,
        >(rent),
        rent.is_exempt(
            accounts[ESCROW_ACCOUNT as int].lamports,
            accounts[ESCROW_ACCOUNT as int].data.len() as usize,
        ),
        accounts[ESCROW_ACCOUNT as int].data.len() == ESCROW_LEN,
        !record_in(accounts[ESCROW_ACCOUNT as int].data).is_initialized,
        spec_authority(program_id) is Some,
    ensures
        spec_init_escrow(accounts, amount, program_id) == Ok::<EscrowView, ProgramFailure>(
            EscrowView {
                is_initialized: true,
                initializer_pubkey: accounts[INITIALIZER as int].key,
                temp_token_account_pubkey: accounts[TEMP_TOKEN_ACCOUNT as int].key,
                initializer_token_to_receive_account_pubkey: accounts[RECEIVING_ACCOUNT
                    as int].key,
                expected_amount: amount,
            },
        ),
        crate::state::spec_unpack(
            with_record(
                accounts,
                spec_init_escrow(accounts, amount, program_id)->Ok_0,
            )[ESCROW_ACCOUNT as int].data,
        ) == Ok::<EscrowView, ProgramFailure>(spec_init_escrow(accounts, amount, program_id)->Ok_0),
{
    let record = spec_init_escrow(accounts, amount, program_id)->Ok_0;
    assert(accounts[INITIALIZER as int].well_formed());
    assert(accounts[TEMP_TOKEN_ACCOUNT as int].well_formed());
    assert(accounts[RECEIVING_ACCOUNT as int].well_formed());
    lemma_unpack_of_encoding(record);
}

/// An escrow is opened at most once: whenever `InitEscrow` succeeds, the
/// record it found was not initialized, the record it stores is, and
/// `InitEscrow` on the accounts it leaves fails with
/// `AccountAlreadyInitialized`, for any amount.
pub proof fn lemma_opened_only_once(
    accounts: Seq<AccountView>,
    amount: u64,
    again: u64,
    program_id: Seq<u8>,
)
    requires
        forall|i: int| 0 <= i < accounts.len() ==> (#[trigger] accounts[i]).well_formed(),
        spec_init_escrow(accounts, amount, program_id) is Ok,
    ensures
        !record_in(accounts[ESCROW_ACCOUNT as int].data).is_initialized,
        spec_init_escrow(accounts, amount, program_id)->Ok_0.is_initialized,
        spec_init_escrow(
            with_record(accounts, spec_init_escrow(accounts, amount, program_id)->Ok_0),
            again,
            program_id,
        ) == Err::<EscrowView, ProgramFailure>(ProgramFailure::AccountAlreadyInitialized),
{
    let record = spec_init_escrow(accounts, amount, program_id)->Ok_0;
    let after = with_record(accounts, record);
    assert(accounts[INITIALIZER as int].well_formed());
    assert(accounts[TEMP_TOKEN_ACCOUNT as int].well_formed());
    assert(accounts[RECEIVING_ACCOUNT as int].well_formed());
    lemma_unpack_of_encoding(record);
    crate::state::lemma_encoding_len(record);
    assert(after[ESCROW_ACCOUNT as int].data.len() == accounts[ESCROW_ACCOUNT as int].data.len());
}

/// Inspects the accounts of an `InitEscrow` up to the rent parameters,
/// which it returns. `token_program` is the identity that has to own the
/// receiving account, `rent_sysvar` the one that the rent account has to
/// have.
pub fn check_accounts(accounts: &Vec<Account>, token_program: &Pubkey, rent_sysvar: &Pubkey) -> (r:
    Result<Rent, ProgramFailure>)
    ensures
        match r {
            Ok(rent) => spec_check_accounts(views(accounts@), token_program@, rent_sysvar@) == Ok::<
                RentView,
                ProgramFailure,
            >(rent@),
            Err(e) => spec_check_accounts(views(accounts@), token_program@, rent_sysvar@) == Err::<
                RentView,
                ProgramFailure,
            >(e),
        },
{
    if accounts.len() <= INITIALIZER {
        return Err(ProgramFailure::NotEnoughAccountKeys);
    }
    if !accounts[INITIALIZER].is_signer {
        return Err(ProgramFailure::MissingRequiredSignature);
    }
    if accounts.len() <= RECEIVING_ACCOUNT {
        return Err(ProgramFailure::NotEnoughAccountKeys);
    }
    if !same_key(&accounts[RECEIVING_ACCOUNT].owner, token_program) {
        return Err(ProgramFailure::IncorrectOwner);
    }
    if accounts.len() <= RENT_SYSVAR {
        return Err(ProgramFailure::NotEnoughAccountKeys);
    }
    Rent::from_account(&accounts[RENT_SYSVAR], rent_sysvar)
}

/// Checks the balance of the escrow account against the threshold that the
/// rent schedule gave for it.
pub fn check_rent(threshold: Option<u64>, balance: u64) -> (r: Result<(), ProgramFailure>)
    ensures
        r == spec_check_rent(threshold, balance),
{
    if balance_meets(threshold, balance) {
        Ok(())
    } else {
        Err(ProgramFailure::from(EscrowError::NotRentExempt))
    }
}

/// Stores the record of a new trade in the escrow account and returns the
/// change of authority that has to follow. `authority` is the address that
/// was derived for the program, if one was. On a failure the accounts stay
/// as they were.
pub fn open_escrow(accounts: &mut Vec<Account>, amount: u64, authority: Option<Pubkey>) -> (r:
    Result<AuthorityTransfer, ProgramFailure>)
    ensures
        match spec_new_record(views(old(accounts)@), amount, key_view(authority)) {
            Ok(record) => {
                &&& r is Ok
                &&& r->Ok_0@ == spec_transfer(views(old(accounts)@), key_view(authority)->Some_0)
                &&& views(final(accounts)@) == with_record(views(old(accounts)@), record)
            },
            Err(e) => r == Err::<AuthorityTransfer, ProgramFailure>(e) && final(accounts)@ == old(
                accounts,
            )@,
        },
{
    if accounts.len() <= ESCROW_ACCOUNT {
        return Err(ProgramFailure::NotEnoughAccountKeys);
    }
    let current = match Escrow::unpack_unchecked(accounts[ESCROW_ACCOUNT].data.as_slice()) {
        Ok(current) => current,
        Err(e) => {
            return Err(e);
        },
    };
    if current.is_initialized() {
        return Err(ProgramFailure::AccountAlreadyInitialized);
    }
    if accounts.len() <= TOKEN_PROGRAM {
        return Err(ProgramFailure::NotEnoughAccountKeys);
    }
    let new_authority = match authority {
        Some(address) => address,
        None => {
            return Err(ProgramFailure::InvalidSeeds);
        },
    };
    let record = Escrow {
        is_initialized: true,
        initializer_pubkey: accounts[INITIALIZER].key,
        temp_token_account_pubkey: accounts[TEMP_TOKEN_ACCOUNT].key,
        initializer_token_to_receive_account_pubkey: accounts[RECEIVING_ACCOUNT].key,
        expected_amount: amount,
    };
    let transfer = AuthorityTransfer {
        token_program: accounts[TOKEN_PROGRAM].key,
        token_account: accounts[TEMP_TOKEN_ACCOUNT].key,
        current_authority: accounts[INITIALIZER].key,
        new_authority,
    };
    let escrow = &accounts[ESCROW_ACCOUNT];
    let stored = Account {
        key: escrow.key,
        is_signer: escrow.is_signer,
        is_writable: escrow.is_writable,
        lamports: escrow.lamports,
        data: record.pack(),
        owner: escrow.owner,
    };
    accounts.set(ESCROW_ACCOUNT, stored);
    proof {
        assert(views(accounts@) =~= with_record(views(old(accounts)@), record@));
    }
    Ok(transfer)
}

/// The content of an identity that may be absent.
pub open spec fn key_view(key: Option<Pubkey>) -> Option<Seq<u8>> {
    match key {
        Some(k) => Some(k@),
        None => None,
    }
}

/// The program's instruction processor.
pub struct Processor;

impl Processor {
    /// Decodes an instruction and runs its handler on the accounts. On
    /// success the escrow account holds the new record, and the returned
    /// change of authority is what the token program has to be asked for;
    /// on a failure the accounts stay as they were.
    pub fn process(program_id: &Pubkey, accounts: &mut Vec<Account>, instruction_data: &[u8]) -> (r:
        Result<AuthorityTransfer, ProgramFailure>)
        ensures
            match spec_process(program_id@, views(old(accounts)@), instruction_data@) {
                Ok(record) => {
                    &&& r is Ok
                    &&& r->Ok_0@ == spec_transfer(
                        views(old(accounts)@),
                        spec_authority(program_id@)->Some_0,
                    )
                    &&& views(final(accounts)@) == with_record(views(old(accounts)@), record)
                },
                Err(e) => r == Err::<AuthorityTransfer, ProgramFailure>(e) && final(accounts)@
                    == old(accounts)@,
            },
    {
        match EscrowInstruction::unpack(instruction_data) {
            Ok(EscrowInstruction::InitEscrow { amount }) => Self::process_init_escrow(
                accounts,
                amount,
                program_id,
            ),
            Err(e) => Err(e),
        }
    }

    /// Opens an escrow: checks the six accounts in their order, stores the
    /// record of the trade in the escrow account and returns the change of
    /// authority over the temporary token account. On a failure the
    /// accounts stay as they were.
    pub fn process_init_escrow(accounts: &mut Vec<Account>, amount: u64, program_id: &Pubkey) -> (r:
        Result<AuthorityTransfer, ProgramFailure>)
        ensures
            match spec_init_escrow(views(old(accounts)@), amount, program_id@) {
                Ok(record) => {
                    &&& r is Ok
                    &&& r->Ok_0@ == spec_transfer(
                        views(old(accounts)@),
                        spec_authority(program_id@)->Some_0,
                    )
                    &&& views(final(accounts)@) == with_record(views(old(accounts)@), record)
                },
                Err(e) => r == Err::<AuthorityTransfer, ProgramFailure>(e) && final(accounts)@
                    == old(accounts)@,
            },
    {
        let token_program = token_program_id();
        let rent_sysvar = rent_sysvar_id();
        let rent = match check_accounts(accounts, &token_program, &rent_sysvar) {
            Ok(rent) => rent,
            Err(e) => {
                return Err(e);
            },
        };
        let escrow = &accounts[ESCROW_ACCOUNT];
        let threshold = rent.minimum_balance(escrow.data.len());
        match check_rent(threshold, escrow.lamports) {
            Ok(_) => {},
            Err(e) => {
                return Err(e);
            },
        }
        let seed: [u8; 6] = [101, 115, 99, 114, 111, 119];
        assert(seed@ =~= escrow_seed());
        let authority = match try_find_program_address(seed.as_slice(), program_id) {
            Some((address, _)) => Some(address),
            None => None,
        };
        open_escrow(accounts, amount, authority)
    }
}

} // verus!
