//! The rent parameters that the host publishes, and the threshold above
//! which an account is exempt from rent.

use vstd::prelude::*;
use crate::account::{same_key, Account, AccountView, Pubkey};
use crate::encoding::{le_value, read_le_u64, AMOUNT_LEN};
use crate::error::ProgramFailure;
use crate::host::{rent_minimum_balance, try_minimum_balance};

verus! {

/// Width in bytes of the encoded rent parameters.
pub const RENT_LEN: usize = 17;

/// Number of bytes that an account without data is charged for.
pub const ACCOUNT_STORAGE_OVERHEAD: u64 = 128;

/// Position of the exemption threshold in the encoded rent parameters.
pub const EXEMPTION_THRESHOLD_AT: usize = 8;

/// Position of the burn percentage in the encoded rent parameters.
pub const BURN_PERCENT_AT: usize = 16;

/// Configuration of network rent.
#[derive(Clone, Copy, Debug, PartialEq, Eq)]
pub struct Rent {
    /// Rental rate in lamports per byte.
    pub lamports_per_byte: u64,
    /// The factor by which the base rent is scaled, as the eight bytes in
    /// which the host stores it.
    pub exemption_threshold: [u8; 8],
    /// The percentage of collected rent that is burned.
    pub burn_percent: u8,
}

/// The mathematical content of a [`Rent`].
pub struct RentView {
    pub lamports_per_byte: u64,
    pub exemption_threshold: Seq<u8>,
    pub burn_percent: u8,
}

impl View for Rent {
    type V = RentView;

    open spec fn view(&self) -> RentView {
        RentView {
            lamports_per_byte: self.lamports_per_byte,
            exemption_threshold: self.exemption_threshold@,
            burn_percent: self.burn_percent,
        }
    }
}

impl RentView {
    /// The balance from which on an account of `data_len` bytes is exempt
    /// from rent. There is none where the base rent exceeds a `u64`;
    /// otherwise it is what the host's rent schedule computes.
    pub open spec fn minimum_balance(self, data_len: usize) -> Option<u64> {
        if (ACCOUNT_STORAGE_OVERHEAD + data_len) * self.lamports_per_byte > u64::MAX {
            None
        } else {
            rent_minimum_balance(
                self.lamports_per_byte,
                self.exemption_threshold,
                self.burn_percent,
                data_len,
            )
        }
    }

    /// Whether an account of `data_len` bytes with the given balance is
    /// exempt from rent.
    pub open spec fn is_exempt(self, balance: u64, data_len: usize) -> bool {
        meets_threshold(self.minimum_balance(data_len), balance)
    }
}

/// Whether a balance reaches the threshold. No balance reaches a threshold
/// that does not exist.
pub open spec fn meets_threshold(threshold: Option<u64>, balance: u64) -> bool {
    match threshold {
        Some(minimum) => balance >= minimum,
        None => false,
    }
}

/// The rent parameters that `data` of at least the parameters' width
/// starts with.
pub open spec fn rent_in(data: Seq<u8>) -> RentView {
    RentView {
        lamports_per_byte: le_value(data.subrange(0, AMOUNT_LEN as int)) as u64,
        exemption_threshold: data.subrange(EXEMPTION_THRESHOLD_AT as int, BURN_PERCENT_AT as int),
        burn_percent: data[BURN_PERCENT_AT as int],
    }
}

/// The rent parameters that an account publishes: the account has to be
/// the rent sysvar and its data has to hold the parameters.
pub open spec fn spec_rent_from_account(account: AccountView, rent_sysvar: Seq<u8>) -> Result<
    RentView,
    ProgramFailure,
> {
    if account.key != rent_sysvar {
        Err(ProgramFailure::InvalidArgument)
    } else if account.data.len() < RENT_LEN {
        Err(ProgramFailure::InvalidArgument)
    } else {
        Ok(rent_in(account.data))
    }
}

/// Decides whether a balance reaches a threshold that was computed
/// beforehand.
pub fn balance_meets(threshold: Option<u64>, balance: u64) -> (meets: bool)
    ensures
        meets == meets_threshold(threshold, balance),
{
    match threshold {
        Some(minimum) => balance >= minimum,
        None => false,
    }
}

impl Rent {
    /// Reads the rent parameters from the account that publishes them.
    /// `rent_sysvar` is the identity that this account has to have.
    pub fn from_account(account: &Account, rent_sysvar: &Pubkey) -> (r: Result<
        Rent,
        ProgramFailure,
    >)
        ensures
            match r {
                Ok(rent) => spec_rent_from_account(account@, rent_sysvar@) == Ok::<
                    RentView,
                    ProgramFailure,
                >(rent@),
                Err(e) => spec_rent_from_account(account@, rent_sysvar@) == Err::<
                    RentView,
                    ProgramFailure,
                >(e),
            },
    {
        if !same_key(&account.key, rent_sysvar) {
            return Err(ProgramFailure::InvalidArgument);
        }
        let data = account.data.as_slice();
        if data.len() < RENT_LEN {
            return Err(ProgramFailure::InvalidArgument);
        }
        let mut exemption_threshold = [0u8; 8];
        let mut i: usize = 0;
        while i < AMOUNT_LEN
            invariant
                i <= AMOUNT_LEN,
                data@.len() >= RENT_LEN,
                exemption_threshold@.len() == AMOUNT_LEN,
                forall|j: int|
                    0 <= j < i ==> exemption_threshold@[j] == data@[EXEMPTION_THRESHOLD_AT + j],
            decreases AMOUNT_LEN - i,
        {
            exemption_threshold[i] = data[EXEMPTION_THRESHOLD_AT + i];
            i = i + 1;
        }
        assert(exemption_threshold@ =~= data@.subrange(
            EXEMPTION_THRESHOLD_AT as int,
            BURN_PERCENT_AT as int,
        ));
        Ok(
            Rent {
                lamports_per_byte: read_le_u64(data, 0),
                exemption_threshold,
                burn_percent: data[BURN_PERCENT_AT],
            },
        )
    }

    /// The balance from which on an account of `data_len` bytes is exempt
    /// from rent, if there is one.
    pub fn minimum_balance(&self, data_len: usize) -> (balance: Option<u64>)
        ensures
            balance == self@.minimum_balance(data_len),
    {
        let bytes: u128 = ACCOUNT_STORAGE_OVERHEAD as u128 + data_len as u128;
        let rate: u128 = self.lamports_per_byte as u128;
        if rate == 0 {
            assert(bytes * rate == 0) by (nonlinear_arith)
                requires
                    rate == 0,
            ;
            return try_minimum_balance(self, data_len);
        }
        if bytes > u64::MAX as u128 {
            assert(bytes * rate >= bytes) by (nonlinear_arith)
                requires
                    rate >= 1,
                    bytes >= 0,
            ;
            return None;
        }
        assert(bytes * rate <= 0xFFFF_FFFF_FFFF_FFFF * 0xFFFF_FFFF_FFFF_FFFF) by (nonlinear_arith)
            requires
                0 <= bytes <= 0xFFFF_FFFF_FFFF_FFFF,
                0 <= rate <= 0xFFFF_FFFF_FFFF_FFFF,
        ;
        if bytes * rate > u64::MAX as u128 {
            None
        } else {
            try_minimum_balance(self, data_len)
        }
    }

    /// Whether a given balance and data length would be exempt.
    pub fn is_exempt(&self, balance: u64, data_len: usize) -> (exempt: bool)
        ensures
            exempt == self@.is_exempt(balance, data_len),
    {
        balance_meets(self.minimum_balance(data_len), balance)
    }
}

} // verus!
