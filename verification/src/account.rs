//! Accounts as the program sees them: plain values, one per account that the
//! host hands to an instruction.

use vstd::prelude::*;

verus! {

/// Number of bytes in an identity.
pub const PUBKEY_LEN: usize = 32;

/// The identity of an account or of a program.
pub type Pubkey = [u8; 32];

/// One account of the list that an instruction is invoked with.
#[derive(Clone, Debug, PartialEq, Eq)]
pub struct Account {
    /// Identity of the account.
    pub key: Pubkey,
    /// Whether the account's key signed the transaction.
    pub is_signer: bool,
    /// Whether the caller designated the account as writable.
    pub is_writable: bool,
    /// Balance of the account.
    pub lamports: u64,
    /// The bytes stored in the account.
    pub data: Vec<u8>,
    /// Identity of the program that owns the account.
    pub owner: Pubkey,
}

/// The mathematical content of an [`Account`].
pub struct AccountView {
    pub key: Seq<u8>,
    pub is_signer: bool,
    pub is_writable: bool,
    pub lamports: u64,
    pub data: Seq<u8>,
    pub owner: Seq<u8>,
}

impl View for Account {
    type V = AccountView;

    open spec fn view(&self) -> AccountView {
        AccountView {
            key: self.key@,
            is_signer: self.is_signer,
            is_writable: self.is_writable,
            lamports: self.lamports,
            data: self.data@,
            owner: self.owner@,
        }
    }
}

impl AccountView {
    /// Whether the two identities have the width of an identity, as they
    /// have in every [`Account`].
    pub open spec fn well_formed(self) -> bool {
        self.key.len() == PUBKEY_LEN && self.owner.len() == PUBKEY_LEN
    }
}

/// The contents of a list of accounts, in order.
pub open spec fn views(accounts: Seq<Account>) -> Seq<AccountView> {
    accounts.map_values(|a: Account| a@)
}

/// The contents of accounts are well formed.
pub proof fn lemma_views_well_formed(accounts: Seq<Account>)
    ensures
        views(accounts).len() == accounts.len(),
        forall|i: int| 0 <= i < accounts.len() ==> (#[trigger] views(accounts)[i]).well_formed(),
{
}

/// Whether two identities are the same.
pub fn same_key(a: &Pubkey, b: &Pubkey) -> (same: bool)
    ensures
        same == (a@ == b@),
{
    let mut i: usize = 0;
    while i < PUBKEY_LEN
        invariant
            i <= PUBKEY_LEN,
            a@.len() == PUBKEY_LEN,
            b@.len() == PUBKEY_LEN,
            forall|j: int| 0 <= j < i ==> a@[j] == b@[j],
        decreases PUBKEY_LEN - i,
    {
        if a[i] != b[i] {
            return false;
        }
        i = i + 1;
    }
    assert(a@ =~= b@);
    true
}

/// Reads the identity that `input` holds from position `at` on.
pub fn read_key(input: &[u8], at: usize) -> (key: Pubkey)
    requires
        at + PUBKEY_LEN <= input@.len(),
    ensures
        key@ == input@.subrange(at as int, at + PUBKEY_LEN),
{
    let n = input.len();
    let mut key: Pubkey = [0u8; 32];
    let mut i: usize = 0;
    while i < PUBKEY_LEN
        invariant
            i <= PUBKEY_LEN,
            n == input@.len(),
            at + PUBKEY_LEN <= n,
            key@.len() == PUBKEY_LEN,
            forall|j: int| 0 <= j < i ==> key@[j] == input@[at + j],
        decreases PUBKEY_LEN - i,
    {
        key[i] = input[at + i];
        i = i + 1;
    }
    assert(key@ =~= input@.subrange(at as int, at + PUBKEY_LEN));
    key
}

} // verus!
