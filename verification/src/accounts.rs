use vstd::prelude::*;
use crate::key::Key;
use crate::state::TimeLock;

verus! {

/// A request to the ledger: debit `from` and credit `to` by `lamports`, as
/// one atomic step.
#[derive(Clone, Copy, Debug, PartialEq, Eq)]
pub struct Transfer {
    pub from: Key,
    pub to: Key,
    pub lamports: u64,
}

/// What creating a vault works on.
#[derive(Clone, Copy, Debug, PartialEq, Eq)]
pub struct InitializeLock {
    /// The storage slot at the vault's address: empty until the vault exists.
    pub vault: Option<TimeLock>,
    /// The vault's address.
    pub vault_key: Key,
    /// The proven caller, who funds the vault.
    pub creator: Key,
    /// The nonce under which `vault_key` was derived.
    pub bump: u8,
}

/// What releasing a vault works on.
#[derive(Clone, Copy, Debug, PartialEq, Eq)]
pub struct Withdraw {
    /// The stored record.
    pub vault: TimeLock,
    /// The vault's address.
    pub vault_key: Key,
    /// The balance the ledger holds at the vault's address.
    pub vault_lamports: u64,
    /// The proven caller, who claims to be the receiver.
    pub receiver: Key,
}

/// What naming a new receiver works on.
#[derive(Clone, Copy, Debug, PartialEq, Eq)]
pub struct SetReceiver {
    /// The stored record.
    pub vault: TimeLock,
    /// The proven caller, who claims to be the authority.
    pub authority: Key,
}

/// What moving the unlock time works on.
#[derive(Clone, Copy, Debug, PartialEq, Eq)]
pub struct SetDuration {
    /// The stored record.
    pub vault: TimeLock,
    /// The proven caller, who claims to be the authority.
    pub authority: Key,
}

/// What reclaiming a vault works on. Anyone may call.
#[derive(Clone, Copy, Debug, PartialEq, Eq)]
pub struct CloseVault {
    /// The storage slot at the vault's address: empty once it is reclaimed.
    pub vault: Option<TimeLock>,
    /// The vault's address.
    pub vault_key: Key,
    /// The balance the ledger holds at the vault's address: once the locked
    /// amount is released, the storage deposit.
    pub vault_lamports: u64,
}

} // verus!
