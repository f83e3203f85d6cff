use vstd::prelude::*;
use crate::key::Key;

verus! {

/// The stored record of one custody agreement.
#[derive(Clone, Copy, Debug, PartialEq, Eq)]
pub struct TimeLock {
    /// Who funded the vault; the storage deposit returns here on close.
    pub creator: Key,
    /// Who may administer the vault, if anyone.
    pub authority: Option<Key>,
    /// Who receives the locked funds on release.
    pub receiver: Key,
    /// The amount still locked; zero once it has been released.
    pub amount: u64,
    /// The earliest time, in epoch seconds, at which release is allowed.
    pub unlock_timestamp: i64,
    /// Chosen by the creator to tell their vaults apart.
    pub seed: u64,
    /// What the authority may change: see [`crate::rights::Capability`].
    pub authority_rights: u8,
    /// The nonce that makes the record's derived address canonical.
    pub bump: u8,
}

/// Where a vault stands in its life.
#[derive(Clone, Copy, Debug, PartialEq, Eq, Structural)]
pub enum Phase {
    /// The record is stored and its amount is still locked.
    Active,
    /// The record is stored and its amount has been released.
    Withdrawn,
    /// No record is stored.
    Closed,
}

impl TimeLock {
    /// Bytes a stored record takes: the tag, the creator, the authority
    /// behind its presence flag, the receiver, the amount, the unlock time,
    /// the seed, the rights mask and the nonce.
    pub const LEN: usize = 8 + 32 + 1 + 32 + 32 + 8 + 8 + 8 + 1 + 1;

    /// A record without an authority grants no rights.
    pub open spec fn wf(&self) -> bool {
        self.authority is None ==> self.authority_rights == 0
    }

    /// The locked amount has not been released yet.
    pub open spec fn spec_is_active(&self) -> bool {
        self.amount > 0
    }

    /// The locked amount has not been released yet.
    pub fn is_active(&self) -> (active: bool)
        ensures
            active == self.spec_is_active(),
    {
        self.amount > 0
    }

    /// This record once its locked amount has been released.
    pub open spec fn released(self) -> TimeLock {
        TimeLock { amount: 0, ..self }
    }

    /// This record with `receiver` in place of its receiver.
    pub open spec fn with_receiver(self, receiver: Key) -> TimeLock {
        TimeLock { receiver, ..self }
    }

    /// This record with `unlock_timestamp` in place of its unlock time.
    pub open spec fn with_unlock_timestamp(self, unlock_timestamp: i64) -> TimeLock {
        TimeLock { unlock_timestamp, ..self }
    }

    /// The terms that no operation may touch once the record exists.
    pub open spec fn same_grant(&self, other: &TimeLock) -> bool {
        &&& self.creator == other.creator
        &&& self.authority == other.authority
        &&& self.authority_rights == other.authority_rights
        &&& self.seed == other.seed
        &&& self.bump == other.bump
    }
}

/// The phase of the vault whose storage slot holds `slot`.
pub open spec fn phase(slot: Option<TimeLock>) -> Phase {
    match slot {
        None => Phase::Closed,
        Some(vault) => if vault.amount > 0 {
            Phase::Active
        } else {
            Phase::Withdrawn
        },
    }
}

/// The phase of the vault whose storage slot holds `slot`.
pub fn phase_of(slot: &Option<TimeLock>) -> (at: Phase)
    ensures
        at == phase(*slot),
{
    match slot {
        None => Phase::Closed,
        Some(vault) => if vault.amount > 0 {
            Phase::Active
        } else {
            Phase::Withdrawn
        },
    }
}

} // verus!
