use vstd::prelude::*;
use crate::accounts::{CloseVault, InitializeLock, SetDuration, SetReceiver, Transfer, Withdraw};
use crate::authorization::{authorize, spec_admin_refusal};
use crate::error::TimeLockError;
use crate::key::Key;
use crate::rights::Capability;
use crate::state::TimeLock;

verus! {

/// Why a vault with these terms may not be created at time `now`, if there
/// is a reason. The first violation wins: a zero amount, an unlock time that
/// is not after `now`, rights without an authority.
pub open spec fn spec_create_refusal(
    now: i64,
    amount: u64,
    unlock_timestamp: i64,
    authority: Option<Key>,
    authority_rights: u8,
) -> Option<TimeLockError> {
    if amount == 0 {
        Some(TimeLockError::InvalidAmount)
    } else if unlock_timestamp <= now {
        Some(TimeLockError::InvalidUnlockTime)
    } else if authority is None && authority_rights != 0 {
        Some(TimeLockError::AuthorityRightsWithoutAuthority)
    } else {
        None
    }
}

/// What [`initialize_lock`] leaves in `ctx` and returns.
pub open spec fn spec_initialize_lock(
    ctx: InitializeLock,
    now: i64,
    amount: u64,
    unlock_timestamp: i64,
    authority: Option<Key>,
    receiver: Key,
    seed: u64,
    authority_rights: u8,
) -> (InitializeLock, Result<Transfer, TimeLockError>) {
    match spec_create_refusal(now, amount, unlock_timestamp, authority, authority_rights) {
        Some(e) => (ctx, Err(e)),
        None => (
            InitializeLock {
                vault: Some(
                    TimeLock {
                        creator: ctx.creator,
                        authority,
                        receiver,
                        amount,
                        unlock_timestamp,
                        seed,
                        authority_rights,
                        bump: ctx.bump,
                    },
                ),
                ..ctx
            },
            Ok(Transfer { from: ctx.creator, to: ctx.vault_key, lamports: amount }),
        ),
    }
}

/// Creates a vault for `ctx.creator` at time `now`.
///
/// On success the slot holds the new record and the result asks the ledger
/// to move `amount` from the creator into the vault's custody; if the ledger
/// cannot, the creation is void as a whole. On refusal nothing changes.
/// The slot must be empty: the ledger never allocates a live address twice.
pub fn initialize_lock(
    ctx: &mut InitializeLock,
    now: i64,
    amount: u64,
    unlock_timestamp: i64,
    authority: Option<Key>,
    receiver: Key,
    seed: u64,
    authority_rights: u8,
) -> (res: Result<Transfer, TimeLockError>)
    requires
        old(ctx).vault is None,
    ensures
        (*final(ctx), res) == spec_initialize_lock(
            *old(ctx),
            now,
            amount,
            unlock_timestamp,
            authority,
            receiver,
            seed,
            authority_rights,
        ),
        res is Err ==> final(ctx).vault is None,
        amount == 0 || unlock_timestamp <= now ==> res is Err,
        res is Ok ==> {
            &&& final(ctx).vault->0.wf()
            &&& final(ctx).vault->0.amount > 0
            &&& final(ctx).vault->0.unlock_timestamp > now
        },
{
    if amount == 0 {
        return Err(TimeLockError::InvalidAmount);
    }
    if unlock_timestamp <= now {
        return Err(TimeLockError::InvalidUnlockTime);
    }
    if authority.is_none() && authority_rights != 0 {
        return Err(TimeLockError::AuthorityRightsWithoutAuthority);
    }
    ctx.vault = Some(
        TimeLock {
            creator: ctx.creator,
            authority,
            receiver,
            amount,
            unlock_timestamp,
            seed,
            authority_rights,
            bump: ctx.bump,
        },
    );
    Ok(Transfer { from: ctx.creator, to: ctx.vault_key, lamports: amount })
}

/// Why `caller` may not release `vault` at time `now`, if there is a reason,
/// where the ledger holds `vault_lamports` for the vault. The checks come in
/// this order: the caller is the receiver, the unlock time has come, an
/// amount is still locked, the ledger holds at least that amount.
pub open spec fn spec_withdraw_refusal(
    vault: TimeLock,
    caller: Key,
    now: i64,
    vault_lamports: u64,
) -> Option<TimeLockError> {
    if caller != vault.receiver {
        Some(TimeLockError::Unauthorized)
    } else if now < vault.unlock_timestamp {
        Some(TimeLockError::StillLocked)
    } else if vault.amount == 0 {
        Some(TimeLockError::NothingToWithdraw)
    } else if vault_lamports < vault.amount {
        Some(TimeLockError::InsufficientFunds)
    } else {
        None
    }
}

/// What [`withdraw`] leaves in `ctx` and returns.
pub open spec fn spec_withdraw(ctx: Withdraw, now: i64) -> (
    Withdraw,
    Result<Transfer, TimeLockError>,
) {
    match spec_withdraw_refusal(ctx.vault, ctx.receiver, now, ctx.vault_lamports) {
        Some(e) => (ctx, Err(e)),
        None => (
            Withdraw { vault: ctx.vault.released(), ..ctx },
            Ok(Transfer { from: ctx.vault_key, to: ctx.vault.receiver, lamports: ctx.vault.amount }),
        ),
    }
}

/// Releases the locked amount to the receiver at time `now`.
///
/// On success the record's amount becomes zero and the result asks the
/// ledger to move the amount that was locked from the vault's custody to the
/// receiver. On refusal nothing changes.
pub fn withdraw(ctx: &mut Withdraw, now: i64) -> (res: Result<Transfer, TimeLockError>)
    ensures
        (*final(ctx), res) == spec_withdraw(*old(ctx), now),
        res is Ok ==> final(ctx).vault.amount == 0 && res->Ok_0.lamports == old(ctx).vault.amount,
        final(ctx).vault.same_grant(&old(ctx).vault),
        old(ctx).vault.wf() ==> final(ctx).vault.wf(),
{
    if ctx.receiver != ctx.vault.receiver {
        return Err(TimeLockError::Unauthorized);
    }
    if now < ctx.vault.unlock_timestamp {
        return Err(TimeLockError::StillLocked);
    }
    let amount = ctx.vault.amount;
    if amount == 0 {
        return Err(TimeLockError::NothingToWithdraw);
    }
    if ctx.vault_lamports < amount {
        return Err(TimeLockError::InsufficientFunds);
    }
    ctx.vault.amount = 0;
    Ok(Transfer { from: ctx.vault_key, to: ctx.vault.receiver, lamports: amount })
}

/// What [`set_receiver`] leaves in `ctx` and returns.
pub open spec fn spec_set_receiver(ctx: SetReceiver, new_receiver: Key) -> (
    SetReceiver,
    Result<(), TimeLockError>,
) {
    match spec_admin_refusal(ctx.vault, ctx.authority, Capability::SetReceiver) {
        Some(e) => (ctx, Err(e)),
        None => (SetReceiver { vault: ctx.vault.with_receiver(new_receiver), ..ctx }, Ok(())),
    }
}

/// Names `new_receiver` as the receiver, on behalf of the authority.
///
/// Succeeds exactly when [`spec_admin_refusal`] finds no reason against
/// [`Capability::SetReceiver`]; then the receiver is replaced and nothing
/// else. On refusal nothing changes.
pub fn set_receiver(ctx: &mut SetReceiver, new_receiver: Key) -> (res: Result<(), TimeLockError>)
    ensures
        (*final(ctx), res) == spec_set_receiver(*old(ctx), new_receiver),
        final(ctx).vault.same_grant(&old(ctx).vault),
        old(ctx).vault.wf() ==> final(ctx).vault.wf(),
{
    match authorize(&ctx.vault, &ctx.authority, Capability::SetReceiver) {
        Ok(()) => {
            ctx.vault.receiver = new_receiver;
            Ok(())
        },
        Err(e) => Err(e),
    }
}

/// What [`set_duration`] leaves in `ctx` and returns.
pub open spec fn spec_set_duration(ctx: SetDuration, new_unlock_timestamp: i64) -> (
    SetDuration,
    Result<(), TimeLockError>,
) {
    match spec_admin_refusal(ctx.vault, ctx.authority, Capability::SetDuration) {
        Some(e) => (ctx, Err(e)),
        None => (
            SetDuration { vault: ctx.vault.with_unlock_timestamp(new_unlock_timestamp), ..ctx },
            Ok(()),
        ),
    }
}

/// Moves the unlock time to `new_unlock_timestamp`, on behalf of the
/// authority. Any time may be set, earlier or later than the old one.
///
/// Succeeds exactly when [`spec_admin_refusal`] finds no reason against
/// [`Capability::SetDuration`]; then the unlock time is replaced and nothing
/// else. On refusal nothing changes.
pub fn set_duration(ctx: &mut SetDuration, new_unlock_timestamp: i64) -> (res: Result<
    (),
    TimeLockError,
>)
    ensures
        (*final(ctx), res) == spec_set_duration(*old(ctx), new_unlock_timestamp),
        final(ctx).vault.same_grant(&old(ctx).vault),
        old(ctx).vault.wf() ==> final(ctx).vault.wf(),
{
    match authorize(&ctx.vault, &ctx.authority, Capability::SetDuration) {
        Ok(()) => {
            ctx.vault.unlock_timestamp = new_unlock_timestamp;
            Ok(())
        },
        Err(e) => Err(e),
    }
}

/// What [`close_vault`] leaves in `ctx` and returns.
pub open spec fn spec_close_vault(ctx: CloseVault) -> (
    CloseVault,
    Result<Option<Transfer>, TimeLockError>,
) {
    match ctx.vault {
        None => (ctx, Ok(None)),
        Some(vault) => if vault.amount > 0 {
            (ctx, Err(TimeLockError::NonZeroBalance))
        } else {
            (
                CloseVault { vault: None, ..ctx },
                Ok(
                    Some(
                        Transfer {
                            from: ctx.vault_key,
                            to: vault.creator,
                            lamports: ctx.vault_lamports,
                        },
                    ),
                ),
            )
        },
    }
}

/// Reclaims a released vault. Anyone may call.
///
/// While the record still locks an amount the call is refused with
/// `NonZeroBalance` and nothing changes. Otherwise the record is erased and
/// the result asks the ledger to pay what it holds at the vault's address,
/// the storage deposit, to the record's creator. On an empty slot there is
/// nothing to reclaim: the call succeeds with `None` and changes nothing.
pub fn close_vault(ctx: &mut CloseVault) -> (res: Result<Option<Transfer>, TimeLockError>)
    ensures
        (*final(ctx), res) == spec_close_vault(*old(ctx)),
{
    match ctx.vault {
        None => Ok(None),
        Some(vault) => {
            if vault.amount != 0 {
                return Err(TimeLockError::NonZeroBalance);
            }
            ctx.vault = None;
            Ok(Some(Transfer { from: ctx.vault_key, to: vault.creator, lamports: ctx.vault_lamports }))
        },
    }
}

} // verus!
