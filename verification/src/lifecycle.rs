use vstd::prelude::*;
use crate::accounts::{CloseVault, InitializeLock, SetDuration, SetReceiver, Transfer, Withdraw};
use crate::authorization::spec_admin_refusal;
use crate::error::TimeLockError;
use crate::instructions::{
    spec_close_vault, spec_initialize_lock, spec_set_duration, spec_set_receiver, spec_withdraw,
};
use crate::key::Key;
use crate::rights::{lemma_no_rights, lemma_rights_independent, spec_has_right, Capability};
use crate::state::{phase, Phase, TimeLock};

verus! {

/// One call addressed to a vault's storage slot, with all that its outcome
/// depends on besides the slot.
pub enum Call {
    Create {
        creator: Key,
        bump: u8,
        now: i64,
        amount: u64,
        unlock_timestamp: i64,
        authority: Option<Key>,
        receiver: Key,
        seed: u64,
        authority_rights: u8,
    },
    Withdraw { caller: Key, now: i64, vault_lamports: u64 },
    SetReceiver { caller: Key, new_receiver: Key },
    SetDuration { caller: Key, new_unlock_timestamp: i64 },
    Close { vault_lamports: u64 },
}

/// The slot at `vault_key` after `call`, where it held `slot` before. A call
/// that is refused leaves the slot as it was, and so does one that does not
/// find the slot as it needs it: a creation on a held slot, a release or a
/// change on an empty one.
pub open spec fn step(vault_key: Key, slot: Option<TimeLock>, call: Call) -> Option<TimeLock> {
    match (call, slot) {
        (
            Call::Create {
                creator,
                bump,
                now,
                amount,
                unlock_timestamp,
                authority,
                receiver,
                seed,
                authority_rights,
            },
            None,
        ) => spec_initialize_lock(
            InitializeLock { vault: None, vault_key, creator, bump },
            now,
            amount,
            unlock_timestamp,
            authority,
            receiver,
            seed,
            authority_rights,
        ).0.vault,
        (Call::Withdraw { caller, now, vault_lamports }, Some(vault)) => Some(
            spec_withdraw(Withdraw { vault, vault_key, vault_lamports, receiver: caller }, now).0.vault,
        ),
        (Call::SetReceiver { caller, new_receiver }, Some(vault)) => Some(
            spec_set_receiver(SetReceiver { vault, authority: caller }, new_receiver).0.vault,
        ),
        (Call::SetDuration { caller, new_unlock_timestamp }, Some(vault)) => Some(
            spec_set_duration(SetDuration { vault, authority: caller }, new_unlock_timestamp).0.vault,
        ),
        (Call::Close { vault_lamports }, _) => spec_close_vault(
            CloseVault { vault: slot, vault_key, vault_lamports },
        ).0.vault,
        _ => slot,
    }
}

/// The slot at `vault_key` after the calls of `calls`, made in order.
pub open spec fn run(vault_key: Key, slot: Option<TimeLock>, calls: Seq<Call>) -> Option<TimeLock>
    decreases calls.len(),
{
    if calls.len() == 0 {
        slot
    } else {
        step(vault_key, run(vault_key, slot, calls.drop_last()), calls.last())
    }
}

/// The rule on rights holds of whatever the slot holds.
pub open spec fn slot_wf(slot: Option<TimeLock>) -> bool {
    slot matches Some(vault) ==> vault.wf()
}

/// A creation with a zero amount, or with an unlock time that is not after
/// the present, is refused: the slot stays empty and no transfer is asked
/// for.
pub proof fn lemma_invalid_creation_persists_nothing(
    ctx: InitializeLock,
    now: i64,
    amount: u64,
    unlock_timestamp: i64,
    authority: Option<Key>,
    receiver: Key,
    seed: u64,
    authority_rights: u8,
)
    requires
        ctx.vault is None,
        amount == 0 || unlock_timestamp <= now,
    ensures
        ({
            let (after, res) = spec_initialize_lock(
                ctx,
                now,
                amount,
                unlock_timestamp,
                authority,
                receiver,
                seed,
                authority_rights,
            );
            after == ctx && after.vault is None && res is Err
        }),
{
}

/// No call breaks the rule on rights: a record without an authority grants
/// nothing, whether the call created it or found it.
pub proof fn lemma_step_keeps_wf(vault_key: Key, slot: Option<TimeLock>, call: Call)
    requires
        slot_wf(slot),
    ensures
        slot_wf(step(vault_key, slot, call)),
{
}

/// From an empty slot, or from one that holds a well-formed record, every
/// state that calls can reach obeys the rule on rights.
pub proof fn lemma_wf_forever(vault_key: Key, slot: Option<TimeLock>, calls: Seq<Call>)
    requires
        slot_wf(slot),
    ensures
        slot_wf(run(vault_key, slot, calls)),
    decreases calls.len(),
{
    if calls.len() > 0 {
        lemma_wf_forever(vault_key, slot, calls.drop_last());
        lemma_step_keeps_wf(vault_key, run(vault_key, slot, calls.drop_last()), calls.last());
    }
}

/// A call that finds a record and leaves one leaves the creator, the
/// authority, the rights, the seed and the nonce as they were.
pub proof fn lemma_step_keeps_grant(vault_key: Key, vault: TimeLock, call: Call)
    ensures
        step(vault_key, Some(vault), call) matches Some(after) ==> after.same_grant(&vault),
{
}

/// While a record is stored, no sequence of calls changes its creator, its
/// authority, its rights, its seed or its nonce: rights can be neither
/// widened nor handed to someone else.
pub proof fn lemma_grant_is_fixed(vault_key: Key, vault: TimeLock, calls: Seq<Call>)
    requires
        forall|i: int| 0 <= i < calls.len() ==> !(#[trigger] calls[i] is Close),
    ensures
        run(vault_key, Some(vault), calls) matches Some(after) && after.same_grant(&vault),
    decreases calls.len(),
{
    if calls.len() > 0 {
        let before = calls.drop_last();
        assert forall|i: int| 0 <= i < before.len() implies !(#[trigger] before[i] is Close) by {
            assert(before[i] == calls[i]);
        }
        lemma_grant_is_fixed(vault_key, vault, before);
        lemma_step_keeps_grant(vault_key, run(vault_key, Some(vault), before)->0, calls.last());
    }
}

/// The locked amount of a stored record changes in one way only: a release
/// takes it from a positive value to zero.
pub proof fn lemma_step_amount(vault_key: Key, vault: TimeLock, call: Call)
    ensures
        step(vault_key, Some(vault), call) matches Some(after) ==> {
            ||| after.amount == vault.amount
            ||| call is Withdraw && vault.amount > 0 && after.amount == 0
        },
{
}

/// Once released, a stored record is never changed again: every later
/// release and every later change of its terms is refused.
pub proof fn lemma_released_is_frozen(vault_key: Key, vault: TimeLock, calls: Seq<Call>)
    requires
        vault.amount == 0,
        forall|i: int| 0 <= i < calls.len() ==> !(#[trigger] calls[i] is Close),
    ensures
        run(vault_key, Some(vault), calls) == Some(vault),
    decreases calls.len(),
{
    if calls.len() > 0 {
        let before = calls.drop_last();
        assert forall|i: int| 0 <= i < before.len() implies !(#[trigger] before[i] is Close) by {
            assert(before[i] == calls[i]);
        }
        lemma_released_is_frozen(vault_key, vault, before);
        assert(!(calls[calls.len() - 1] is Close));
    }
}

/// A release that succeeds pays the whole locked amount to the receiver and
/// leaves nothing locked; when the receiver asks again at that time or
/// later, whatever the ledger then holds, the answer is `NothingToWithdraw`.
pub proof fn lemma_withdraw_once(ctx: Withdraw, now: i64, later: i64, vault_lamports: u64)
    requires
        spec_withdraw(ctx, now).1 is Ok,
        now <= later,
    ensures
        ({
            let (after, res) = spec_withdraw(ctx, now);
            &&& after.vault.amount == 0
            &&& ctx.vault.amount > 0
            &&& res->Ok_0.to == ctx.vault.receiver
            &&& res->Ok_0.lamports == ctx.vault.amount
            &&& spec_withdraw(Withdraw { vault_lamports, ..after }, later).1 == Err::<
                Transfer,
                TimeLockError,
            >(TimeLockError::NothingToWithdraw)
        }),
{
}

/// After a release, no caller can change the receiver or the unlock time;
/// the authority that holds the capability is told `AlreadyWithdrawn`.
pub proof fn lemma_no_change_after_release(
    ctx: Withdraw,
    now: i64,
    caller: Key,
    capability: Capability,
)
    requires
        spec_withdraw(ctx, now).1 is Ok,
    ensures
        ({
            let released = spec_withdraw(ctx, now).0.vault;
            &&& spec_admin_refusal(released, caller, capability) is Some
            &&& released.authority == Some(caller) && spec_has_right(
                released.authority_rights,
                capability,
            ) ==> spec_admin_refusal(released, caller, capability) == Some(
                TimeLockError::AlreadyWithdrawn,
            )
        }),
{
}

/// A well-formed vault without an authority grants no capability and can
/// be administered by nobody.
pub proof fn lemma_no_authority_no_change(vault: TimeLock, caller: Key, capability: Capability)
    requires
        vault.wf(),
        vault.authority is None,
    ensures
        !spec_has_right(vault.authority_rights, capability),
        spec_admin_refusal(vault, caller, capability) == Some(TimeLockError::OnlyAuthority),
{
    lemma_no_rights(capability);
}

/// Each capability opens its own change and no other: with the receiver bit
/// alone the authority may name a receiver and may not move the unlock time,
/// and the other way round.
pub proof fn lemma_capabilities_are_isolated(vault: TimeLock, held: Capability, asked: Capability)
    requires
        vault.authority is Some,
        vault.amount > 0,
        vault.authority_rights == held.spec_mask(),
    ensures
        spec_admin_refusal(vault, vault.authority->0, asked) == if asked == held {
            None
        } else {
            Some(TimeLockError::AuthorityMissingRight)
        },
{
    lemma_rights_independent();
}

/// While an amount is locked, closing is refused with `NonZeroBalance` and
/// changes nothing. Once it is released, closing erases the record and asks
/// for the refund to the creator; a second closing finds nothing and asks
/// for nothing.
pub proof fn lemma_close_once(ctx: CloseVault, vault_lamports: u64)
    requires
        ctx.vault is Some,
    ensures
        ({
            let vault = ctx.vault->0;
            let (after, res) = spec_close_vault(ctx);
            if vault.amount > 0 {
                &&& res == Err::<Option<Transfer>, TimeLockError>(TimeLockError::NonZeroBalance)
                &&& after == ctx
            } else {
                &&& res is Ok
                &&& res->Ok_0 is Some
                &&& res->Ok_0->0.to == vault.creator
                &&& after.vault is None
                &&& spec_close_vault(CloseVault { vault_lamports, ..after }).1 == Ok::<
                    Option<Transfer>,
                    TimeLockError,
                >(None)
                &&& spec_close_vault(CloseVault { vault_lamports, ..after }).0.vault is None
            }
        }),
{
}

/// A vault moves through its phases in order and never back: an empty slot
/// is filled only by a creation, a locked amount is released only by a
/// release, and a record is erased only by a closing of a released vault.
pub proof fn lemma_phases_in_order(vault_key: Key, slot: Option<TimeLock>, call: Call)
    ensures
        ({
            let before = phase(slot);
            let after = phase(step(vault_key, slot, call));
            match before {
                Phase::Closed => after == Phase::Closed || (after == Phase::Active && call is Create),
                Phase::Active => after == Phase::Active || (after == Phase::Withdrawn
                    && call is Withdraw),
                Phase::Withdrawn => after == Phase::Withdrawn || (after == Phase::Closed
                    && call is Close),
            }
        }),
{
}

} // verus!
