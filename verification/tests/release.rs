use time_locked_wallet::{
    close_vault, phase_of, withdraw, CloseVault, Key, Phase, TimeLock, TimeLockError, Transfer,
    Withdraw,
};

fn key(byte: u8) -> Key {
    Key::new([byte; 32])
}

const UNLOCK: i64 = 1_700_003_600;

fn vault(amount: u64) -> TimeLock {
    TimeLock {
        creator: key(1),
        authority: Some(key(2)),
        receiver: key(3),
        amount,
        unlock_timestamp: UNLOCK,
        seed: 7,
        authority_rights: 0b11,
        bump: 254,
    }
}

fn release(amount: u64, vault_lamports: u64, caller: Key) -> Withdraw {
    Withdraw { vault: vault(amount), vault_key: key(9), vault_lamports, receiver: caller }
}

#[test]
fn withdraw_before_unlock_is_still_locked() {
    let mut ctx = release(1000, 5000, key(3));
    assert_eq!(withdraw(&mut ctx, UNLOCK - 1), Err(TimeLockError::StillLocked));
    assert_eq!(ctx, release(1000, 5000, key(3)));
}

#[test]
fn withdraw_at_the_unlock_second_pays_the_receiver() {
    let mut ctx = release(1000, 5000, key(3));
    let res = withdraw(&mut ctx, UNLOCK);
    assert_eq!(res, Ok(Transfer { from: key(9), to: key(3), lamports: 1000 }));
    assert_eq!(ctx.vault, TimeLock { amount: 0, ..vault(1000) });
    assert_eq!(ctx.vault_key, key(9));
    assert_eq!(ctx.vault_lamports, 5000);
    assert_eq!(ctx.receiver, key(3));
    assert_eq!(phase_of(&Some(ctx.vault)), Phase::Withdrawn);
}

#[test]
fn withdraw_by_someone_else_is_unauthorized() {
    for caller in [key(1), key(2), key(4)] {
        let mut ctx = release(1000, 5000, caller);
        assert_eq!(withdraw(&mut ctx, UNLOCK + 10), Err(TimeLockError::Unauthorized));
        assert_eq!(ctx.vault, vault(1000));
    }
}

#[test]
fn withdraw_by_someone_else_before_unlock_is_unauthorized() {
    let mut ctx = release(1000, 5000, key(4));
    assert_eq!(withdraw(&mut ctx, UNLOCK - 10), Err(TimeLockError::Unauthorized));
}

#[test]
fn withdraw_by_a_key_that_differs_in_one_byte_is_unauthorized() {
    let mut bytes = [3u8; 32];
    bytes[31] = 4;
    let mut ctx = release(1000, 5000, Key::new(bytes));
    assert_eq!(withdraw(&mut ctx, UNLOCK), Err(TimeLockError::Unauthorized));
}

#[test]
fn second_withdraw_is_nothing_to_withdraw() {
    let mut ctx = release(1000, 5000, key(3));
    assert!(withdraw(&mut ctx, UNLOCK).is_ok());
    let after_first = ctx;
    ctx.vault_lamports = 4000;
    assert_eq!(withdraw(&mut ctx, UNLOCK), Err(TimeLockError::NothingToWithdraw));
    assert_eq!(withdraw(&mut ctx, UNLOCK + 100_000), Err(TimeLockError::NothingToWithdraw));
    assert_eq!(ctx.vault, after_first.vault);
}

#[test]
fn withdraw_from_short_custody_is_insufficient_funds() {
    let mut ctx = release(1000, 999, key(3));
    assert_eq!(withdraw(&mut ctx, UNLOCK), Err(TimeLockError::InsufficientFunds));
    assert_eq!(ctx, release(1000, 999, key(3)));
}

#[test]
fn withdraw_from_exact_custody_succeeds() {
    let mut ctx = release(1000, 1000, key(3));
    assert_eq!(
        withdraw(&mut ctx, UNLOCK),
        Ok(Transfer { from: key(9), to: key(3), lamports: 1000 })
    );
    assert_eq!(ctx.vault.amount, 0);
}

#[test]
fn withdraw_reports_lock_before_emptiness_and_emptiness_before_custody() {
    let mut ctx = release(0, 0, key(3));
    assert_eq!(withdraw(&mut ctx, UNLOCK - 1), Err(TimeLockError::StillLocked));
    assert_eq!(withdraw(&mut ctx, UNLOCK), Err(TimeLockError::NothingToWithdraw));
}

#[test]
fn withdraw_of_the_largest_amount_keeps_every_lamport() {
    let mut ctx = release(u64::MAX, u64::MAX, key(3));
    assert_eq!(
        withdraw(&mut ctx, i64::MAX),
        Ok(Transfer { from: key(9), to: key(3), lamports: u64::MAX })
    );
}

#[test]
fn close_while_locked_is_non_zero_balance() {
    let mut ctx = CloseVault { vault: Some(vault(1)), vault_key: key(9), vault_lamports: 2_000_001 };
    assert_eq!(close_vault(&mut ctx), Err(TimeLockError::NonZeroBalance));
    assert_eq!(ctx, CloseVault { vault: Some(vault(1)), vault_key: key(9), vault_lamports: 2_000_001 });
}

#[test]
fn close_after_release_erases_and_refunds_the_creator() {
    let mut ctx = CloseVault { vault: Some(vault(0)), vault_key: key(9), vault_lamports: 2_000_000 };
    assert_eq!(
        close_vault(&mut ctx),
        Ok(Some(Transfer { from: key(9), to: key(1), lamports: 2_000_000 }))
    );
    assert_eq!(ctx.vault, None);
    assert_eq!(ctx.vault_key, key(9));
    assert_eq!(phase_of(&ctx.vault), Phase::Closed);
}

#[test]
fn close_succeeds_once_then_finds_nothing() {
    let mut ctx = CloseVault { vault: Some(vault(0)), vault_key: key(9), vault_lamports: 2_000_000 };
    assert!(matches!(close_vault(&mut ctx), Ok(Some(_))));
    ctx.vault_lamports = 0;
    assert_eq!(close_vault(&mut ctx), Ok(None));
    assert_eq!(close_vault(&mut ctx), Ok(None));
    assert_eq!(ctx.vault, None);
}

#[test]
fn phases_follow_the_slot() {
    assert_eq!(phase_of(&None), Phase::Closed);
    assert_eq!(phase_of(&Some(vault(1))), Phase::Active);
    assert_eq!(phase_of(&Some(vault(0))), Phase::Withdrawn);
    assert!(vault(1).is_active());
    assert!(!vault(0).is_active());
}
