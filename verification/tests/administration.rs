use time_locked_wallet::{
    authorize, has_right, rights_mask, set_duration, set_receiver, withdraw, Capability, Key,
    SetDuration, SetReceiver, TimeLock, TimeLockError, Withdraw, CAN_SET_DURATION,
    CAN_SET_RECEIVER,
};

fn party(byte: u8) -> Key {
    Key::new([byte; 32])
}

const UNLOCK_AT: i64 = 1_700_003_600;

fn record(authority: Option<Key>, rights: u8, amount: u64) -> TimeLock {
    TimeLock {
        creator: party(1),
        authority,
        receiver: party(3),
        amount,
        unlock_timestamp: UNLOCK_AT,
        seed: 7,
        authority_rights: rights,
        bump: 254,
    }
}

#[test]
fn receiver_only_rights_allow_set_receiver_and_refuse_set_duration() {
    let vault = record(Some(party(2)), 0b01, 1000);
    let mut duration = SetDuration { vault, authority: party(2) };
    assert_eq!(set_duration(&mut duration, UNLOCK_AT + 1), Err(TimeLockError::AuthorityMissingRight));
    assert_eq!(duration.vault, vault);
    let mut receiver = SetReceiver { vault, authority: party(2) };
    assert_eq!(set_receiver(&mut receiver, party(5)), Ok(()));
    assert_eq!(receiver.vault, TimeLock { receiver: party(5), ..vault });
    assert_eq!(receiver.authority, party(2));
}

#[test]
fn duration_only_rights_allow_set_duration_and_refuse_set_receiver() {
    let vault = record(Some(party(2)), 0b10, 1000);
    let mut receiver = SetReceiver { vault, authority: party(2) };
    assert_eq!(set_receiver(&mut receiver, party(5)), Err(TimeLockError::AuthorityMissingRight));
    assert_eq!(receiver.vault, vault);
    let mut duration = SetDuration { vault, authority: party(2) };
    assert_eq!(set_duration(&mut duration, UNLOCK_AT + 3600), Ok(()));
    assert_eq!(duration.vault, TimeLock { unlock_timestamp: UNLOCK_AT + 3600, ..vault });
}

#[test]
fn authority_without_any_right_is_refused_both_changes() {
    let vault = record(Some(party(2)), 0, 1000);
    let mut receiver = SetReceiver { vault, authority: party(2) };
    assert_eq!(set_receiver(&mut receiver, party(5)), Err(TimeLockError::AuthorityMissingRight));
    let mut duration = SetDuration { vault, authority: party(2) };
    assert_eq!(set_duration(&mut duration, 0), Err(TimeLockError::AuthorityMissingRight));
}

#[test]
fn only_the_authority_may_administer() {
    let vault = record(Some(party(2)), 0b11, 1000);
    for caller in [party(1), party(3), party(4)] {
        let mut receiver = SetReceiver { vault, authority: caller };
        assert_eq!(set_receiver(&mut receiver, caller), Err(TimeLockError::OnlyAuthority));
        assert_eq!(receiver.vault, vault);
        let mut duration = SetDuration { vault, authority: caller };
        assert_eq!(set_duration(&mut duration, 0), Err(TimeLockError::OnlyAuthority));
        assert_eq!(duration.vault, vault);
    }
}

#[test]
fn vault_without_authority_is_administered_by_nobody() {
    let vault = record(None, 0, 1000);
    for caller in [party(1), party(2), party(3)] {
        let mut receiver = SetReceiver { vault, authority: caller };
        assert_eq!(set_receiver(&mut receiver, caller), Err(TimeLockError::OnlyAuthority));
        let mut duration = SetDuration { vault, authority: caller };
        assert_eq!(set_duration(&mut duration, 0), Err(TimeLockError::OnlyAuthority));
    }
}

#[test]
fn changes_after_release_are_already_withdrawn() {
    let vault = record(Some(party(2)), 0b11, 1000);
    let mut release = Withdraw { vault, vault_key: party(9), vault_lamports: 1000, receiver: party(3) };
    assert!(withdraw(&mut release, UNLOCK_AT).is_ok());
    let mut receiver = SetReceiver { vault: release.vault, authority: party(2) };
    assert_eq!(set_receiver(&mut receiver, party(5)), Err(TimeLockError::AlreadyWithdrawn));
    assert_eq!(receiver.vault, release.vault);
    let mut duration = SetDuration { vault: release.vault, authority: party(2) };
    assert_eq!(set_duration(&mut duration, UNLOCK_AT + 1), Err(TimeLockError::AlreadyWithdrawn));
    assert_eq!(duration.vault, release.vault);
}

#[test]
fn a_stranger_after_release_is_told_only_authority() {
    let vault = record(Some(party(2)), 0b11, 0);
    let mut receiver = SetReceiver { vault, authority: party(4) };
    assert_eq!(set_receiver(&mut receiver, party(5)), Err(TimeLockError::OnlyAuthority));
    let rightless = record(Some(party(2)), 0, 0);
    let mut duration = SetDuration { vault: rightless, authority: party(2) };
    assert_eq!(set_duration(&mut duration, 1), Err(TimeLockError::AuthorityMissingRight));
}

#[test]
fn set_duration_may_move_the_unlock_time_either_way() {
    let vault = record(Some(party(2)), 0b10, 1000);
    let mut duration = SetDuration { vault, authority: party(2) };
    assert_eq!(set_duration(&mut duration, i64::MIN), Ok(()));
    assert_eq!(duration.vault.unlock_timestamp, i64::MIN);
    assert_eq!(set_duration(&mut duration, i64::MAX), Ok(()));
    assert_eq!(duration.vault.unlock_timestamp, i64::MAX);
}

#[test]
fn changes_leave_the_grant_alone() {
    let vault = record(Some(party(2)), 0b11, 1000);
    let mut receiver = SetReceiver { vault, authority: party(2) };
    set_receiver(&mut receiver, party(6)).unwrap();
    let mut duration = SetDuration { vault: receiver.vault, authority: party(2) };
    set_duration(&mut duration, 5).unwrap();
    let after = duration.vault;
    assert_eq!(after.creator, vault.creator);
    assert_eq!(after.authority, vault.authority);
    assert_eq!(after.authority_rights, vault.authority_rights);
    assert_eq!(after.seed, vault.seed);
    assert_eq!(after.bump, vault.bump);
    assert_eq!(after.amount, vault.amount);
}

#[test]
fn new_receiver_is_the_one_who_may_withdraw() {
    let vault = record(Some(party(2)), 0b01, 1000);
    let mut receiver = SetReceiver { vault, authority: party(2) };
    set_receiver(&mut receiver, party(6)).unwrap();
    let mut old = Withdraw { vault: receiver.vault, vault_key: party(9), vault_lamports: 1000, receiver: party(3) };
    assert_eq!(withdraw(&mut old, UNLOCK_AT), Err(TimeLockError::Unauthorized));
    let mut new = Withdraw { vault: receiver.vault, vault_key: party(9), vault_lamports: 1000, receiver: party(6) };
    assert_eq!(withdraw(&mut new, UNLOCK_AT).unwrap().to, party(6));
}

#[test]
fn authorize_checks_role_then_right_then_state() {
    let vault = record(Some(party(2)), 0b01, 1000);
    assert_eq!(authorize(&vault, &party(2), Capability::SetReceiver), Ok(()));
    assert_eq!(
        authorize(&vault, &party(2), Capability::SetDuration),
        Err(TimeLockError::AuthorityMissingRight)
    );
    assert_eq!(
        authorize(&vault, &party(3), Capability::SetReceiver),
        Err(TimeLockError::OnlyAuthority)
    );
    let spent = record(Some(party(2)), 0b01, 0);
    assert_eq!(
        authorize(&spent, &party(2), Capability::SetReceiver),
        Err(TimeLockError::AlreadyWithdrawn)
    );
}

#[test]
fn rights_are_read_bit_by_bit() {
    assert_eq!(CAN_SET_RECEIVER, 1);
    assert_eq!(CAN_SET_DURATION, 2);
    assert_eq!(Capability::SetReceiver.mask(), 1);
    assert_eq!(Capability::SetDuration.mask(), 2);
    assert!(!has_right(0, Capability::SetReceiver));
    assert!(!has_right(0, Capability::SetDuration));
    assert!(has_right(1, Capability::SetReceiver));
    assert!(!has_right(1, Capability::SetDuration));
    assert!(!has_right(2, Capability::SetReceiver));
    assert!(has_right(2, Capability::SetDuration));
    assert!(has_right(3, Capability::SetReceiver));
    assert!(has_right(3, Capability::SetDuration));
    assert!(!has_right(0b1111_1100, Capability::SetReceiver));
    assert!(!has_right(0b1111_1100, Capability::SetDuration));
    assert!(has_right(255, Capability::SetDuration));
}

#[test]
fn rights_mask_builds_the_four_grants() {
    assert_eq!(rights_mask(false, false), 0);
    assert_eq!(rights_mask(true, false), 1);
    assert_eq!(rights_mask(false, true), 2);
    assert_eq!(rights_mask(true, true), 3);
}
