use vstd::prelude::*;

verus! {

/// Why an operation on a vault was refused. A refusal leaves the record
/// untouched and asks nothing of the ledger.
#[derive(Clone, Copy, Debug, PartialEq, Eq, Structural)]
pub enum TimeLockError {
    /// The caller is not the receiver bound in the record.
    Unauthorized,
    /// The caller is not the record's authority.
    OnlyAuthority,
    /// The authority does not hold the capability the operation is gated on.
    AuthorityMissingRight,
    /// The custody balance is below the recorded amount.
    InsufficientFunds,
    /// The unlock time has not been reached.
    StillLocked,
    /// A vault cannot lock an amount of zero.
    InvalidAmount,
    /// The unlock time is not strictly in the future.
    InvalidUnlockTime,
    /// The locked amount has already been released.
    NothingToWithdraw,
    /// Rights were granted although no authority was named.
    AuthorityRightsWithoutAuthority,
    /// The terms of a released vault can no longer be changed.
    AlreadyWithdrawn,
    /// The caller is not the record's creator.
    OnlyCreator,
    /// A vault that still records a locked amount cannot be closed.
    NonZeroBalance,
}

/// The families into which the refusals fall.
#[derive(Clone, Copy, Debug, PartialEq, Eq, Structural)]
pub enum ErrorClass {
    /// The parameters given at creation make no sense.
    InputValidation,
    /// The caller does not hold the role the operation requires.
    Authorization,
    /// The authority exists but lacks the capability asked for.
    Capability,
    /// The record is not in a state that admits the operation.
    StateGate,
    /// The ledger's balance disagrees with the record.
    Resource,
}

impl TimeLockError {
    /// The family of this refusal.
    pub open spec fn spec_class(self) -> ErrorClass {
        match self {
            TimeLockError::InvalidAmount
            | TimeLockError::InvalidUnlockTime
            | TimeLockError::AuthorityRightsWithoutAuthority => ErrorClass::InputValidation,
            TimeLockError::Unauthorized
            | TimeLockError::OnlyAuthority
            | TimeLockError::OnlyCreator => ErrorClass::Authorization,
            TimeLockError::AuthorityMissingRight => ErrorClass::Capability,
            TimeLockError::StillLocked
            | TimeLockError::AlreadyWithdrawn
            | TimeLockError::NonZeroBalance
            | TimeLockError::NothingToWithdraw => ErrorClass::StateGate,
            TimeLockError::InsufficientFunds => ErrorClass::Resource,
        }
    }

    /// The family of this refusal.
    pub fn class(&self) -> (class: ErrorClass)
        ensures
            class == self.spec_class(),
    {
        match self {
            TimeLockError::InvalidAmount
            | TimeLockError::InvalidUnlockTime
            | TimeLockError::AuthorityRightsWithoutAuthority => ErrorClass::InputValidation,
            TimeLockError::Unauthorized
            | TimeLockError::OnlyAuthority
            | TimeLockError::OnlyCreator => ErrorClass::Authorization,
            TimeLockError::AuthorityMissingRight => ErrorClass::Capability,
            TimeLockError::StillLocked
            | TimeLockError::AlreadyWithdrawn
            | TimeLockError::NonZeroBalance
            | TimeLockError::NothingToWithdraw => ErrorClass::StateGate,
            TimeLockError::InsufficientFunds => ErrorClass::Resource,
        }
    }

    /// The text shown to a caller for this refusal.
    pub open spec fn spec_message(self) -> Seq<char> {
        match self {
            TimeLockError::Unauthorized => "Unauthorized: Only the receiver can perform this action"@,
            TimeLockError::OnlyAuthority => "Only the authority can perform this action"@,
            TimeLockError::AuthorityMissingRight => "Authority lacks required right for this action"@,
            TimeLockError::InsufficientFunds => "Insufficient funds in time lock"@,
            TimeLockError::StillLocked => "Funds are still locked until unlock timestamp"@,
            TimeLockError::InvalidAmount => "Invalid amount"@,
            TimeLockError::InvalidUnlockTime => "Invalid unlock timestamp"@,
            TimeLockError::NothingToWithdraw => "Nothing to withdraw"@,
            TimeLockError::AuthorityRightsWithoutAuthority => "authority_rights must be 0 when authority is None"@,
            TimeLockError::AlreadyWithdrawn => "Vault has already been withdrawn; modifications are disabled"@,
            TimeLockError::OnlyCreator => "Only the creator can perform this action"@,
            TimeLockError::NonZeroBalance => "Cannot close vault with non-zero recorded amount"@,
        }
    }

    /// The text shown to a caller for this refusal.
    pub fn message(&self) -> (text: String)
        ensures
            text@ == self.spec_message(),
    {
        match self {
            TimeLockError::Unauthorized => "Unauthorized: Only the receiver can perform this action".to_owned(),
            TimeLockError::OnlyAuthority => "Only the authority can perform this action".to_owned(),
            TimeLockError::AuthorityMissingRight => "Authority lacks required right for this action".to_owned(),
            TimeLockError::InsufficientFunds => "Insufficient funds in time lock".to_owned(),
            TimeLockError::StillLocked => "Funds are still locked until unlock timestamp".to_owned(),
            TimeLockError::InvalidAmount => "Invalid amount".to_owned(),
            TimeLockError::InvalidUnlockTime => "Invalid unlock timestamp".to_owned(),
            TimeLockError::NothingToWithdraw => "Nothing to withdraw".to_owned(),
            TimeLockError::AuthorityRightsWithoutAuthority => "authority_rights must be 0 when authority is None".to_owned(),
            TimeLockError::AlreadyWithdrawn => "Vault has already been withdrawn; modifications are disabled".to_owned(),
            TimeLockError::OnlyCreator => "Only the creator can perform this action".to_owned(),
            TimeLockError::NonZeroBalance => "Cannot close vault with non-zero recorded amount".to_owned(),
        }
    }
}

} // verus!
