use vstd::prelude::*;
use crate::error::TimeLockError;
use crate::key::Key;
use crate::rights::{has_right, spec_has_right, Capability};
use crate::state::TimeLock;

verus! {

/// Why `caller` may not use `capability` on `vault`, if there is a reason.
/// The checks come in this order: the caller is the record's authority, the
/// rights mask grants the capability, the amount is still locked.
pub open spec fn spec_admin_refusal(
    vault: TimeLock,
    caller: Key,
    capability: Capability,
) -> Option<TimeLockError> {
    if vault.authority != Some(caller) {
        Some(TimeLockError::OnlyAuthority)
    } else if !spec_has_right(vault.authority_rights, capability) {
        Some(TimeLockError::AuthorityMissingRight)
    } else if vault.amount == 0 {
        Some(TimeLockError::AlreadyWithdrawn)
    } else {
        None
    }
}

/// Decides whether `caller` may use `capability` on `vault`.
pub fn authorize(vault: &TimeLock, caller: &Key, capability: Capability) -> (res: Result<
    (),
    TimeLockError,
>)
    ensures
        match res {
            Ok(()) => spec_admin_refusal(*vault, *caller, capability) is None,
            Err(e) => spec_admin_refusal(*vault, *caller, capability) == Some(e),
        },
{
    let is_authority = match vault.authority {
        Some(authority) => authority == *caller,
        None => false,
    };
    if !is_authority {
        return Err(TimeLockError::OnlyAuthority);
    }
    if !has_right(vault.authority_rights, capability) {
        return Err(TimeLockError::AuthorityMissingRight);
    }
    if vault.amount == 0 {
        return Err(TimeLockError::AlreadyWithdrawn);
    }
    Ok(())
}

} // verus!
