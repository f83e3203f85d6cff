//! Rules of a time-locked custody vault: who may create, administer, release
//! and reclaim a vault record, and what each operation asks of the ledger.

pub mod accounts;
pub mod address;
pub mod authorization;
pub mod error;
pub mod instructions;
pub mod key;
pub mod lifecycle;
pub mod rights;
pub mod state;

pub use accounts::{CloseVault, InitializeLock, SetDuration, SetReceiver, Transfer, Withdraw};
pub use address::{is_derived, is_vault_address, vault_address, vault_seeds};
pub use authorization::authorize;
pub use error::{ErrorClass, TimeLockError};
pub use instructions::{close_vault, initialize_lock, set_duration, set_receiver, withdraw};
pub use key::Key;
pub use rights::{has_right, rights_mask, Capability, CAN_SET_DURATION, CAN_SET_RECEIVER};
pub use state::{phase_of, Phase, TimeLock};
