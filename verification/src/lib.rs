//! A custodial accounting core: deposits, withdrawals and internal transfers
//! of a fungible asset for a whitelisted set of participants, under a single
//! administrative authority.
//!
//! The host ledger platform (persistent record storage, signature checking,
//! the physical token-transfer primitive, the clock) is an external
//! collaborator: callers authenticate the caller identity, load the records,
//! supply the current time, move the tokens and publish the returned events.
//! Everything the core decides — membership gating, authority checks, replay
//! protection through sequence ids, and conservation-checked balance
//! arithmetic — is verified here.

pub mod error;
pub mod events;
pub mod instructions;
pub mod lemmas;
pub mod program;
pub mod state;

pub use error::MawariError;
pub use events::DepositAdded;
pub use events::UserAdded;
pub use events::UserRemoved;
pub use events::Validated;
pub use events::Withdrawn;
pub use program::Mawari;
pub use state::AccountId;
pub use state::MawariState;
pub use state::Timestamp;
pub use state::UserAccount;
