//! A two-party escrow for swapping value.
//!
//! The maker opens an escrow with a deposit and names the taker and what
//! the taker is to pay. The taker accepts by depositing that amount, and
//! can then have the swap carried out: each party is paid the deposit of
//! the other. Until the taker has accepted, the maker can withdraw the
//! offer, and after the expiry reclaim the deposit.
//!
//! `engine` holds the five operations, `transfer` the one way in which
//! value moves, `identity` the derivation of a record's identity. `laws`
//! and `history` state and prove what holds of every call and of every
//! sequence of calls.

pub mod account;
pub mod context;
pub mod engine;
pub mod error;
pub mod events;
pub mod history;
pub mod identity;
pub mod laws;
pub mod transfer;

pub use crate::account::EscrowAccount;
pub use crate::account::EscrowVault;
pub use crate::account::Wallet;
pub use crate::context::CancelEscrow;
pub use crate::context::CompleteSwap;
pub use crate::context::CreateEscrow;
pub use crate::context::FundEscrow;
pub use crate::context::RefundAfterExpiry;
pub use crate::engine::cancel_escrow;
pub use crate::engine::complete_swap;
pub use crate::engine::create_escrow;
pub use crate::engine::fund_escrow;
pub use crate::engine::open_escrow;
pub use crate::engine::refund_after_expiry;
pub use crate::error::EscrowError;
pub use crate::error::Failure;
pub use crate::events::EscrowCancelled;
pub use crate::events::EscrowCompleted;
pub use crate::events::EscrowCreated;
pub use crate::events::EscrowFunded;
pub use crate::events::EscrowRefunded;
pub use crate::identity::derive_identity;
pub use crate::identity::Identity;
pub use crate::transfer::transfer;
