//! A conditional pooled escrow: contributions from many depositors are held
//! toward a funding goal, handed over to a governance entity when the goal is
//! met by the deadline, and refunded to each depositor otherwise.
//!
//! The crate holds the escrow's state machine. The host that supplies the
//! clock, moves money and performs remote calls stands outside: every
//! operation takes what it needs from the host as plain values and returns the
//! effect that the host has to carry out.

pub mod errors;
pub mod escrow;
pub mod laws;
pub mod model;
pub mod remote;
pub mod shares;
pub mod table;

pub use errors::EscrowError;
pub use escrow::{
    CallContext, ConditionalEscrow, DelegationPlan, DepositRecord, EscrowRecord, Transfer,
};
pub use model::{DelegationState, TOKEN_RESERVE};
pub use remote::RemoteResult;
pub use shares::SHARE_SCALE;
