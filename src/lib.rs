//! Continuous token streams: a sender escrows an amount that accrues to a
//! recipient linearly over time, can be topped up, claimed piece by piece and
//! cancelled. The library holds the records, the accrual rule and the
//! lifecycle decisions; moving tokens, reading the clock and checking
//! signatures are left to the caller.
pub mod accrual;
pub mod contract;
pub mod error;
pub mod laws;
pub mod lifecycle;
pub mod principal;
pub mod stream;

pub use accrual::claimable;
pub use contract::{DataKey, StreamContract};
pub use error::StreamError;
pub use lifecycle::{cancel_step, next_stream_id, top_up_step, withdraw_step, Claim};
pub use principal::Principal;
pub use stream::{Stream, StreamView};
