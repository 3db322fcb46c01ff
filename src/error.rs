use vstd::prelude::*;

verus! {

/// The ways a stream operation can be refused.
#[derive(Clone, Copy, Debug, PartialEq, Eq, Structural)]
pub enum StreamError {
    /// A top-up of zero or less.
    InvalidAmount,
    /// No stream is stored under the id.
    StreamNotFound,
    /// The caller is not the party the operation belongs to.
    Unauthorized,
    /// The stream was cancelled and nothing is left to do on it.
    StreamInactive,
    /// An amount left the range of `i128`, or the id counter ran out.
    ArithmeticOverflow,
}

} // verus!
