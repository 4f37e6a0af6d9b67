//! What a trading venue answers when it cannot serve a request.

use vstd::prelude::*;

use crate::pubkey::Pubkey;

verus! {

/// The pool protocols that a venue can belong to.
#[derive(Debug, Clone, Copy, PartialEq, Eq, Structural)]
pub enum PoolProtocol {
    Omnipair,
}

/// What an error is about: a fixed message, or an account.
#[derive(Debug, Clone, Copy, PartialEq, Eq)]
pub enum ErrorInfo {
    Message(&'static str),
    Key(Pubkey),
}

#[derive(Debug, Clone, Copy, PartialEq, Eq)]
pub enum TradingVenueError {
    /// An arithmetic step has no result.
    MathError(ErrorInfo),
    /// The mint is not the one that the pair trades in that place.
    InvalidMint(ErrorInfo),
    /// The pool cannot serve the swap in its present state.
    AmmMethodError(ErrorInfo),
    /// Account data do not hold what they should.
    DeserializationFailed(ErrorInfo),
    /// The account is not one that a venue can be made of.
    FromAccountError(ErrorInfo),
    /// An account, or what is read from it, is not there.
    MissingState(ErrorInfo),
    /// The venue has not been updated yet.
    NotInitialized(ErrorInfo),
    /// The pool takes no swaps.
    InactivePoolError(Pubkey, PoolProtocol),
    /// Swaps with a fixed output are not served.
    ExactOutNotSupported,
    /// Not as many accounts came back as were asked for.
    FailedToFetchMultipleAccountData,
    SomethingWentWrong(ErrorInfo),
}

} // verus!
