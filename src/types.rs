use vstd::prelude::*;

verus! {

/// Which asset a position starts with, and so which asset its bins convert into.
///
/// A `Buy` position deposits token Y below the live price and converts into token X;
/// a `Sell` position deposits token X above the live price and converts into token Y.
#[derive(Clone, Copy, Debug, PartialEq, Eq, Structural)]
pub enum Side {
    Buy,
    Sell,
}

/// Every way an operation of the engine can be rejected.
#[derive(Clone, Copy, Debug, PartialEq, Eq, Structural)]
pub enum CoreError {
    Unauthorized,
    Paused,
    ZeroAmount,
    InvalidBinRange,
    PositionTooWide,
    BinOutOfPositionRange,
    InvalidSlippage,
    FeeTooHigh,
    NoBinsProvided,
    TooManyBins,
    NonContiguousBins,
    Overflow,
    InvalidTokenOwner,
    InvalidProgram,
    InvalidPosition,
    InvalidPool,
    NoPendingAuthority,
    NoPendingFeeChange,
    FeeTimelockNotExpired,
    NothingToSweep,
    BotPaused,
    RoverDepositTooSmall,
    PositionTooSmall,
    RoverBinStepTooSmall,
    InvalidDistPool,
    BotNotStale,
    MissingKeeperAta,
    PrioritySlotsExceedMax,
    NoPendingEmergencyClose,
    EmergencyCloseTimelockNotExpired,
    PositionAlreadyExists,
}

} // verus!
