use vstd::prelude::*;
use anchor_lang::prelude::ProgramError;

verus! {

/// Why a player operation was rejected. Every rejection leaves all state untouched.
#[derive(Clone, Copy, Debug, PartialEq, Eq, Structural)]
pub enum ErrorCode {
    /// The caller does not own the record it tried to act on.
    Unauthorized,
    /// The record holds less than one milestone of score.
    InsufficientScore,
    /// A checked arithmetic step left its integer range.
    MathOverflow,
}

/// Why an operation that reads the clock itself did not go through.
#[derive(Debug, PartialEq, Eq)]
pub enum Failure {
    /// The runtime gave no clock, so nothing could be decided.
    Clock(ProgramError),
    /// The game's rules rejected the operation.
    Rejected(ErrorCode),
}

} // verus!
