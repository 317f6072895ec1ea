//! The cluster clock, the one thing that the library asks of its surroundings.

use vstd::prelude::*;
use anchor_lang::prelude::{Clock, ProgramError, SolanaSysvar};

verus! {

/// `solana_program::program_error::ProgramError`, the error with which the
/// runtime refuses a request. The library only passes it on.
#[verifier::external_type_specification]
#[verifier::external_body]
pub struct ExProgramError(ProgramError);

/// Asks the runtime for the current time by `Clock::get` and hands back the
/// clock's `unix_timestamp`, or the runtime's error where it gives no clock.
///
/// Trusted, and nothing is claimed of the answer: not that there is one, not
/// what time it names, not that two calls agree. Whoever calls this has to
/// be right for every answer.
#[verifier::external_body]
pub(crate) fn unix_timestamp() -> (now: Result<i64, ProgramError>) {
    match Clock::get() {
        Ok(clock) => Ok(clock.unix_timestamp),
        Err(error) => Err(error),
    }
}

} // verus!
