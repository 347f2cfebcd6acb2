//! The time, as the runtime tells it.

use anchor_lang::prelude::{Clock, ProgramError, SolanaSysvar};
use vstd::prelude::*;

verus! {

/// `ProgramError` of `solana_program`, as `anchor_lang` hands it on: the
/// error with which the runtime turns a request down. Nothing is known of
/// it here but that it has come back.
#[verifier::external_type_specification]
#[verifier::external_body]
pub struct ExProgramError(ProgramError);

/// Asks the runtime for the time. The call is `Clock::get()`, which
/// `anchor_lang` hands on from `solana_program`; the result is the
/// `unix_timestamp` of the clock that comes back, or the error that comes
/// back instead.
///
/// Nothing is claimed of the answer: it changes from call to call, and the
/// runtime may give none.
#[verifier::external_body]
pub(crate) fn unix_timestamp() -> (now: Result<i64, ProgramError>) {
    match Clock::get() {
        Ok(clock) => Ok(clock.unix_timestamp),
        Err(e) => Err(e),
    }
}

} // verus!
