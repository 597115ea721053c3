//! Trying again after a failure that may pass.
//!
//! A probe that fails for the moment is tried again, a limited number of
//! times, and each time after a longer wait: one second, then two, four and
//! eight, and ten from then on.

use crate::smtp::error::{IoErrorKind, SmtpError};
use crate::smtp::SmtpDetails;
use crate::time::TimeSpan;
use vstd::prelude::*;

verus! {

/// The longest wait between two tries, in seconds.
pub const MAX_BACKOFF_SECS: u64 = 10;

/// What to do after a try.
#[derive(Debug, PartialEq, Eq)]
pub enum RetryDecision {
    /// Wait this long, then try again.
    RetryAfter(TimeSpan),
    /// Take this as the outcome of the probe.
    Return(Result<SmtpDetails, SmtpError>),
}

/// The seconds to wait before trying again, after `retries_made` earlier
/// retries: one second at first, twice as long each time, and never more
/// than ten.
pub open spec fn backoff_secs(retries_made: nat) -> nat
    decreases retries_made,
{
    if retries_made == 0 {
        1
    } else if 2 * backoff_secs((retries_made - 1) as nat) > MAX_BACKOFF_SECS {
        MAX_BACKOFF_SECS as nat
    } else {
        2 * backoff_secs((retries_made - 1) as nat)
    }
}

/// The seconds that `retries` retries wait in all.
pub open spec fn total_backoff_secs(retries: nat) -> nat
    decreases retries,
{
    if retries == 0 {
        0
    } else {
        total_backoff_secs((retries - 1) as nat) + backoff_secs((retries - 1) as nat)
    }
}

/// The failure may pass: the server answered with a code from 400 to 499,
/// the time ran out, or the connection was reset.
pub open spec fn is_transient(error: SmtpError) -> bool {
    match error {
        SmtpError::AsyncSmtpError(failure) => failure.code matches Some(code) && 400 <= code
            <= 499,
        SmtpError::Timeout(_) => true,
        SmtpError::IOError(e) => e.kind == IoErrorKind::ConnectionReset,
        _ => false,
    }
}

/// The outcome of a try is tried again: it is a failure that may pass, and
/// fewer retries were made than are allowed.
pub open spec fn is_retried(
    outcome: Result<SmtpDetails, SmtpError>,
    retries_made: u32,
    retries: u32,
) -> bool {
    outcome matches Err(error) && is_transient(error) && retries_made < retries
}

/// Every wait lasts at least one second and at most ten, and no wait is
/// shorter than the one before.
pub proof fn lemma_backoff_bounds(retries_made: nat)
    ensures
        1 <= backoff_secs(retries_made) <= MAX_BACKOFF_SECS,
        retries_made > 0 ==> backoff_secs((retries_made - 1) as nat) <= backoff_secs(retries_made),
    decreases retries_made,
{
    if retries_made > 0 {
        lemma_backoff_bounds((retries_made - 1) as nat);
    }
}

/// From the fifth wait on every wait lasts ten seconds.
pub proof fn lemma_backoff_is_capped(retries_made: nat)
    requires
        retries_made >= 4,
    ensures
        backoff_secs(retries_made) == MAX_BACKOFF_SECS,
    decreases retries_made,
{
    reveal_with_fuel(backoff_secs, 5);
    if retries_made > 4 {
        lemma_backoff_is_capped((retries_made - 1) as nat);
    }
}

/// A probe waits no longer between its tries than ten seconds for each
/// retry that it is allowed.
pub proof fn lemma_total_backoff_bound(retries: nat)
    ensures
        total_backoff_secs(retries) <= MAX_BACKOFF_SECS * retries,
    decreases retries,
{
    if retries > 0 {
        lemma_total_backoff_bound((retries - 1) as nat);
        lemma_backoff_bounds((retries - 1) as nat);
        assert(MAX_BACKOFF_SECS * retries == MAX_BACKOFF_SECS * (retries - 1) + MAX_BACKOFF_SECS)
            by (nonlinear_arith);
    }
}

/// Whether the failure may pass.
pub fn is_transient_error(error: &SmtpError) -> (r: bool)
    ensures
        r == is_transient(*error),
{
    match error {
        SmtpError::AsyncSmtpError(failure) => match failure.code {
            Some(code) => 400 <= code && code <= 499,
            None => false,
        },
        SmtpError::Timeout(_) => true,
        SmtpError::IOError(e) => match e.kind {
            IoErrorKind::ConnectionReset => true,
            _ => false,
        },
        _ => false,
    }
}

/// How long to wait before trying again, after `retries_made` earlier
/// retries.
pub fn retry_delay(retries_made: u32) -> (r: TimeSpan)
    ensures
        r.secs() == backoff_secs(retries_made as nat),
        r.nanos() == 0,
{
    proof {
        reveal_with_fuel(backoff_secs, 5);
        if retries_made >= 4 {
            lemma_backoff_is_capped(retries_made as nat);
        }
    }
    if retries_made == 0 {
        TimeSpan::from_secs(1)
    } else if retries_made == 1 {
        TimeSpan::from_secs(2)
    } else if retries_made == 2 {
        TimeSpan::from_secs(4)
    } else if retries_made == 3 {
        TimeSpan::from_secs(8)
    } else {
        TimeSpan::from_secs(MAX_BACKOFF_SECS)
    }
}

/// Decides what follows a try that ended with `outcome`, after
/// `retries_made` earlier retries of at most `retries`: a failure that may
/// pass is tried again after the wait that is due, as long as retries are
/// left; every other outcome, and the last failure, is the outcome of the
/// probe.
pub fn after_attempt(
    outcome: Result<SmtpDetails, SmtpError>,
    retries_made: u32,
    retries: u32,
) -> (r: RetryDecision)
    ensures
        is_retried(outcome, retries_made, retries) ==> (r matches RetryDecision::RetryAfter(delay)
            && delay.secs() == backoff_secs(retries_made as nat) && delay.nanos() == 0),
        !is_retried(outcome, retries_made, retries) ==> r == RetryDecision::Return(outcome),
{
    let again = match &outcome {
        Ok(_) => false,
        Err(error) => is_transient_error(error) && retries_made < retries,
    };
    if again {
        RetryDecision::RetryAfter(retry_delay(retries_made))
    } else {
        RetryDecision::Return(outcome)
    }
}

} // verus!
