use crate::engine::CycleResult;
use crate::error::CycleError;
use chrono::DateTime;
use cron::Schedule;
use std::str::FromStr;
use vstd::prelude::*;

verus! {

/// The last second (in Unix time) that a schedule is asked about: the end
/// of the year 9999. Beyond it the date arithmetic of the schedule could
/// overflow.
pub const MAX_TIMESTAMP: i64 = 253_402_300_799;

/// Whether a cron expression (with seconds) is well formed.
pub uninterp spec fn cron_accepts(expr: Seq<char>) -> bool;

/// The first time, in Unix seconds, that a well-formed cron expression
/// fires after `after`, if there is one.
pub uninterp spec fn cron_next(expr: Seq<char>, after: i64) -> Option<i64>;

/// Relies on cron's `Schedule::from_str` and `Schedule::after` (the first
/// item), with chrono's `DateTime::from_timestamp` to convert: an error for
/// a malformed expression, else the next firing strictly after `after`
/// (the search starts one second later), in Unix seconds.
#[verifier::external_body]
fn cron_next_after(expr: &str, after: i64) -> (r: Result<Option<i64>, String>)
    requires
        0 <= after <= MAX_TIMESTAMP,
    ensures
        r is Ok <==> cron_accepts(expr@),
        r matches Ok(next) ==> next == cron_next(expr@, after),
        r matches Ok(Some(t)) ==> t > after,
{
    let schedule = Schedule::from_str(expr).map_err(|e| e.to_string())?;
    let at = DateTime::from_timestamp(after, 0).unwrap_or_default();
    Ok(schedule.after(&at).next().map(|t| t.timestamp()))
}

/// When a schedule fires next after `now` (Unix seconds): a malformed
/// expression is a fatal error; `None` means it never fires again.
pub fn next_firing(expr: &str, now: i64) -> (r: Result<Option<i64>, CycleError>)
    requires
        0 <= now <= MAX_TIMESTAMP,
    ensures
        r is Err <==> !cron_accepts(expr@),
        r matches Err(e) ==> e is Fatal,
        r matches Ok(next) ==> next == cron_next(expr@, now),
        r matches Ok(Some(t)) ==> t > now,
{
    match cron_next_after(expr, now) {
        Ok(next) => Ok(next),
        Err(m) => Err(CycleError::Fatal(m)),
    }
}

/// Whether a firing due at `at` has arrived by `now`.
pub fn is_due(now: i64, at: i64) -> (r: bool)
    ensures
        r <==> now >= at,
{
    now >= at
}

/// Whether the daemon goes on to its next firing after a run that ended
/// with `result`: it stops only on a fatal error; any other failure waits
/// for the next firing.
pub fn keeps_running(result: &CycleResult) -> (r: bool)
    ensures
        r <==> !(result matches CycleResult::Failed(CycleError::Fatal(_))),
{
    match result {
        CycleResult::Failed(CycleError::Fatal(_)) => false,
        _ => true,
    }
}

} // verus!
