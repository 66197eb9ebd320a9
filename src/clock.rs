//! Deadlines of work sessions, with their local wall-clock time.
use vstd::prelude::*;
use chrono::Timelike;
use crate::session::{Deadline, SESSION_SECONDS};

verus! {

/// Relies on chrono's `DateTime::from_timestamp` (`None` outside chrono's
/// date range), `DateTime::with_timezone(&Local)` and `Timelike::hour` /
/// `Timelike::minute`, documented as 0 to 23 and 0 to 59. The result depends
/// on the machine's time zone.
#[verifier::external_body]
fn local_clock(at: i64) -> (r: Option<(u8, u8)>)
    ensures
        r matches Some((h, m)) ==> h < 24 && m < 60,
{
    match chrono::DateTime::from_timestamp(at, 0) {
        Some(t) => {
            let local = t.with_timezone(&chrono::Local);
            Some((local.hour() as u8, local.minute() as u8))
        },
        None => None,
    }
}

/// The deadline of a work session that begins at `now` (seconds since the
/// Unix epoch). `None` where that instant is out of range.
pub fn session_deadline(now: i64) -> (r: Option<Deadline>)
    ensures
        now + SESSION_SECONDS > i64::MAX ==> r is None,
        r matches Some(d) ==> d.at == now + SESSION_SECONDS && d.at > now && d.wf(),
{
    let at = match now.checked_add(SESSION_SECONDS) {
        Some(at) => at,
        None => return None,
    };
    match local_clock(at) {
        Some((hour, minute)) => Some(Deadline { at, hour, minute }),
        None => None,
    }
}

} // verus!
