//! Tokens that bypass multi-factor authentication for a short while.
use vstd::prelude::*;

verus! {

/// A point in time: seconds since the Unix epoch, and nanoseconds within the second.
#[derive(Clone, Copy, Debug, PartialEq, Eq, Structural)]
pub struct Timestamp {
    pub secs: i64,
    pub nanos: u32,
}

/// Whether `a` comes strictly before `b`.
pub open spec fn before(a: Timestamp, b: Timestamp) -> bool {
    a.secs < b.secs || (a.secs == b.secs && a.nanos < b.nanos)
}

/// A time that `chrono::Utc::now` can report: not before the Unix epoch, with the
/// nanoseconds below one second.
pub open spec fn is_clock_reading(t: Timestamp) -> bool {
    t.secs >= 0 && t.nanos < 1_000_000_000
}

/// Calls `chrono::Utc::now` and reads the seconds and nanoseconds of the result. Which time
/// the clock reports is not claimed; what is claimed is what chrono's source shows of every
/// reading: it is taken after the Unix epoch (`duration_since(UNIX_EPOCH)` must succeed)
/// and built from the whole seconds and the sub-second nanoseconds of that duration.
#[verifier::external_body]
fn utc_now() -> (res: Timestamp)
    ensures
        is_clock_reading(res),
{
    let now = chrono::Utc::now();
    Timestamp { secs: now.timestamp(), nanos: now.timestamp_subsec_nanos() }
}

/// A token used to bypass MFA for five minutes.
#[derive(Debug, Clone)]
pub struct MfaToken {
    pub token: String,
    pub expires_at: Timestamp,
}

impl MfaToken {
    /// Whether the token is still valid at `now`: it is until it expires.
    pub fn is_valid_at(&self, now: Timestamp) -> (res: bool)
        ensures
            res == before(now, self.expires_at),
    {
        now.secs < self.expires_at.secs || (now.secs == self.expires_at.secs && now.nanos
            < self.expires_at.nanos)
    }

    /// Whether the token is still valid now: it is if the current time, whatever the clock
    /// reads, comes before its expiry. A token that expired before the Unix epoch is never
    /// valid.
    pub fn is_valid(&self) -> (res: bool)
        ensures
            exists|now: Timestamp| is_clock_reading(now) && res == before(now, self.expires_at),
            self.expires_at.secs < 0 ==> !res,
    {
        let now = utc_now();
        let res = self.is_valid_at(now);
        proof {
            assert(is_clock_reading(now) && res == before(now, self.expires_at));
        }
        res
    }
}

} // verus!

verus! {

/// A token valid at some time was valid at every earlier time.
pub proof fn lemma_valid_earlier(earlier: Timestamp, later: Timestamp, expires_at: Timestamp)
    requires
        before(later, expires_at),
        before(earlier, later) || earlier == later,
    ensures
        before(earlier, expires_at),
{
}

} // verus!
