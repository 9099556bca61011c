//! How many requests a client may make in a window of time.

use vstd::prelude::*;
use crate::text::chars::owned;

verus! {

/// Whether a request is one too many, and in how many seconds the window ends.
#[derive(Clone, Copy, Debug, PartialEq, Eq, Structural)]
pub struct RateLimitResult {
    pub limited: bool,
    pub retry_after: i64,
}

/// The key under which the requests of an address are counted.
pub open spec fn counter_key(ip: Seq<char>, key: Seq<char>) -> Seq<char> {
    "rate-limit:"@ + ip + ":"@ + key
}

/// Milliseconds in whole seconds, rounded towards zero.
pub open spec fn whole_seconds(millis: i64) -> int {
    if millis >= 0 {
        millis as int / 1000
    } else {
        -((-millis) / 1000)
    }
}

/// What a request is held against.
#[derive(Debug, PartialEq)]
pub struct RateLimit {
    pub limit: i64,
    pub window_ms: i64,
}

/// How far the check of a request has come, and what it waits for.
#[derive(Clone, Copy, Debug, PartialEq, Eq, Structural)]
pub enum RateCheck {
    /// For the counter to have been raised.
    Raised,
    /// For the end of the window to have been set.
    Expiring { count: i64 },
    /// For the seconds that are left of the window.
    Remaining { count: i64 },
    /// For nothing.
    Over,
}

/// What is to be done next.
#[derive(Debug, PartialEq)]
pub enum RateAction {
    /// Raise the counter of a key by one, and tell the count.
    Raise { key: String },
    /// Let the counter end in so many seconds.
    Expire { seconds: i64 },
    /// Tell in how many seconds the counter ends.
    AskRemaining,
    /// The request is judged.
    Judge(RateLimitResult),
}

impl RateLimit {
    /// Begins the check of a request.
    pub fn begin(&self, ip: &str, key: &str) -> (r: (RateCheck, RateAction))
        ensures
            r.0 == RateCheck::Raised,
            r.1 matches RateAction::Raise { key: k } && k@ == counter_key(ip@, key@),
    {
        let mut name: String = owned("rate-limit:");
        name.append(ip);
        name.append(":");
        name.append(key);
        (RateCheck::Raised, RateAction::Raise { key: name })
    }

    /// The whole seconds of the window.
    pub fn window_seconds(&self) -> (r: i64)
        ensures
            r == whole_seconds(self.window_ms),
    {
        let millis: i64 = self.window_ms;
        if millis >= 0 {
            millis / 1000
        } else {
            // The smallest number has no counterpart above zero.
            let rest: i64 = -(millis + 1);
            if rest % 1000 == 999 {
                -(rest / 1000) - 1
            } else {
                -(rest / 1000)
            }
        }
    }

    /// What becomes of a check that is not over after a number: the count, or the seconds that
    /// are left. The first request of a window sets its end; a request is one too many where it
    /// is counted beyond the limit.
    pub open spec fn judged(self, state: RateCheck, number: i64) -> Option<
        (RateCheck, RateAction),
    > {
        match state {
            RateCheck::Raised => if number == 1 {
                Some(
                    (
                        RateCheck::Expiring { count: number },
                        RateAction::Expire { seconds: whole_seconds(self.window_ms) as i64 },
                    ),
                )
            } else {
                Some((RateCheck::Remaining { count: number }, RateAction::AskRemaining))
            },
            RateCheck::Expiring { count } => Some(
                (RateCheck::Remaining { count }, RateAction::AskRemaining),
            ),
            RateCheck::Remaining { count } => Some(
                (RateCheck::Over, RateAction::Judge(verdict(self.limit, count, number))),
            ),
            RateCheck::Over => None,
        }
    }

    /// Goes on with a number: the count, or the seconds that are left. After the end of the
    /// window was set, the number says nothing.
    pub fn step(&self, state: RateCheck, number: i64) -> (r: (RateCheck, RateAction))
        requires
            state != RateCheck::Over,
        ensures
            Some(r) == self.judged(state, number),
    {
        match state {
            RateCheck::Raised => if number == 1 {
                let seconds: i64 = self.window_seconds();
                (RateCheck::Expiring { count: number }, RateAction::Expire { seconds })
            } else {
                (RateCheck::Remaining { count: number }, RateAction::AskRemaining)
            },
            RateCheck::Expiring { count } => (
                RateCheck::Remaining { count },
                RateAction::AskRemaining,
            ),
            RateCheck::Remaining { count } => (
                RateCheck::Over,
                RateAction::Judge(
                    RateLimitResult { limited: count > self.limit, retry_after: number },
                ),
            ),
            RateCheck::Over => {
                assert(false);
                (RateCheck::Over, RateAction::AskRemaining)
            },
        }
    }
}

/// What a request that is counted as number `count` comes to, when `remaining` seconds are left.
pub open spec fn verdict(limit: i64, count: i64, remaining: i64) -> RateLimitResult {
    RateLimitResult { limited: count > limit, retry_after: remaining }
}

/// Every check ends, in three or four steps, with the verdict on its count.
pub proof fn lemma_check_ends(rate: RateLimit, count: i64, unsaid: i64, remaining: i64)
    ensures
        ({
            let raised = (rate.judged(RateCheck::Raised, count)->0).0;
            let asked = if count == 1 {
                (rate.judged(raised, unsaid)->0).0
            } else {
                raised
            };
            rate.judged(asked, remaining) == Some(
                (RateCheck::Over, RateAction::Judge(verdict(rate.limit, count, remaining))),
            )
        }),
{
}

/// Once a request is one too many, so is every later one of the window.
pub proof fn lemma_stays_limited(limit: i64, count: i64, later: i64, r1: i64, r2: i64)
    requires
        count <= later,
    ensures
        verdict(limit, count, r1).limited ==> verdict(limit, later, r2).limited,
{
}

} // verus!
