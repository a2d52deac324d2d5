//! The permit source in front of the remote service, and the quota it is
//! sized for.

use vstd::prelude::*;

verus! {

/// Permits per second that the client asks of its limiter.
pub const RATE_LIMIT: u32 = 3;

/// Milliseconds to wait between two polls of an exhausted limiter.
pub const TIME_STEP_MILLIS: u64 = 100;

/// Length in seconds of the window over which the remote service counts.
pub const QUOTA_WINDOW_SECS: u32 = 300;

/// A rate is acceptable only if a full window of it stays below this number
/// of permits.
pub const QUOTA_CEILING: u32 = 1000;

/// The most permits that a sustained rate of `per_second` hands out in one
/// window.
pub open spec fn window_permits(per_second: int) -> int {
    per_second * QUOTA_WINDOW_SECS
}

/// The rate can be used: it is positive, and a full window of it stays below
/// the ceiling.
pub open spec fn rate_allowed(per_second: int) -> bool {
    0 < per_second && window_permits(per_second) < QUOTA_CEILING
}

/// The most permits that a sustained rate of `per_second` hands out in one
/// window.
pub fn permits_per_window(per_second: u32) -> (permits: u64)
    ensures
        permits == window_permits(per_second as int),
{
    assert(per_second * QUOTA_WINDOW_SECS <= 0xffff_ffff * 300) by (nonlinear_arith)
        requires
            per_second <= 0xffff_ffff,
            QUOTA_WINDOW_SECS == 300,
    ;
    (per_second as u64) * (QUOTA_WINDOW_SECS as u64)
}

/// Whether the rate can be used.
pub fn rate_is_allowed(per_second: u32) -> (allowed: bool)
    ensures
        allowed == rate_allowed(per_second as int),
{
    per_second > 0 && permits_per_window(per_second) < QUOTA_CEILING as u64
}

/// The configured rate can be used, and so can every positive rate below it;
/// no rate above it can.
pub proof fn lemma_rate_limit_allowed()
    ensures
        rate_allowed(RATE_LIMIT as int),
        window_permits(RATE_LIMIT as int) == 900,
        forall|n: int| rate_allowed(n) <==> 0 < n <= RATE_LIMIT,
{
}

/// What the caller of the limiter does next.
#[derive(Clone, Copy, Debug, PartialEq, Eq, Structural)]
pub enum AcquireAction {
    /// A permit was granted: send the request.
    Proceed,
    /// No permit is free: wait this many milliseconds, then poll again.
    Wait { millis: u64 },
}

/// The action that follows one poll of the limiter.
pub open spec fn action_after(permitted: bool) -> AcquireAction {
    if permitted {
        AcquireAction::Proceed
    } else {
        AcquireAction::Wait { millis: TIME_STEP_MILLIS }
    }
}

/// The action that follows one poll of the limiter: go on with a permit,
/// else wait one time step and poll again, without end.
pub fn acquire_step(permitted: bool) -> (action: AcquireAction)
    ensures
        action == action_after(permitted),
{
    if permitted {
        AcquireAction::Proceed
    } else {
        AcquireAction::Wait { millis: TIME_STEP_MILLIS }
    }
}

/// A direct, un-keyed rate limiter of the `governor` crate on its default
/// clock. Its state is hidden: what a poll answers depends on the time.
#[verifier::external_body]
struct PermitSource {
    limiter: governor::DefaultDirectRateLimiter,
}

/// `governor::Quota::per_second` and `governor::RateLimiter::direct`: a fresh
/// limiter that grants `per_second` permits per second, with a burst of the
/// same size. Nothing is claimed of the result.
#[verifier::external_body]
fn direct_per_second(per_second: u32) -> (source: PermitSource)
    requires
        per_second > 0,
{
    let burst = core::num::NonZeroU32::new(per_second).unwrap();
    PermitSource { limiter: governor::RateLimiter::direct(governor::Quota::per_second(burst)) }
}

/// `governor::RateLimiter::check`: asks for one permit without blocking, and
/// says whether it was granted. The answer depends on the time of the call
/// and on the polls before it, so nothing is claimed of it.
#[verifier::external_body]
fn check_once(source: &PermitSource) -> (permitted: bool) {
    source.limiter.check().is_ok()
}

/// A limiter together with the rate it was made for.
pub struct Limiter {
    per_second: u32,
    source: PermitSource,
}

impl Limiter {
    /// The rate the limiter was made for, in permits per second.
    pub closed spec fn rate(&self) -> int {
        self.per_second as int
    }

    /// The limiter's invariant: its rate can be used.
    pub closed spec fn wf(&self) -> bool {
        rate_allowed(self.per_second as int)
    }

    /// A limiter for `per_second` permits per second, or `None` where that
    /// rate cannot be used.
    pub fn new(per_second: u32) -> (made: Option<Limiter>)
        ensures
            made is Some <==> rate_allowed(per_second as int),
            made is Some ==> made->0.wf() && made->0.rate() == per_second,
    {
        if rate_is_allowed(per_second) {
            Some(Limiter { per_second, source: direct_per_second(per_second) })
        } else {
            None
        }
    }

    /// A limiter's rate is positive, and a full window of it stays below the
    /// ceiling.
    pub proof fn lemma_rate_within_quota(&self)
        requires
            self.wf(),
        ensures
            0 < self.rate() <= RATE_LIMIT,
            window_permits(self.rate()) < QUOTA_CEILING,
    {
    }

    /// The rate the limiter was made for.
    pub fn per_second(&self) -> (rate: u32)
        ensures
            rate == self.rate(),
    {
        self.per_second
    }

    /// Polls the limiter once and says what to do next. Which of the two
    /// actions comes back depends on the time.
    pub fn poll(&self) -> (action: AcquireAction)
        ensures
            action == AcquireAction::Proceed || action == (AcquireAction::Wait {
                millis: TIME_STEP_MILLIS,
            }),
    {
        acquire_step(check_once(&self.source))
    }
}

} // verus!
