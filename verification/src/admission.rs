//! Rate-limit admission of principals.
use crate::identity::{PublicKey, TenantContext};
use vstd::prelude::*;

verus! {

/// Desktop startup establishes several independent live subscriptions at once.
/// The configured average rate is kept while that bounded burst is let through,
/// by counting over a window of this many seconds.
pub const WS_BURST_WINDOW_SECS: u64 = 5;

/// Which counter of a principal a check draws on.
#[derive(Debug, Clone, Copy, PartialEq, Eq, Structural)]
pub enum LimitType {
    WsEvents,
    ApiCalls,
}

/// What the shared counter answers to one check.
#[derive(Debug, Clone, Copy, PartialEq, Eq, Structural)]
pub struct RateLimitResult {
    pub allowed: bool,
    pub current: u64,
    pub limit: u64,
    pub reset_in_secs: u64,
}

impl RateLimitResult {
    pub fn denied(current: u64, limit: u64, reset_in_secs: u64) -> (result: RateLimitResult)
        ensures
            result == (RateLimitResult { allowed: false, current, limit, reset_in_secs }),
    {
        RateLimitResult { allowed: false, current, limit, reset_in_secs }
    }
}

/// Why a principal is not admitted.
#[derive(Debug, Clone, Copy, PartialEq, Eq, Structural)]
pub enum AdmissionError {
    /// The quota of the window is used up.
    Exceeded { current: u64, limit: u64, reset_in_secs: u64 },
    /// The shared counter did not answer.
    Unavailable,
}

/// The verdict on a principal, given the shared counter's answer.
pub open spec fn admission_verdict<E>(reply: Result<RateLimitResult, E>) -> Result<
    (),
    AdmissionError,
> {
    match reply {
        Ok(result) => if result.allowed {
            Ok(())
        } else {
            Err(
                AdmissionError::Exceeded {
                    current: result.current,
                    limit: result.limit,
                    reset_in_secs: result.reset_in_secs,
                },
            )
        },
        Err(_) => Err(AdmissionError::Unavailable),
    }
}

/// One pending admission check: the single question to put to the shared counter.
#[derive(Debug)]
pub struct PrincipalCheck<'a> {
    pub tenant: &'a TenantContext,
    pub pubkey: &'a PublicKey,
    pub limit_type: LimitType,
    pub window_secs: u64,
    pub limit: u64,
}

/// Starts an admission check. The caller puts the check's fields to the shared
/// counter, once, and hands the answer to [`PrincipalCheck::settle`].
pub fn check_principal<'a>(
    tenant: &'a TenantContext,
    pubkey: &'a PublicKey,
    limit_type: LimitType,
    window_secs: u64,
    limit: u64,
) -> (check: PrincipalCheck<'a>)
    ensures
        check == (PrincipalCheck { tenant, pubkey, limit_type, window_secs, limit }),
{
    PrincipalCheck { tenant, pubkey, limit_type, window_secs, limit }
}

impl<'a> PrincipalCheck<'a> {
    /// Ends the check with the counter's answer. Only an answer that allows the
    /// request admits the principal: a counter that fails admits nobody.
    pub fn settle<E>(self, reply: Result<RateLimitResult, E>) -> (verdict: Result<
        (),
        AdmissionError,
    >)
        ensures
            verdict == admission_verdict(reply),
            verdict is Ok <==> (reply is Ok && reply->Ok_0.allowed),
            reply matches Ok(result) ==> !result.allowed ==> (verdict matches Err(
                AdmissionError::Exceeded { current, limit, reset_in_secs },
            ) && current == result.current && limit == result.limit && reset_in_secs
                == result.reset_in_secs),
            reply is Err ==> verdict == Err::<(), AdmissionError>(AdmissionError::Unavailable),
    {
        match reply {
            Ok(result) => {
                if result.allowed {
                    Ok(())
                } else {
                    Err(
                        AdmissionError::Exceeded {
                            current: result.current,
                            limit: result.limit,
                            reset_in_secs: result.reset_in_secs,
                        },
                    )
                }
            },
            Err(_) => Err(AdmissionError::Unavailable),
        }
    }
}

/// The window and the quota that a per-second limit comes to for websocket
/// traffic.
pub open spec fn ws_budget(per_second_limit: u64) -> (u64, u64) {
    let quota: int = per_second_limit * WS_BURST_WINDOW_SECS;
    (
        WS_BURST_WINDOW_SECS,
        if quota <= u64::MAX {
            quota as u64
        } else {
            u64::MAX
        },
    )
}

pub fn ws_admission_budget(per_second_limit: u64) -> (budget: (u64, u64))
    ensures
        budget == ws_budget(per_second_limit),
        budget.0 == 5,
        5 * per_second_limit <= u64::MAX ==> budget.1 == 5 * per_second_limit,
        5 * per_second_limit > u64::MAX ==> budget.1 == u64::MAX,
{
    let quota: u64 = match per_second_limit.checked_mul(WS_BURST_WINDOW_SECS) {
        Some(quota) => quota,
        None => u64::MAX,
    };
    (WS_BURST_WINDOW_SECS, quota)
}

/// A websocket budget keeps the configured average: the quota over its window is
/// the per-second limit times the window's length, and only where that number
/// leaves the counter's range is it lower. It is never higher.
pub proof fn law_ws_budget_keeps_the_average_rate(per_second_limit: u64)
    ensures
        ({
            let (window, quota) = ws_budget(per_second_limit);
            &&& window > 0
            &&& quota <= per_second_limit * window
            &&& per_second_limit * window <= u64::MAX ==> quota == per_second_limit * window
            &&& per_second_limit * window <= u64::MAX ==> quota / window == per_second_limit
        }),
{
}

/// A higher per-second limit never buys a smaller websocket quota.
pub proof fn law_ws_budget_is_monotone(lower: u64, higher: u64)
    requires
        lower <= higher,
    ensures
        ws_budget(lower).1 <= ws_budget(higher).1,
{
}

/// The window of a websocket budget is five seconds, whatever the per-second limit.
/// The burst is bounded by it: the quota is five seconds' worth of the limit and
/// never more, and only where that leaves the counter's range is it the largest
/// number that the counter has.
pub proof fn law_ws_burst_is_bounded_by_five_seconds(per_second_limit: u64)
    ensures
        ws_budget(per_second_limit).0 == 5,
        ws_budget(per_second_limit).1 <= 5 * per_second_limit,
        ws_budget(per_second_limit).1 == 5 * per_second_limit || (ws_budget(per_second_limit).1
            == u64::MAX && 5 * per_second_limit > u64::MAX),
{
}

/// Two websocket limits share one window, and one request per second more buys five
/// requests more, as long as the counter's range reaches.
pub proof fn law_ws_quota_grows_by_five(one: u64, other: u64)
    requires
        one <= other,
        5 * other <= u64::MAX,
    ensures
        ws_budget(one).0 == ws_budget(other).0,
        ws_budget(other).1 - ws_budget(one).1 == 5 * (other - one),
{
}

/// A denied request is rejected with the counter's own three readings.
pub proof fn law_denial_hands_on_the_readings<E>(result: RateLimitResult)
    requires
        !result.allowed,
    ensures
        admission_verdict::<E>(Ok(result)) matches Err(
            AdmissionError::Exceeded { current, limit, reset_in_secs },
        ) && current == result.current && limit == result.limit && reset_in_secs
            == result.reset_in_secs,
{
}

/// Two denials get one verdict only if their readings are the same.
pub proof fn law_denials_are_told_apart_by_their_readings<E>(
    one: RateLimitResult,
    other: RateLimitResult,
)
    requires
        !one.allowed,
        !other.allowed,
    ensures
        admission_verdict::<E>(Ok(one)) == admission_verdict::<E>(Ok(other)) <==> one == other,
{
}

/// A principal is admitted exactly if the counter answered and allows the request,
/// whatever its readings are; and a counter that did not answer gives one and the
/// same verdict, whatever its error was.
pub proof fn law_only_an_allowing_answer_admits<E>(
    result: RateLimitResult,
    error: E,
)
    ensures
        admission_verdict::<E>(Ok(result)) is Ok <==> result.allowed,
        admission_verdict::<E>(Err(error)) == Err::<(), AdmissionError>(
            AdmissionError::Unavailable,
        ),
{
}

} // verus!
