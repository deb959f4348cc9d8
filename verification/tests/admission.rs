use buzz_relay::admission::{
    check_principal, ws_admission_budget, AdmissionError, LimitType, RateLimitResult,
};
use buzz_relay::identity::{CommunityId, PublicKey, TenantContext};
use std::cell::Cell;

enum StubOutcome {
    Allowed,
    Denied,
    Failed,
}

struct StubLimiter {
    outcome: StubOutcome,
    calls: Cell<usize>,
}

impl StubLimiter {
    fn new(outcome: StubOutcome) -> StubLimiter {
        StubLimiter {
            outcome,
            calls: Cell::new(0),
        }
    }

    fn check_and_increment(
        &self,
        _ctx: &TenantContext,
        _pubkey: &PublicKey,
        _limit_type: LimitType,
        _window_secs: u64,
        _limit: u64,
    ) -> Result<RateLimitResult, String> {
        self.calls.set(self.calls.get() + 1);
        match self.outcome {
            StubOutcome::Allowed => Ok(RateLimitResult {
                allowed: true,
                current: 10,
                limit: 10,
                reset_in_secs: 1,
            }),
            StubOutcome::Denied => Ok(RateLimitResult::denied(11, 10, 1)),
            StubOutcome::Failed => Err("redis unavailable".to_owned()),
        }
    }
}

fn tenant() -> TenantContext {
    TenantContext::resolved(CommunityId::from_uuid(1), "relay.example.com")
}

fn pubkey() -> PublicKey {
    PublicKey::from_bytes([7; 32])
}

fn run_check(
    limiter: &StubLimiter,
    limit_type: LimitType,
    window_secs: u64,
    limit: u64,
) -> Result<(), AdmissionError> {
    let tenant = tenant();
    let pubkey = pubkey();
    let check = check_principal(&tenant, &pubkey, limit_type, window_secs, limit);
    let reply = limiter.check_and_increment(
        check.tenant,
        check.pubkey,
        check.limit_type,
        check.window_secs,
        check.limit,
    );
    check.settle(reply)
}

#[test]
fn websocket_budget_preserves_rate_with_a_bounded_burst() {
    assert_eq!(ws_admission_budget(10), (5, 50));
}

#[test]
fn websocket_budget_saturates_on_overflow() {
    assert_eq!(ws_admission_budget(u64::MAX), (5, u64::MAX));
}

#[test]
fn websocket_budget_is_exact_up_to_the_last_limit_that_fits() {
    let last = u64::MAX / 5;
    assert_eq!(ws_admission_budget(0), (5, 0));
    assert_eq!(ws_admission_budget(1), (5, 5));
    assert_eq!(ws_admission_budget(last), (5, last * 5));
    assert_eq!(ws_admission_budget(last + 1), (5, u64::MAX));
}

#[test]
fn websocket_quota_does_not_shrink_as_the_limit_grows() {
    let limits = [0, 1, 10, 11, u64::MAX / 5, u64::MAX / 5 + 1, u64::MAX];
    for pair in limits.windows(2) {
        assert!(ws_admission_budget(pair[0]).1 <= ws_admission_budget(pair[1]).1);
    }
}

#[test]
fn denied_shared_counter_rejects_admission() {
    let limiter = StubLimiter::new(StubOutcome::Denied);
    let result = run_check(&limiter, LimitType::WsEvents, 1, 10);
    assert_eq!(
        result,
        Err(AdmissionError::Exceeded {
            current: 11,
            limit: 10,
            reset_in_secs: 1,
        })
    );
    assert_eq!(limiter.calls.get(), 1);
}

#[test]
fn shared_counter_failure_rejects_admission() {
    let limiter = StubLimiter::new(StubOutcome::Failed);
    let result = run_check(&limiter, LimitType::ApiCalls, 60, 300);
    assert_eq!(result, Err(AdmissionError::Unavailable));
    assert_eq!(limiter.calls.get(), 1);
}

#[test]
fn allowed_request_is_admitted() {
    let limiter = StubLimiter::new(StubOutcome::Allowed);
    assert_eq!(run_check(&limiter, LimitType::WsEvents, 1, 10), Ok(()));
    assert_eq!(limiter.calls.get(), 1);
}

#[test]
fn check_carries_what_the_counter_is_asked() {
    let tenant = tenant();
    let pubkey = pubkey();
    let check = check_principal(&tenant, &pubkey, LimitType::ApiCalls, 60, 300);
    assert_eq!(check.tenant.community().as_uuid(), 1);
    assert_eq!(check.tenant.host(), "relay.example.com");
    assert_eq!(check.pubkey.to_bytes(), [7; 32]);
    assert_eq!(check.limit_type, LimitType::ApiCalls);
    assert_eq!(check.window_secs, 60);
    assert_eq!(check.limit, 300);
}
