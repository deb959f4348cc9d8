use buzz_relay::audit::{
    audit_rate_limit_exceeded, enqueue_rate_limit_audit, rate_limit_audit_entry,
    settle_audit_send, AppState, AuditAction, RateLimitAudit,
};
use buzz_relay::channel::{AuditSender, SendRefusal};
use buzz_relay::identity::{CommunityId, PublicKey, TenantContext};
use tokio::sync::mpsc;

fn tenant() -> TenantContext {
    TenantContext::resolved(CommunityId::from_uuid(1), "relay.example.com")
}

fn pubkey() -> PublicKey {
    let mut bytes = [0; 32];
    bytes[0] = 3;
    bytes[31] = 9;
    PublicKey::from_bytes(bytes)
}

fn audit() -> RateLimitAudit {
    RateLimitAudit {
        route: "/query",
        transport: "http",
        current: 11,
        limit: 10,
        reset_in_secs: 7,
    }
}

#[test]
fn rate_limit_audit_enqueue_is_bounded_and_non_blocking() {
    let (tx, mut rx) = mpsc::channel(1);
    let mut tx = AuditSender::new(tx);
    let pubkey = pubkey();
    let tenant = tenant();

    let audit = RateLimitAudit {
        route: "/query",
        transport: "http",
        current: 11,
        limit: 10,
        reset_in_secs: 7,
    };
    let first = enqueue_rate_limit_audit(&mut tx, &tenant, &pubkey, audit);
    let second = enqueue_rate_limit_audit(
        &mut tx,
        &tenant,
        &pubkey,
        RateLimitAudit {
            current: 12,
            ..audit
        },
    );
    assert!(first.is_none());
    assert!(second.is_some());

    let entry = rx.try_recv().expect("first audit entry is queued");
    assert_eq!(entry.action, AuditAction::RateLimitExceeded);
    assert_eq!(entry.detail["route"], "/query");
    assert_eq!(entry.detail["current"], 11);
    assert_eq!(entry.detail["limit"], 10);
    assert_eq!(entry.detail["reset_in_secs"], 7);
    assert_eq!(entry.detail["transport"], "http");
    assert!(rx.try_recv().is_err(), "full audit queue must not grow");
}

#[test]
fn entry_names_the_community_and_the_principal() {
    let entry = rate_limit_audit_entry(&tenant(), &pubkey(), audit());
    assert_eq!(entry.community_id, CommunityId::from_uuid(1));
    assert_eq!(entry.actor_pubkey, Some(pubkey().to_bytes().to_vec()));
    assert_eq!(entry.object_id, None);
}

#[test]
fn entry_detail_has_five_members_and_no_more() {
    let entry = rate_limit_audit_entry(&tenant(), &pubkey(), audit());
    let mut keys: Vec<&str> = entry.detail.keys().map(|key| key.as_str()).collect();
    keys.sort();
    assert_eq!(
        keys,
        vec!["current", "limit", "reset_in_secs", "route", "transport"]
    );
    assert_eq!(
        serde_json::to_string(&entry.detail).unwrap(),
        "{\"current\":11,\"limit\":10,\"reset_in_secs\":7,\"route\":\"/query\",\"transport\":\"http\"}"
    );
}

#[test]
fn entry_keeps_the_largest_counter_values() {
    let entry = rate_limit_audit_entry(
        &tenant(),
        &pubkey(),
        RateLimitAudit {
            current: u64::MAX,
            limit: u64::MAX - 1,
            reset_in_secs: 0,
            ..audit()
        },
    );
    assert_eq!(entry.detail["current"], u64::MAX);
    assert_eq!(entry.detail["limit"], u64::MAX - 1);
    assert_eq!(entry.detail["reset_in_secs"], 0);
}

#[test]
fn full_queue_is_reported_with_its_reason() {
    let (tx, _rx) = mpsc::channel(1);
    let mut tx = AuditSender::new(tx);
    assert!(enqueue_rate_limit_audit(&mut tx, &tenant(), &pubkey(), audit()).is_none());
    let report = enqueue_rate_limit_audit(&mut tx, &tenant(), &pubkey(), audit()).unwrap();
    assert_eq!(report.counter, "buzz_audit_rate_limit_drops_total");
    assert_eq!(report.reason, Some("full"));
    assert_eq!(report.warning, "rate-limit audit queue full; entry dropped");
    assert_eq!(report.route, "/query");
    assert_eq!(report.transport, "http");
}

#[test]
fn closed_channel_is_reported_without_a_reason() {
    let (tx, rx) = mpsc::channel(1);
    drop(rx);
    let mut tx = AuditSender::new(tx);
    let report = enqueue_rate_limit_audit(&mut tx, &tenant(), &pubkey(), audit()).unwrap();
    assert_eq!(report.counter, "buzz_audit_send_errors_total");
    assert_eq!(report.reason, None);
    assert_eq!(report.warning, "rate-limit audit channel closed");
    assert_eq!(report.route, "/query");
    assert_eq!(report.transport, "http");
}

#[test]
fn each_answer_of_the_channel_has_its_report() {
    let entry = || rate_limit_audit_entry(&tenant(), &pubkey(), audit());
    assert!(settle_audit_send(Ok(()), audit()).is_none());
    let full = settle_audit_send(Err(SendRefusal::Full(entry())), audit()).unwrap();
    assert_eq!(full.counter, "buzz_audit_rate_limit_drops_total");
    let closed = settle_audit_send(Err(SendRefusal::Closed(entry())), audit()).unwrap();
    assert_eq!(closed.counter, "buzz_audit_send_errors_total");
}

#[test]
fn audit_goes_to_the_state_s_channel() {
    let (tx, mut rx) = mpsc::channel(1);
    let mut state = AppState {
        audit_tx: Some(AuditSender::new(tx)),
    };
    assert!(audit_rate_limit_exceeded(&mut state, &tenant(), &pubkey(), audit()).is_none());
    let entry = rx.try_recv().unwrap();
    assert_eq!(entry.detail["current"], 11);
    assert!(rx.try_recv().is_err());
}

#[test]
fn audit_without_a_channel_does_nothing() {
    let mut state = AppState { audit_tx: None };
    assert!(audit_rate_limit_exceeded(&mut state, &tenant(), &pubkey(), audit()).is_none());
    assert!(state.audit_tx.is_none());
}

#[test]
fn unread_queue_keeps_the_first_and_reports_the_rest() {
    let (tx, mut rx) = mpsc::channel(3);
    let mut tx = AuditSender::new(tx);
    let mut drops = 0;
    for current in 0..8 {
        let audit = RateLimitAudit {
            current,
            ..audit()
        };
        match enqueue_rate_limit_audit(&mut tx, &tenant(), &pubkey(), audit) {
            None => assert!(current < 3),
            Some(report) => {
                assert!(current >= 3);
                assert_eq!(report.counter, "buzz_audit_rate_limit_drops_total");
                assert_eq!(report.reason, Some("full"));
                drops += 1;
            }
        }
    }
    assert_eq!(drops, 5);
    for current in 0..3 {
        assert_eq!(rx.try_recv().unwrap().detail["current"], current);
    }
    assert!(rx.try_recv().is_err());
}

#[test]
fn senders_of_one_channel_share_its_slots() {
    let (tx, mut rx) = mpsc::channel(1);
    let mut one = AuditSender::new(tx.clone());
    let mut other = AuditSender::new(tx);
    assert!(enqueue_rate_limit_audit(&mut one, &tenant(), &pubkey(), audit()).is_none());
    assert!(enqueue_rate_limit_audit(&mut other, &tenant(), &pubkey(), audit()).is_some());
    assert!(rx.try_recv().is_ok());
    assert!(enqueue_rate_limit_audit(&mut other, &tenant(), &pubkey(), audit()).is_none());
}
