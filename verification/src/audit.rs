//! Audit records of quota rejections.
use crate::channel::{answer_of, Answer, Attempt, AuditSender, SendRefusal};
use crate::identity::{CommunityId, PublicKey, TenantContext, TenantView};
use crate::json::{insert_number, insert_text, members, new_object, Member};
use vstd::prelude::*;
use vstd::slice::slice_to_vec;

verus! {

/// What an audit entry reports.
#[derive(Debug, Clone, Copy, PartialEq, Eq, Structural)]
pub enum AuditAction {
    RateLimitExceeded,
}

/// An entry on its way to the audit log.
#[derive(Debug)]
pub struct NewAuditEntry {
    pub community_id: CommunityId,
    pub action: AuditAction,
    pub actor_pubkey: Option<Vec<u8>>,
    pub object_id: Option<String>,
    /// A JSON object.
    pub detail: serde_json::Map<String, serde_json::Value>,
}

/// What a [`NewAuditEntry`] stands for.
pub struct AuditEntryView {
    pub community_id: u128,
    pub action: AuditAction,
    pub actor_pubkey: Option<Seq<u8>>,
    pub object_id: Option<Seq<char>>,
    pub detail: Map<Seq<char>, Member>,
}

impl View for NewAuditEntry {
    type V = AuditEntryView;

    open spec fn view(&self) -> AuditEntryView {
        AuditEntryView {
            community_id: self.community_id@,
            action: self.action,
            actor_pubkey: match self.actor_pubkey {
                Some(key) => Some(key@),
                None => None,
            },
            object_id: match self.object_id {
                Some(id) => Some(id@),
                None => None,
            },
            detail: members(self.detail),
        }
    }
}

/// Static, bounded details for a quota-rejection audit entry.
#[derive(Debug, Clone, Copy)]
pub struct RateLimitAudit {
    /// Route label selected by the server.
    pub route: &'static str,
    /// Transport label selected by the server.
    pub transport: &'static str,
    /// Counter value returned by the limiter.
    pub current: u64,
    /// Configured quota.
    pub limit: u64,
    /// Seconds until the counter resets.
    pub reset_in_secs: u64,
}

/// The detail object of a quota rejection: the two labels and the three counter
/// readings, and nothing besides.
pub open spec fn rate_limit_detail(audit: RateLimitAudit) -> Map<Seq<char>, Member> {
    map![
        "route"@ => Member::Text(audit.route@),
        "current"@ => Member::Number(audit.current),
        "limit"@ => Member::Number(audit.limit),
        "reset_in_secs"@ => Member::Number(audit.reset_in_secs),
        "transport"@ => Member::Text(audit.transport@),
    ]
}

/// The audit entry of a quota rejection.
pub open spec fn rate_limit_entry(
    tenant: TenantView,
    pubkey: Seq<u8>,
    audit: RateLimitAudit,
) -> AuditEntryView {
    AuditEntryView {
        community_id: tenant.community,
        action: AuditAction::RateLimitExceeded,
        actor_pubkey: Some(pubkey),
        object_id: None,
        detail: rate_limit_detail(audit),
    }
}

/// Builds the audit entry of a quota rejection.
pub fn rate_limit_audit_entry(
    tenant: &TenantContext,
    pubkey: &PublicKey,
    audit: RateLimitAudit,
) -> (entry: NewAuditEntry)
    ensures
        entry@ == rate_limit_entry(tenant@, pubkey@, audit),
        entry.community_id@ == tenant@.community,
        entry.action == AuditAction::RateLimitExceeded,
        entry.actor_pubkey matches Some(key) && key@ == pubkey@,
        entry.object_id is None,
        members(entry.detail)["route"@] == Member::Text(audit.route@),
        members(entry.detail)["transport"@] == Member::Text(audit.transport@),
        members(entry.detail)["current"@] == Member::Number(audit.current),
        members(entry.detail)["limit"@] == Member::Number(audit.limit),
        members(entry.detail)["reset_in_secs"@] == Member::Number(audit.reset_in_secs),
{
    proof {
        law_rate_limit_entry_is_sanitized(tenant@, pubkey@, audit);
    }
    let mut detail = new_object();
    insert_text(&mut detail, "route", audit.route);
    insert_number(&mut detail, "current", audit.current);
    insert_number(&mut detail, "limit", audit.limit);
    insert_number(&mut detail, "reset_in_secs", audit.reset_in_secs);
    insert_text(&mut detail, "transport", audit.transport);
    let key = pubkey.to_bytes();
    NewAuditEntry {
        community_id: tenant.community(),
        action: AuditAction::RateLimitExceeded,
        actor_pubkey: Some(slice_to_vec(&key)),
        object_id: None,
        detail,
    }
}

/// A lost audit entry: the counter to raise by one and the warning to log.
#[derive(Debug, Clone, Copy)]
pub struct AuditDrop {
    /// Name of the counter.
    pub counter: &'static str,
    /// The counter's `reason` label, where it has one.
    pub reason: Option<&'static str>,
    /// Text of the warning, which goes out with the two labels.
    pub warning: &'static str,
    pub route: &'static str,
    pub transport: &'static str,
}

/// What an [`AuditDrop`] stands for.
pub struct AuditDropView {
    pub counter: Seq<char>,
    pub reason: Option<Seq<char>>,
    pub warning: Seq<char>,
    pub route: Seq<char>,
    pub transport: Seq<char>,
}

impl View for AuditDrop {
    type V = AuditDropView;

    open spec fn view(&self) -> AuditDropView {
        AuditDropView {
            counter: self.counter@,
            reason: match self.reason {
                Some(reason) => Some(reason@),
                None => None,
            },
            warning: self.warning@,
            route: self.route@,
            transport: self.transport@,
        }
    }
}

/// What is reported of an entry that a full queue turned away.
pub open spec fn queue_full_drop(audit: RateLimitAudit) -> AuditDropView {
    AuditDropView {
        counter: "buzz_audit_rate_limit_drops_total"@,
        reason: Some("full"@),
        warning: "rate-limit audit queue full; entry dropped"@,
        route: audit.route@,
        transport: audit.transport@,
    }
}

/// What is reported of an entry for which there is no receiver any more.
pub open spec fn channel_closed_drop(audit: RateLimitAudit) -> AuditDropView {
    AuditDropView {
        counter: "buzz_audit_send_errors_total"@,
        reason: None,
        warning: "rate-limit audit channel closed"@,
        route: audit.route@,
        transport: audit.transport@,
    }
}

/// What is reported of a quota rejection's entry once the channel has answered.
pub open spec fn audit_report(answer: Answer, audit: RateLimitAudit) -> Option<AuditDropView> {
    match answer {
        Answer::Taken => None,
        Answer::Full => Some(queue_full_drop(audit)),
        Answer::Closed => Some(channel_closed_drop(audit)),
    }
}

/// What an optional [`AuditDrop`] stands for.
pub open spec fn report_view(dropped: Option<AuditDrop>) -> Option<AuditDropView> {
    match dropped {
        Some(report) => Some(report@),
        None => None,
    }
}

/// What is to be reported once the channel has answered: nothing if it took the
/// entry, and the loss if it did not. The entry itself is let go either way.
pub fn settle_audit_send(sent: Result<(), SendRefusal>, audit: RateLimitAudit) -> (dropped: Option<
    AuditDrop,
>)
    ensures
        report_view(dropped) == audit_report(answer_of(sent), audit),
        dropped is None <==> sent is Ok,
        sent matches Err(SendRefusal::Full(_)) ==> (dropped matches Some(report) && report.counter@
            == "buzz_audit_rate_limit_drops_total"@ && (report.reason matches Some(reason)
            && reason@ == "full"@) && report.warning@ == "rate-limit audit queue full; entry dropped"@
            && report.route@ == audit.route@ && report.transport@ == audit.transport@),
        sent matches Err(SendRefusal::Closed(_)) ==> (dropped matches Some(report)
            && report.counter@ == "buzz_audit_send_errors_total"@ && report.reason is None
            && report.warning@ == "rate-limit audit channel closed"@ && report.route@
            == audit.route@ && report.transport@ == audit.transport@),
{
    match sent {
        Ok(()) => None,
        Err(SendRefusal::Full(_)) => Some(
            AuditDrop {
                counter: "buzz_audit_rate_limit_drops_total",
                reason: Some("full"),
                warning: "rate-limit audit queue full; entry dropped",
                route: audit.route,
                transport: audit.transport,
            },
        ),
        Err(SendRefusal::Closed(_)) => Some(
            AuditDrop {
                counter: "buzz_audit_send_errors_total",
                reason: None,
                warning: "rate-limit audit channel closed",
                route: audit.route,
                transport: audit.transport,
            },
        ),
    }
}

/// Whether a sender was used for exactly one attempt, with the entry of a quota
/// rejection, and the report is the one that the channel's answer calls for.
pub open spec fn enqueues_once(
    before: AuditSender,
    after: AuditSender,
    tenant: TenantView,
    pubkey: Seq<u8>,
    audit: RateLimitAudit,
    report: Option<AuditDropView>,
) -> bool {
    let attempt = Attempt {
        entry: rate_limit_entry(tenant, pubkey, audit),
        answer: after.attempts().last().answer,
    };
    &&& after.tx() == before.tx()
    &&& after.attempts() == before.attempts().push(attempt)
    &&& attempt.made_on(before.tx())
    &&& report == audit_report(attempt.answer, audit)
}

/// Offers the entry of a quota rejection to the audit channel, once and without
/// waiting, and says what is to be reported if the channel did not take it.
pub fn enqueue_rate_limit_audit(
    audit_tx: &mut AuditSender,
    tenant: &TenantContext,
    pubkey: &PublicKey,
    audit: RateLimitAudit,
) -> (dropped: Option<AuditDrop>)
    ensures
        enqueues_once(
            *old(audit_tx),
            *final(audit_tx),
            tenant@,
            pubkey@,
            audit,
            report_view(dropped),
        ),
        final(audit_tx).tx() == old(audit_tx).tx(),
        final(audit_tx).attempts().len() == old(audit_tx).attempts().len() + 1,
        final(audit_tx).attempts().drop_last() == old(audit_tx).attempts(),
        final(audit_tx).attempts().last().entry == rate_limit_entry(tenant@, pubkey@, audit),
        dropped is None <==> final(audit_tx).attempts().last().answer is Taken,
{
    let entry = rate_limit_audit_entry(tenant, pubkey, audit);
    let sent = audit_tx.offer(entry);
    settle_audit_send(sent, audit)
}

/// The part of the relay's state that quota audits use.
pub struct AppState {
    /// The audit channel, unless auditing is switched off.
    pub audit_tx: Option<AuditSender>,
}

/// Enqueues a bounded, sanitized audit record for a quota rejection.
///
/// Rate-limit handling is on the request hot path, so the channel is never
/// waited for: audit backpressure must not turn into request backpressure.
/// Callers provide only static route and transport labels; no request body,
/// token, subscription id, or other client-controlled text enters the entry.
/// Where auditing is switched off there is nothing to do and nothing to report.
pub fn audit_rate_limit_exceeded(
    state: &mut AppState,
    tenant: &TenantContext,
    pubkey: &PublicKey,
    audit: RateLimitAudit,
) -> (dropped: Option<AuditDrop>)
    ensures
        match (old(state).audit_tx, final(state).audit_tx) {
            (None, None) => dropped is None,
            (Some(before), Some(after)) => enqueues_once(
                before,
                after,
                tenant@,
                pubkey@,
                audit,
                report_view(dropped),
            ) && after.tx() == before.tx() && after.attempts().len() == before.attempts().len() + 1
                && after.attempts().drop_last() == before.attempts()
                && after.attempts().last().entry == rate_limit_entry(tenant@, pubkey@, audit)
                && (dropped is None <==> after.attempts().last().answer is Taken),
            _ => false,
        },
{
    match &mut state.audit_tx {
        None => None,
        Some(audit_tx) => enqueue_rate_limit_audit(audit_tx, tenant, pubkey, audit),
    }
}

/// An audit entry of a quota rejection holds what the server chose and counted,
/// and nothing that a client wrote: besides the tenant's own community and the
/// principal's own key there are five members, each of which reads back what the
/// audit said.
pub proof fn law_rate_limit_entry_is_sanitized(
    tenant: TenantView,
    pubkey: Seq<u8>,
    audit: RateLimitAudit,
)
    ensures
        ({
            let entry = rate_limit_entry(tenant, pubkey, audit);
            &&& entry.community_id == tenant.community
            &&& entry.action == AuditAction::RateLimitExceeded
            &&& entry.actor_pubkey == Some(pubkey)
            &&& entry.object_id is None
            &&& entry.detail.dom() == set![
                "route"@,
                "current"@,
                "limit"@,
                "reset_in_secs"@,
                "transport"@,
            ]
            &&& entry.detail["route"@] == Member::Text(audit.route@)
            &&& entry.detail["transport"@] == Member::Text(audit.transport@)
            &&& entry.detail["current"@] == Member::Number(audit.current)
            &&& entry.detail["limit"@] == Member::Number(audit.limit)
            &&& entry.detail["reset_in_secs"@] == Member::Number(audit.reset_in_secs)
        }),
{
    reveal_strlit("route");
    reveal_strlit("current");
    reveal_strlit("limit");
    reveal_strlit("reset_in_secs");
    reveal_strlit("transport");
    // No two keys are equal: they differ in length or in their first letter.
    assert("route"@.len() == 5 && "limit"@.len() == 5);
    assert("route"@[0] == 'r' && "limit"@[0] == 'l');
    assert("current"@.len() == 7);
    assert("reset_in_secs"@.len() == 13);
    assert("transport"@.len() == 9);
    assert(rate_limit_detail(audit).dom() =~= set![
        "route"@,
        "current"@,
        "limit"@,
        "reset_in_secs"@,
        "transport"@,
    ]);
}

/// Audit entries tell rejections apart: two are equal only if the communities, the
/// principals, the labels and the counter readings are.
pub proof fn law_rate_limit_entries_tell_rejections_apart(
    tenant: TenantView,
    other_tenant: TenantView,
    pubkey: Seq<u8>,
    other_pubkey: Seq<u8>,
    audit: RateLimitAudit,
    other_audit: RateLimitAudit,
)
    requires
        rate_limit_entry(tenant, pubkey, audit) == rate_limit_entry(
            other_tenant,
            other_pubkey,
            other_audit,
        ),
    ensures
        tenant.community == other_tenant.community,
        pubkey == other_pubkey,
        audit.route@ == other_audit.route@,
        audit.transport@ == other_audit.transport@,
        audit.current == other_audit.current,
        audit.limit == other_audit.limit,
        audit.reset_in_secs == other_audit.reset_in_secs,
{
    law_rate_limit_entry_is_sanitized(tenant, pubkey, audit);
    law_rate_limit_entry_is_sanitized(other_tenant, other_pubkey, other_audit);
}

/// What an entry stands for is what its fields hold.
pub proof fn law_entry_view_shows_the_fields(entry: NewAuditEntry)
    ensures
        entry@.community_id == entry.community_id@,
        entry@.action == entry.action,
        entry.actor_pubkey matches Some(key) ==> entry@.actor_pubkey == Some(key@),
        entry.actor_pubkey is None ==> entry@.actor_pubkey is None,
        entry.object_id matches Some(id) ==> entry@.object_id == Some(id@),
        entry.object_id is None ==> entry@.object_id is None,
        entry@.detail == members(entry.detail),
{
}

/// What a report stands for is what its fields hold.
pub proof fn law_report_view_shows_the_fields(dropped: Option<AuditDrop>)
    ensures
        report_view(dropped) is Some <==> dropped is Some,
        dropped matches Some(report) ==> {
            let view = report_view(dropped).unwrap();
            &&& view == report@
            &&& view.counter == report.counter@
            &&& report.reason matches Some(reason) ==> view.reason == Some(reason@)
            &&& report.reason is None ==> view.reason is None
            &&& view.warning == report.warning@
            &&& view.route == report.route@
            &&& view.transport == report.transport@
        },
{
}

/// A loss is reported exactly if the channel did not take the entry. A full queue
/// and a closed channel raise different counters, the first one under a reason and
/// the second without, each with a warning of its own, and both reports carry the
/// labels of the audit, whatever its readings are.
pub proof fn law_losses_are_reported_by_their_cause(audit: RateLimitAudit)
    ensures
        audit_report(Answer::Taken, audit) is None,
        audit_report(Answer::Full, audit) matches Some(report) && report.counter
            == "buzz_audit_rate_limit_drops_total"@ && report.reason == Some("full"@)
            && report.warning == "rate-limit audit queue full; entry dropped"@ && report.route
            == audit.route@ && report.transport == audit.transport@,
        audit_report(Answer::Closed, audit) matches Some(report) && report.counter
            == "buzz_audit_send_errors_total"@ && report.reason is None && report.warning
            == "rate-limit audit channel closed"@ && report.route == audit.route@
            && report.transport == audit.transport@,
        queue_full_drop(audit).counter == "buzz_audit_rate_limit_drops_total"@,
        queue_full_drop(audit).reason == Some("full"@),
{
}

/// To enqueue a rejection is to make one attempt on the one channel, after those
/// made before, with an entry that has the tenant's community and the principal's
/// key; what is reported hangs on that attempt's answer alone.
pub proof fn law_enqueueing_is_one_attempt(
    before: AuditSender,
    after: AuditSender,
    tenant: TenantView,
    pubkey: Seq<u8>,
    audit: RateLimitAudit,
    report: Option<AuditDropView>,
)
    requires
        enqueues_once(before, after, tenant, pubkey, audit, report),
    ensures
        after.tx() == before.tx(),
        after.attempts().len() == before.attempts().len() + 1,
        after.attempts().drop_last() == before.attempts(),
        after.attempts().last().made_on(before.tx()),
        after.attempts().last().entry.community_id == tenant.community,
        after.attempts().last().entry.actor_pubkey == Some(pubkey),
        after.attempts().last().entry == rate_limit_entry(tenant, pubkey, audit),
        after.attempts().last().answer is Taken <==> report is None,
        after.attempts().last().answer is Full ==> report == Some(queue_full_drop(audit)),
        after.attempts().last().answer is Closed ==> report == Some(channel_closed_drop(audit)),
{
    assert(after.attempts().drop_last() =~= before.attempts());
}

} // verus!
