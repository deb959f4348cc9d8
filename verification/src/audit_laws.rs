//! What holds of several quota rejections that go through one audit sender.
use crate::audit::{
    audit_report, enqueues_once, queue_full_drop, rate_limit_entry, AuditDropView, AuditEntryView,
    RateLimitAudit,
};
use crate::channel::{Answer, Attempt, AuditSender};
use crate::identity::TenantView;
use vstd::prelude::*;

verus! {

/// A quota rejection that is to be audited.
pub struct Rejection {
    pub tenant: TenantView,
    pub pubkey: Seq<u8>,
    pub audit: RateLimitAudit,
}

impl Rejection {
    /// The audit entry of the rejection.
    pub open spec fn entry(self) -> AuditEntryView {
        rate_limit_entry(self.tenant, self.pubkey, self.audit)
    }
}

/// The audit entries of rejections, in their order.
pub open spec fn entries(rejections: Seq<Rejection>) -> Seq<AuditEntryView> {
    rejections.map_values(|rejection: Rejection| rejection.entry())
}

/// Whether a sender goes through these states, from one call that enqueues a
/// rejection to the next, and the calls give these reports.
pub open spec fn is_audit_run(
    senders: Seq<AuditSender>,
    rejections: Seq<Rejection>,
    reports: Seq<Option<AuditDropView>>,
) -> bool {
    &&& senders.len() == rejections.len() + 1
    &&& reports.len() == rejections.len()
    &&& forall|i: int, j: int|
        #![trigger senders[i], senders[j]]
        0 <= i < rejections.len() && j == i + 1 ==> enqueues_once(
            senders[i],
            senders[j],
            rejections[i].tenant,
            rejections[i].pubkey,
            rejections[i].audit,
            reports[i],
        )
}

/// Each rejection is attempted exactly once, in order, on the one channel. Its
/// entry is either taken in, and then nothing is reported of it, or it is not, and
/// then its loss is reported; never both.
pub proof fn law_each_rejection_is_queued_or_reported(
    senders: Seq<AuditSender>,
    rejections: Seq<Rejection>,
    reports: Seq<Option<AuditDropView>>,
)
    requires
        is_audit_run(senders, rejections, reports),
    ensures
        senders.last().tx() == senders[0].tx(),
        senders.last().attempts().len() == senders[0].attempts().len() + rejections.len(),
        senders.last().attempts().take(senders[0].attempts().len() as int) == senders[0].attempts(),
        forall|i: int|
            #![trigger reports[i]]
            0 <= i < rejections.len() ==> {
                let attempt = senders.last().attempts()[senders[0].attempts().len() + i];
                &&& attempt.entry == rejections[i].entry()
                &&& attempt.made_on(senders[0].tx())
                &&& reports[i] == audit_report(attempt.answer, rejections[i].audit)
                &&& reports[i] is None <==> attempt.answer is Taken
            },
    decreases rejections.len(),
{
    if rejections.len() == 0 {
        assert(senders.last().attempts().take(senders[0].attempts().len() as int) =~= senders[0].attempts());
    } else {
        let n = rejections.len() - 1;
        let shorter = senders.drop_last();
        assert forall|i: int, j: int|
            #![trigger shorter[i], shorter[j]]
            0 <= i < n && j == i + 1 implies enqueues_once(
            shorter[i],
            shorter[j],
            rejections.drop_last()[i].tenant,
            rejections.drop_last()[i].pubkey,
            rejections.drop_last()[i].audit,
            reports.drop_last()[i],
        ) by {
            assert(shorter[i] == senders[i] && shorter[j] == senders[j]);
        }
        law_each_rejection_is_queued_or_reported(
            shorter,
            rejections.drop_last(),
            reports.drop_last(),
        );
        let before = senders[n];
        let after = senders[n + 1];
        assert(enqueues_once(
            before,
            after,
            rejections[n].tenant,
            rejections[n].pubkey,
            rejections[n].audit,
            reports[n],
        ));
        assert(shorter.last() == before && senders.last() == after);
        assert(after.attempts().take(senders[0].attempts().len() as int) =~= before.attempts().take(senders[0].attempts().len() as int));
        assert forall|i: int|
            #![trigger reports[i]]
            0 <= i < rejections.len() implies {
            let attempt = senders.last().attempts()[senders[0].attempts().len() + i];
            &&& attempt.entry == rejections[i].entry()
            &&& attempt.made_on(senders[0].tx())
            &&& reports[i] == audit_report(attempt.answer, rejections[i].audit)
            &&& reports[i] is None <==> attempt.answer is Taken
        } by {
            if i < n {
                assert(reports.drop_last()[i] == reports[i]);
                assert(rejections.drop_last()[i] == rejections[i]);
                assert(after.attempts()[senders[0].attempts().len() + i] == before.attempts()[senders[0].attempts().len() + i]);
            }
        }
    }
}

/// A bounded channel that has one sender and a receiver that is there but receives
/// nothing.
pub struct UnreadQueue {
    pub capacity: nat,
    /// The entries in the queue, oldest first.
    pub held: Seq<AuditEntryView>,
}

impl UnreadQueue {
    pub open spec fn empty(capacity: nat) -> UnreadQueue {
        UnreadQueue { capacity, held: Seq::empty() }
    }

    /// The answer to the next entry: it is taken as long as there is room.
    pub open spec fn answer(self) -> Answer {
        if self.held.len() < self.capacity {
            Answer::Taken
        } else {
            Answer::Full
        }
    }

    /// The queue once it has answered an entry.
    pub open spec fn after(self, entry: AuditEntryView) -> UnreadQueue {
        if self.answer() is Taken {
            UnreadQueue { held: self.held.push(entry), ..self }
        } else {
            self
        }
    }

    /// The queue once it has answered the entries of these attempts.
    pub open spec fn after_all(self, attempts: Seq<Attempt>) -> UnreadQueue
        decreases attempts.len(),
    {
        if attempts.len() == 0 {
            self
        } else {
            self.after_all(attempts.drop_last()).after(attempts.last().entry)
        }
    }

    /// Whether the answers of these attempts are the queue's.
    pub open spec fn gives(self, attempts: Seq<Attempt>) -> bool {
        forall|i: int|
            0 <= i < attempts.len() ==> (#[trigger] attempts[i]).answer == self.after_all(
                attempts.take(i),
            ).answer()
    }
}

/// How far reports raise a counter under a `reason` label.
pub open spec fn counter_rise(
    reports: Seq<Option<AuditDropView>>,
    counter: Seq<char>,
    reason: Option<Seq<char>>,
) -> nat
    decreases reports.len(),
{
    if reports.len() == 0 {
        0
    } else {
        let earlier = counter_rise(reports.drop_last(), counter, reason);
        match reports.last() {
            Some(report) => if report.counter == counter && report.reason == reason {
                earlier + 1
            } else {
                earlier
            },
            None => earlier,
        }
    }
}

pub open spec fn smaller(a: nat, b: nat) -> nat {
    if a <= b {
        a
    } else {
        b
    }
}

proof fn lemma_unread_queue_fills_up(
    capacity: nat,
    attempts: Seq<Attempt>,
    offered: Seq<AuditEntryView>,
    i: nat,
)
    requires
        offered.len() == attempts.len(),
        forall|j: int| 0 <= j < attempts.len() ==> (#[trigger] attempts[j]).entry == offered[j],
        i <= attempts.len(),
    ensures
        ({
            let queue = UnreadQueue::empty(capacity).after_all(attempts.take(i as int));
            &&& queue.capacity == capacity
            &&& queue.held == offered.take(smaller(i, capacity) as int)
        }),
    decreases i,
{
    let queue = UnreadQueue::empty(capacity).after_all(attempts.take(i as int));
    if i == 0 {
        assert(queue.held =~= offered.take(0));
    } else {
        lemma_unread_queue_fills_up(capacity, attempts, offered, (i - 1) as nat);
        assert(attempts.take(i as int).drop_last() =~= attempts.take(i - 1));
        assert(attempts.take(i as int).last() == attempts[i - 1]);
        assert(queue.held =~= offered.take(smaller(i, capacity) as int));
    }
}

proof fn lemma_full_drops_add_up(
    reports: Seq<Option<AuditDropView>>,
    audits: Seq<RateLimitAudit>,
    kept: nat,
)
    requires
        reports.len() == audits.len(),
        forall|i: int|
            0 <= i < reports.len() ==> #[trigger] reports[i] == if i < kept {
                None
            } else {
                Some(queue_full_drop(audits[i]))
            },
    ensures
        counter_rise(reports, "buzz_audit_rate_limit_drops_total"@, Some("full"@))
            == reports.len() - smaller(reports.len(), kept),
    decreases reports.len(),
{
    if reports.len() > 0 {
        assert forall|i: int| 0 <= i < reports.len() - 1 implies #[trigger] reports.drop_last()[i]
            == if i < kept {
            None
        } else {
            Some(queue_full_drop(audits.drop_last()[i]))
        } by {
            assert(reports.drop_last()[i] == reports[i]);
        }
        lemma_full_drops_add_up(reports.drop_last(), audits.drop_last(), kept);
        assert(reports.last() == reports[reports.len() - 1]);
    }
}

/// The audit queue is bounded. Of rejections that one after the other go into a new
/// queue that nobody reads, as many as it has slots for are kept, the first ones and
/// in their order, and nothing is reported of them. Each further one is reported as
/// turned away by a full queue, and the counter of such drops goes up by their
/// number. At no time does the queue hold more than it has slots for.
pub proof fn law_unread_queue_keeps_the_first(
    capacity: nat,
    senders: Seq<AuditSender>,
    rejections: Seq<Rejection>,
    reports: Seq<Option<AuditDropView>>,
)
    requires
        is_audit_run(senders, rejections, reports),
        senders[0].attempts().len() == 0,
        UnreadQueue::empty(capacity).gives(senders.last().attempts()),
    ensures
        ({
            let attempts = senders.last().attempts();
            let kept = smaller(rejections.len(), capacity);
            &&& UnreadQueue::empty(capacity).after_all(attempts).held == entries(rejections).take(
                kept as int,
            )
            &&& forall|i: int|
                0 <= i <= attempts.len() ==> (#[trigger] UnreadQueue::empty(capacity).after_all(
                    attempts.take(i),
                )).held.len() <= capacity
            &&& forall|i: int|
                0 <= i < reports.len() ==> #[trigger] reports[i] == if i < kept {
                    None
                } else {
                    Some(queue_full_drop(rejections[i].audit))
                }
            &&& counter_rise(reports, "buzz_audit_rate_limit_drops_total"@, Some("full"@))
                == rejections.len() - kept
        }),
{
    let attempts = senders.last().attempts();
    let offered = entries(rejections);
    let n = rejections.len();
    let kept = smaller(n, capacity);
    law_each_rejection_is_queued_or_reported(senders, rejections, reports);
    assert forall|i: int| 0 <= i < attempts.len() implies (#[trigger] attempts[i]).entry
        == offered[i] by {
        let report = reports[i];
    }
    assert forall|i: int| 0 <= i <= attempts.len() implies (#[trigger] UnreadQueue::empty(
        capacity,
    ).after_all(attempts.take(i))).held.len() <= capacity by {
        lemma_unread_queue_fills_up(capacity, attempts, offered, i as nat);
    }
    assert forall|i: int| 0 <= i < reports.len() implies #[trigger] reports[i] == if i < kept {
        None
    } else {
        Some(queue_full_drop(rejections[i].audit))
    } by {
        lemma_unread_queue_fills_up(capacity, attempts, offered, i as nat);
        assert(attempts[i].answer == UnreadQueue::empty(capacity).after_all(
            attempts.take(i),
        ).answer());
    }
    lemma_unread_queue_fills_up(capacity, attempts, offered, n);
    assert(attempts.take(n as int) =~= attempts);
    let audits = rejections.map_values(|rejection: Rejection| rejection.audit);
    lemma_full_drops_add_up(reports, audits, kept);
}

} // verus!
