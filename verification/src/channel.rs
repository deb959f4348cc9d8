//! The bounded channel that audit entries go through.
use crate::audit::{AuditEntryView, NewAuditEntry};
use vstd::prelude::*;

verus! {

/// `tokio::sync::mpsc::Sender`, the sending half of a bounded channel.
#[verifier::external_type_specification]
#[verifier::external_body]
#[verifier::reject_recursive_types(T)]
pub struct ExSender<T>(tokio::sync::mpsc::Sender<T>);

/// Why the channel did not take an entry. The entry comes back.
#[derive(Debug)]
pub enum SendRefusal {
    /// The channel is at capacity.
    Full(NewAuditEntry),
    /// The receiver is gone.
    Closed(NewAuditEntry),
}

/// The entries that the channel behind a sender takes in over its whole life.
pub uninterp spec fn taken_in(tx: tokio::sync::mpsc::Sender<NewAuditEntry>) -> Set<AuditEntryView>;

/// The entries that the channel behind a sender turns away over its whole life
/// because it is at capacity.
pub uninterp spec fn found_full(tx: tokio::sync::mpsc::Sender<NewAuditEntry>) -> Set<
    AuditEntryView,
>;

/// The entries that the channel behind a sender turns away over its whole life
/// because its receiver is gone.
pub uninterp spec fn found_closed(tx: tokio::sync::mpsc::Sender<NewAuditEntry>) -> Set<
    AuditEntryView,
>;

/// The channel's answer to an offered entry.
pub enum Answer {
    Taken,
    Full,
    Closed,
}

/// The answer that a send came back with.
pub open spec fn answer_of(sent: Result<(), SendRefusal>) -> Answer {
    match sent {
        Ok(()) => Answer::Taken,
        Err(SendRefusal::Full(_)) => Answer::Full,
        Err(SendRefusal::Closed(_)) => Answer::Closed,
    }
}

/// An entry that was offered to the channel, and the answer.
pub struct Attempt {
    pub entry: AuditEntryView,
    pub answer: Answer,
}

impl Attempt {
    /// Whether the attempt is part of a channel's life.
    pub open spec fn made_on(self, tx: tokio::sync::mpsc::Sender<NewAuditEntry>) -> bool {
        match self.answer {
            Answer::Taken => taken_in(tx).contains(self.entry),
            Answer::Full => found_full(tx).contains(self.entry),
            Answer::Closed => found_closed(tx).contains(self.entry),
        }
    }
}

/// A sender of audit entries, with the record of what was attempted through it.
/// The record exists in proofs alone, and [`AuditSender::offer`] alone extends it.
/// Clones of one `tokio` sender feed the same channel, so a task that needs a sender
/// of its own makes it from a clone.
pub struct AuditSender {
    tx: tokio::sync::mpsc::Sender<NewAuditEntry>,
    attempts: Ghost<Seq<Attempt>>,
}

impl AuditSender {
    /// The sending half of the channel.
    pub closed spec fn tx(self) -> tokio::sync::mpsc::Sender<NewAuditEntry> {
        self.tx
    }

    /// The attempts made through the sender, oldest first.
    pub closed spec fn attempts(self) -> Seq<Attempt> {
        self.attempts@
    }

    /// A sender through which nothing has been attempted yet.
    pub fn new(tx: tokio::sync::mpsc::Sender<NewAuditEntry>) -> (sender: AuditSender)
        ensures
            sender.tx() == tx,
            sender.attempts() == Seq::<Attempt>::empty(),
    {
        AuditSender { tx, attempts: Ghost(Seq::empty()) }
    }

    /// `tokio::sync::mpsc::Sender::try_send`, called once; it never waits. Where it
    /// succeeds, the channel has taken the entry in. Where it fails, the very entry
    /// comes back, and the refusal says which of the two reasons the channel had: it
    /// was at capacity, or its receiver was gone. The record grows by this one
    /// attempt. Which of the three answers comes depends on the receiver and on the
    /// other senders, and is left open here.
    #[verifier::external_body]
    pub(crate) fn offer(&mut self, entry: NewAuditEntry) -> (sent: Result<(), SendRefusal>)
        ensures
            final(self).tx() == old(self).tx(),
            final(self).attempts() == old(self).attempts().push(
                Attempt { entry: entry@, answer: answer_of(sent) },
            ),
            match sent {
                Ok(()) => taken_in(old(self).tx()).contains(entry@),
                Err(SendRefusal::Full(back)) => back == entry && found_full(
                    old(self).tx(),
                ).contains(entry@),
                Err(SendRefusal::Closed(back)) => back == entry && found_closed(
                    old(self).tx(),
                ).contains(entry@),
            },
    {
        match self.tx.try_send(entry) {
            Ok(()) => Ok(()),
            Err(tokio::sync::mpsc::error::TrySendError::Full(back)) => Err(SendRefusal::Full(back)),
            Err(tokio::sync::mpsc::error::TrySendError::Closed(back)) => Err(
                SendRefusal::Closed(back),
            ),
        }
    }
}

/// The answer of a send tells success from failure and the two failures apart.
pub proof fn law_answer_tells_what_came_back(sent: Result<(), SendRefusal>)
    ensures
        answer_of(sent) is Taken <==> sent is Ok,
        answer_of(sent) is Full <==> (sent matches Err(SendRefusal::Full(_))),
        answer_of(sent) is Closed <==> (sent matches Err(SendRefusal::Closed(_))),
{
}

/// An attempt that is part of a channel's life is one of what the answer says.
pub proof fn law_attempts_are_part_of_the_channels_life(
    attempt: Attempt,
    tx: tokio::sync::mpsc::Sender<NewAuditEntry>,
)
    requires
        attempt.made_on(tx),
    ensures
        attempt.answer is Taken ==> taken_in(tx).contains(attempt.entry),
        attempt.answer is Full ==> found_full(tx).contains(attempt.entry),
        attempt.answer is Closed ==> found_closed(tx).contains(attempt.entry),
{
}

} // verus!
