//! Edge-triggered alerting: given each poll cycle's batch of errors and the
//! one remembered bit — whether an alert is currently outstanding — decide
//! whether to send an alert, a resolved notice, or nothing.
//!
//! The machine notifies on transitions only: one alert when a healthy run
//! first fails, one resolved notice when a failing run first recovers, and
//! silence while a known state persists. A failed send leaves the state
//! untouched, so the same transition is attempted again on the next cycle.

use vstd::prelude::*;

verus! {

/// One failed subject of a poll cycle: who failed and how, as shown in a
/// notification field.
#[derive(Clone, Debug)]
pub struct AlertEntry {
    /// The subject that failed (a location's name).
    pub subject: String,
    /// A description of its error.
    pub detail: String,
}

/// The errors of one poll cycle, in the order they occurred. Built afresh
/// each cycle and consumed by the alert decision.
#[derive(Debug)]
pub struct ErrorBatch {
    pub entries: Vec<AlertEntry>,
}

impl ErrorBatch {
    /// An empty batch: the cycle succeeded for every subject.
    pub fn new() -> (batch: ErrorBatch)
        ensures
            batch.entries@.len() == 0,
    {
        ErrorBatch { entries: Vec::new() }
    }

    /// Records one more failed subject.
    pub fn push(&mut self, entry: AlertEntry)
        ensures
            final(self).entries@ == old(self).entries@.push(entry),
    {
        self.entries.push(entry);
    }

    /// Whether the cycle passed without any error.
    pub fn is_empty(&self) -> (empty: bool)
        ensures
            empty == (self.entries@.len() == 0),
    {
        self.entries.len() == 0
    }
}

/// What the machine asks the notifier to do for one cycle.
#[derive(Clone, Copy, PartialEq, Eq, Structural, Debug)]
pub enum AlertAction {
    /// Send nothing: the cycle's outcome matches the already-notified state.
    Quiet,
    /// Send one alert carrying the batch's entries.
    SendAlert,
    /// Send one notice that all subjects have recovered.
    SendResolved,
}

/// The decision table: an alert fires only on the transition into failure,
/// a resolved notice only on the transition back to health.
pub open spec fn decide_spec(outstanding: bool, batch_empty: bool) -> AlertAction {
    if !outstanding && !batch_empty {
        AlertAction::SendAlert
    } else if outstanding && batch_empty {
        AlertAction::SendResolved
    } else {
        AlertAction::Quiet
    }
}

/// The state after a cycle: a send that went through flips the bit to match
/// what was notified; a failed send leaves it unchanged, so the transition is
/// retried on the next cycle.
pub open spec fn next_state_spec(outstanding: bool, action: AlertAction, sent: bool) -> bool {
    match action {
        AlertAction::Quiet => outstanding,
        AlertAction::SendAlert => if sent {
            true
        } else {
            outstanding
        },
        AlertAction::SendResolved => if sent {
            false
        } else {
            outstanding
        },
    }
}

/// The persistent alerting state: one bit, true while an alert is
/// outstanding. Touched only by the single poll-loop task.
pub struct AlertStateMachine {
    outstanding: bool,
}

impl View for AlertStateMachine {
    type V = bool;

    closed spec fn view(&self) -> bool {
        self.outstanding
    }
}

impl AlertStateMachine {
    /// The initial state: quiet, no alert outstanding.
    pub fn new() -> (machine: AlertStateMachine)
        ensures
            !machine@,
    {
        AlertStateMachine { outstanding: false }
    }

    /// Whether an alert is currently outstanding.
    pub fn is_outstanding(&self) -> (outstanding: bool)
        ensures
            outstanding == self@,
    {
        self.outstanding
    }

    /// Decides this cycle's notification action from the batch alone; the
    /// state is not changed until the send's outcome is known.
    pub fn evaluate(&self, batch: &ErrorBatch) -> (action: AlertAction)
        ensures
            action == decide_spec(self@, batch.entries@.len() == 0),
    {
        let batch_empty = batch.is_empty();
        if !self.outstanding && !batch_empty {
            AlertAction::SendAlert
        } else if self.outstanding && batch_empty {
            AlertAction::SendResolved
        } else {
            AlertAction::Quiet
        }
    }

    /// Records the outcome of the cycle's action: only a delivered send moves
    /// the state.
    pub fn commit(&mut self, action: AlertAction, send_succeeded: bool)
        ensures
            final(self)@ == next_state_spec(old(self)@, action, send_succeeded),
    {
        match action {
            AlertAction::Quiet => {},
            AlertAction::SendAlert => {
                if send_succeeded {
                    self.outstanding = true;
                }
            },
            AlertAction::SendResolved => {
                if send_succeeded {
                    self.outstanding = false;
                }
            },
        }
    }
}

/// Relies on `twilight_validate::embed::FIELD_COUNT`: a chat embed carries at
/// most 25 fields.
#[verifier::external_body]
fn embed_field_cap() -> (cap: usize)
    ensures
        cap == 25,
{
    twilight_validate::embed::FIELD_COUNT
}

/// The entries an alert actually carries: the batch in order, truncated to
/// the notification channel's maximum field count. Entries beyond the cap are
/// silently dropped.
pub fn alert_fields(batch: ErrorBatch) -> (fields: Vec<AlertEntry>)
    ensures
        batch.entries@.len() <= 25 ==> fields@ == batch.entries@,
        batch.entries@.len() > 25 ==> fields@ == batch.entries@.subrange(0, 25),
{
    let ghost orig = batch.entries@;
    let cap = embed_field_cap();
    let mut fields = batch.entries;
    fields.truncate(cap);
    proof {
        if orig.len() == 25 {
            // truncating to the exact length keeps the whole sequence
            assert(fields@ =~= orig);
        }
    }
    fields
}

/// Edge-triggered alerting, row by row: from quiet, a failing cycle sends
/// exactly one alert and the state becomes outstanding; further failing
/// cycles send nothing; the first clean cycle sends exactly one resolved
/// notice and the state returns to quiet; clean cycles while quiet send
/// nothing.
pub proof fn lemma_edge_triggered()
    ensures
        decide_spec(false, false) == AlertAction::SendAlert,
        next_state_spec(false, AlertAction::SendAlert, true),
        decide_spec(true, false) == AlertAction::Quiet,
        forall|sent: bool| #[trigger] next_state_spec(true, AlertAction::Quiet, sent),
        decide_spec(true, true) == AlertAction::SendResolved,
        !next_state_spec(true, AlertAction::SendResolved, true),
        decide_spec(false, true) == AlertAction::Quiet,
        forall|sent: bool| !(#[trigger] next_state_spec(false, AlertAction::Quiet, sent)),
{
}

/// A failed send changes nothing: the state is left as it was, and a next
/// cycle with the same outcome makes the same decision again — the system's
/// only retry mechanism.
pub proof fn lemma_failed_send_is_retried(outstanding: bool, batch_empty: bool)
    ensures
        next_state_spec(outstanding, decide_spec(outstanding, batch_empty), false) == outstanding,
        decide_spec(
            next_state_spec(outstanding, decide_spec(outstanding, batch_empty), false),
            batch_empty,
        ) == decide_spec(outstanding, batch_empty),
{
}

} // verus!
