//! The poll-step state machine: after each query, decide the display text,
//! the notification, the new remembered status and whether polling goes on.

use crate::flight::{opt_view, FlightRecordView, QueryOutcome, QueryOutcomeView};
use crate::render::{spec_outcome_text, outcome_text};
use vstd::prelude::*;

verus! {

/// The two states of a polling session.  `Stopped` is terminal: it is
/// entered when a status difference is first detected, and no further
/// query is issued for the session.
#[derive(Clone, Copy, PartialEq, Eq, Structural, Debug)]
pub enum PollState {
    Polling,
    Stopped,
}

/// The notification text shown when a status difference is detected.
pub open spec fn spec_notification_text(status: Seq<char>) -> Seq<char> {
    "Flight status changed to: "@ + status
}

/// Everything one poll step decides: the text to display, the alert to
/// raise (if any), the status to remember, and whether polling goes on.
pub struct PollStep {
    pub display: String,
    pub notification: Option<String>,
    pub previous: Option<String>,
    pub state: PollState,
}

/// Mathematical image of a `PollStep`.
#[verifier::ext_equal]
pub struct PollStepView {
    pub display: Seq<char>,
    pub notification: Option<Seq<char>>,
    pub previous: Option<Seq<char>>,
    pub state: PollState,
}

impl View for PollStep {
    type V = PollStepView;

    open spec fn view(&self) -> PollStepView {
        PollStepView {
            display: self.display@,
            notification: opt_view(self.notification),
            previous: opt_view(self.previous),
            state: self.state,
        }
    }
}

/// What one poll step does, given the status remembered from earlier polls
/// and the outcome of the query just made.
///
/// A flight record whose status differs from the remembered one ends the
/// session, and an alert is raised when the new status is concrete.  The
/// very first record of a session counts as such a difference, since
/// nothing was remembered yet.  A remembered status only ever moves
/// forward: it is replaced by a concrete new status, and a record whose
/// status is absent never erases it.  A record with an unchanged status,
/// an empty result list, and every kind of failure leave the remembered
/// status alone and keep the session in `Polling`.
pub open spec fn spec_poll_step(prev: Option<Seq<char>>, o: QueryOutcomeView) -> PollStepView {
    match o {
        QueryOutcomeView::Flight(rec) => if rec.status != prev {
            PollStepView {
                display: spec_outcome_text(o),
                notification: match rec.status {
                    Some(s) => Some(spec_notification_text(s)),
                    None => None,
                },
                previous: match rec.status {
                    Some(s) => Some(s),
                    None => prev,
                },
                state: PollState::Stopped,
            }
        } else {
            PollStepView {
                display: spec_outcome_text(o),
                notification: None,
                previous: prev,
                state: PollState::Polling,
            }
        },
        _ => PollStepView {
            display: spec_outcome_text(o),
            notification: None,
            previous: prev,
            state: PollState::Polling,
        },
    }
}

/// Copy an optional status string.
fn clone_status(o: &Option<String>) -> (r: Option<String>)
    ensures
        opt_view(r) == opt_view(*o),
{
    match o {
        Some(s) => Some(s.clone()),
        None => None,
    }
}

/// Whether two optional status strings hold the same text.
fn same_status(a: &Option<String>, b: &Option<String>) -> (r: bool)
    ensures
        r == (opt_view(*a) == opt_view(*b)),
{
    match (a, b) {
        (None, None) => true,
        (Some(x), Some(y)) => *x == *y,
        _ => false,
    }
}

/// Perform one poll step: render the outcome, compare the record's status
/// (if any) with the remembered one, and decide whether polling goes on.
pub fn poll_step(previous: &Option<String>, outcome: &QueryOutcome) -> (step: PollStep)
    ensures
        step@ == spec_poll_step(opt_view(*previous), outcome@),
{
    let display = outcome_text(outcome);
    match outcome {
        QueryOutcome::Flight(rec) => {
            if !same_status(previous, &rec.status) {
                let notification = match &rec.status {
                    Some(s) => {
                        let mut text: String = "Flight status changed to: ".to_owned();
                        text.append(s.as_str());
                        Some(text)
                    },
                    None => None,
                };
                let remembered = match &rec.status {
                    Some(_) => clone_status(&rec.status),
                    None => clone_status(previous),
                };
                PollStep {
                    display,
                    notification,
                    previous: remembered,
                    state: PollState::Stopped,
                }
            } else {
                PollStep {
                    display,
                    notification: None,
                    previous: clone_status(previous),
                    state: PollState::Polling,
                }
            }
        },
        _ => PollStep {
            display,
            notification: None,
            previous: clone_status(previous),
            state: PollState::Polling,
        },
    }
}

/// Law: when a session is still polling after one poll, a second poll
/// that returns the same flight status as the first raises no
/// notification, leaves the remembered status where the first poll put
/// it, and keeps the session in `Polling`.
pub proof fn lemma_identical_polls_keep_polling(
    prev: Option<Seq<char>>,
    first: FlightRecordView,
    second: FlightRecordView,
)
    requires
        spec_poll_step(prev, QueryOutcomeView::Flight(first)).state == PollState::Polling,
        second.status == first.status,
    ensures
        spec_poll_step(
            spec_poll_step(prev, QueryOutcomeView::Flight(first)).previous,
            QueryOutcomeView::Flight(second),
        ).notification is None,
        spec_poll_step(
            spec_poll_step(prev, QueryOutcomeView::Flight(first)).previous,
            QueryOutcomeView::Flight(second),
        ).state == PollState::Polling,
        spec_poll_step(
            spec_poll_step(prev, QueryOutcomeView::Flight(first)).previous,
            QueryOutcomeView::Flight(second),
        ).previous == spec_poll_step(prev, QueryOutcomeView::Flight(first)).previous,
{
}

/// Law: when a session is still polling after one poll and the next poll
/// returns a different, concrete status, the first poll raised no
/// notification, and the second raises exactly the one alert naming the
/// new status and stops the session.
pub proof fn lemma_changed_status_notifies_once(
    prev: Option<Seq<char>>,
    first: FlightRecordView,
    second: FlightRecordView,
    status: Seq<char>,
)
    requires
        spec_poll_step(prev, QueryOutcomeView::Flight(first)).state == PollState::Polling,
        second.status == Some(status),
        second.status != first.status,
    ensures
        spec_poll_step(prev, QueryOutcomeView::Flight(first)).notification is None,
        spec_poll_step(
            spec_poll_step(prev, QueryOutcomeView::Flight(first)).previous,
            QueryOutcomeView::Flight(second),
        ).notification == Some(spec_notification_text(status)),
        spec_poll_step(
            spec_poll_step(prev, QueryOutcomeView::Flight(first)).previous,
            QueryOutcomeView::Flight(second),
        ).state == PollState::Stopped,
{
}

/// Law: a remembered status is never reset mid-session.  Whatever outcome
/// a poll returns, if a status was remembered before the step, a status
/// is remembered after it: it is either the one held before or the
/// record's concrete new status.
pub proof fn lemma_remembered_status_never_reset(prev: Option<Seq<char>>, o: QueryOutcomeView)
    requires
        prev is Some,
    ensures
        spec_poll_step(prev, o).previous is Some,
        spec_poll_step(prev, o).previous == prev || (o matches QueryOutcomeView::Flight(rec)
            && rec.status is Some && spec_poll_step(prev, o).previous == rec.status),
{
}

/// Law: an empty result list renders as empty display text, raises no
/// notification, and keeps the session polling with the remembered status
/// unchanged.
pub proof fn lemma_empty_result_keeps_polling(prev: Option<Seq<char>>)
    ensures
        spec_poll_step(prev, QueryOutcomeView::NoData).display == Seq::<char>::empty(),
        spec_poll_step(prev, QueryOutcomeView::NoData).notification is None,
        spec_poll_step(prev, QueryOutcomeView::NoData).state == PollState::Polling,
        spec_poll_step(prev, QueryOutcomeView::NoData).previous == prev,
{
}

/// Law: a transport failure is displayed as a message that begins with
/// the text `Error:`, raises no notification, and keeps the session
/// polling with the remembered status unchanged.
pub proof fn lemma_transport_failure_keeps_polling(prev: Option<Seq<char>>, e: Seq<char>)
    ensures
        spec_poll_step(prev, QueryOutcomeView::TransportFailure(e)).display
            == crate::render::spec_transport_failure_text(e),
        spec_poll_step(prev, QueryOutcomeView::TransportFailure(e)).display.len() >= 6,
        spec_poll_step(prev, QueryOutcomeView::TransportFailure(e)).display.subrange(0, 6)
            == "Error:"@,
        spec_poll_step(prev, QueryOutcomeView::TransportFailure(e)).notification is None,
        spec_poll_step(prev, QueryOutcomeView::TransportFailure(e)).state == PollState::Polling,
        spec_poll_step(prev, QueryOutcomeView::TransportFailure(e)).previous == prev,
{
    reveal_strlit("Error: ");
    reveal_strlit("Error:");
    assert(("Error: "@ + e).subrange(0, 6) =~= "Error:"@);
}

} // verus!
