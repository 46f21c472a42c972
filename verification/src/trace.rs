//! Whole runs of an exchange, and what holds of every run: handles are
//! released in full, and a failure names the stage at which it happened.

use vstd::prelude::*;

use crate::error::ErrorView;
use crate::exchange::{
    begin_view, failure_text, step_view, ActionView, EventView, ExchangeView, Handle, Phase,
    Stage, StepView,
};
use crate::request::ClientView;

verus! {

/// Where the exchange of `client` stands after the driver has reported
/// `events`, one for each action it was asked for. Events reported after the
/// exchange is over change nothing.
pub open spec fn run(client: ClientView, events: Seq<EventView>) -> StepView
    decreases events.len(),
{
    if events.len() == 0 {
        StepView::Continue(begin_view().0, begin_view().1)
    } else {
        match run(client, events.drop_last()) {
            StepView::Continue(state, _) => step_view(client, state, events.last()),
            StepView::Finish(result) => StepView::Finish(result),
        }
    }
}

/// Whether an action, when it succeeds, acquires a handle.
pub open spec fn acquires(action: ActionView) -> bool {
    action is OpenSession || action is Connect || action is OpenRequest
}

/// Whether the last of `events` reports that a handle was acquired.
pub open spec fn acquired_by_last(client: ClientView, events: Seq<EventView>) -> bool
    recommends
        events.len() > 0,
{
    &&& run(client, events.drop_last()) matches StepView::Continue(_, action)
    &&& acquires(action)
    &&& events.last().succeeded()
}

/// Whether the last of `events` answers the release of a handle.
pub open spec fn released_by_last(client: ClientView, events: Seq<EventView>) -> bool
    recommends
        events.len() > 0,
{
    &&& run(client, events.drop_last()) matches StepView::Continue(_, action)
    &&& action is CloseHandle
}

/// The number of handles acquired in the course of `events`.
pub open spec fn handles_opened(client: ClientView, events: Seq<EventView>) -> nat
    decreases events.len(),
{
    if events.len() == 0 {
        0
    } else if acquired_by_last(client, events) {
        handles_opened(client, events.drop_last()) + 1
    } else {
        handles_opened(client, events.drop_last())
    }
}

/// The number of handles released in the course of `events`.
pub open spec fn handles_closed(client: ClientView, events: Seq<EventView>) -> nat
    decreases events.len(),
{
    if events.len() == 0 {
        0
    } else if released_by_last(client, events) {
        handles_closed(client, events.drop_last()) + 1
    } else {
        handles_closed(client, events.drop_last())
    }
}

/// The number of handles that an exchange holds in each phase.
pub open spec fn held(phase: Phase) -> nat {
    match phase {
        Phase::OpeningSession => 0,
        Phase::Connecting => 1,
        Phase::OpeningRequest => 2,
        Phase::Sending => 3,
        Phase::Reading => 3,
        Phase::Closing(Handle::Request) => 3,
        Phase::Closing(Handle::Connection) => 2,
        Phase::Closing(Handle::Session) => 1,
        Phase::ReadingErrorCode => 0,
    }
}

/// Whether `action` is what an exchange in `phase` asks for.
pub open spec fn asked_in(phase: Phase, action: ActionView) -> bool {
    match phase {
        Phase::OpeningSession => action is OpenSession,
        Phase::Connecting => action is Connect,
        Phase::OpeningRequest => action is OpenRequest,
        Phase::Sending => action is SendRequest,
        Phase::Reading => action is ReadChunk,
        Phase::Closing(handle) => action == (ActionView::CloseHandle { handle }),
        Phase::ReadingErrorCode => action is ReadLastError,
    }
}

/// Whether an error is one that an exchange reports: its description is
/// that of a stage.
pub open spec fn names_a_stage(error: ErrorView) -> bool {
    exists|stage: Stage| error.description == failure_text(stage)
}

/// What holds of a step of an exchange in the course of which
/// `opened` handles were acquired and `closed` released.
pub open spec fn accounted(step: StepView, opened: nat, closed: nat) -> bool {
    match step {
        StepView::Continue(state, action) => {
            &&& asked_in(state.phase, action)
            &&& opened == closed + held(state.phase)
            &&& state.failure matches Some(error) ==> names_a_stage(error) && state.phase is Closing
        },
        StepView::Finish(result) => {
            &&& opened == closed
            &&& result matches Err(error) ==> names_a_stage(error)
        },
    }
}

/// In every run, the handles acquired are those released and those still
/// held, every failure recorded or returned names a stage, and a failure is
/// recorded only while handles are being released.
pub proof fn lemma_run_accounted(client: ClientView, events: Seq<EventView>)
    ensures
        accounted(
            run(client, events),
            handles_opened(client, events),
            handles_closed(client, events),
        ),
    decreases events.len(),
{
    if events.len() > 0 {
        let before = events.drop_last();
        lemma_run_accounted(client, before);
        match run(client, before) {
            StepView::Continue(state, action) => {
                let event = events.last();
                let next = step_view(client, state, event);
                assert(run(client, events) == next);
                assert(names_a_stage(
                    ErrorView { description: failure_text(Stage::SessionOpen), error_code: event.code() },
                ));
                assert(names_a_stage(
                    ErrorView { description: failure_text(Stage::UrlParse), error_code: 1 },
                ));
                assert(names_a_stage(
                    ErrorView { description: failure_text(Stage::Connect), error_code: event.code() },
                ));
                assert(names_a_stage(
                    ErrorView { description: failure_text(Stage::RequestOpen), error_code: event.code() },
                ));
                assert(names_a_stage(
                    ErrorView { description: failure_text(Stage::Send), error_code: event.code() },
                ));
                assert(names_a_stage(
                    ErrorView { description: failure_text(Stage::Read), error_code: event.code() },
                ));
                assert(names_a_stage(
                    ErrorView { description: failure_text(Stage::Decode), error_code: event.code() },
                ));
            },
            StepView::Finish(_) => {},
        }
    }
}

/// An exchange that is over has released every handle it acquired: as many
/// were released as were acquired, however the exchange went and wherever
/// it failed.
pub proof fn lemma_handles_balanced(client: ClientView, events: Seq<EventView>)
    requires
        run(client, events) is Finish,
    ensures
        handles_closed(client, events) == handles_opened(client, events),
{
    lemma_run_accounted(client, events);
}

/// At no point of a run have more handles been released than acquired.
pub proof fn lemma_never_over_released(client: ClientView, events: Seq<EventView>)
    ensures
        handles_closed(client, events) <= handles_opened(client, events),
{
    lemma_run_accounted(client, events);
}

/// The error of a failed exchange carries the description of the stage at
/// which it failed.
pub proof fn lemma_failure_names_stage(client: ClientView, events: Seq<EventView>)
    requires
        run(client, events) matches StepView::Finish(Err(_)),
    ensures
        run(client, events) matches StepView::Finish(Err(error)) && names_a_stage(error),
{
    lemma_run_accounted(client, events);
}

/// The stage at which an exchange fails when the operation it waits for in
/// `phase` fails. A release cannot fail, and reading the error code gives
/// the code of a failure that has already happened.
pub open spec fn stage_of(phase: Phase) -> Option<Stage> {
    match phase {
        Phase::OpeningSession => Some(Stage::SessionOpen),
        Phase::Connecting => Some(Stage::Connect),
        Phase::OpeningRequest => Some(Stage::RequestOpen),
        Phase::Sending => Some(Stage::Send),
        Phase::Reading => Some(Stage::Read),
        Phase::Closing(_) => None,
        Phase::ReadingErrorCode => None,
    }
}

/// When an operation fails, the error of the exchange is the description of
/// that operation's stage with the code that the failure was reported with:
/// the exchange ends with it at once where no handle is held, and records it
/// for the end where handles are held.
pub proof fn lemma_failed_operation_is_reported(
    client: ClientView,
    state: ExchangeView,
    code: u32,
)
    requires
        stage_of(state.phase) is Some,
    ensures
        ({
            let error = ErrorView {
                description: failure_text(stage_of(state.phase).unwrap()),
                error_code: code,
            };
            match step_view(client, state, EventView::Failed(code)) {
                StepView::Continue(next, action) => {
                    &&& held(state.phase) > 0
                    &&& next.failure == Some(error)
                    &&& action is CloseHandle
                },
                StepView::Finish(result) => {
                    &&& held(state.phase) == 0
                    &&& result == Err::<Seq<char>, ErrorView>(error)
                },
            }
        }),
{
}

/// A failure, once recorded, is the failure returned: whatever is reported
/// while the handles are released, the exchange ends with that error.
pub proof fn lemma_failure_is_returned(
    client: ClientView,
    events: Seq<EventView>,
    later: Seq<EventView>,
)
    requires
        run(client, events) matches StepView::Continue(state, _) && state.failure is Some,
    ensures
        run(client, events) matches StepView::Continue(state, _) && state.failure matches Some(
            error,
        ) && match run(client, events + later) {
            StepView::Continue(next, _) => next.failure == Some(error),
            StepView::Finish(result) => result == Err::<Seq<char>, ErrorView>(error),
        },
    decreases later.len(),
{
    if later.len() == 0 {
        assert(events + later =~= events);
    } else {
        let shorter = later.drop_last();
        assert((events + later).drop_last() =~= events + shorter);
        assert((events + later).last() == later.last());
        lemma_failure_is_returned(client, events, shorter);
        lemma_run_accounted(client, events + shorter);
    }
}

} // verus!
