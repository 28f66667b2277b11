//! One viewer's negotiation, step by step.

use vstd::prelude::*;
use crate::error::NegotiationError;

verus! {

/// How far a negotiation has come with the media engine.
#[derive(Debug, Clone, Copy, PartialEq, Eq, Structural)]
pub enum NegotiationPhase {
    /// A connection is being opened.
    Opening,
    /// The stream's shared track is being attached.
    Attaching,
    /// The remote offer is being applied.
    AcceptingOffer,
    /// The local answer is being made.
    Answering,
    /// The local answer is being applied.
    ApplyingAnswer,
    /// ICE candidates are being gathered.
    Gathering,
}

/// Where a viewer stands.
#[derive(Debug, Clone, Copy, PartialEq, Eq, Structural)]
pub enum ViewerState {
    /// An offer has come in and nothing has been done about it.
    Created,
    /// The connection is being negotiated.
    Negotiating { phase: NegotiationPhase },
    /// The session is registered and the answer has gone out.
    Connected,
    /// The viewer is gone.
    Closed,
}

/// What happens to a viewer.
#[derive(Debug, Clone, Copy, PartialEq, Eq, Structural)]
pub enum ViewerEvent {
    /// The offer was admitted.
    Admitted,
    /// The offer was refused.
    Refused { error: NegotiationError },
    /// The media engine has finished the step that was asked of it.
    StepDone,
    /// The media engine has failed at the step that was asked of it.
    StepFailed,
    /// The connection reports trouble: it has failed or lost its peer.
    Degraded,
    /// A teardown has taken the session out of the registry.
    TornDown,
}

/// What is to be done for a viewer.
#[derive(Debug, Clone, Copy, PartialEq, Eq, Structural)]
pub enum ViewerAction {
    /// Open a connection, set up with the gateway's ICE servers.
    OpenConnection,
    /// Attach the stream's shared track to the connection.
    AttachTrack,
    /// Start draining the connection's feedback channel, for as long as
    /// the connection lives, and apply the remote offer.
    DrainFeedbackAndAcceptOffer,
    /// Make the local answer.
    CreateAnswer,
    /// Apply the local answer.
    ApplyAnswer,
    /// Wait until ICE gathering is complete.
    AwaitGathering,
    /// Register the session, send the answer with the session's id, and
    /// start watching the connection's state.
    RegisterAndRespond,
    /// Answer with an error. Nothing was registered.
    Reject { error: NegotiationError },
    /// Close the connection.
    CloseConnection,
    /// Nothing.
    Ignore,
}

/// The phase that follows a phase, if one does.
pub open spec fn phase_after(phase: NegotiationPhase) -> Option<NegotiationPhase> {
    match phase {
        NegotiationPhase::Opening => Some(NegotiationPhase::Attaching),
        NegotiationPhase::Attaching => Some(NegotiationPhase::AcceptingOffer),
        NegotiationPhase::AcceptingOffer => Some(NegotiationPhase::Answering),
        NegotiationPhase::Answering => Some(NegotiationPhase::ApplyingAnswer),
        NegotiationPhase::ApplyingAnswer => Some(NegotiationPhase::Gathering),
        NegotiationPhase::Gathering => None,
    }
}

/// What a phase asks of the media engine.
pub open spec fn phase_action(phase: NegotiationPhase) -> ViewerAction {
    match phase {
        NegotiationPhase::Opening => ViewerAction::OpenConnection,
        NegotiationPhase::Attaching => ViewerAction::AttachTrack,
        NegotiationPhase::AcceptingOffer => ViewerAction::DrainFeedbackAndAcceptOffer,
        NegotiationPhase::Answering => ViewerAction::CreateAnswer,
        NegotiationPhase::ApplyingAnswer => ViewerAction::ApplyAnswer,
        NegotiationPhase::Gathering => ViewerAction::AwaitGathering,
    }
}

/// The state that a viewer goes to on an event, and what is to be done.
///
/// An admitted offer starts the negotiation and a refused one ends it. While
/// negotiating, each finished step starts the next, and the last one
/// connects the viewer; a failed step ends the negotiation with an error.
/// A connected viewer stays connected through trouble on its connection and
/// is closed by a teardown. Every other event is passed over.
pub open spec fn viewer_step(state: ViewerState, event: ViewerEvent) -> (ViewerState, ViewerAction) {
    match (state, event) {
        (ViewerState::Created, ViewerEvent::Admitted) => (
            ViewerState::Negotiating { phase: NegotiationPhase::Opening },
            ViewerAction::OpenConnection,
        ),
        (ViewerState::Created, ViewerEvent::Refused { error }) => (
            ViewerState::Closed,
            ViewerAction::Reject { error },
        ),
        (ViewerState::Negotiating { phase }, ViewerEvent::StepDone) => match phase_after(phase) {
            Some(then) => (ViewerState::Negotiating { phase: then }, phase_action(then)),
            None => (ViewerState::Connected, ViewerAction::RegisterAndRespond),
        },
        (ViewerState::Negotiating { phase }, ViewerEvent::StepFailed) => (
            ViewerState::Closed,
            ViewerAction::Reject { error: NegotiationError::EngineFailure },
        ),
        (ViewerState::Connected, ViewerEvent::TornDown) => (
            ViewerState::Closed,
            ViewerAction::CloseConnection,
        ),
        _ => (state, ViewerAction::Ignore),
    }
}

/// Takes one step of a viewer's negotiation.
pub fn viewer_next(state: ViewerState, event: ViewerEvent) -> (step: (ViewerState, ViewerAction))
    ensures
        step == viewer_step(state, event),
{
    match state {
        ViewerState::Created => match event {
            ViewerEvent::Admitted => (
                ViewerState::Negotiating { phase: NegotiationPhase::Opening },
                ViewerAction::OpenConnection,
            ),
            ViewerEvent::Refused { error } => (ViewerState::Closed, ViewerAction::Reject { error }),
            _ => (state, ViewerAction::Ignore),
        },
        ViewerState::Negotiating { phase } => match event {
            ViewerEvent::StepDone => match phase {
                NegotiationPhase::Opening => (
                    ViewerState::Negotiating { phase: NegotiationPhase::Attaching },
                    ViewerAction::AttachTrack,
                ),
                NegotiationPhase::Attaching => (
                    ViewerState::Negotiating { phase: NegotiationPhase::AcceptingOffer },
                    ViewerAction::DrainFeedbackAndAcceptOffer,
                ),
                NegotiationPhase::AcceptingOffer => (
                    ViewerState::Negotiating { phase: NegotiationPhase::Answering },
                    ViewerAction::CreateAnswer,
                ),
                NegotiationPhase::Answering => (
                    ViewerState::Negotiating { phase: NegotiationPhase::ApplyingAnswer },
                    ViewerAction::ApplyAnswer,
                ),
                NegotiationPhase::ApplyingAnswer => (
                    ViewerState::Negotiating { phase: NegotiationPhase::Gathering },
                    ViewerAction::AwaitGathering,
                ),
                NegotiationPhase::Gathering => (
                    ViewerState::Connected,
                    ViewerAction::RegisterAndRespond,
                ),
            },
            ViewerEvent::StepFailed => (
                ViewerState::Closed,
                ViewerAction::Reject { error: NegotiationError::EngineFailure },
            ),
            _ => (state, ViewerAction::Ignore),
        },
        ViewerState::Connected => match event {
            ViewerEvent::TornDown => (ViewerState::Closed, ViewerAction::CloseConnection),
            _ => (state, ViewerAction::Ignore),
        },
        ViewerState::Closed => (state, ViewerAction::Ignore),
    }
}

/// The state reached from `state` by the events given, in order.
pub open spec fn viewer_run(state: ViewerState, events: Seq<ViewerEvent>) -> ViewerState
    decreases events.len(),
{
    if events.len() == 0 {
        state
    } else {
        viewer_step(viewer_run(state, events.drop_last()), events.last()).0
    }
}

/// A closed viewer stays closed, and nothing is done for it.
pub proof fn lemma_closed_is_final(event: ViewerEvent)
    ensures
        viewer_step(ViewerState::Closed, event) == (ViewerState::Closed, ViewerAction::Ignore),
{
}

/// A session is registered by one step only: the one that ends the
/// gathering of ICE candidates. That step connects the viewer.
pub proof fn lemma_registers_after_gathering(state: ViewerState, event: ViewerEvent)
    ensures
        viewer_step(state, event).1 == ViewerAction::RegisterAndRespond <==> state
            == (ViewerState::Negotiating { phase: NegotiationPhase::Gathering }) && event
            == ViewerEvent::StepDone,
        viewer_step(state, event).1 == ViewerAction::RegisterAndRespond ==> viewer_step(
            state,
            event,
        ).0 == ViewerState::Connected,
{
}

/// A viewer becomes connected by no other step than that one.
pub proof fn lemma_connects_by_registering(state: ViewerState, event: ViewerEvent)
    requires
        state != ViewerState::Connected,
        viewer_step(state, event).0 == ViewerState::Connected,
    ensures
        viewer_step(state, event).1 == ViewerAction::RegisterAndRespond,
{
}

/// A refusal or a failure of the media engine closes the viewer without
/// registering anything.
pub proof fn lemma_rejection_closes(state: ViewerState, event: ViewerEvent)
    requires
        viewer_step(state, event).1 is Reject,
    ensures
        viewer_step(state, event).0 == ViewerState::Closed,
        state is Created || state is Negotiating,
{
}

/// Trouble on the connection of a connected viewer changes nothing: the
/// session stays registered until it is torn down.
pub proof fn lemma_degraded_stays_connected()
    ensures
        viewer_step(ViewerState::Connected, ViewerEvent::Degraded) == (
            ViewerState::Connected,
            ViewerAction::Ignore,
        ),
{
}

/// An admitted offer whose six steps all succeed connects the viewer.
pub proof fn lemma_happy_path_connects()
    ensures
        viewer_run(
            ViewerState::Created,
            seq![
                ViewerEvent::Admitted,
                ViewerEvent::StepDone,
                ViewerEvent::StepDone,
                ViewerEvent::StepDone,
                ViewerEvent::StepDone,
                ViewerEvent::StepDone,
                ViewerEvent::StepDone,
            ],
        ) == ViewerState::Connected,
{
    let e = seq![
        ViewerEvent::Admitted,
        ViewerEvent::StepDone,
        ViewerEvent::StepDone,
        ViewerEvent::StepDone,
        ViewerEvent::StepDone,
        ViewerEvent::StepDone,
        ViewerEvent::StepDone,
    ];
    reveal_with_fuel(viewer_run, 8);
    let e6 = e.drop_last();
    let e5 = e6.drop_last();
    let e4 = e5.drop_last();
    let e3 = e4.drop_last();
    let e2 = e3.drop_last();
    let e1 = e2.drop_last();
    let e0 = e1.drop_last();
    assert(e0.len() == 0);
    assert(viewer_run(ViewerState::Created, e1) == (ViewerState::Negotiating {
        phase: NegotiationPhase::Opening,
    }));
    assert(viewer_run(ViewerState::Created, e2) == (ViewerState::Negotiating {
        phase: NegotiationPhase::Attaching,
    }));
    assert(viewer_run(ViewerState::Created, e3) == (ViewerState::Negotiating {
        phase: NegotiationPhase::AcceptingOffer,
    }));
    assert(viewer_run(ViewerState::Created, e4) == (ViewerState::Negotiating {
        phase: NegotiationPhase::Answering,
    }));
    assert(viewer_run(ViewerState::Created, e5) == (ViewerState::Negotiating {
        phase: NegotiationPhase::ApplyingAnswer,
    }));
    assert(viewer_run(ViewerState::Created, e6) == (ViewerState::Negotiating {
        phase: NegotiationPhase::Gathering,
    }));
}

} // verus!
