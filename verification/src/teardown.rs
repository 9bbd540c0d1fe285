use crate::api_client::{LogoutRequest, ShutdownPlan};
use crate::errors::RithmicApiError;
use vstd::prelude::*;
use vstd::string::StringExecFns;

verus! {

/// How far the graceful shutdown of one plant has come.
#[derive(Clone, Copy, Debug, PartialEq, Eq, Structural)]
pub enum ShutdownState {
    /// The logout request is on its way.
    SendingLogout,
    /// The close frame is on its way.
    SendingClose,
    /// The read half is drained until the server confirms the close.
    Draining,
    /// The shutdown has ended, well or badly.
    Done,
}

/// What the transport reports back after carrying out an action.
#[derive(Debug)]
pub enum ShutdownEvent {
    /// The frame went out.
    Sent,
    /// A frame came in that does not confirm the close.
    Received,
    /// The server confirmed the close, or the stream ended.
    CloseConfirmed,
    /// The transport failed to carry out the action.
    Failed(String),
}

/// What the transport is asked to do next.
#[derive(Debug)]
pub enum ShutdownAction {
    /// Send the logout request on the write half.
    SendLogout(u64, LogoutRequest),
    /// Send a close frame on the write half.
    SendClose(u64),
    /// Read the next frame from the read half.
    ReadNext,
    /// The connection is closed.
    Finished,
    /// The shutdown failed; the connection is given up as it is.
    Fail(RithmicApiError),
}

/// The graceful shutdown of one plant: logout, close frame, then draining the
/// read half. The plant has left the registry before the first step.
#[derive(Debug)]
pub struct Shutdown {
    writer: u64,
    state: ShutdownState,
}

/// The text that reports a shutdown that the transport could not complete.
pub open spec fn shutdown_error(reason: Seq<char>) -> Seq<char> {
    "Failed to shut down the plant connection: "@ + reason
}

/// The state that follows `state` on `event`.
pub open spec fn next_shutdown_state(state: ShutdownState, event: ShutdownEvent) -> ShutdownState {
    match (state, event) {
        (ShutdownState::SendingLogout, ShutdownEvent::Sent) => ShutdownState::SendingClose,
        (ShutdownState::SendingClose, ShutdownEvent::Sent) => ShutdownState::Draining,
        (ShutdownState::Draining, ShutdownEvent::Received) => ShutdownState::Draining,
        _ => ShutdownState::Done,
    }
}

/// `action` is what the shutdown asks for when `event` reaches it in state
/// `state`.
pub open spec fn is_shutdown_action_for(
    state: ShutdownState,
    event: ShutdownEvent,
    writer: u64,
    action: ShutdownAction,
) -> bool {
    match (state, event) {
        (ShutdownState::Done, _) => action matches ShutdownAction::Fail(
            RithmicApiError::ClientErrorDebug(_),
        ),
        (_, ShutdownEvent::Failed(reason)) => action matches ShutdownAction::Fail(
            RithmicApiError::ServerErrorDebug(text),
        ) && text@ == shutdown_error(reason@),
        (ShutdownState::SendingLogout, ShutdownEvent::Sent) => action == ShutdownAction::SendClose(
            writer,
        ),
        (ShutdownState::SendingClose, ShutdownEvent::Sent) => action is ReadNext,
        (ShutdownState::Draining, ShutdownEvent::Received) => action is ReadNext,
        (ShutdownState::Draining, ShutdownEvent::CloseConfirmed) => action is Finished,
        _ => action matches ShutdownAction::Fail(RithmicApiError::ClientErrorDebug(_)),
    }
}

impl Shutdown {
    /// The write half that the shutdown sends on.
    pub closed spec fn writer(&self) -> u64 {
        self.writer
    }

    /// How far the shutdown has come.
    pub closed spec fn state(&self) -> ShutdownState {
        self.state
    }

    /// Starts the shutdown that the plan describes. The first thing to do is
    /// to send the logout request.
    pub fn begin(plan: ShutdownPlan) -> (started: (Shutdown, ShutdownAction))
        ensures
            started.0.writer() == plan.writer,
            started.0.state() == ShutdownState::SendingLogout,
            started.1 == ShutdownAction::SendLogout(plan.writer, plan.logout),
    {
        (
            Shutdown { writer: plan.writer, state: ShutdownState::SendingLogout },
            ShutdownAction::SendLogout(plan.writer, plan.logout),
        )
    }

    /// Tells whether the shutdown has ended.
    pub fn is_done(&self) -> (b: bool)
        ensures
            b == (self.state() == ShutdownState::Done),
    {
        match self.state {
            ShutdownState::Done => true,
            _ => false,
        }
    }

    /// Takes the transport's report on the last action and says what to do
    /// next. A failure at any step is a server error and ends the shutdown.
    pub fn step(&mut self, event: ShutdownEvent) -> (action: ShutdownAction)
        ensures
            final(self).writer() == old(self).writer(),
            final(self).state() == next_shutdown_state(old(self).state(), event),
            is_shutdown_action_for(old(self).state(), event, old(self).writer(), action),
    {
        let state = self.state;
        match state {
            ShutdownState::Done => {
                return ShutdownAction::Fail(
                    RithmicApiError::ClientErrorDebug("The shutdown has ended".to_owned()),
                );
            },
            _ => {},
        }
        match event {
            ShutdownEvent::Failed(reason) => {
                self.state = ShutdownState::Done;
                ShutdownAction::Fail(
                    RithmicApiError::ServerErrorDebug(
                        String::from_str("Failed to shut down the plant connection: ").concat(
                            reason.as_str(),
                        ),
                    ),
                )
            },
            ShutdownEvent::Sent => match state {
                ShutdownState::SendingLogout => {
                    self.state = ShutdownState::SendingClose;
                    ShutdownAction::SendClose(self.writer)
                },
                ShutdownState::SendingClose => {
                    self.state = ShutdownState::Draining;
                    ShutdownAction::ReadNext
                },
                _ => self.unexpected(),
            },
            ShutdownEvent::Received => match state {
                ShutdownState::Draining => ShutdownAction::ReadNext,
                _ => self.unexpected(),
            },
            ShutdownEvent::CloseConfirmed => match state {
                ShutdownState::Draining => {
                    self.state = ShutdownState::Done;
                    ShutdownAction::Finished
                },
                _ => self.unexpected(),
            },
        }
    }

    fn unexpected(&mut self) -> (action: ShutdownAction)
        ensures
            final(self).writer == old(self).writer,
            final(self).state == ShutdownState::Done,
            action matches ShutdownAction::Fail(RithmicApiError::ClientErrorDebug(_)),
    {
        self.state = ShutdownState::Done;
        ShutdownAction::Fail(
            RithmicApiError::ClientErrorDebug(
                "The transport reported a step that the shutdown did not ask for".to_owned(),
            ),
        )
    }
}

/// The close frame follows the logout, and reading starts only once the close
/// frame is out; a shutdown finishes well only on the server's confirmation.
pub proof fn lemma_shutdown_order(
    state: ShutdownState,
    event: ShutdownEvent,
    writer: u64,
    action: ShutdownAction,
)
    requires
        is_shutdown_action_for(state, event, writer, action),
    ensures
        action is SendClose ==> state == ShutdownState::SendingLogout && event is Sent,
        action is Finished ==> state == ShutdownState::Draining && event is CloseConfirmed,
        action is Finished || action is Fail ==> next_shutdown_state(state, event)
            == ShutdownState::Done,
        action is ReadNext ==> next_shutdown_state(state, event) == ShutdownState::Draining,
        !(action is SendLogout),
{
}

/// The state of a shutdown that has taken the given reports, in their order,
/// since it began.
pub open spec fn shutdown_state_after(events: Seq<ShutdownEvent>) -> ShutdownState
    decreases events.len(),
{
    if events.len() == 0 {
        ShutdownState::SendingLogout
    } else {
        next_shutdown_state(shutdown_state_after(events.drop_last()), events.last())
    }
}

/// A shutdown drains the read half only after the logout and the close frame
/// both went out, and before that nothing else was reported.
pub proof fn lemma_drain_follows_logout_and_close(events: Seq<ShutdownEvent>)
    requires
        shutdown_state_after(events) == ShutdownState::Draining,
    ensures
        events.len() >= 2,
        events[0] is Sent,
        events[1] is Sent,
        forall|i: int| 2 <= i < events.len() ==> (#[trigger] events[i]) is Received,
    decreases events.len(),
{
    let front = events.drop_last();
    if shutdown_state_after(front) == ShutdownState::Draining {
        lemma_drain_follows_logout_and_close(front);
        assert forall|i: int| 2 <= i < events.len() implies (#[trigger] events[i]) is Received by {
            if i < front.len() {
                assert(events[i] == front[i]);
            }
        }
        assert(events[0] == front[0]);
        assert(events[1] == front[1]);
    } else {
        assert(shutdown_state_after(front) == ShutdownState::SendingClose);
        let first = front.drop_last();
        assert(shutdown_state_after(first) == ShutdownState::SendingLogout);
        assert(first.len() == 0);
        assert(events[1] == events.last());
        assert(events[0] == front.last());
    }
}

} // verus!
