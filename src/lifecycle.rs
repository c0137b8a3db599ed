use crate::event::{listener_closing, respond, ClientEventResponse};
use crate::status::Status;
use tokio::sync::oneshot;
use tokio_util::sync::CancellationToken;
use vstd::prelude::*;

verus! {

/// Where a registered listener stands.
#[derive(Clone, Copy, Debug, PartialEq, Eq, Structural)]
pub enum ListenerState {
    /// The envelope was received and no response was sent yet; `committed`
    /// tells whether the listening resource has been bound.
    Pending { committed: bool },
    /// The success response was delivered and the accept loop runs.
    Active,
    /// Cancellation was observed; the accept loop is stopping.
    Cancelled,
    /// The listening resource is released.
    Closed,
}

/// What happened to a listener.
#[derive(Clone, Copy, Debug, PartialEq, Eq, Structural)]
pub enum ListenerEvent {
    /// The listening resource was bound.
    Committed,
    /// The response was written; `delivered` is false when the receiver was
    /// already gone.
    Responded { delivered: bool },
    /// The cancellation handle was seen triggered.
    CancelTriggered,
    /// An inbound connection is waiting to be accepted.
    ConnectionArrived,
    /// The accept loop ended, by cancellation or by its own failure.
    LoopStopped,
}

/// What the data plane must do after a transition.
#[derive(Clone, Copy, Debug, PartialEq, Eq, Structural)]
pub enum ListenerAction {
    Nothing,
    StartAccepting,
    Accept,
    Refuse,
    StopAccepting,
    Release,
}

/// The listener's transition table.
pub open spec fn transition(s: ListenerState, e: ListenerEvent) -> (ListenerState, ListenerAction) {
    match (s, e) {
        (ListenerState::Pending { committed: false }, ListenerEvent::Committed) => (
            ListenerState::Pending { committed: true },
            ListenerAction::Nothing,
        ),
        (ListenerState::Pending { committed }, ListenerEvent::Responded { delivered }) => {
            if !committed {
                (ListenerState::Closed, ListenerAction::Nothing)
            } else if delivered {
                (ListenerState::Active, ListenerAction::StartAccepting)
            } else {
                (ListenerState::Closed, ListenerAction::Release)
            }
        },
        (ListenerState::Active, ListenerEvent::CancelTriggered) => (
            ListenerState::Cancelled,
            ListenerAction::StopAccepting,
        ),
        (ListenerState::Active, ListenerEvent::ConnectionArrived) => (
            ListenerState::Active,
            ListenerAction::Accept,
        ),
        (ListenerState::Active, ListenerEvent::LoopStopped) => (
            ListenerState::Closed,
            ListenerAction::Release,
        ),
        (ListenerState::Cancelled, ListenerEvent::LoopStopped) => (
            ListenerState::Closed,
            ListenerAction::Release,
        ),
        (_, ListenerEvent::ConnectionArrived) => (s, ListenerAction::Refuse),
        _ => (s, ListenerAction::Nothing),
    }
}

/// Whether the listener holds its listening resource.
pub open spec fn holds_resource(s: ListenerState) -> bool {
    match s {
        ListenerState::Pending { committed } => committed,
        ListenerState::Active | ListenerState::Cancelled => true,
        ListenerState::Closed => false,
    }
}

/// Number of listening resources held (zero or one).
pub open spec fn resource_count(s: ListenerState) -> int {
    if holds_resource(s) {
        1
    } else {
        0
    }
}

/// The state after the cancellation handle is seen triggered `n` times.
pub open spec fn cancelled_times(s: ListenerState, n: nat) -> ListenerState
    decreases n,
{
    if n == 0 {
        s
    } else {
        transition(cancelled_times(s, (n - 1) as nat), ListenerEvent::CancelTriggered).0
    }
}

impl ListenerState {
    /// A listener whose envelope has just been received.
    pub fn new() -> (r: Self)
        ensures
            r == (ListenerState::Pending { committed: false }),
    {
        ListenerState::Pending { committed: false }
    }

    /// Takes one event. Connections are accepted only while `Active`, so no
    /// bridge exists before a successful response was delivered.
    pub fn step(self, e: ListenerEvent) -> (r: (ListenerState, ListenerAction))
        ensures
            r == transition(self, e),
            r.1 == ListenerAction::Accept ==> self == ListenerState::Active,
    {
        match (self, e) {
            (ListenerState::Pending { committed: false }, ListenerEvent::Committed) => (
                ListenerState::Pending { committed: true },
                ListenerAction::Nothing,
            ),
            (ListenerState::Pending { committed }, ListenerEvent::Responded { delivered }) => {
                if !committed {
                    (ListenerState::Closed, ListenerAction::Nothing)
                } else if delivered {
                    (ListenerState::Active, ListenerAction::StartAccepting)
                } else {
                    (ListenerState::Closed, ListenerAction::Release)
                }
            },
            (ListenerState::Active, ListenerEvent::CancelTriggered) => (
                ListenerState::Cancelled,
                ListenerAction::StopAccepting,
            ),
            (ListenerState::Active, ListenerEvent::ConnectionArrived) => (
                ListenerState::Active,
                ListenerAction::Accept,
            ),
            (ListenerState::Active, ListenerEvent::LoopStopped) => (
                ListenerState::Closed,
                ListenerAction::Release,
            ),
            (ListenerState::Cancelled, ListenerEvent::LoopStopped) => (
                ListenerState::Closed,
                ListenerAction::Release,
            ),
            (_, ListenerEvent::ConnectionArrived) => (self, ListenerAction::Refuse),
            _ => (self, ListenerAction::Nothing),
        }
    }

    /// Sends the registration response and takes the outcome of the send. A
    /// success that nobody receives any more ends in `Release`; a failure
    /// ends the listener with nothing to release.
    pub fn respond(
        self,
        resp: oneshot::Sender<ClientEventResponse>,
        response: ClientEventResponse,
    ) -> (r: (ListenerState, ListenerAction))
        requires
            self is Pending,
            response.wf(),
            response.succeeded() == self->committed,
        ensures
            r == transition(self, ListenerEvent::Responded { delivered: true }) || r == transition(
                self,
                ListenerEvent::Responded { delivered: false },
            ),
            !response.succeeded() ==> r == (ListenerState::Closed, ListenerAction::Nothing),
            r.0 is Active || r.0 is Closed,
            resource_count(r.0) == 0 || r.1 == ListenerAction::StartAccepting,
    {
        let delivered = respond(resp, response);
        self.step(ListenerEvent::Responded { delivered })
    }

    /// Answers a registration exactly once. `outcome` is `Err` when the
    /// payload was refused or nothing could be bound, and `Ok` with the public
    /// entrypoints when the listening resource was bound. A bound resource
    /// that yields no entrypoint, or whose success nobody receives any more,
    /// is released.
    pub fn answer(
        resp: oneshot::Sender<ClientEventResponse>,
        outcome: Result<Vec<String>, Status>,
    ) -> (r: (ListenerState, ListenerAction))
        ensures
            outcome matches Ok(e) && e@.len() > 0 ==> r == (
                ListenerState::Active,
                ListenerAction::StartAccepting,
            ) || r == (ListenerState::Closed, ListenerAction::Release),
            outcome matches Ok(e) && e@.len() == 0 ==> r == (
                ListenerState::Closed,
                ListenerAction::Release,
            ),
            outcome is Err ==> r == (ListenerState::Closed, ListenerAction::Nothing),
    {
        let pending = ListenerState::new();
        match outcome {
            Ok(entrypoint) => {
                let (bound, _) = pending.step(ListenerEvent::Committed);
                if entrypoint.len() > 0 {
                    bound.respond(resp, ClientEventResponse::registered(entrypoint))
                } else {
                    let _ = respond(resp, ClientEventResponse::from_allocation(Ok(entrypoint)));
                    (ListenerState::Closed, ListenerAction::Release)
                }
            },
            Err(status) => pending.respond(resp, ClientEventResponse::registered_failed(status)),
        }
    }

    /// Looks at the cancellation handle at a suspension point of the accept
    /// loop, and takes the cancellation if it was triggered.
    pub fn observe_cancellation(self, token: &CancellationToken) -> (r: (
        ListenerState,
        ListenerAction,
    ))
        ensures
            r == transition(self, ListenerEvent::CancelTriggered) || r == (self, ListenerAction::Nothing),
    {
        if listener_closing(token) {
            self.step(ListenerEvent::CancelTriggered)
        } else {
            (self, ListenerAction::Nothing)
        }
    }
}

/// Seeing the cancellation handle triggered `n >= 1` times leaves the listener
/// where seeing it once does, and every sighting after the first changes
/// nothing and asks for nothing.
pub proof fn lemma_cancel_idempotent(s: ListenerState, n: nat)
    requires
        n >= 1,
    ensures
        cancelled_times(s, n) == cancelled_times(s, 1),
        forall|k: nat|
            1 <= k < n ==> #[trigger] transition(cancelled_times(s, k), ListenerEvent::CancelTriggered)
                == (cancelled_times(s, 1), ListenerAction::Nothing),
    decreases n,
{
    reveal_with_fuel(cancelled_times, 2);
    let once = transition(s, ListenerEvent::CancelTriggered).0;
    assert(cancelled_times(s, 1) == once);
    assert(transition(once, ListenerEvent::CancelTriggered) == (once, ListenerAction::Nothing));
    if n > 1 {
        lemma_cancel_idempotent(s, (n - 1) as nat);
        assert(cancelled_times(s, n) == transition(
            cancelled_times(s, (n - 1) as nat),
            ListenerEvent::CancelTriggered,
        ).0);
    }
}

/// Every transition keeps the resource count in balance: it grows by one only
/// when a pending listener binds, and shrinks by one exactly when the action
/// is `Release`.
pub proof fn lemma_resource_accounting(s: ListenerState, e: ListenerEvent)
    ensures
        ({
            let (t, a) = transition(s, e);
            let acquired = if s == (ListenerState::Pending { committed: false }) && e
                == ListenerEvent::Committed {
                1int
            } else {
                0int
            };
            let released = if a == ListenerAction::Release {
                1int
            } else {
                0int
            };
            resource_count(t) == resource_count(s) + acquired - released
        }),
{
}

/// When the response cannot be delivered because its receiver was dropped,
/// the pending listener ends closed and releases what it bound: no resource
/// is held afterwards, and one was released exactly when one was held.
pub proof fn lemma_abandoned_response_releases(committed: bool)
    ensures
        ({
            let s = ListenerState::Pending { committed };
            let (t, a) = transition(s, ListenerEvent::Responded { delivered: false });
            &&& t == ListenerState::Closed
            &&& resource_count(t) == 0
            &&& (a == ListenerAction::Release) == holds_resource(s)
        }),
{
}

/// A listener whose cancellation is seen before its first wait never accepts
/// a connection: it goes from `Active` to `Cancelled` and then to `Closed`.
pub proof fn lemma_cancel_before_first_wait()
    ensures
        transition(ListenerState::Active, ListenerEvent::CancelTriggered) == (
            ListenerState::Cancelled,
            ListenerAction::StopAccepting,
        ),
        transition(ListenerState::Cancelled, ListenerEvent::ConnectionArrived) == (
            ListenerState::Cancelled,
            ListenerAction::Refuse,
        ),
        transition(ListenerState::Cancelled, ListenerEvent::LoopStopped) == (
            ListenerState::Closed,
            ListenerAction::Release,
        ),
{
}

} // verus!
