use vstd::prelude::*;
use crate::cancellation_handle::CancellationHandle;
use crate::error::Error;
use crate::event::{DiscoveryEvent, Notification};
use crate::peripheral_id::PeripheralId;
use crate::uuid::Uuid;

verus! {

/// The foreign callback set of a peripheral session. Implementations are
/// supplied by the application; the session's driver invokes at most one
/// method at a time, in the order the host stack produced the events.
pub trait PeripheralCallbacks {
    /// The session's own peripheral connected.
    fn connected(&self);

    /// The session's own peripheral disconnected.
    fn disconnected(&self);

    /// A subscribed characteristic pushed a value.
    fn notification(&self, uuid: Uuid, data: Vec<u8>);
}

/// The sub-step of a direct connect attempt that is currently pending.
#[derive(Debug, Clone, Copy, PartialEq, Eq, Structural)]
pub enum LinkPhase {
    /// Resolving the peripheral handle and asking whether it is already
    /// connected.
    Probe,
    /// A host-level connect call racing the cancellation signal.
    Race,
    /// Opening the notification subscription stream.
    Subscribe,
}

/// The connect state machine of a peripheral session. `Connected`, `Failed`
/// and `Cancelled` are terminal; `Failed` carries the underlying error.
#[derive(Debug, Clone, PartialEq, Eq)]
pub enum ConnectState {
    Idle,
    /// The peripheral is not in the host's visible set: scanning until a
    /// matching discovery event resurfaces it.
    AwaitingVisibility,
    /// A direct connect attempt on a resolved peripheral handle.
    ConnectingDirect(LinkPhase),
    Connected,
    Failed(Error),
    Cancelled,
}

/// What the driver must do next after a session step.
#[derive(Debug, Clone, Copy, PartialEq, Eq, Structural)]
pub enum SessionAction {
    /// Resolve the peripheral handle and ask whether it is already connected.
    ProbeConnection,
    /// Start a scan so the peripheral can resurface, then feed discovery
    /// events to `visibility_event`.
    StartScan,
    /// Keep waiting on the event stream and the cancellation signals.
    AwaitVisibility,
    /// Issue the host-level connect call, racing it against cancellation.
    IssueConnect,
    /// Ask the host for the notification stream of the new connection.
    OpenSubscription,
    /// Disconnect best-effort under a short timeout: the link came up but
    /// cannot be monitored, and must not be left connected unobserved.
    DisconnectBestEffort,
    /// The attempt is over; read `outcome`.
    ReportOutcome,
}

/// One logical attachment to a peripheral: its identity, the connect state
/// machine, and the session's own cancellation signal, fired unconditionally
/// on teardown so that no background loop outlives the session.
pub struct PeripheralSession {
    pub id: PeripheralId,
    pub state: ConnectState,
    pub cancellation: CancellationHandle,
}

/// Whether a discovery event resurfaces the awaited peripheral: only a
/// `Discovered` or `Updated` event, and only for that exact identity.
pub open spec fn visibility_match(target: Seq<char>, ev: DiscoveryEvent) -> bool {
    match ev {
        DiscoveryEvent::Discovered(id) => id@ == target,
        DiscoveryEvent::Updated(id) => id@ == target,
        _ => false,
    }
}

/// Model of `begin_connect`: a resolvable peripheral goes straight to a
/// direct connect attempt; one the host no longer lists enters the
/// visibility-recovery path, which starts with a scan.
pub open spec fn spec_begin_connect(s: PeripheralSession, lookup_ok: bool) -> (PeripheralSession,
    SessionAction) {
    if lookup_ok {
        (
            (PeripheralSession {
                state: ConnectState::ConnectingDirect(LinkPhase::Probe),
                ..s
            }),
            SessionAction::ProbeConnection,
        )
    } else {
        (
            (PeripheralSession { state: ConnectState::AwaitingVisibility, ..s }),
            SessionAction::StartScan,
        )
    }
}

/// Model of `visibility_event`: cancellation — the session's own signal or
/// the operation's — wins over any event; a matching discovery event moves to
/// the direct connect attempt; every other event leaves the session waiting.
pub open spec fn spec_visibility_step(
    s: PeripheralSession,
    op_cancelled: bool,
    event: Option<DiscoveryEvent>,
) -> (PeripheralSession, SessionAction) {
    if s.cancellation.spec_cancelled() || op_cancelled {
        ((PeripheralSession { state: ConnectState::Cancelled, ..s }), SessionAction::ReportOutcome)
    } else {
        match event {
            Some(ev) => if visibility_match(s.id@, ev) {
                (
                    (PeripheralSession {
                        state: ConnectState::ConnectingDirect(LinkPhase::Probe),
                        ..s
                    }),
                    SessionAction::ProbeConnection,
                )
            } else {
                (s, SessionAction::AwaitVisibility)
            },
            None => (s, SessionAction::AwaitVisibility),
        }
    }
}

/// Model of `probe_resolved`: an already-connected peripheral is a success
/// with no further host-level connect; otherwise the connect race starts, or
/// the probe's failure ends the attempt.
pub open spec fn spec_probe_step(s: PeripheralSession, probe: Result<bool, Error>) -> (
    PeripheralSession,
    SessionAction,
) {
    match probe {
        Ok(true) => (
            (PeripheralSession { state: ConnectState::Connected, ..s }),
            SessionAction::ReportOutcome,
        ),
        Ok(false) => (
            (PeripheralSession { state: ConnectState::ConnectingDirect(LinkPhase::Race), ..s }),
            SessionAction::IssueConnect,
        ),
        Err(e) => (
            (PeripheralSession { state: ConnectState::Failed(e), ..s }),
            SessionAction::ReportOutcome,
        ),
    }
}

/// Model of `race_resolved`: if cancellation fired before the connect call
/// resolved, the attempt is cancelled — whatever the discarded call would
/// have returned; otherwise the subscription is opened next.
pub open spec fn spec_race_step(s: PeripheralSession, cancellation_won: bool) -> (
    PeripheralSession,
    SessionAction,
) {
    if cancellation_won {
        ((PeripheralSession { state: ConnectState::Cancelled, ..s }), SessionAction::ReportOutcome)
    } else {
        (
            (PeripheralSession { state: ConnectState::ConnectingDirect(LinkPhase::Subscribe), ..s }),
            SessionAction::OpenSubscription,
        )
    }
}

/// Model of `subscribe_resolved`: with the notification stream open the
/// session is connected; if the stream cannot be opened the link is torn back
/// down best-effort and the underlying failure is reported.
pub open spec fn spec_subscribe_step(s: PeripheralSession, failure: Option<Error>) -> (
    PeripheralSession,
    SessionAction,
) {
    match failure {
        None => (
            (PeripheralSession { state: ConnectState::Connected, ..s }),
            SessionAction::ReportOutcome,
        ),
        Some(e) => (
            (PeripheralSession { state: ConnectState::Failed(e), ..s }),
            SessionAction::DisconnectBestEffort,
        ),
    }
}

/// Model of `outcome`: the definite result of a finished attempt, `None`
/// while one is still running. Cancellation is reported as `Err(Cancelled)`,
/// distinguishable from every host failure.
pub open spec fn spec_outcome(s: PeripheralSession) -> Option<Result<(), Error>> {
    match s.state {
        ConnectState::Connected => Some(Ok(())),
        ConnectState::Cancelled => Some(Err(Error::Cancelled)),
        ConnectState::Failed(e) => Some(Err(e)),
        _ => None,
    }
}

/// Whether the connect state machine has reached a terminal outcome: a
/// terminal state has no outgoing transition, so a session terminates at most
/// once, in exactly one of the three ways.
pub open spec fn is_terminal(state: ConnectState) -> bool {
    state is Connected || state is Failed || state is Cancelled
}

impl PeripheralSession {
    /// A fresh session: idle, with an armed cancellation signal of its own.
    pub fn new(id: PeripheralId) -> (s: Self)
        ensures
            s.id == id,
            s.state == ConnectState::Idle,
            !s.cancellation.spec_cancelled(),
    {
        PeripheralSession {
            id,
            state: ConnectState::Idle,
            cancellation: CancellationHandle::new(),
        }
    }

    /// Record whether the adapter could resolve the peripheral's handle, and
    /// decide how the connect attempt proceeds.
    pub fn begin_connect(&mut self, lookup_ok: bool) -> (a: SessionAction)
        requires
            old(self).state == ConnectState::Idle,
        ensures
            (*final(self), a) == spec_begin_connect(*old(self), lookup_ok),
    {
        if lookup_ok {
            self.state = ConnectState::ConnectingDirect(LinkPhase::Probe);
            SessionAction::ProbeConnection
        } else {
            self.state = ConnectState::AwaitingVisibility;
            SessionAction::StartScan
        }
    }

    /// Feed the visibility-recovery wait one observation: the current state
    /// of the operation's cancellation signal and, if one arrived, the next
    /// event of the adapter stream. The session's own signal is read first;
    /// cancellation is decided before any event is looked at.
    pub fn visibility_event(&mut self, op_cancelled: bool, event: &Option<DiscoveryEvent>) -> (a:
        SessionAction)
        requires
            old(self).state == ConnectState::AwaitingVisibility,
        ensures
            (*final(self), a) == spec_visibility_step(*old(self), op_cancelled, *event),
    {
        if self.cancellation.is_cancelled() || op_cancelled {
            self.state = ConnectState::Cancelled;
            return SessionAction::ReportOutcome;
        }
        match event {
            Some(ev) => {
                let matched = match ev {
                    DiscoveryEvent::Discovered(id) => self.id.same_identity(id),
                    DiscoveryEvent::Updated(id) => self.id.same_identity(id),
                    _ => false,
                };
                if matched {
                    self.state = ConnectState::ConnectingDirect(LinkPhase::Probe);
                    SessionAction::ProbeConnection
                } else {
                    SessionAction::AwaitVisibility
                }
            },
            None => SessionAction::AwaitVisibility,
        }
    }

    /// Record the probe's answer: `Ok(true)` if the peripheral reported
    /// itself already connected, `Ok(false)` if a connect call is needed,
    /// `Err` if the handle could not be resolved or the probe failed.
    pub fn probe_resolved(&mut self, probe: Result<bool, Error>) -> (a: SessionAction)
        requires
            old(self).state == ConnectState::ConnectingDirect(LinkPhase::Probe),
        ensures
            (*final(self), a) == spec_probe_step(*old(self), probe),
    {
        match probe {
            Ok(true) => {
                self.state = ConnectState::Connected;
                SessionAction::ReportOutcome
            },
            Ok(false) => {
                self.state = ConnectState::ConnectingDirect(LinkPhase::Race);
                SessionAction::IssueConnect
            },
            Err(e) => {
                self.state = ConnectState::Failed(e);
                SessionAction::ReportOutcome
            },
        }
    }

    /// Record which side of the connect race resolved first: the governing
    /// cancellation signal, or the host-level connect call.
    pub fn race_resolved(&mut self, cancellation_won: bool) -> (a: SessionAction)
        requires
            old(self).state == ConnectState::ConnectingDirect(LinkPhase::Race),
        ensures
            (*final(self), a) == spec_race_step(*old(self), cancellation_won),
    {
        if cancellation_won {
            self.state = ConnectState::Cancelled;
            SessionAction::ReportOutcome
        } else {
            self.state = ConnectState::ConnectingDirect(LinkPhase::Subscribe);
            SessionAction::OpenSubscription
        }
    }

    /// Record whether the notification subscription could be opened.
    pub fn subscribe_resolved(&mut self, failure: Option<Error>) -> (a: SessionAction)
        requires
            old(self).state == ConnectState::ConnectingDirect(LinkPhase::Subscribe),
        ensures
            (*final(self), a) == spec_subscribe_step(*old(self), failure),
    {
        match failure {
            None => {
                self.state = ConnectState::Connected;
                SessionAction::ReportOutcome
            },
            Some(e) => {
                self.state = ConnectState::Failed(e);
                SessionAction::DisconnectBestEffort
            },
        }
    }

    /// The definite result of a finished connect attempt; `None` while the
    /// attempt is still in flight.
    pub fn outcome(&self) -> (r: Option<Result<(), Error>>)
        ensures
            r == spec_outcome(*self),
    {
        match &self.state {
            ConnectState::Connected => Some(Ok(())),
            ConnectState::Cancelled => Some(Err(Error::Cancelled)),
            ConnectState::Failed(e) => Some(Err(e.clone())),
            _ => None,
        }
    }

    /// Fire the session's cancellation signal. Teardown calls this
    /// unconditionally, so that the background loops observe it and exit;
    /// it does not itself disconnect the BLE link.
    pub fn cancel(&mut self)
        ensures
            final(self).cancellation.spec_cancelled(),
            final(self).id == old(self).id,
            final(self).state == old(self).state,
    {
        self.cancellation.cancel();
    }
}

/// Whether an explicit disconnect request ended with the peripheral
/// disconnected: a peripheral the adapter can no longer resolve counts as
/// disconnected already, otherwise the host-level disconnect call decides.
pub fn disconnect_outcome(lookup_ok: bool, host_disconnect_ok: bool) -> (b: bool)
    ensures
        b == (!lookup_ok || host_disconnect_ok),
{
    !lookup_ok || host_disconnect_ok
}

/// A session answers with a definite outcome precisely once it has
/// terminated: `outcome` is `Some` exactly on the terminal states, `Ok` only
/// for `Connected`, and `Err(Cancelled)` only for `Cancelled` — so success,
/// cancellation and failure are mutually distinguishable.
pub proof fn lemma_outcome_exactly_at_termination(s: PeripheralSession)
    ensures
        spec_outcome(s) is Some <==> is_terminal(s.state),
        spec_outcome(s) == Some(Ok::<(), Error>(())) <==> s.state is Connected,
        spec_outcome(s) == Some(Err::<(), Error>(Error::Cancelled)) <==> (s.state is Cancelled
            || s.state == ConnectState::Failed(Error::Cancelled)),
{
}

/// An already-connected peripheral makes the attempt a success at once: the
/// state is `Connected`, the outcome is `Ok`, and in particular no host-level
/// connect call is issued.
pub proof fn lemma_already_connected_is_success(s: PeripheralSession)
    requires
        s.state == ConnectState::ConnectingDirect(LinkPhase::Probe),
    ensures
        spec_probe_step(s, Ok(true)).0.state == ConnectState::Connected,
        !(spec_probe_step(s, Ok(true)).1 is IssueConnect),
        spec_outcome(spec_probe_step(s, Ok(true)).0) == Some(Ok::<(), Error>(())),
{
}

/// If cancellation fires strictly before the connect call resolves, the
/// session reports `Cancelled` — not a success and not a host error.
pub proof fn lemma_cancellation_wins_reports_cancelled(s: PeripheralSession)
    requires
        s.state == ConnectState::ConnectingDirect(LinkPhase::Race),
    ensures
        spec_race_step(s, true).0.state == ConnectState::Cancelled,
        spec_outcome(spec_race_step(s, true).0) == Some(Err::<(), Error>(Error::Cancelled)),
{
}

/// The visibility-recovery law: when the handle lookup fails the session
/// enters `AwaitingVisibility` and starts a scan; from there a `Discovered`
/// or `Updated` event for the exact target identity — and only such an event
/// — moves it to a direct connect attempt, while any other event leaves it
/// waiting unchanged.
pub proof fn lemma_visibility_recovery(s: PeripheralSession, ev: DiscoveryEvent)
    requires
        s.state == ConnectState::Idle,
        !s.cancellation.spec_cancelled(),
    ensures
        spec_begin_connect(s, false).0.state == ConnectState::AwaitingVisibility,
        spec_begin_connect(s, false).1 == SessionAction::StartScan,
        visibility_match(s.id@, ev) ==> spec_visibility_step(
            spec_begin_connect(s, false).0,
            false,
            Some(ev),
        ) == (
            (PeripheralSession { state: ConnectState::ConnectingDirect(LinkPhase::Probe), ..s }),
            SessionAction::ProbeConnection,
        ),
        !visibility_match(s.id@, ev) ==> spec_visibility_step(
            spec_begin_connect(s, false).0,
            false,
            Some(ev),
        ) == (spec_begin_connect(s, false).0, SessionAction::AwaitVisibility),
{
}

} // verus!
