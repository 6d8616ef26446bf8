use vstd::prelude::*;
use crate::event::{DiscoveryEvent, Notification};
use crate::peripheral_id::PeripheralId;

verus! {

// Each session owns one background event loop. Every turn of such a loop is
// one call of a bridge's `step`: the driver samples the governing
// cancellation signal, waits for the next stream item, and hands both in; the
// step decides what the loop body does — dispatch to the observer, tear the
// scan down, or exit. Cancellation is decided before the item is looked at,
// so a cancelled session dispatches nothing, and each bridge exits exactly
// once. The laws below state these guarantees over whole runs, as counts of
// the actions a run emits.

/// One observation of a bridge's loop: the sampled state of the governing
/// cancellation signal, and the next event of the adapter stream, or `None`
/// once the host stack has closed the stream.
pub struct BridgePoll {
    pub cancelled: bool,
    pub event: Option<DiscoveryEvent>,
}

/// One observation of a notification loop: the sampled cancellation state and
/// the next pushed value, or `None` once the stream has ended.
pub struct NotificationPoll {
    pub cancelled: bool,
    pub item: Option<Notification>,
}

/// The event bridge of a scan session. It reports discovery events to the
/// observer until cancellation fires; then it stops the host's scan — its one
/// teardown side effect — and exits. A closed stream ends it quietly, with no
/// teardown.
pub struct ScanBridge {
    pub exited: bool,
    pub stop_issued: bool,
}

/// What the driver of a scan loop does after a step.
#[derive(Debug, PartialEq, Eq)]
pub enum ScanAction {
    /// Look the peripheral up and report its properties to the observer.
    Report(PeripheralId),
    /// Nothing: the event is not relevant to discovery, or the bridge has
    /// already exited.
    Ignore,
    /// Stop the host's scan — best-effort — and leave the loop.
    StopScanAndExit,
    /// Leave the loop without teardown: the host closed the stream.
    ExitQuietly,
}

/// The discovery-relevant events a scan session reports: a peripheral
/// appearing, or a visible one updating.
pub open spec fn scan_event_relevant(ev: DiscoveryEvent) -> bool {
    ev is Discovered || ev is Updated
}

/// Model of `ScanBridge::step`. Cancellation is decided first, before any
/// event is dispatched, and is the only path that issues the stop.
pub open spec fn spec_scan_step(b: ScanBridge, cancelled: bool, event: Option<DiscoveryEvent>) -> (
    ScanBridge,
    ScanAction,
) {
    if b.exited {
        (b, ScanAction::Ignore)
    } else if cancelled {
        ((ScanBridge { exited: true, stop_issued: true }), ScanAction::StopScanAndExit)
    } else {
        match event {
            None => ((ScanBridge { exited: true, ..b }), ScanAction::ExitQuietly),
            Some(ev) => if scan_event_relevant(ev) {
                (b, ScanAction::Report(ev.spec_peripheral()))
            } else {
                (b, ScanAction::Ignore)
            },
        }
    }
}

impl ScanBridge {
    /// A fresh bridge: running, no stop issued yet.
    pub fn new() -> (b: Self)
        ensures
            !b.exited,
            !b.stop_issued,
    {
        ScanBridge { exited: false, stop_issued: false }
    }

    /// One turn of the scan loop.
    pub fn step(&mut self, cancelled: bool, event: &Option<DiscoveryEvent>) -> (a: ScanAction)
        requires
            !old(self).exited,
        ensures
            (*final(self), a) == spec_scan_step(*old(self), cancelled, *event),
    {
        if cancelled {
            self.exited = true;
            self.stop_issued = true;
            return ScanAction::StopScanAndExit;
        }
        match event {
            None => {
                self.exited = true;
                ScanAction::ExitQuietly
            },
            Some(ev) => match ev {
                DiscoveryEvent::Discovered(id) => ScanAction::Report(id.clone()),
                DiscoveryEvent::Updated(id) => ScanAction::Report(id.clone()),
                _ => ScanAction::Ignore,
            },
        }
    }
}

/// How many times a run of the scan loop over `polls` issues the stop.
pub open spec fn spec_scan_stop_count(b: ScanBridge, polls: Seq<BridgePoll>) -> nat
    decreases polls.len(),
{
    if polls.len() == 0 {
        0
    } else {
        let stepped = spec_scan_step(b, polls[0].cancelled, polls[0].event);
        (if stepped.1 is StopScanAndExit {
            1nat
        } else {
            0nat
        }) + spec_scan_stop_count(stepped.0, polls.drop_first())
    }
}

/// How many events a run of the scan loop over `polls` reports.
pub open spec fn spec_scan_report_count(b: ScanBridge, polls: Seq<BridgePoll>) -> nat
    decreases polls.len(),
{
    if polls.len() == 0 {
        0
    } else {
        let stepped = spec_scan_step(b, polls[0].cancelled, polls[0].event);
        (if stepped.1 is Report {
            1nat
        } else {
            0nat
        }) + spec_scan_report_count(stepped.0, polls.drop_first())
    }
}

/// A bridge that has exited does nothing more: no stop and no report, however
/// long the run goes on.
pub proof fn lemma_exited_scan_bridge_is_silent(b: ScanBridge, polls: Seq<BridgePoll>)
    requires
        b.exited,
    ensures
        spec_scan_stop_count(b, polls) == 0,
        spec_scan_report_count(b, polls) == 0,
    decreases polls.len(),
{
    if polls.len() > 0 {
        lemma_exited_scan_bridge_is_silent(
            spec_scan_step(b, polls[0].cancelled, polls[0].event).0,
            polls.drop_first(),
        );
    }
}

/// In any run whatsoever, the scan's stop is issued at most once.
pub proof fn lemma_scan_stops_at_most_once(b: ScanBridge, polls: Seq<BridgePoll>)
    ensures
        spec_scan_stop_count(b, polls) <= 1,
    decreases polls.len(),
{
    if polls.len() > 0 {
        let stepped = spec_scan_step(b, polls[0].cancelled, polls[0].event);
        if stepped.1 is StopScanAndExit {
            lemma_exited_scan_bridge_is_silent(stepped.0, polls.drop_first());
        } else {
            lemma_scan_stops_at_most_once(stepped.0, polls.drop_first());
        }
    }
}

/// If a scan session is cancelled, the stop is issued exactly once before the
/// bridge exits: once cancellation is first observed — at poll `i`, with the
/// stream still open until then — that turn stops the scan, and no later
/// turn, whatever it observes and however often `cancel` fired meanwhile,
/// issues another.
pub proof fn lemma_scan_cancel_stops_exactly_once(b: ScanBridge, polls: Seq<BridgePoll>, i: int)
    requires
        !b.exited,
        0 <= i < polls.len(),
        polls[i].cancelled,
        forall|j: int| 0 <= j < i ==> !polls[j].cancelled && polls[j].event is Some,
    ensures
        spec_scan_stop_count(b, polls) == 1,
    decreases polls.len(),
{
    let stepped = spec_scan_step(b, polls[0].cancelled, polls[0].event);
    if polls[0].cancelled {
        lemma_exited_scan_bridge_is_silent(stepped.0, polls.drop_first());
    } else {
        assert(stepped.0 == b);
        assert(polls.drop_first()[i - 1].cancelled);
        assert(forall|j: int|
            0 <= j < i - 1 ==> !polls.drop_first()[j].cancelled && polls.drop_first()[j].event
                is Some);
        lemma_scan_cancel_stops_exactly_once(b, polls.drop_first(), i - 1);
    }
}

/// Once cancellation has fired, a scan session's observer hears nothing more:
/// a run all of whose polls see the — level-triggered, never rearmed — signal
/// cancelled reports no event.
pub proof fn lemma_scan_silent_once_cancelled(b: ScanBridge, polls: Seq<BridgePoll>)
    requires
        forall|j: int| 0 <= j < polls.len() ==> polls[j].cancelled,
    ensures
        spec_scan_report_count(b, polls) == 0,
    decreases polls.len(),
{
    if polls.len() > 0 {
        let stepped = spec_scan_step(b, polls[0].cancelled, polls[0].event);
        assert(forall|j: int| 0 <= j < polls.drop_first().len() ==> polls.drop_first()[j].cancelled);
        lemma_scan_silent_once_cancelled(stepped.0, polls.drop_first());
    }
}

/// The event bridge of a peripheral session. It delivers connection and
/// disconnection events for the session's own peripheral — events for other
/// peripherals on the shared adapter stream are filtered out — until
/// cancellation fires or the stream closes; it has no teardown side effect.
pub struct PeripheralBridge {
    pub target: PeripheralId,
    pub exited: bool,
}

/// What the driver of a peripheral session's event loop does after a step.
#[derive(Debug, Clone, Copy, PartialEq, Eq, Structural)]
pub enum PeripheralBridgeAction {
    /// Invoke the observer's `connected` callback.
    NotifyConnected,
    /// Invoke the observer's `disconnected` callback.
    NotifyDisconnected,
    /// Nothing: the event concerns another peripheral, or is not a
    /// connection-state event, or the bridge has already exited.
    Ignore,
    /// Leave the loop.
    Exit,
}

/// Model of `PeripheralBridge::step`. Cancellation is decided first, before
/// any event is dispatched; only connection-state events whose identity is
/// exactly the target are delivered.
pub open spec fn spec_peripheral_bridge_step(
    b: PeripheralBridge,
    cancelled: bool,
    event: Option<DiscoveryEvent>,
) -> (PeripheralBridge, PeripheralBridgeAction) {
    if b.exited {
        (b, PeripheralBridgeAction::Ignore)
    } else if cancelled {
        ((PeripheralBridge { exited: true, ..b }), PeripheralBridgeAction::Exit)
    } else {
        match event {
            None => ((PeripheralBridge { exited: true, ..b }), PeripheralBridgeAction::Exit),
            Some(ev) => match ev {
                DiscoveryEvent::ConnectedEvent(id) => if id@ == b.target@ {
                    (b, PeripheralBridgeAction::NotifyConnected)
                } else {
                    (b, PeripheralBridgeAction::Ignore)
                },
                DiscoveryEvent::DisconnectedEvent(id) => if id@ == b.target@ {
                    (b, PeripheralBridgeAction::NotifyDisconnected)
                } else {
                    (b, PeripheralBridgeAction::Ignore)
                },
                _ => (b, PeripheralBridgeAction::Ignore),
            },
        }
    }
}

impl PeripheralBridge {
    /// A fresh bridge for the given peripheral.
    pub fn new(target: PeripheralId) -> (b: Self)
        ensures
            b.target == target,
            !b.exited,
    {
        PeripheralBridge { target, exited: false }
    }

    /// One turn of the peripheral session's event loop.
    pub fn step(&mut self, cancelled: bool, event: &Option<DiscoveryEvent>) -> (a:
        PeripheralBridgeAction)
        requires
            !old(self).exited,
        ensures
            (*final(self), a) == spec_peripheral_bridge_step(*old(self), cancelled, *event),
    {
        if cancelled {
            self.exited = true;
            return PeripheralBridgeAction::Exit;
        }
        match event {
            None => {
                self.exited = true;
                PeripheralBridgeAction::Exit
            },
            Some(ev) => match ev {
                DiscoveryEvent::ConnectedEvent(id) => if self.target.same_identity(id) {
                    PeripheralBridgeAction::NotifyConnected
                } else {
                    PeripheralBridgeAction::Ignore
                },
                DiscoveryEvent::DisconnectedEvent(id) => if self.target.same_identity(id) {
                    PeripheralBridgeAction::NotifyDisconnected
                } else {
                    PeripheralBridgeAction::Ignore
                },
                _ => PeripheralBridgeAction::Ignore,
            },
        }
    }
}

/// How many observer callbacks a run of the peripheral session's event loop
/// over `polls` invokes.
pub open spec fn spec_peripheral_notify_count(b: PeripheralBridge, polls: Seq<BridgePoll>) -> nat
    decreases polls.len(),
{
    if polls.len() == 0 {
        0
    } else {
        let stepped = spec_peripheral_bridge_step(b, polls[0].cancelled, polls[0].event);
        (if stepped.1 is NotifyConnected || stepped.1 is NotifyDisconnected {
            1nat
        } else {
            0nat
        }) + spec_peripheral_notify_count(stepped.0, polls.drop_first())
    }
}

/// Once cancellation has fired — as teardown of a dropped session fires it
/// unconditionally — a peripheral session's observer hears nothing more: a
/// run all of whose polls see the signal cancelled invokes no callback.
pub proof fn lemma_peripheral_silent_once_cancelled(b: PeripheralBridge, polls: Seq<BridgePoll>)
    requires
        forall|j: int| 0 <= j < polls.len() ==> polls[j].cancelled,
    ensures
        spec_peripheral_notify_count(b, polls) == 0,
    decreases polls.len(),
{
    if polls.len() > 0 {
        let stepped = spec_peripheral_bridge_step(b, polls[0].cancelled, polls[0].event);
        assert(forall|j: int| 0 <= j < polls.drop_first().len() ==> polls.drop_first()[j].cancelled);
        lemma_peripheral_silent_once_cancelled(stepped.0, polls.drop_first());
    }
}

/// The notification half of a connected peripheral session: it hands each
/// pushed value to the observer, in stream order, until cancellation fires or
/// the stream closes; it has no teardown side effect.
pub struct NotificationBridge {
    pub exited: bool,
}

/// What the driver of a notification loop does after a step.
#[derive(Debug, PartialEq, Eq)]
pub enum NotificationAction {
    /// Invoke the observer's `notification` callback with the pushed value.
    Deliver(Notification),
    /// Nothing: the bridge has already exited.
    Ignore,
    /// Leave the loop.
    Exit,
}

/// Model of `NotificationBridge::step`. Cancellation is decided first, before
/// the value is delivered.
pub open spec fn spec_notification_step(
    b: NotificationBridge,
    cancelled: bool,
    item: Option<Notification>,
) -> (NotificationBridge, NotificationAction) {
    if b.exited {
        (b, NotificationAction::Ignore)
    } else if cancelled {
        ((NotificationBridge { exited: true }), NotificationAction::Exit)
    } else {
        match item {
            None => ((NotificationBridge { exited: true }), NotificationAction::Exit),
            Some(n) => (b, NotificationAction::Deliver(n)),
        }
    }
}

impl NotificationBridge {
    /// A fresh bridge: running.
    pub fn new() -> (b: Self)
        ensures
            !b.exited,
    {
        NotificationBridge { exited: false }
    }

    /// One turn of the notification loop.
    pub fn step(&mut self, cancelled: bool, item: Option<Notification>) -> (a: NotificationAction)
        requires
            !old(self).exited,
        ensures
            (*final(self), a) == spec_notification_step(*old(self), cancelled, item),
    {
        if cancelled {
            self.exited = true;
            return NotificationAction::Exit;
        }
        match item {
            None => {
                self.exited = true;
                NotificationAction::Exit
            },
            Some(n) => NotificationAction::Deliver(n),
        }
    }
}

/// How many values a run of the notification loop over `polls` delivers.
pub open spec fn spec_notification_deliver_count(
    b: NotificationBridge,
    polls: Seq<NotificationPoll>,
) -> nat
    decreases polls.len(),
{
    if polls.len() == 0 {
        0
    } else {
        let stepped = spec_notification_step(b, polls[0].cancelled, polls[0].item);
        (if stepped.1 is Deliver {
            1nat
        } else {
            0nat
        }) + spec_notification_deliver_count(stepped.0, polls.drop_first())
    }
}

/// Once cancellation has fired, no further notification reaches the
/// observer: a run all of whose polls see the signal cancelled delivers
/// nothing.
pub proof fn lemma_notifications_silent_once_cancelled(
    b: NotificationBridge,
    polls: Seq<NotificationPoll>,
)
    requires
        forall|j: int| 0 <= j < polls.len() ==> polls[j].cancelled,
    ensures
        spec_notification_deliver_count(b, polls) == 0,
    decreases polls.len(),
{
    if polls.len() > 0 {
        let stepped = spec_notification_step(b, polls[0].cancelled, polls[0].item);
        assert(forall|j: int| 0 <= j < polls.drop_first().len() ==> polls.drop_first()[j].cancelled);
        lemma_notifications_silent_once_cancelled(stepped.0, polls.drop_first());
    }
}

} // verus!
