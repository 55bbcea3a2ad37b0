//! The event relay.
//!
//! On a mouse-press edge the host schedules one asynchronous task; the task
//! sends one custom application event back into the event loop through the
//! loop's proxy handle, and the loop's custom-event handler receives it at
//! some later turn. The relay here is the verified accounting of that
//! loopback path: which inputs schedule a task, and how presses, in-flight
//! tasks and delivered events relate along any run of the loop.

use vstd::prelude::*;

verus! {

/// The custom application event looped back through the event loop: a
/// zero-payload signal with a single variant.
#[derive(Clone, Copy, PartialEq, Eq, Structural, Debug)]
pub enum CustomEvent {
    Wake,
}

/// The state of a mouse button as reported by an input event.
#[derive(Clone, Copy, PartialEq, Eq, Structural, Debug)]
pub enum ButtonState {
    Pressed,
    Released,
}

/// A relay task is scheduled on a press edge only: not on a release, and
/// never while a button is merely held.
pub open spec fn spawns_relay_spec(s: ButtonState) -> bool {
    s == ButtonState::Pressed
}

/// Decide from a mouse-input event whether to schedule a relay task.
pub fn spawns_relay(s: ButtonState) -> (r: bool)
    ensures
        r == spawns_relay_spec(s),
{
    match s {
        ButtonState::Pressed => true,
        ButtonState::Released => false,
    }
}

/// The relay's accounting: how many press edges have been seen, how many
/// scheduled tasks have not yet delivered their event, and how many custom
/// events the handler has received.
pub struct RelayModel {
    pub presses: nat,
    pub pending: nat,
    pub delivered: nat,
}

/// One observable step of the loopback path.
#[derive(Clone, Copy, PartialEq, Eq, Structural, Debug)]
pub enum RelayOp {
    /// A mouse-press edge: the press handler schedules exactly one task.
    PressEdge,
    /// A mouse-release edge: nothing is scheduled.
    ReleaseEdge,
    /// A scheduled task runs to completion: its one custom event is sent
    /// and handled. The task runner only runs tasks that were scheduled,
    /// so with nothing in flight this step does nothing.
    TaskRun,
}

/// The relay before any input: nothing seen, nothing in flight.
pub open spec fn relay_init() -> RelayModel {
    RelayModel { presses: 0, pending: 0, delivered: 0 }
}

/// How one step changes the accounting.
pub open spec fn relay_step(m: RelayModel, op: RelayOp) -> RelayModel {
    match op {
        RelayOp::PressEdge => RelayModel {
            presses: m.presses + 1,
            pending: m.pending + 1,
            ..m
        },
        RelayOp::ReleaseEdge => m,
        RelayOp::TaskRun => if m.pending > 0 {
            RelayModel {
                pending: (m.pending - 1) as nat,
                delivered: m.delivered + 1,
                ..m
            }
        } else {
            m
        },
    }
}

/// The accounting after a whole trace of steps, starting from the empty
/// relay.
pub open spec fn relay_run(ops: Seq<RelayOp>) -> RelayModel
    decreases ops.len(),
{
    if ops.len() == 0 {
        relay_init()
    } else {
        relay_step(relay_run(ops.drop_last()), ops.last())
    }
}

/// Every press edge schedules exactly one custom event, and none is
/// handled before its press: after any trace, each press is accounted for
/// by exactly one in-flight task or one delivered event, deliveries never
/// outnumber presses, and once nothing is in flight every press has been
/// answered by exactly one delivery.
pub proof fn lemma_relay_accounting(ops: Seq<RelayOp>)
    ensures
        relay_run(ops).presses == relay_run(ops).pending + relay_run(ops).delivered,
        relay_run(ops).delivered <= relay_run(ops).presses,
        relay_run(ops).pending == 0 ==> relay_run(ops).delivered == relay_run(ops).presses,
    decreases ops.len(),
{
    if ops.len() > 0 {
        lemma_relay_accounting(ops.drop_last());
    }
}

/// Delivery never precedes the press handler's return: along every prefix
/// of a trace, the events delivered so far never outnumber the press edges
/// seen so far.
pub proof fn lemma_no_early_delivery(ops: Seq<RelayOp>, i: int)
    requires
        0 <= i <= ops.len(),
    ensures
        relay_run(ops.take(i)).delivered <= relay_run(ops.take(i)).presses,
{
    lemma_relay_accounting(ops.take(i));
}

/// The executable mirror of the accounting, kept by the host beside the
/// event loop.
pub struct Relay {
    presses: usize,
    pending: usize,
    delivered: usize,
}

impl View for Relay {
    type V = RelayModel;

    closed spec fn view(&self) -> RelayModel {
        RelayModel {
            presses: self.presses as nat,
            pending: self.pending as nat,
            delivered: self.delivered as nat,
        }
    }
}

impl Relay {
    /// A fresh relay: no press seen, nothing in flight, nothing delivered.
    pub fn new() -> (r: Relay)
        ensures
            r@ == relay_init(),
    {
        Relay { presses: 0, pending: 0, delivered: 0 }
    }

    /// The press edges seen so far.
    pub fn presses(&self) -> (n: usize)
        ensures
            n == self@.presses,
    {
        self.presses
    }

    /// The scheduled tasks whose event is not yet delivered.
    pub fn pending(&self) -> (n: usize)
        ensures
            n == self@.pending,
    {
        self.pending
    }

    /// The custom events the handler has received so far.
    pub fn delivered(&self) -> (n: usize)
        ensures
            n == self@.delivered,
    {
        self.delivered
    }

    /// The accounting is consistent: every press is in flight or
    /// delivered.
    pub open spec fn wf(&self) -> bool {
        self@.presses == self@.pending + self@.delivered
    }

    /// Record a mouse-input event; the result says whether the caller must
    /// schedule one relay task (exactly on a press edge).
    pub fn mouse_input(&mut self, s: ButtonState) -> (spawn: bool)
        requires
            old(self).wf(),
            old(self)@.presses < usize::MAX,
        ensures
            final(self).wf(),
            spawn == spawns_relay_spec(s),
            spawn ==> final(self)@ == relay_step(old(self)@, RelayOp::PressEdge),
            !spawn ==> final(self)@ == relay_step(old(self)@, RelayOp::ReleaseEdge),
    {
        match s {
            ButtonState::Pressed => {
                self.presses = self.presses + 1;
                self.pending = self.pending + 1;
                true
            },
            ButtonState::Released => false,
        }
    }

    /// Record that one scheduled task ran to completion: its custom event
    /// was sent through the proxy handle and the handler received it.
    pub fn task_completed(&mut self) -> (e: CustomEvent)
        requires
            old(self).wf(),
            old(self)@.pending > 0,
        ensures
            final(self).wf(),
            final(self)@ == relay_step(old(self)@, RelayOp::TaskRun),
            e == CustomEvent::Wake,
    {
        self.pending = self.pending - 1;
        self.delivered = self.delivered + 1;
        CustomEvent::Wake
    }
}

} // verus!
