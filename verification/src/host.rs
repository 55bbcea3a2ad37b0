//! The window/event-loop host.
//!
//! The host bridges the platform event loop to the application: it owns the
//! single on-screen surface, creates it on the first activation, terminates
//! the loop on a close request, and keeps the redraw cycle alive. The host
//! decides; the surrounding application performs the windowing calls that
//! the returned actions ask for.

use vstd::prelude::*;

verus! {

/// The host's own state: whether the surface exists yet, and whether the
/// loop has been asked to terminate.
#[derive(Clone, Copy, PartialEq, Eq, Structural, Debug)]
pub struct Host {
    pub surface: bool,
    pub exited: bool,
}

/// A platform event handed to the host's window-event callback.
#[derive(Clone, Copy, PartialEq, Eq, Structural, Debug)]
pub enum WinEvent {
    /// The user asked to close the window.
    CloseRequested,
    /// The platform asks the application to draw a frame.
    RedrawRequested,
    /// Any other window event; the host ignores it.
    Other,
}

/// What the application must do after the host has handled a window event.
#[derive(Clone, Copy, PartialEq, Eq, Structural, Debug)]
pub enum HostAction {
    /// Terminate the event loop.
    ExitLoop,
    /// Schedule exactly one more redraw of the surface.
    ScheduleRedraw,
    /// Nothing.
    Ignore,
}

/// What the application must do after the host has handled an activation.
#[derive(Clone, Copy, PartialEq, Eq, Structural, Debug)]
pub enum ResumeAction {
    /// Create the one surface, attach it to the document, and install the
    /// suppression listeners on it.
    CreateSurface,
    /// The surface already exists: create nothing, install nothing.
    KeepSurface,
}

/// The host's reaction to an activation: the surface is created on the
/// first one and only on the first one.
pub open spec fn resume_step(h: Host) -> (Host, ResumeAction) {
    if h.surface {
        (h, ResumeAction::KeepSurface)
    } else {
        (Host { surface: true, ..h }, ResumeAction::CreateSurface)
    }
}

/// The host's reaction to one window event.
pub open spec fn event_step(h: Host, e: WinEvent) -> (Host, HostAction) {
    match e {
        WinEvent::CloseRequested => (Host { exited: true, ..h }, HostAction::ExitLoop),
        WinEvent::RedrawRequested => (h, HostAction::ScheduleRedraw),
        WinEvent::Other => (h, HostAction::Ignore),
    }
}

/// One turn of the event loop: an event is dispatched to the host only
/// while the loop is running; after termination it is dropped and nothing
/// is done.
pub open spec fn loop_step(h: Host, e: WinEvent) -> (Host, Option<HostAction>) {
    if h.exited {
        (h, None)
    } else {
        let (h2, a) = event_step(h, e);
        (h2, Some(a))
    }
}

/// The host's state after the loop has worked through a sequence of events.
pub open spec fn run(h: Host, es: Seq<WinEvent>) -> Host
    decreases es.len(),
{
    if es.len() == 0 {
        h
    } else {
        run(loop_step(h, es[0]).0, es.drop_first())
    }
}

/// The action the loop performs for the event at position `i`, or `None`
/// where the event is dropped because the loop has terminated.
pub open spec fn action_at(h: Host, es: Seq<WinEvent>, i: int) -> Option<HostAction> {
    loop_step(run(h, es.take(i)), es[i]).1
}

impl Host {
    /// A fresh host: no surface yet, loop running.
    pub fn new() -> (h: Host)
        ensures
            h == (Host { surface: false, exited: false }),
    {
        Host { surface: false, exited: false }
    }

    /// Handle an activation of the application.
    pub fn resumed(&mut self) -> (a: ResumeAction)
        ensures
            (*final(self), a) == resume_step(*old(self)),
            final(self).surface,
            final(self).exited == old(self).exited,
            a == ResumeAction::CreateSurface <==> !old(self).surface,
    {
        if self.surface {
            ResumeAction::KeepSurface
        } else {
            self.surface = true;
            ResumeAction::CreateSurface
        }
    }

    /// Handle one window event. A redraw may only be asked of a host whose
    /// surface exists: a redraw before the surface was created is a fatal
    /// programming error, not a recoverable condition, so that input is
    /// ruled out here.
    pub fn window_event(&mut self, e: WinEvent) -> (a: HostAction)
        requires
            e == WinEvent::RedrawRequested ==> old(self).surface,
        ensures
            (*final(self), a) == event_step(*old(self), e),
            a == HostAction::ExitLoop <==> e == WinEvent::CloseRequested,
            a == HostAction::ScheduleRedraw <==> e == WinEvent::RedrawRequested,
            final(self).exited == (old(self).exited || e == WinEvent::CloseRequested),
            final(self).surface == old(self).surface,
    {
        match e {
            WinEvent::CloseRequested => {
                self.exited = true;
                HostAction::ExitLoop
            },
            WinEvent::RedrawRequested => HostAction::ScheduleRedraw,
            WinEvent::Other => HostAction::Ignore,
        }
    }
}

/// A terminated loop stays terminated and does nothing more: running any
/// further events changes nothing.
pub proof fn lemma_exited_is_absorbing(h: Host, es: Seq<WinEvent>)
    requires
        h.exited,
    ensures
        run(h, es) == h,
    decreases es.len(),
{
    if es.len() > 0 {
        lemma_exited_is_absorbing(h, es.drop_first());
    }
}

/// Running a sequence of events is running a prefix, then the rest.
pub proof fn lemma_run_split(h: Host, es: Seq<WinEvent>, i: int)
    requires
        0 <= i <= es.len(),
    ensures
        run(h, es) == run(run(h, es.take(i)), es.skip(i)),
    decreases i,
{
    if i > 0 {
        let h1 = loop_step(h, es[0]).0;
        assert(es.take(i).drop_first() =~= es.drop_first().take(i - 1));
        assert(es.skip(i) =~= es.drop_first().skip(i - 1));
        lemma_run_split(h1, es.drop_first(), i - 1);
    } else {
        assert(es.take(0) =~= Seq::<WinEvent>::empty());
        assert(es.skip(0) =~= es);
    }
}

/// A close request terminates the loop: however the host got where it is,
/// after the close request at position `i` the loop is terminated, and
/// every later event is dropped without any action.
pub proof fn lemma_close_terminates(h: Host, es: Seq<WinEvent>, i: int, j: int)
    requires
        0 <= i < j < es.len(),
        es[i] == WinEvent::CloseRequested,
    ensures
        run(h, es.take(j)).exited,
        action_at(h, es, j) is None,
{
    reveal_with_fuel(run, 2);
    let before = run(h, es.take(i));
    lemma_run_split(h, es.take(i + 1), i);
    assert(es.take(i + 1).take(i) =~= es.take(i));
    assert(es.take(i + 1).skip(i) =~= seq![es[i]]);
    let after = run(h, es.take(i + 1));
    let one = seq![es[i]];
    assert(after == run(before, one));
    assert(one.drop_first() =~= Seq::<WinEvent>::empty());
    assert(run(before, one) == loop_step(before, one[0]).0);
    assert(after.exited);
    lemma_run_split(h, es.take(j), i + 1);
    assert(es.take(j).take(i + 1) =~= es.take(i + 1));
    lemma_exited_is_absorbing(after, es.take(j).skip(i + 1));
}

/// While the loop is running, a redraw request yields exactly the action
/// of scheduling one more redraw, and changes no host state: the redraw
/// cycle perpetuates itself, one request per request, in every reachable
/// state.
pub proof fn lemma_redraw_self_perpetuates(h: Host, es: Seq<WinEvent>, i: int)
    requires
        0 <= i < es.len(),
        es[i] == WinEvent::RedrawRequested,
        !run(h, es.take(i)).exited,
    ensures
        action_at(h, es, i) == Some(HostAction::ScheduleRedraw),
        run(h, es.take(i + 1)) == run(h, es.take(i)),
{
    reveal_with_fuel(run, 2);
    let before = run(h, es.take(i));
    lemma_run_split(h, es.take(i + 1), i);
    assert(es.take(i + 1).take(i) =~= es.take(i));
    assert(es.take(i + 1).skip(i) =~= seq![es[i]]);
    let one = seq![es[i]];
    assert(one.drop_first() =~= Seq::<WinEvent>::empty());
    assert(run(before, one) == loop_step(before, one[0]).0);
}

/// Surface creation is idempotent: after any activation the surface
/// exists, and a second activation creates nothing — so the suppression
/// listeners, installed only on `CreateSurface`, are never installed
/// twice.
pub proof fn lemma_resume_idempotent(h: Host)
    ensures
        resume_step(h).0.surface,
        resume_step(resume_step(h).0).1 == ResumeAction::KeepSurface,
        resume_step(resume_step(h).0).0 == resume_step(h).0,
{
}

} // verus!
