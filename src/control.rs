use vstd::prelude::*;
use crate::event::{is_quit_event, Event, KeyPress};

verus! {

/// Where the application loop stands.
#[derive(Clone, Copy, Debug, PartialEq, Eq, Structural)]
pub enum Phase {
    /// The terminal is not set up yet.
    Init,
    /// Drawing and waiting for events.
    Running,
    /// The quit key was seen and the terminal handed back.
    Terminated,
}

/// What the loop does after a step.
#[derive(Clone, Copy, Debug, PartialEq, Eq, Structural)]
pub enum Action {
    /// Draw the view again, then wait for the next event.
    Render,
    /// Leave raw mode, show the cursor, clear the screen and stop.
    Shutdown,
    /// Nothing: the step does not apply in this phase.
    Idle,
}

/// The decisions of the application loop.
#[derive(Clone, Copy, Debug, PartialEq, Eq, Structural)]
pub struct Controller {
    pub phase: Phase,
}

/// Entering the loop: from `Init` it starts running with a first render.
pub open spec fn start_step(p: Phase) -> (Phase, Action) {
    match p {
        Phase::Init => (Phase::Running, Action::Render),
        _ => (p, Action::Idle),
    }
}

/// One event received while in phase `p`.
pub open spec fn event_step(p: Phase, e: Event<KeyPress>) -> (Phase, Action) {
    match p {
        Phase::Running => if is_quit_event(e) {
            (Phase::Terminated, Action::Shutdown)
        } else {
            (Phase::Running, Action::Render)
        },
        _ => (p, Action::Idle),
    }
}

/// The phase after a stream of events, starting in `p`.
pub open spec fn phase_after(p: Phase, events: Seq<Event<KeyPress>>) -> Phase
    decreases events.len(),
{
    if events.len() == 0 {
        p
    } else {
        phase_after(event_step(p, events[0]).0, events.drop_first())
    }
}

/// The actions that a stream of events brings about, starting in `p`.
pub open spec fn actions_after(p: Phase, events: Seq<Event<KeyPress>>) -> Seq<Action>
    decreases events.len(),
{
    if events.len() == 0 {
        Seq::empty()
    } else {
        let (q, a) = event_step(p, events[0]);
        seq![a] + actions_after(q, events.drop_first())
    }
}

/// How many times a list of actions shuts the loop down.
pub open spec fn shutdowns(acts: Seq<Action>) -> nat
    decreases acts.len(),
{
    if acts.len() == 0 {
        0
    } else {
        (if acts[0] is Shutdown { 1nat } else { 0nat }) + shutdowns(acts.drop_first())
    }
}

impl Controller {
    pub fn new() -> (r: Controller)
        ensures
            r.phase == Phase::Init,
    {
        Controller { phase: Phase::Init }
    }

    /// Enters the loop once the terminal is set up.
    pub fn start(&mut self) -> (r: Action)
        ensures
            (final(self).phase, r) == start_step(old(self).phase),
    {
        match self.phase {
            Phase::Init => {
                self.phase = Phase::Running;
                Action::Render
            },
            _ => Action::Idle,
        }
    }

    /// Handles one received event: while running, the quit key ends the
    /// loop and any other event asks for a redraw.
    pub fn handle(&mut self, e: &Event<KeyPress>) -> (r: Action)
        ensures
            (final(self).phase, r) == event_step(old(self).phase, *e),
    {
        match self.phase {
            Phase::Running => {
                if e.is_quit() {
                    self.phase = Phase::Terminated;
                    Action::Shutdown
                } else {
                    Action::Render
                }
            },
            _ => Action::Idle,
        }
    }

    pub fn is_running(&self) -> (r: bool)
        ensures
            r == (self.phase == Phase::Running),
    {
        self.phase == Phase::Running
    }
}

/// Once terminated, the loop stays terminated and does nothing more.
pub proof fn lemma_terminated_is_final(events: Seq<Event<KeyPress>>)
    ensures
        phase_after(Phase::Terminated, events) == Phase::Terminated,
        actions_after(Phase::Terminated, events) == Seq::new(events.len(), |i: int| Action::Idle),
        shutdowns(actions_after(Phase::Terminated, events)) == 0,
    decreases events.len(),
{
    if events.len() > 0 {
        lemma_terminated_is_final(events.drop_first());
        let acts = actions_after(Phase::Terminated, events);
        assert(acts.drop_first() =~= actions_after(Phase::Terminated, events.drop_first()));
        assert(acts =~= Seq::new(events.len(), |i: int| Action::Idle));
    }
}

/// While no quit key comes, the running loop keeps running and redraws
/// after every event.
pub proof fn lemma_keeps_running(events: Seq<Event<KeyPress>>)
    requires
        forall|i: int| 0 <= i < events.len() ==> !is_quit_event(#[trigger] events[i]),
    ensures
        phase_after(Phase::Running, events) == Phase::Running,
        actions_after(Phase::Running, events) == Seq::new(events.len(), |i: int| Action::Render),
    decreases events.len(),
{
    if events.len() > 0 {
        let rest = events.drop_first();
        assert(forall|i: int| 0 <= i < rest.len() ==> rest[i] == events[i + 1]);
        lemma_keeps_running(rest);
        assert(!is_quit_event(events[0]));
        let acts = actions_after(Phase::Running, events);
        assert(acts =~= Seq::new(events.len(), |i: int| Action::Render));
    }
}

/// A quit key received while running ends the loop exactly once, however
/// many events follow it.
pub proof fn lemma_quits_once(events: Seq<Event<KeyPress>>)
    requires
        exists|i: int| 0 <= i < events.len() && is_quit_event(#[trigger] events[i]),
    ensures
        phase_after(Phase::Running, events) == Phase::Terminated,
        shutdowns(actions_after(Phase::Running, events)) == 1,
    decreases events.len(),
{
    let i = choose|i: int| 0 <= i < events.len() && is_quit_event(#[trigger] events[i]);
    let rest = events.drop_first();
    let acts = actions_after(Phase::Running, events);
    if is_quit_event(events[0]) {
        lemma_terminated_is_final(rest);
        assert(acts.drop_first() =~= actions_after(Phase::Terminated, rest));
    } else {
        assert(rest[i - 1] == events[i]);
        lemma_quits_once(rest);
        assert(acts.drop_first() =~= actions_after(Phase::Running, rest));
    }
}

} // verus!
