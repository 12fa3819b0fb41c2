//! The path integrator as a finite-state machine.
//!
//! A path starts with a bounce budget. At each bounce the caller intersects
//! the current ray with the scene, asks the hit material to scatter, and
//! reports what happened as a [`Bounce`]. The machine decides whether the
//! walk goes on, and when it stops, why: the ray escaped to the sky, was
//! absorbed, or ran out of bounces.

use vstd::prelude::*;

verus! {

/// What happened to the current ray during one bounce.
#[derive(Clone, Copy, Debug, PartialEq, Eq, Structural)]
pub enum Bounce {
    /// The ray hit nothing and leaves towards the background.
    Escaped,
    /// The ray hit a surface whose material absorbed it.
    Absorbed,
    /// The ray hit a surface and its material sent out a new, attenuated ray.
    Scattered,
}

/// Why a path stopped.
#[derive(Clone, Copy, Debug, PartialEq, Eq, Structural)]
pub enum Termination {
    /// The ray escaped: the path's color is its attenuation times the sky.
    Escaped,
    /// A material absorbed the ray: the path's color is black.
    Absorbed,
    /// The bounce budget ran out before the ray escaped: black.
    Exhausted,
}

/// The state of one light path.
#[derive(Clone, Copy, Debug, PartialEq, Eq, Structural)]
pub struct PathState {
    /// The bounce budget the path started with.
    pub budget: u32,
    /// Bounces consumed so far; each one applied one attenuation.
    pub used: u32,
    /// `None` while the path is still being traced.
    pub ended: Option<Termination>,
}

impl PathState {
    /// Counters add up, and a path is traced only while budget remains.
    pub open spec fn wf(self) -> bool {
        &&& self.used <= self.budget
        &&& self.ended is None ==> self.used < self.budget
        &&& self.ended == Some(Termination::Exhausted) ==> self.used == self.budget
    }

    pub open spec fn remaining(self) -> nat {
        (self.budget - self.used) as nat
    }

    /// The state before the first bounce. With no budget at all the path is
    /// exhausted at once, before any intersection.
    pub open spec fn initial(budget: u32) -> PathState {
        PathState {
            budget,
            used: 0,
            ended: if budget == 0 { Some(Termination::Exhausted) } else { None },
        }
    }

    /// The state after one bounce of a path still being traced.
    pub open spec fn after(self, event: Bounce) -> PathState {
        match event {
            Bounce::Escaped => PathState { ended: Some(Termination::Escaped), ..self },
            Bounce::Absorbed => PathState { ended: Some(Termination::Absorbed), ..self },
            Bounce::Scattered => PathState {
                used: (self.used + 1) as u32,
                ended: if self.used + 1 == self.budget {
                    Some(Termination::Exhausted)
                } else {
                    None
                },
                ..self
            },
        }
    }

    /// Starts a path with `budget` bounces.
    pub fn new(budget: u32) -> (r: PathState)
        ensures
            r == PathState::initial(budget),
            r.wf(),
    {
        PathState {
            budget,
            used: 0,
            ended: if budget == 0 { Some(Termination::Exhausted) } else { None },
        }
    }

    /// True while the caller must intersect the current ray with the scene.
    pub fn is_tracing(&self) -> (r: bool)
        ensures
            r == (self.ended is None),
    {
        self.ended.is_none()
    }

    /// Bounces left in the budget.
    pub fn remaining_bounces(&self) -> (r: u32)
        requires
            self.wf(),
        ensures
            r == self.remaining(),
    {
        self.budget - self.used
    }

    /// Records what happened during the current bounce.
    pub fn record(&mut self, event: Bounce)
        requires
            old(self).wf(),
            old(self).ended is None,
        ensures
            *final(self) == old(self).after(event),
            final(self).wf(),
    {
        match event {
            Bounce::Escaped => {
                self.ended = Some(Termination::Escaped);
            },
            Bounce::Absorbed => {
                self.ended = Some(Termination::Absorbed);
            },
            Bounce::Scattered => {
                self.used = self.used + 1;
                if self.used == self.budget {
                    self.ended = Some(Termination::Exhausted);
                }
            },
        }
    }

    /// True when the path's color is its attenuation times the background;
    /// false when it is black (absorbed or exhausted) or still being traced.
    pub fn shows_background(&self) -> (r: bool)
        ensures
            r == (self.ended == Some(Termination::Escaped)),
    {
        match self.ended {
            Some(Termination::Escaped) => true,
            _ => false,
        }
    }
}

/// The state reached from `s` when the scene answers the bounces of the
/// path, in order, with `events`; events after the path ended are ignored.
pub open spec fn replay(s: PathState, events: Seq<Bounce>) -> PathState
    decreases events.len(),
{
    if s.ended is Some || events.len() == 0 {
        s
    } else {
        replay(s.after(events[0]), events.drop_first())
    }
}

/// Runs a path with `budget` bounces against a scene whose answers at each
/// bounce are given in order by `events`.
pub fn trace_events(budget: u32, events: &Vec<Bounce>) -> (r: PathState)
    ensures
        r == replay(PathState::initial(budget), events@),
        r.wf(),
{
    let mut s = PathState::new(budget);
    let mut i: usize = 0;
    assert(events@.subrange(0, events@.len() as int) =~= events@);
    while i < events.len() && s.is_tracing()
        invariant
            i <= events.len(),
            s.wf(),
            s.budget == budget,
            replay(s, events@.subrange(i as int, events@.len() as int))
                == replay(PathState::initial(budget), events@),
        decreases events.len() - i,
    {
        assert(events@.subrange(i as int, events@.len() as int).drop_first()
            =~= events@.subrange(i + 1, events@.len() as int));
        s.record(events[i]);
        i = i + 1;
    }
    s
}

/// Every step of a well-formed path keeps it well formed and never gives
/// back a bounce: the bounces used only grow, up to the budget.
pub proof fn lemma_step_within_budget(s: PathState, event: Bounce)
    requires
        s.wf(),
        s.ended is None,
    ensures
        s.after(event).wf(),
        s.after(event).budget == s.budget,
        s.used <= s.after(event).used <= s.budget,
{
}

/// Replaying any answers keeps a path well formed within its budget.
pub proof fn lemma_replay_within_budget(s: PathState, events: Seq<Bounce>)
    requires
        s.wf(),
    ensures
        replay(s, events).wf(),
        replay(s, events).budget == s.budget,
        s.used <= replay(s, events).used,
    decreases events.len(),
{
    if s.ended is None && events.len() > 0 {
        lemma_replay_within_budget(s.after(events[0]), events.drop_first());
    }
}

/// A path always stops within its budget: once the scene has answered as
/// many bounces as the budget allows, the path has ended, whatever the
/// answers were.
pub proof fn lemma_path_terminates(budget: u32, events: Seq<Bounce>)
    requires
        events.len() >= budget,
    ensures
        replay(PathState::initial(budget), events).ended is Some,
        replay(PathState::initial(budget), events).used <= budget,
{
    lemma_replay_terminates(PathState::initial(budget), events);
    lemma_replay_within_budget(PathState::initial(budget), events);
}

proof fn lemma_replay_terminates(s: PathState, events: Seq<Bounce>)
    requires
        s.wf(),
        s.ended is None ==> events.len() >= s.remaining(),
    ensures
        replay(s, events).ended is Some,
    decreases events.len(),
{
    if s.ended is None && events.len() > 0 {
        lemma_replay_terminates(s.after(events[0]), events.drop_first());
    }
}

/// In an empty scene every ray escapes: a path with any budget at all ends
/// at its first intersection, on the background, with no bounce consumed.
pub proof fn lemma_empty_scene_shows_background(budget: u32, events: Seq<Bounce>)
    requires
        budget > 0,
        events.len() > 0,
        forall|k: int| 0 <= k < events.len() ==> events[k] == Bounce::Escaped,
    ensures
        replay(PathState::initial(budget), events).ended == Some(Termination::Escaped),
        replay(PathState::initial(budget), events).used == 0,
{
    let s = PathState::initial(budget);
    let t = s.after(events[0]);
    assert(t.ended == Some(Termination::Escaped));
    assert(replay(t, events.drop_first()) == t);
}

/// A path whose rays keep scattering is cut off after exactly its budget of
/// bounces and counts as exhausted.
pub proof fn lemma_scattering_exhausts(budget: u32, events: Seq<Bounce>)
    requires
        events.len() >= budget,
        forall|k: int| 0 <= k < events.len() ==> events[k] == Bounce::Scattered,
    ensures
        replay(PathState::initial(budget), events).ended == Some(Termination::Exhausted),
        replay(PathState::initial(budget), events).used == budget,
{
    lemma_replay_scatters(PathState::initial(budget), events);
}

proof fn lemma_replay_scatters(s: PathState, events: Seq<Bounce>)
    requires
        s.wf(),
        s.ended is None || s.ended == Some(Termination::Exhausted),
        events.len() >= s.remaining(),
        forall|k: int| 0 <= k < events.len() ==> events[k] == Bounce::Scattered,
    ensures
        replay(s, events).ended == Some(Termination::Exhausted),
        replay(s, events).used == s.budget,
    decreases events.len(),
{
    if s.ended is None && events.len() > 0 {
        let rest = events.drop_first();
        assert forall|k: int| 0 <= k < rest.len() implies rest[k] == Bounce::Scattered by {
            assert(rest[k] == events[k + 1]);
        }
        lemma_replay_scatters(s.after(events[0]), rest);
    }
}

} // verus!
