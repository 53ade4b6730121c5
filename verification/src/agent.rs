//! The agent controller: the mood, the Calm routine's carried-over move
//! plan, and the outbox of audio announcements, driven once per tick by the
//! host.
//!
//! A tick follows a fixed discipline, enforced by the contracts on the tick
//! phase: `begin_tick` selects this tick's action routine from the mood
//! alone; the host then performs the routine's world calls, recording their
//! outcomes here; `end_tick` runs the transition policy exactly once, after
//! the routine, whatever the routine's outcome was.

use vstd::prelude::*;

use crate::channel::CommandQueue;
use crate::mood;
use crate::mood::Command;
use crate::mood::Mood;
use crate::rolls;
use crate::routines::Direction;

verus! {

/// Where the controller stands inside the current tick.
#[derive(Clone, Copy, Debug, PartialEq, Eq, Structural)]
pub enum Phase {
    /// Between ticks: the next step is selecting this tick's action routine.
    Ready,
    /// This tick's action routine has been selected and the transition
    /// policy has not run yet.
    Acting,
}

/// The action routine selected for one tick.
#[derive(Clone, Copy, Debug, PartialEq, Eq, Structural)]
pub enum Routine {
    Happy,
    Calm,
    Sad,
    Panic,
}

/// The routine that a tick in mood `m` runs.
pub open spec fn routine_for(m: Mood) -> Routine {
    match m {
        Mood::Happy => Routine::Happy,
        Mood::Calm => Routine::Calm,
        Mood::Sad => Routine::Sad,
        Mood::Panic => Routine::Panic,
    }
}

/// Exactly one action routine runs per tick — the selection is a total
/// function of the mood — and it is selected solely by the current mood:
/// distinct moods select distinct routines, and equal moods always select
/// the same one.
pub proof fn lemma_routine_selection(m1: Mood, m2: Mood)
    ensures
        (routine_for(m1) == routine_for(m2)) == (m1 == m2),
{
}

/// The kinds of world-change notification the host delivers between ticks.
#[derive(Clone, Copy, Debug, PartialEq, Eq, Structural)]
pub enum WorldEvent {
    Ready,
    Terminated,
    /// The time of day or the weather changed; the new display information
    /// rides along with the notification.
    TimeChanged,
    DayChanged,
    EnergyRecharged,
    EnergyConsumed,
    Moved,
    TileContentUpdated,
    AddedToBackpack,
    RemovedFromBackpack,
}

/// What the controller does with a delivered event.
#[derive(Clone, Copy, Debug, PartialEq, Eq, Structural)]
pub enum EventReaction {
    /// Forward the new weather display information to the visualizer.
    ForwardWeather,
    /// Do nothing.
    Ignore,
}

/// The controller's state, abstracted: the mood, the pending Calm move
/// plan, the queued announcements, and the tick phase.
pub ghost struct AgentView {
    pub mood: Mood,
    pub pending: Seq<Direction>,
    pub outbox: Seq<Command>,
    pub phase: Phase,
}

/// The transition policy is independent of the action routine's success or
/// failure: two agents that start a tick in the same mood — however much
/// their pending plans or queued announcements differ from what their
/// routines did — take the same transition and emit the same announcements
/// for the same trial outcomes.
pub proof fn lemma_transition_independent_of_routine(
    a: AgentView,
    b: AgentView,
    first: bool,
    second: bool,
)
    requires
        a.mood == b.mood,
    ensures
        mood::next_mood(a.mood, first, second) == mood::next_mood(b.mood, first, second),
        mood::announcements(a.mood, first, second) == mood::announcements(b.mood, first, second),
{
}

/// The agent controller. It owns the mood exclusively: the audio side never
/// reads it, it only receives the commands drained from the outbox.
pub struct BMO {
    mood: Mood,
    calm_moves: Vec<Direction>,
    outbox: CommandQueue,
    phase: Phase,
}

impl View for BMO {
    type V = AgentView;

    closed spec fn view(&self) -> AgentView {
        AgentView {
            mood: self.mood,
            pending: self.calm_moves@,
            outbox: self.outbox@,
            phase: self.phase,
        }
    }
}

impl BMO {
    /// A fresh controller: the initial mood is Calm, no move plan is
    /// pending, and nothing has been announced.
    pub fn new() -> (agent: BMO)
        ensures
            agent@.mood == Mood::Calm,
            agent@.pending == Seq::<Direction>::empty(),
            agent@.outbox == Seq::<Command>::empty(),
            agent@.phase == Phase::Ready,
    {
        BMO {
            mood: Mood::Calm,
            calm_moves: Vec::new(),
            outbox: CommandQueue::new(),
            phase: Phase::Ready,
        }
    }

    pub fn current_mood(&self) -> (m: Mood)
        ensures
            m == self@.mood,
    {
        self.mood
    }

    /// Start a tick: select the action routine from the current mood alone.
    /// Nothing else changes; the transition policy must come afterwards,
    /// through `end_tick` or `apply_transition`.
    pub fn begin_tick(&mut self) -> (r: Routine)
        requires
            old(self)@.phase == Phase::Ready,
        ensures
            r == routine_for(old(self)@.mood),
            final(self)@.mood == old(self)@.mood,
            final(self)@.pending == old(self)@.pending,
            final(self)@.outbox == old(self)@.outbox,
            final(self)@.phase == Phase::Acting,
    {
        self.phase = Phase::Acting;
        match self.mood {
            Mood::Happy => Routine::Happy,
            Mood::Calm => Routine::Calm,
            Mood::Sad => Routine::Sad,
            Mood::Panic => Routine::Panic,
        }
    }

    /// React to a host event, delivered between ticks: only a time/weather
    /// change is acted on — its display information is forwarded to the
    /// visualizer — and every other event is ignored. The controller's own
    /// state never changes on an event.
    pub fn handle_event(&self, e: WorldEvent) -> (r: EventReaction)
        ensures
            r == (match e {
                WorldEvent::TimeChanged => EventReaction::ForwardWeather,
                _ => EventReaction::Ignore,
            }),
    {
        match e {
            WorldEvent::TimeChanged => EventReaction::ForwardWeather,
            _ => EventReaction::Ignore,
        }
    }

    /// Whether a Calm move plan is carried over from an earlier tick. A new
    /// exploration target is requested only when this is false.
    pub fn has_pending_plan(&self) -> (b: bool)
        ensures
            b == (self@.pending.len() != 0),
    {
        self.calm_moves.len() != 0
    }

    /// The carried-over Calm move plan, oldest step first.
    pub fn pending_plan(&self) -> (p: &Vec<Direction>)
        ensures
            p@ == self@.pending,
    {
        &self.calm_moves
    }

    /// The Calm routine found no unexplored border to walk to: nothing is
    /// done this tick, and the controller is left exactly as it was — in
    /// particular the pending plan stays empty.
    pub fn record_no_border(&mut self)
        requires
            old(self)@.phase == Phase::Acting,
            old(self)@.mood == Mood::Calm,
            old(self)@.pending.len() == 0,
        ensures
            final(self)@ == old(self)@,
    {
    }

    /// The Calm routine executed a freshly computed plan. On full success
    /// there is nothing to carry over; on partial failure the collaborator
    /// handed back the unconsumed remainder, which is stored for retry on
    /// the next Calm tick.
    pub fn record_fresh_plan_outcome(&mut self, leftover: Option<Vec<Direction>>)
        requires
            old(self)@.phase == Phase::Acting,
            old(self)@.mood == Mood::Calm,
            old(self)@.pending.len() == 0,
        ensures
            final(self)@.mood == old(self)@.mood,
            final(self)@.outbox == old(self)@.outbox,
            final(self)@.phase == old(self)@.phase,
            final(self)@.pending == (match leftover {
                Some(l) => l@,
                None => Seq::<Direction>::empty(),
            }),
    {
        match leftover {
            Some(l) => {
                self.calm_moves = l;
            },
            None => {},
        }
    }

    /// The Calm routine replayed the stored plan. Whether it fully succeeded
    /// or failed again, the plan is cleared: a remainder of a replay is
    /// discarded, not carried over a second time.
    pub fn record_stored_plan_executed(&mut self)
        requires
            old(self)@.phase == Phase::Acting,
            old(self)@.mood == Mood::Calm,
        ensures
            final(self)@.mood == old(self)@.mood,
            final(self)@.outbox == old(self)@.outbox,
            final(self)@.phase == old(self)@.phase,
            final(self)@.pending == Seq::<Direction>::empty(),
    {
        self.calm_moves = Vec::new();
    }

    /// Resolve this tick's transition from the given trial outcomes: the
    /// mood becomes `next_mood` of the current mood and the outcomes, each
    /// fired trial's announcement is queued in checking order, and the tick
    /// ends. The result depends on the mood and the outcomes alone — nothing
    /// the action routine did, short of changing the mood, can affect it.
    pub fn apply_transition(&mut self, first: bool, second: bool)
        requires
            old(self)@.phase == Phase::Acting,
        ensures
            final(self)@.mood == mood::next_mood(old(self)@.mood, first, second),
            final(self)@.outbox == old(self)@.outbox + mood::announcements(
                old(self)@.mood,
                first,
                second,
            ),
            final(self)@.pending == old(self)@.pending,
            final(self)@.phase == Phase::Ready,
    {
        let (next, emitted) = mood::resolve_transition(self.mood, first, second);
        self.mood = next;
        self.outbox.enqueue_all(&emitted);
        self.phase = Phase::Ready;
    }

    /// End the tick: roll each transition trial the current mood has, with
    /// its fixed per-mille probability, and resolve the transition from the
    /// outcomes. Runs exactly once per tick, after the action routine (the
    /// phase contracts admit no other order), and leaves the pending plan
    /// untouched: for some pair of trial outcomes, the mood and the queued
    /// announcements are exactly what `apply_transition` gives for them.
    pub fn end_tick(&mut self)
        requires
            old(self)@.phase == Phase::Acting,
        ensures
            final(self)@.phase == Phase::Ready,
            final(self)@.pending == old(self)@.pending,
            exists|first: bool, second: bool|
                final(self)@.mood == mood::next_mood(old(self)@.mood, first, second)
                    && final(self)@.outbox == old(self)@.outbox + mood::announcements(
                    old(self)@.mood,
                    first,
                    second,
                ),
    {
        let chances = mood::trial_chances(self.mood);
        let first = rolls::bernoulli(chances.0, mood::CHANCE_DENOMINATOR);
        let second = if mood::mood_has_second_trial(self.mood) {
            rolls::bernoulli(chances.1, mood::CHANCE_DENOMINATOR)
        } else {
            false
        };
        self.apply_transition(first, second);
        proof {
            assert(self@.mood == mood::next_mood(old(self)@.mood, first, second) && self@.outbox
                == old(self)@.outbox + mood::announcements(old(self)@.mood, first, second));
        }
    }

    /// Hand over every announcement queued so far, oldest first, leaving the
    /// outbox empty. The host forwards them, in this order, to the audio
    /// worker's channel; FIFO order is preserved end to end.
    pub fn drain_outbox(&mut self) -> (r: Vec<Command>)
        ensures
            r@ == old(self)@.outbox,
            final(self)@.outbox == Seq::<Command>::empty(),
            final(self)@.mood == old(self)@.mood,
            final(self)@.pending == old(self)@.pending,
            final(self)@.phase == old(self)@.phase,
    {
        self.outbox.drain()
    }
}

} // verus!
