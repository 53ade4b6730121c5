//! The mood state machine: states, sounds, commands, and the per-tick
//! probabilistic transition policy.

use vstd::prelude::*;

verus! {

/// The agent's emotional state. Exactly one value is active at a time; it is
/// owned by the controller and mutated only by the transition policy.
#[derive(Clone, Copy, Debug, PartialEq, Eq, Structural)]
pub enum Mood {
    Happy,
    Calm,
    Sad,
    Panic,
}

/// A sound effect associated with a mood, played when the agent enters it.
#[derive(Clone, Copy, Debug, PartialEq, Eq, Structural)]
pub enum Sound {
    Happy,
    Calm,
    Sad,
    Panic,
}

/// An instruction sent from the decision loop to the audio worker. Commands
/// are immutable and consumed at most once; `Stop` is defined but never
/// emitted by the current policy, and the worker treats it as a no-op.
#[derive(Clone, Copy, Debug, PartialEq, Eq, Structural)]
pub enum Command {
    Play(Sound),
    Stop,
}

/// Per-tick probability, in thousandths, of the Happy-to-Calm trial.
pub const CHANCE_HAPPY_TO_CALM_PER_MILLE: u32 = 100;

/// Per-tick probability, in thousandths, of the Calm-to-Sad trial (checked
/// first in Calm).
pub const CHANCE_CALM_TO_SAD_PER_MILLE: u32 = 10;

/// Per-tick probability, in thousandths, of the Calm-to-Happy trial (checked
/// second in Calm, so it can override the first).
pub const CHANCE_CALM_TO_HAPPY_PER_MILLE: u32 = 10;

/// Per-tick probability, in thousandths, of the Sad-to-Calm trial (checked
/// first in Sad).
pub const CHANCE_SAD_TO_CALM_PER_MILLE: u32 = 15;

/// Per-tick probability, in thousandths, of the Sad-to-Panic trial (checked
/// second in Sad, so it can override the first).
pub const CHANCE_SAD_TO_PANIC_PER_MILLE: u32 = 5;

/// Per-tick probability, in thousandths, of the Panic-to-Sad trial.
pub const CHANCE_PANIC_TO_SAD_PER_MILLE: u32 = 90;

/// The denominator under the per-mille probabilities above.
pub const CHANCE_DENOMINATOR: u32 = 1000;

/// The probability, in thousandths, of the first-checked trial of `m`.
pub open spec fn first_trial_chance(m: Mood) -> u32 {
    match m {
        Mood::Happy => CHANCE_HAPPY_TO_CALM_PER_MILLE,
        Mood::Calm => CHANCE_CALM_TO_SAD_PER_MILLE,
        Mood::Sad => CHANCE_SAD_TO_CALM_PER_MILLE,
        Mood::Panic => CHANCE_PANIC_TO_SAD_PER_MILLE,
    }
}

/// The probability, in thousandths, of the second-checked trial of `m`;
/// only Calm and Sad have one.
pub open spec fn second_trial_chance(m: Mood) -> u32 {
    match m {
        Mood::Calm => CHANCE_CALM_TO_HAPPY_PER_MILLE,
        Mood::Sad => CHANCE_SAD_TO_PANIC_PER_MILLE,
        _ => 0,
    }
}

/// Whether `m` has a second transition trial to roll.
pub open spec fn has_second_trial(m: Mood) -> bool {
    m == Mood::Calm || m == Mood::Sad
}

/// The per-mille probabilities of the first- and second-checked trials of
/// `m`, both at most the denominator.
pub fn trial_chances(m: Mood) -> (r: (u32, u32))
    ensures
        r.0 == first_trial_chance(m),
        r.1 == second_trial_chance(m),
        r.0 <= CHANCE_DENOMINATOR,
        r.1 <= CHANCE_DENOMINATOR,
{
    match m {
        Mood::Happy => (CHANCE_HAPPY_TO_CALM_PER_MILLE, 0),
        Mood::Calm => (CHANCE_CALM_TO_SAD_PER_MILLE, CHANCE_CALM_TO_HAPPY_PER_MILLE),
        Mood::Sad => (CHANCE_SAD_TO_CALM_PER_MILLE, CHANCE_SAD_TO_PANIC_PER_MILLE),
        Mood::Panic => (CHANCE_PANIC_TO_SAD_PER_MILLE, 0),
    }
}

/// Whether `m` has a second transition trial to roll.
pub fn mood_has_second_trial(m: Mood) -> (b: bool)
    ensures
        b == has_second_trial(m),
{
    match m {
        Mood::Calm => true,
        Mood::Sad => true,
        _ => false,
    }
}

/// The mood reached from `m` when the first-checked trial fired with outcome
/// `first` and the second-checked trial (present only in Calm and Sad) fired
/// with outcome `second`. Both trials assign unconditionally, in order, so
/// when both fire the later-checked one wins.
pub open spec fn next_mood(m: Mood, first: bool, second: bool) -> Mood {
    match m {
        Mood::Happy => if first { Mood::Calm } else { Mood::Happy },
        Mood::Calm => if second { Mood::Happy } else if first { Mood::Sad } else { Mood::Calm },
        Mood::Sad => if second { Mood::Panic } else if first { Mood::Calm } else { Mood::Sad },
        Mood::Panic => if first { Mood::Sad } else { Mood::Panic },
    }
}

/// The announcements emitted while resolving the trials: each trial that
/// fires emits `Play` of its target mood's sound, in the order the trials are
/// checked, even when a later trial overrides the mood.
pub open spec fn announcements(m: Mood, first: bool, second: bool) -> Seq<Command> {
    match m {
        Mood::Happy => if first {
            seq![Command::Play(Sound::Calm)]
        } else {
            Seq::<Command>::empty()
        },
        Mood::Calm => {
            let on_first = if first {
                seq![Command::Play(Sound::Sad)]
            } else {
                Seq::<Command>::empty()
            };
            let on_second = if second {
                seq![Command::Play(Sound::Happy)]
            } else {
                Seq::<Command>::empty()
            };
            on_first + on_second
        },
        Mood::Sad => {
            let on_first = if first {
                seq![Command::Play(Sound::Calm)]
            } else {
                Seq::<Command>::empty()
            };
            let on_second = if second {
                seq![Command::Play(Sound::Panic)]
            } else {
                Seq::<Command>::empty()
            };
            on_first + on_second
        },
        Mood::Panic => if first {
            seq![Command::Play(Sound::Sad)]
        } else {
            Seq::<Command>::empty()
        },
    }
}

/// Resolve one tick's transition trials: returns the next mood together with
/// the announcement commands, in the order the trials were checked.
pub fn resolve_transition(m: Mood, first: bool, second: bool) -> (r: (Mood, Vec<Command>))
    ensures
        r.0 == next_mood(m, first, second),
        r.1@ == announcements(m, first, second),
{
    let mut next: Mood = m;
    let mut emitted: Vec<Command> = Vec::new();
    match m {
        Mood::Happy => {
            if first {
                next = Mood::Calm;
                emitted.push(Command::Play(Sound::Calm));
            }
        },
        Mood::Calm => {
            if first {
                next = Mood::Sad;
                emitted.push(Command::Play(Sound::Sad));
            }
            if second {
                next = Mood::Happy;
                emitted.push(Command::Play(Sound::Happy));
            }
        },
        Mood::Sad => {
            if first {
                next = Mood::Calm;
                emitted.push(Command::Play(Sound::Calm));
            }
            if second {
                next = Mood::Panic;
                emitted.push(Command::Play(Sound::Panic));
            }
        },
        Mood::Panic => {
            if first {
                next = Mood::Sad;
                emitted.push(Command::Play(Sound::Sad));
            }
        },
    }
    proof {
        assert(emitted@ =~= announcements(m, first, second));
    }
    (next, emitted)
}

/// In the Calm state the to-Sad trial is checked before the to-Happy trial,
/// and each firing trial assigns the mood unconditionally; so when both
/// trials fire in the same tick the later-checked one wins and the agent
/// ends the tick Happy.
pub proof fn lemma_calm_both_trials_end_happy()
    ensures
        next_mood(Mood::Calm, true, true) == Mood::Happy,
{
}

} // verus!
