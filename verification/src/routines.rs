//! The decisions taken inside the per-mood action routines. The world calls
//! themselves (moving, destroying, putting, the lucky action, the exploration
//! and routing collaborators) are side effects performed by the host around
//! the library; every choice between them is made here.

use vstd::prelude::*;

use crate::rolls;

verus! {

/// A step of movement on the grid, one of the four cardinal directions.
#[derive(Clone, Copy, Debug, PartialEq, Eq, Structural)]
pub enum Direction {
    Up,
    Down,
    Left,
    Right,
}

/// How many resource units the backpack can carry at most.
pub const BACKPACK_CAPACITY: usize = 20;

/// What a shopping-list entry targets in the world.
#[derive(Clone, Copy, Debug, PartialEq, Eq, Structural)]
pub enum TargetKind {
    /// A tree, carrying one unit of wood.
    Tree,
    /// A storage crate to deposit into.
    Crate,
}

/// The interaction intended for a shopping-list target.
#[derive(Clone, Copy, Debug, PartialEq, Eq, Structural)]
pub enum Intent {
    /// Destroy the target to collect its resource.
    Destroy,
    /// Put this many units of this resource into the target.
    Put(TargetKind, usize),
}

/// One entry of the Sad routine's resource plan: a target and, optionally,
/// the interaction intended for it.
#[derive(Clone, Copy, Debug, PartialEq, Eq, Structural)]
pub struct ShoppingItem {
    pub target: TargetKind,
    pub intent: Option<Intent>,
}

/// The entry that gathers wood: destroy the nearest tree.
pub open spec fn destroy_tree_item() -> ShoppingItem {
    ShoppingItem { target: TargetKind::Tree, intent: Some(Intent::Destroy) }
}

/// The entry that deposits one unit of wood into the nearest crate.
pub open spec fn deposit_wood_item() -> ShoppingItem {
    ShoppingItem { target: TargetKind::Crate, intent: Some(Intent::Put(TargetKind::Tree, 1)) }
}

/// Build the Sad routine's shopping list from the carried amount: the
/// destroy-a-tree entry is included if and only if the backpack is not yet at
/// capacity (`carried < 20`); the deposit entry is always included, after it.
pub fn build_shopping_list(carried: usize) -> (list: Vec<ShoppingItem>)
    ensures
        carried < BACKPACK_CAPACITY ==> list@ == seq![destroy_tree_item(), deposit_wood_item()],
        carried >= BACKPACK_CAPACITY ==> list@ == seq![deposit_wood_item()],
{
    let mut list: Vec<ShoppingItem> = Vec::new();
    if carried < BACKPACK_CAPACITY {
        list.push(ShoppingItem { target: TargetKind::Tree, intent: Some(Intent::Destroy) });
    }
    list.push(
        ShoppingItem { target: TargetKind::Crate, intent: Some(Intent::Put(TargetKind::Tree, 1)) },
    );
    proof {
        if carried < BACKPACK_CAPACITY {
            assert(list@ =~= seq![destroy_tree_item(), deposit_wood_item()]);
        } else {
            assert(list@ =~= seq![deposit_wood_item()]);
        }
    }
    list
}

/// A concrete world interaction proposed by the routing collaborator for the
/// current shopping-list entry.
#[derive(Clone, Copy, Debug, PartialEq, Eq, Structural)]
pub enum ResourceStep {
    Move(Direction),
    Destroy(Direction),
    Put(TargetKind, usize, Direction),
}

/// What the Sad routine does with the routing collaborator's answer.
#[derive(Clone, Copy, Debug, PartialEq, Eq, Structural)]
pub enum SadDecision {
    /// Execute this step and continue the loop.
    Perform(ResourceStep),
    /// No step is available for the current entry: leave the loop and
    /// discard the rest of the shopping list.
    Abandon,
}

/// Decide one round of the Sad routine's loop: a proposed step is executed
/// and the loop continues; no proposal ends the routine for this tick, the
/// remaining entries discarded rather than retried.
pub fn sad_round(proposal: Option<ResourceStep>) -> (r: SadDecision)
    ensures
        r == match proposal {
            Some(step) => SadDecision::Perform(step),
            None => SadDecision::Abandon,
        },
{
    match proposal {
        Some(step) => SadDecision::Perform(step),
        None => SadDecision::Abandon,
    }
}

/// What the lucky-action collaborator reported to the Happy routine.
#[derive(Clone, Debug, PartialEq, Eq)]
pub enum LuckyOutcome {
    /// The action succeeded with this message.
    Success(String),
    /// The agent lacked the energy: no retry this tick.
    NotEnoughEnergy,
    /// Any other failure.
    OtherFailure,
}

/// The Happy routine's reaction: what to report about the lucky action.
#[derive(Clone, Debug, PartialEq, Eq)]
pub enum LuckyReaction {
    /// Report the collaborator's success message.
    Announce(String),
    /// Warn that there was not enough energy; nothing else is done.
    WarnNoEnergy,
    /// Report the failure; it is swallowed.
    WarnFailure,
}

/// Decide the Happy routine's reaction to the lucky action's outcome. No
/// outcome changes the agent's state: success is reported, an
/// insufficient-energy failure is warned about and retried naturally on the
/// next Happy tick, and any other failure is reported and swallowed.
pub fn happy_reaction(outcome: LuckyOutcome) -> (r: LuckyReaction)
    ensures
        r == match outcome {
            LuckyOutcome::Success(m) => LuckyReaction::Announce(m),
            LuckyOutcome::NotEnoughEnergy => LuckyReaction::WarnNoEnergy,
            LuckyOutcome::OtherFailure => LuckyReaction::WarnFailure,
        },
{
    match outcome {
        LuckyOutcome::Success(m) => LuckyReaction::Announce(m),
        LuckyOutcome::NotEnoughEnergy => LuckyReaction::WarnNoEnergy,
        LuckyOutcome::OtherFailure => LuckyReaction::WarnFailure,
    }
}

/// The direction drawn for index `i` by the Panic routine, in the order the
/// candidates are listed.
pub open spec fn direction_for_index(i: int) -> Direction {
    if i == 0 {
        Direction::Up
    } else if i == 1 {
        Direction::Left
    } else if i == 2 {
        Direction::Down
    } else {
        Direction::Right
    }
}

/// Pick one of the four cardinal directions uniformly at random for the
/// Panic routine. Every direction can come back; callers must handle each.
pub fn random_direction() -> (d: Direction)
    ensures
        exists|i: int| 0 <= i < 4 && d == direction_for_index(i),
{
    let i = rolls::pick_index(4);
    let d = if i == 0 {
        Direction::Up
    } else if i == 1 {
        Direction::Left
    } else if i == 2 {
        Direction::Down
    } else {
        Direction::Right
    };
    proof {
        assert(d == direction_for_index(i as int));
    }
    d
}

/// Decide the Panic routine's move: the randomly drawn direction is taken
/// exactly when the world currently permits a move that way; otherwise
/// nothing is done this tick. A failure of the move itself is best-effort
/// and ignored by the host.
pub fn panic_move(drawn: Direction, allowed: bool) -> (r: Option<Direction>)
    ensures
        r == (if allowed {
            Some(drawn)
        } else {
            None::<Direction>
        }),
{
    if allowed {
        Some(drawn)
    } else {
        None
    }
}

} // verus!
