use vstd::prelude::*;

use crate::pyr::raw::{direction_code, Direction};

verus! {

/// Number of actions the arena agent can choose from.
pub const ACTION_SPACE: u32 = 5;

/// A move chosen by the arena agent.
#[derive(PartialEq, Eq, Structural, Hash, Clone, Copy, Debug)]
pub enum AIAction {
    Up,
    Down,
    Left,
    Right,
    Idle,
}

/// The action that a model output index stands for: the order of the
/// network's output units is Idle, Up, Left, Right, Down; any larger index
/// is read as Down.
pub open spec fn action_for_index(index: u32) -> AIAction {
    if index == 0 {
        AIAction::Idle
    } else if index == 1 {
        AIAction::Up
    } else if index == 2 {
        AIAction::Left
    } else if index == 3 {
        AIAction::Right
    } else {
        AIAction::Down
    }
}

/// The arena direction that an action is sent to the game as.
pub open spec fn direction_for(action: AIAction) -> Direction {
    match action {
        AIAction::Up => Direction::Up,
        AIAction::Down => Direction::Down,
        AIAction::Left => Direction::Left,
        AIAction::Right => Direction::Right,
        AIAction::Idle => Direction::Idle,
    }
}

impl AIAction {
    /// Reads the index of a network output unit (or of a random draw) as an action.
    pub fn from_index(index: u32) -> (action: AIAction)
        ensures
            action == action_for_index(index),
    {
        match index {
            0 => AIAction::Idle,
            1 => AIAction::Up,
            2 => AIAction::Left,
            3 => AIAction::Right,
            _ => AIAction::Down,
        }
    }
}

impl From<AIAction> for Direction {
    fn from(value: AIAction) -> (direction: Direction) {
        match value {
            AIAction::Up => Direction::Up,
            AIAction::Down => Direction::Down,
            AIAction::Left => Direction::Left,
            AIAction::Right => Direction::Right,
            AIAction::Idle => Direction::Idle,
        }
    }
}

impl vstd::std_specs::convert::FromSpecImpl<AIAction> for Direction {
    open spec fn obeys_from_spec() -> bool {
        true
    }

    open spec fn from_spec(v: AIAction) -> Direction {
        direction_for(v)
    }
}


/// The output unit of the network that stands for an action.
pub open spec fn index_of_action(action: AIAction) -> u32 {
    match action {
        AIAction::Idle => 0,
        AIAction::Up => 1,
        AIAction::Left => 2,
        AIAction::Right => 3,
        AIAction::Down => 4,
    }
}

/// The `ACTION_SPACE` output units of the network and the five actions
/// correspond one to one: every action has its own unit, and every unit
/// stands for its own action.
pub proof fn lemma_action_indices_cover(action: AIAction, index: u32)
    ensures
        index_of_action(action) < ACTION_SPACE,
        action_for_index(index_of_action(action)) == action,
        index < ACTION_SPACE ==> index_of_action(action_for_index(index)) == index,
{
}

/// Different actions are sent to the game as different directions, each
/// numbered from 1 to 5.
pub proof fn lemma_directions_distinct(a: AIAction, b: AIAction)
    ensures
        a != b ==> direction_for(a) != direction_for(b),
        a != b ==> direction_code(direction_for(a)) != direction_code(direction_for(b)),
        1 <= direction_code(direction_for(a)) <= 5,
{
}

} // verus!
