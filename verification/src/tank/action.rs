use vstd::prelude::*;

use crate::rng::{chance, random_index};

verus! {

/// Number of features the tank agent reads from a game state.
pub const FEATRUE_SPACE: usize = 7;

/// Number of actions the tank agent's network rates.
pub const ACTION_SPACE: usize = 6;

/// The denominator of exploration chances: a numerator `n` explores with
/// probability `n / EXPLORATION_SCALE`.
pub const EXPLORATION_SCALE: u32 = 4096;

/// A command for the tank.
#[derive(PartialEq, Eq, Structural, Clone, Copy, Debug)]
pub enum Action {
    Forward,
    Backward,
    TurnRight,
    TurnLeft,
    AimRight,
    AimLeft,
    Shoot,
    Idle,
}

/// The number the game uses for a command.
pub open spec fn action_code(action: Action) -> i32 {
    match action {
        Action::Forward => 0,
        Action::Backward => 1,
        Action::TurnRight => 2,
        Action::TurnLeft => 3,
        Action::AimRight => 4,
        Action::AimLeft => 5,
        Action::Shoot => 6,
        Action::Idle => 7,
    }
}

/// The command that an output unit of the network stands for.
pub open spec fn model_action(index: int) -> Action {
    if index == 0 {
        Action::TurnRight
    } else if index == 1 {
        Action::TurnLeft
    } else if index == 2 {
        Action::AimRight
    } else if index == 3 {
        Action::AimLeft
    } else if index == 4 {
        Action::Shoot
    } else {
        Action::Forward
    }
}

/// The command that a random exploration draw from `0..ACTION_SPACE + 2`
/// stands for: the first five draws pick a turning, aiming or shooting
/// command, the remaining three move forward.
pub open spec fn exploration_action_for(draw: int) -> Action {
    if 0 <= draw < 5 {
        model_action(draw)
    } else {
        Action::Forward
    }
}

impl Action {
    /// The number the game uses for this command.
    pub fn code(&self) -> (code: i32)
        ensures
            code == action_code(*self),
    {
        match self {
            Action::Forward => 0,
            Action::Backward => 1,
            Action::TurnRight => 2,
            Action::TurnLeft => 3,
            Action::AimRight => 4,
            Action::AimLeft => 5,
            Action::Shoot => 6,
            Action::Idle => 7,
        }
    }

    /// The command that the network's output unit `index` (its argmax) stands for.
    pub fn from_model_index(index: i32) -> (action: Action)
        requires
            0 <= index < ACTION_SPACE,
        ensures
            action == model_action(index as int),
    {
        match index {
            0 => Action::TurnRight,
            1 => Action::TurnLeft,
            2 => Action::AimRight,
            3 => Action::AimLeft,
            4 => Action::Shoot,
            _ => Action::Forward,
        }
    }

    /// The command that a random exploration draw stands for.
    pub fn from_exploration_draw(draw: u32) -> (action: Action)
        ensures
            action == exploration_action_for(draw as int),
    {
        match draw {
            0 => Action::TurnRight,
            1 => Action::TurnLeft,
            2 => Action::AimRight,
            3 => Action::AimLeft,
            4 => Action::Shoot,
            _ => Action::Forward,
        }
    }
}

/// With probability `numerator / EXPLORATION_SCALE`, a random command to
/// explore with (drawn uniformly from `0..ACTION_SPACE + 2`); otherwise
/// `None`, and the network decides.
pub fn explore_action(numerator: u32) -> (action: Option<Action>)
    requires
        numerator <= EXPLORATION_SCALE,
    ensures
        action matches Some(a) ==> exists|draw: int|
            0 <= draw < ACTION_SPACE + 2 && a == exploration_action_for(draw),
        numerator == 0 ==> action is None,
        numerator == EXPLORATION_SCALE ==> action is Some,
{
    if chance(numerator, EXPLORATION_SCALE) {
        let draw = random_index(ACTION_SPACE + 2);
        let action = Action::from_exploration_draw(draw as u32);
        assert(exploration_action_for(draw as int) == action);
        Some(action)
    } else {
        None
    }
}


/// Different commands are sent to the game as different numbers, each
/// from 0 to 7.
pub proof fn lemma_action_codes_distinct(a: Action, b: Action)
    ensures
        a != b ==> action_code(a) != action_code(b),
        0 <= action_code(a) <= 7,
{
}

/// The network's `ACTION_SPACE` output units stand for six different
/// commands, none of them Backward or Idle; and every exploration draw
/// picks one of those same commands.
pub proof fn lemma_model_actions(i: int, j: int, draw: int)
    ensures
        0 <= i < ACTION_SPACE && 0 <= j < ACTION_SPACE && i != j ==> model_action(i)
            != model_action(j),
        model_action(i) != Action::Backward,
        model_action(i) != Action::Idle,
        exploration_action_for(draw) == model_action(if 0 <= draw < 5 { draw } else { 5 }),
{
}

} // verus!
