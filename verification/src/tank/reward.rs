use vstd::prelude::*;

use crate::tank::action::Action;

verus! {

/// Below this much oil a tank heads for an oil station.
pub const LOW_OIL: i32 = 40;

/// With more power than this a tank hunts enemies, and shooting pays off.
pub const POWER_THRESHOLD: i32 = 7;

/// The integer part of a tank's state that the reward reads.
#[derive(Clone, Copy, PartialEq, Eq, Structural, Debug)]
pub struct Standing {
    pub x: i32,
    pub y: i32,
    pub power: i32,
    pub score: i32,
}

/// What a tank is heading for.
#[derive(Clone, Copy, PartialEq, Eq, Structural, Debug)]
pub enum Target {
    Oil,
    Bullet,
    Enemy,
}

/// How the distance to the target before a step compares with the distance after it.
#[derive(Clone, Copy, PartialEq, Eq, Structural, Debug)]
pub enum DistanceOrder {
    /// It was nearer before: the tank moved away.
    Less,
    Equal,
    /// It was farther before: the tank came closer.
    Greater,
}

/// What became of the target during a step.
#[derive(Clone, Copy, PartialEq, Eq, Structural, Debug)]
pub enum TargetProgress {
    /// The tank took what it was heading for.
    Reached,
    /// It did not; the distance to the target changed as given.
    Moved(DistanceOrder),
}

/// The parts of a step's reward, in tenths of a reward point.
#[derive(Clone, Copy, PartialEq, Eq, Structural, Debug)]
pub struct RewardTerms {
    /// The cost of living, paid on every step.
    pub base: i32,
    /// For the command taken.
    pub action: i32,
    /// For the progress towards the target.
    pub target: i32,
    /// For the change of the score.
    pub score: i32,
}

/// The target a tank heads for: oil when it runs low, enemies when it has
/// power to spare, bullets otherwise.
pub open spec fn target_for(low_oil: bool, power: i32) -> Target {
    if low_oil {
        Target::Oil
    } else if power > POWER_THRESHOLD {
        Target::Enemy
    } else {
        Target::Bullet
    }
}

/// Whether the target was taken between two states: oil when the oil went
/// down, bullets when the power went down; enemies never count.
pub open spec fn reached(target: Target, oil_dropped: bool, last: Standing, current: Standing) -> bool {
    match target {
        Target::Oil => oil_dropped,
        Target::Bullet => last.power > current.power,
        Target::Enemy => false,
    }
}

/// The cost of living per step, in tenths.
pub open spec fn base_tenths() -> int {
    -23
}

/// The reward for the command, in tenths: moving while stuck costs 8
/// points, shooting earns 2 with power to spare and costs 2 without.
pub open spec fn action_tenths(prev: Standing, next: Standing, action: Action) -> int {
    let stuck = prev.x == next.x && prev.y == next.y;
    if (action == Action::Forward || action == Action::Backward) && stuck {
        -80
    } else if action == Action::Shoot {
        if next.power > POWER_THRESHOLD {
            20
        } else {
            -20
        }
    } else {
        0
    }
}

/// The reward for the progress towards the target, in tenths: 15 points for
/// taking it, 5.8 for coming closer, -5 for moving away.
pub open spec fn target_tenths(progress: TargetProgress) -> int {
    match progress {
        TargetProgress::Reached => 150,
        TargetProgress::Moved(DistanceOrder::Less) => -50,
        TargetProgress::Moved(DistanceOrder::Equal) => 0,
        TargetProgress::Moved(DistanceOrder::Greater) => 58,
    }
}

/// The reward for the change of the score, in tenths: 20 points for more
/// than 2, 10 for a smaller gain, -1 otherwise.
pub open spec fn score_tenths(delta: int) -> int {
    if delta > 2 {
        200
    } else if delta > 0 {
        100
    } else {
        -10
    }
}

/// The whole reward, in tenths.
pub open spec fn total_tenths(terms: RewardTerms) -> int {
    terms.base + terms.action + terms.target + terms.score
}

/// Whether the score change of a step fits in `i32`.
pub open spec fn score_change_fits(prev: Standing, next: Standing) -> bool {
    i32::MIN <= next.score - prev.score <= i32::MAX
}

/// Chooses the target: oil when `low_oil` (the tank has less than
/// `LOW_OIL`), enemies with more than `POWER_THRESHOLD` power, bullets otherwise.
pub fn select_target(low_oil: bool, power: i32) -> (target: Target)
    ensures
        target == target_for(low_oil, power),
{
    if low_oil {
        Target::Oil
    } else if power > POWER_THRESHOLD {
        Target::Enemy
    } else {
        Target::Bullet
    }
}

/// Whether `target` was taken between `last` and `current`; `oil_dropped`
/// tells whether the oil went down.
pub fn target_reached(target: Target, oil_dropped: bool, last: &Standing, current: &Standing) -> (hit: bool)
    ensures
        hit == reached(target, oil_dropped, *last, *current),
{
    match target {
        Target::Oil => oil_dropped,
        Target::Bullet => last.power > current.power,
        Target::Enemy => false,
    }
}

/// The reward for the step from `prev` to `next` with `action`, term by term.
pub fn reward_terms(prev: &Standing, next: &Standing, action: Action, progress: TargetProgress) -> (terms: RewardTerms)
    requires
        score_change_fits(*prev, *next),
    ensures
        terms.base == base_tenths(),
        terms.action == action_tenths(*prev, *next, action),
        terms.target == target_tenths(progress),
        terms.score == score_tenths(next.score - prev.score),
{
    let stuck = prev.x == next.x && prev.y == next.y;
    let action_term: i32 = match action {
        Action::Forward if stuck => -80,
        Action::Backward if stuck => -80,
        Action::Shoot => if next.power > POWER_THRESHOLD {
            20
        } else {
            -20
        },
        _ => 0,
    };
    let target_term: i32 = match progress {
        TargetProgress::Reached => 150,
        TargetProgress::Moved(DistanceOrder::Less) => -50,
        TargetProgress::Moved(DistanceOrder::Equal) => 0,
        TargetProgress::Moved(DistanceOrder::Greater) => 58,
    };
    let delta: i32 = next.score - prev.score;
    let score_term: i32 = if delta > 2 {
        200
    } else if delta > 0 {
        100
    } else {
        -10
    };
    RewardTerms { base: -23, action: action_term, target: target_term, score: score_term }
}


/// The reward for the step from `prev` to `next` with `action`, where
/// `reached` tells whether the target was taken: 15 points if it was,
/// otherwise points by how the distance to the target changed, as
/// `distance_order` finds (it is asked only when the target was not taken).
/// The terms are returned one by one, together making up the total.
pub fn step_reward<F: FnOnce() -> DistanceOrder>(
    prev: &Standing,
    next: &Standing,
    action: Action,
    reached: bool,
    distance_order: F,
) -> (terms: RewardTerms)
    requires
        score_change_fits(*prev, *next),
        !reached ==> call_requires(distance_order, ()),
    ensures
        terms.base == base_tenths(),
        terms.action == action_tenths(*prev, *next, action),
        terms.score == score_tenths(next.score - prev.score),
        reached ==> terms.target == target_tenths(TargetProgress::Reached),
        !reached ==> exists|order: DistanceOrder|
            call_ensures(distance_order, (), order) && terms.target == target_tenths(
                TargetProgress::Moved(order),
            ),
        total_tenths(terms) == base_tenths() + action_tenths(*prev, *next, action)
            + terms.target + score_tenths(next.score - prev.score),
{
    let progress = if reached {
        TargetProgress::Reached
    } else {
        let order = distance_order();
        TargetProgress::Moved(order)
    };
    reward_terms(prev, next, action, progress)
}

/// Every step's reward lies between -16.3 and 34.7 points.
pub proof fn lemma_reward_bounds(prev: Standing, next: Standing, action: Action, progress: TargetProgress)
    ensures
        -163 <= base_tenths() + action_tenths(prev, next, action) + target_tenths(progress)
            + score_tenths(next.score - prev.score) <= 347,
{
}

/// Taking the target is worth more than any approach to it, and a larger
/// score gain never earns less.
pub proof fn lemma_reward_monotone(order: DistanceOrder, delta: int, more: int)
    ensures
        target_tenths(TargetProgress::Reached) > target_tenths(TargetProgress::Moved(order)),
        delta <= more ==> score_tenths(delta) <= score_tenths(more),
{
}

/// Driving forward or backward is punished exactly when the tank stayed in
/// place: a tank whose position changed in either coordinate, even along one
/// axis only, pays nothing for the command, and one that kept both
/// coordinates pays 8 points.
pub proof fn lemma_stuck_penalty(prev: Standing, next: Standing, action: Action)
    requires
        action == Action::Forward || action == Action::Backward,
    ensures
        prev.x != next.x ==> action_tenths(prev, next, action) == 0,
        prev.y != next.y ==> action_tenths(prev, next, action) == 0,
        prev.x == next.x && prev.y == next.y ==> action_tenths(prev, next, action) == -80,
{
}

/// Only a drop in power takes bullets: with the power unchanged or grown the
/// bullet target is not reached, whatever the oil did, and any drop reaches it.
/// Oil is reached exactly when the oil went down, whatever the power did; an
/// enemy is never reached.
pub proof fn lemma_reach_rules(oil_dropped: bool, last: Standing, current: Standing)
    ensures
        last.power <= current.power ==> !reached(Target::Bullet, oil_dropped, last, current),
        last.power > current.power ==> reached(Target::Bullet, oil_dropped, last, current),
        reached(Target::Bullet, oil_dropped, last, current) == reached(
            Target::Bullet,
            !oil_dropped,
            last,
            current,
        ),
        reached(Target::Oil, oil_dropped, last, current) == oil_dropped,
        !reached(Target::Enemy, oil_dropped, last, current),
{
}

} // verus!
