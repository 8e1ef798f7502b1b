use vstd::prelude::*;

use crate::pyr::action::{AIAction, ACTION_SPACE};
use crate::pyr::memory::{remembered, ReplayMemory};
use crate::rng::{chance, random_index};

verus! {

/// The denominator of the exploration rate: an exploration rate of `r`
/// explores with probability `r / EXPLORATION_SCALE`.
pub const EXPLORATION_SCALE: u32 = 4096;

/// The integer settings that drive the agent's training loop.
#[derive(Clone, Copy, Debug)]
pub struct TrainingSchedule {
    /// Chance of exploring, in units of `1 / EXPLORATION_SCALE`.
    pub exploration_rate: u32,
    /// Train on every `update_frequency`-th tick.
    pub update_frequency: usize,
    /// Experiences sampled per training step.
    pub batch_size: usize,
    /// Capacity of the replay memory.
    pub replay_size: usize,
    /// Whether the agent learns (explores, remembers, trains) at all.
    pub train: bool,
}

impl Default for TrainingSchedule {
    fn default() -> (schedule: Self)
        ensures
            schedule.exploration_rate == 1024,
            schedule.update_frequency == 150,
            schedule.batch_size == 32,
            schedule.replay_size == 250,
            !schedule.train,
    {
        TrainingSchedule {
            exploration_rate: 1024,
            update_frequency: 150,
            batch_size: 32,
            replay_size: 250,
            train: false,
        }
    }
}

/// Whether a training step is due on tick `step` with `memory_len`
/// experiences remembered.
pub open spec fn training_due(schedule: TrainingSchedule, step: nat, memory_len: nat) -> bool {
    &&& schedule.train
    &&& step % (schedule.update_frequency as nat) == 0
    &&& memory_len > schedule.batch_size
}

impl TrainingSchedule {
    /// Whether a training step is due on tick `step` with `memory_len`
    /// experiences remembered: in training mode, on every
    /// `update_frequency`-th tick, once the memory holds more than a batch.
    pub fn should_train(&self, step: usize, memory_len: usize) -> (due: bool)
        requires
            self.train ==> self.update_frequency > 0,
        ensures
            due == training_due(*self, step as nat, memory_len as nat),
    {
        self.train && step % self.update_frequency == 0 && memory_len > self.batch_size
    }
}

/// Where the action of a tick comes from.
#[derive(PartialEq, Eq, Structural, Clone, Copy, Debug)]
pub enum ActionSource {
    /// A random action index, drawn for exploration.
    Explore(u32),
    /// The action that the model rates best.
    Exploit,
}

/// The source of an action, given the exploration draw and, when it is
/// taken, the random action index: exploration happens only in training mode.
pub open spec fn source_for(train: bool, explore_roll: bool, random_action: u32) -> ActionSource {
    if train && explore_roll {
        ActionSource::Explore(random_action)
    } else {
        ActionSource::Exploit
    }
}

/// Decides where the action of a tick comes from, given the outcome of the
/// exploration draw and the random action index drawn for it.
pub fn decide_source(train: bool, explore_roll: bool, random_action: u32) -> (source: ActionSource)
    ensures
        source == source_for(train, explore_roll, random_action),
{
    if train && explore_roll {
        ActionSource::Explore(random_action)
    } else {
        ActionSource::Exploit
    }
}

/// What to do on a tick.
#[derive(PartialEq, Eq, Structural, Clone, Copy, Debug)]
pub enum TickPlan {
    /// Only remember the state, to act from it on the next tick.
    Warmup,
    /// Act, with the action coming from the given source.
    Act(ActionSource),
}

impl TickPlan {
    /// The answer a tick gives without consulting the model: the warm-up
    /// tick answers with no move; a tick that acts has no answer yet.
    pub fn immediate_answer(&self) -> (answer: Option<AIAction>)
        ensures
            *self == TickPlan::Warmup ==> answer == Some(AIAction::Idle),
            *self is Act ==> answer is None,
    {
        match self {
            TickPlan::Warmup => Some(AIAction::Idle),
            TickPlan::Act(_) => None,
        }
    }
}

/// The bookkeeping of the arena agent between ticks: the tick counter and
/// the replay memory, sized by the schedule.
pub struct AgentCore<E> {
    schedule: TrainingSchedule,
    step: usize,
    memory: ReplayMemory<E>,
}

impl<E> AgentCore<E> {
    #[verifier::type_invariant]
    spec fn memory_sized(self) -> bool {
        self.memory.limit() == self.schedule.replay_size
    }

    /// The schedule this agent follows.
    pub closed spec fn schedule_spec(&self) -> TrainingSchedule {
        self.schedule
    }

    /// The number of ticks seen so far.
    pub closed spec fn step_spec(&self) -> nat {
        self.step as nat
    }

    /// The experiences remembered, the most recent first.
    pub closed spec fn memory_spec(&self) -> Seq<E> {
        self.memory@
    }

    /// A fresh agent: no tick seen, nothing remembered.
    pub fn new(schedule: TrainingSchedule) -> (core: Self)
        ensures
            core.schedule_spec() == schedule,
            core.step_spec() == 0,
            core.memory_spec() == Seq::<E>::empty(),
    {
        AgentCore { schedule, step: 0, memory: ReplayMemory::new(schedule.replay_size) }
    }

    /// The schedule this agent follows.
    pub fn schedule(&self) -> (schedule: TrainingSchedule)
        ensures
            schedule == self.schedule_spec(),
    {
        self.schedule
    }

    /// The number of ticks seen so far.
    pub fn step(&self) -> (step: usize)
        ensures
            step == self.step_spec(),
    {
        self.step
    }

    /// The replay memory.
    pub fn memory(&self) -> (memory: &ReplayMemory<E>)
        ensures
            memory@ == self.memory_spec(),
            memory.limit() == self.schedule_spec().replay_size,
    {
        proof {
            use_type_invariant(self);
        }
        &self.memory
    }

    /// Starts a tick: counts it, and plans it. The first tick only shows the
    /// agent a state to start from; every later one acts, with the action
    /// coming from the source `choose_source` picks.
    pub fn begin_tick(&mut self) -> (plan: TickPlan)
        requires
            old(self).step_spec() < usize::MAX,
            old(self).step_spec() > 0 ==> old(self).schedule_spec().exploration_rate
                <= EXPLORATION_SCALE,
        ensures
            final(self).step_spec() == old(self).step_spec() + 1,
            final(self).schedule_spec() == old(self).schedule_spec(),
            final(self).memory_spec() == old(self).memory_spec(),
            (plan == TickPlan::Warmup) == (old(self).step_spec() == 0),
            plan matches TickPlan::Act(source) ==> {
                &&& source matches ActionSource::Explore(index) ==> old(
                    self,
                ).schedule_spec().train && index < ACTION_SPACE
                &&& !old(self).schedule_spec().train ==> source == ActionSource::Exploit
                &&& old(self).schedule_spec().exploration_rate == 0 ==> source
                    == ActionSource::Exploit
                &&& old(self).schedule_spec().train && old(self).schedule_spec().exploration_rate
                    == EXPLORATION_SCALE ==> source is Explore
            },
    {
        proof {
            use_type_invariant(&*self);
        }
        let first = self.step == 0;
        self.step = self.step + 1;
        if first {
            TickPlan::Warmup
        } else {
            TickPlan::Act(self.choose_source())
        }
    }

    /// Decides where this tick's action comes from: with probability
    /// `exploration_rate / EXPLORATION_SCALE`, and only in training mode, a
    /// random action index; otherwise the model's choice.
    pub fn choose_source(&self) -> (source: ActionSource)
        requires
            self.schedule_spec().exploration_rate <= EXPLORATION_SCALE,
        ensures
            source matches ActionSource::Explore(index) ==> self.schedule_spec().train && index
                < ACTION_SPACE,
            !self.schedule_spec().train ==> source == ActionSource::Exploit,
            self.schedule_spec().exploration_rate == 0 ==> source == ActionSource::Exploit,
            self.schedule_spec().train && self.schedule_spec().exploration_rate
                == EXPLORATION_SCALE ==> source is Explore,
    {
        let explore_roll = chance(self.schedule.exploration_rate, EXPLORATION_SCALE);
        let random_action: u32 = if self.schedule.train && explore_roll {
            let drawn = random_index(ACTION_SPACE as usize);
            drawn as u32
        } else {
            0
        };
        let source = decide_source(self.schedule.train, explore_roll, random_action);
        source
    }

    /// In training mode, remembers an experience and tells whether a training
    /// step is due now. Outside training mode the agent learns nothing: the
    /// memory stays as it is and no training step is due.
    pub fn remember(&mut self, experience: E) -> (train_now: bool)
        requires
            old(self).schedule_spec().train ==> old(self).schedule_spec().update_frequency > 0,
        ensures
            old(self).schedule_spec().train ==> final(self).memory_spec() == remembered(
                old(self).memory_spec(),
                experience,
                old(self).schedule_spec().replay_size as nat,
            ),
            !old(self).schedule_spec().train ==> final(self).memory_spec() == old(
                self,
            ).memory_spec(),
            final(self).step_spec() == old(self).step_spec(),
            final(self).schedule_spec() == old(self).schedule_spec(),
            train_now == training_due(
                old(self).schedule_spec(),
                old(self).step_spec(),
                final(self).memory_spec().len(),
            ),
    {
        if !self.schedule.train {
            return false;
        }
        proof {
            use_type_invariant(&*self);
        }
        let mut memory = ReplayMemory::new(self.schedule.replay_size);
        std::mem::swap(&mut memory, &mut self.memory);
        memory.remember(experience);
        let len = memory.len();
        self.memory = memory;
        self.schedule.should_train(self.step, len)
    }

    /// Forgets every remembered experience (done at each checkpoint).
    pub fn forget(&mut self)
        ensures
            final(self).memory_spec() == Seq::<E>::empty(),
            final(self).step_spec() == old(self).step_spec(),
            final(self).schedule_spec() == old(self).schedule_spec(),
    {
        self.memory = ReplayMemory::new(self.schedule.replay_size);
    }
}

} // verus!
