use pyr_tank::pyr::action::{AIAction, ACTION_SPACE};
use pyr_tank::pyr::agent::{
    decide_source, ActionSource, AgentCore, TickPlan, TrainingSchedule, EXPLORATION_SCALE,
};
use pyr_tank::pyr::feature::{first_nearest, food_slot, OBSERVATION_SPACE};
use pyr_tank::pyr::memory::ReplayMemory;
use pyr_tank::pyr::raw::{Direction, FoodKind, RawOverall};

#[test]
fn action_indices_map_to_actions() {
    assert_eq!(AIAction::from_index(0), AIAction::Idle);
    assert_eq!(AIAction::from_index(1), AIAction::Up);
    assert_eq!(AIAction::from_index(2), AIAction::Left);
    assert_eq!(AIAction::from_index(3), AIAction::Right);
    assert_eq!(AIAction::from_index(4), AIAction::Down);
    assert_eq!(AIAction::from_index(99), AIAction::Down);
}

#[test]
fn action_indices_are_one_to_one() {
    let mut seen: Vec<AIAction> = Vec::new();
    for i in 0..ACTION_SPACE {
        let a = AIAction::from_index(i);
        assert!(!seen.contains(&a));
        seen.push(a);
    }
    assert_eq!(seen.len(), 5);
}

#[test]
fn actions_become_directions() {
    assert_eq!(Direction::from(AIAction::Up), Direction::Up);
    assert_eq!(Direction::from(AIAction::Down), Direction::Down);
    assert_eq!(Direction::from(AIAction::Left), Direction::Left);
    assert_eq!(Direction::from(AIAction::Right), Direction::Right);
    assert_eq!(Direction::from(AIAction::Idle), Direction::Idle);
    assert_eq!(Direction::Up.code(), 1);
    assert_eq!(Direction::Down.code(), 2);
    assert_eq!(Direction::Left.code(), 3);
    assert_eq!(Direction::Right.code(), 4);
    assert_eq!(Direction::Idle.code(), 5);
}

#[test]
fn food_kind_codes() {
    assert_eq!(FoodKind::Food1.code(), 1);
    assert_eq!(FoodKind::Food2.code(), 2);
    assert_eq!(FoodKind::Food3.code(), 3);
    assert_eq!(FoodKind::Garbage1.code(), 4);
    assert_eq!(FoodKind::Garbage2.code(), 5);
    assert_eq!(FoodKind::Garbage3.code(), 6);
}

fn overall() -> RawOverall {
    RawOverall {
        frame: 12,
        score: 7,
        score_to_pass: 20,
        self_x: 400,
        self_y: 100,
        self_h: 30,
        self_w: 40,
        self_vel: 5,
        self_lv: 2,
        opponent_x: 350,
        opponent_y: 700,
        opponent_lv: 3,
    }
}

#[test]
fn records_are_centred_on_the_arena() {
    let raw = overall();
    let player = raw.player_record();
    assert_eq!((player.x, player.y), (50, -250));
    assert_eq!((player.height, player.width), (30, 40));
    assert_eq!((player.level, player.velocity, player.score), (2, 5, 7));
    let opponent = raw.opponent_record();
    assert_eq!((opponent.x, opponent.y, opponent.level), (0, 350, 3));
}

#[test]
fn memory_keeps_newest_first_within_capacity() {
    let mut memory: ReplayMemory<u32> = ReplayMemory::new(3);
    assert!(memory.is_empty());
    for item in 1..=4u32 {
        memory.remember(item);
    }
    assert_eq!(memory.len(), 3);
    assert_eq!(memory.capacity(), 3);
    assert_eq!(memory.get(0), Some(&4));
    assert_eq!(memory.get(1), Some(&3));
    assert_eq!(memory.get(2), Some(&2));
    assert_eq!(memory.get(3), None);
    memory.clear();
    assert!(memory.is_empty());
    assert_eq!(memory.capacity(), 3);
}

#[test]
fn memory_of_no_capacity_stays_empty() {
    let mut memory: ReplayMemory<u32> = ReplayMemory::new(0);
    memory.remember(1);
    assert_eq!(memory.len(), 0);
    assert_eq!(memory.get(0), None);
}

#[test]
fn sampled_indices_stay_in_the_memory() {
    let mut memory: ReplayMemory<u32> = ReplayMemory::new(10);
    memory.remember(1);
    memory.remember(2);
    let indices = memory.sample_indices(200);
    assert_eq!(indices.len(), 200);
    assert!(indices.iter().all(|&i| i < 2));
    let single: ReplayMemory<u32> = {
        let mut m = ReplayMemory::new(1);
        m.remember(9);
        m
    };
    assert!(single.sample_indices(20).iter().all(|&i| i == 0));
}

#[test]
fn default_schedule() {
    let schedule = TrainingSchedule::default();
    assert_eq!(schedule.exploration_rate, 1024);
    assert_eq!(schedule.update_frequency, 150);
    assert_eq!(schedule.batch_size, 32);
    assert_eq!(schedule.replay_size, 250);
    assert!(!schedule.train);
}

#[test]
fn training_is_due_on_schedule() {
    let mut schedule = TrainingSchedule::default();
    assert!(!schedule.should_train(300, 100));
    schedule.train = true;
    assert!(schedule.should_train(300, 100));
    assert!(!schedule.should_train(301, 100));
    assert!(!schedule.should_train(300, 32));
    assert!(schedule.should_train(0, 33));
}

#[test]
fn source_follows_the_draw() {
    assert_eq!(decide_source(true, true, 3), ActionSource::Explore(3));
    assert_eq!(decide_source(false, true, 3), ActionSource::Exploit);
    assert_eq!(decide_source(true, false, 3), ActionSource::Exploit);
}

#[test]
fn exploration_needs_training_mode() {
    let mut schedule = TrainingSchedule::default();
    schedule.exploration_rate = EXPLORATION_SCALE;
    let core: AgentCore<u8> = AgentCore::new(schedule);
    for _ in 0..50 {
        assert_eq!(core.choose_source(), ActionSource::Exploit);
    }
    schedule.train = true;
    let core: AgentCore<u8> = AgentCore::new(schedule);
    for _ in 0..50 {
        match core.choose_source() {
            ActionSource::Explore(i) => assert!(i < ACTION_SPACE),
            ActionSource::Exploit => panic!("a certain draw must explore"),
        }
    }
    schedule.exploration_rate = 0;
    let core: AgentCore<u8> = AgentCore::new(schedule);
    for _ in 0..50 {
        assert_eq!(core.choose_source(), ActionSource::Exploit);
    }
}

#[test]
fn agent_remembers_and_trains_on_schedule() {
    let schedule = TrainingSchedule {
        exploration_rate: 0,
        update_frequency: 2,
        batch_size: 1,
        replay_size: 3,
        train: true,
    };
    let mut core: AgentCore<u32> = AgentCore::new(schedule);
    assert_eq!(core.begin_tick(), TickPlan::Warmup);
    assert_eq!(core.step(), 1);
    assert!(!core.remember(10));
    assert_eq!(core.begin_tick(), TickPlan::Act(ActionSource::Exploit));
    assert_eq!(core.step(), 2);
    assert!(core.remember(20));
    assert_eq!(core.begin_tick(), TickPlan::Act(ActionSource::Exploit));
    assert!(!core.remember(30));
    assert_eq!(core.begin_tick(), TickPlan::Act(ActionSource::Exploit));
    assert!(core.remember(40));
    assert_eq!(core.memory().len(), 3);
    assert_eq!(core.memory().get(0), Some(&40));
    assert_eq!(core.memory().get(2), Some(&20));
    core.forget();
    assert!(core.memory().is_empty());
    assert_eq!(core.step(), 4);
    assert_eq!(core.schedule().replay_size, 3);
}

#[test]
fn food_slots() {
    assert_eq!(food_slot(true, true, true), 0);
    assert_eq!(food_slot(true, true, false), 1);
    assert_eq!(food_slot(true, false, false), 2);
    assert_eq!(food_slot(true, false, true), 3);
    assert_eq!(food_slot(false, true, true), 6);
    assert_eq!(food_slot(false, true, false), 7);
    assert_eq!(food_slot(false, false, false), 8);
    assert_eq!(food_slot(false, false, true), 9);
    assert!(food_slot(false, false, true) < OBSERVATION_SPACE);
}

#[test]
fn food_in_each_group_gets_its_own_slot() {
    // A food at (1, 3) from the player: dx + dy > 0, dx - dy < 0.
    let (dx, dy) = (1.0f32, 3.0f32);
    let slot = food_slot(true, (dx + dy).is_sign_positive(), (dx - dy).is_sign_positive());
    assert_eq!(slot, 1);
    let mut slots: Vec<usize> = Vec::new();
    for score in [true, false] {
        for a in [true, false] {
            for b in [true, false] {
                let s = food_slot(score, a, b);
                assert!(!slots.contains(&s));
                slots.push(s);
            }
        }
    }
}

#[test]
fn outside_training_nothing_is_remembered() {
    let schedule = TrainingSchedule {
        exploration_rate: 0,
        update_frequency: 0,
        batch_size: 0,
        replay_size: 3,
        train: false,
    };
    let mut core: AgentCore<u32> = AgentCore::new(schedule);
    assert_eq!(core.begin_tick(), TickPlan::Warmup);
    assert!(!core.remember(1));
    assert_eq!(core.begin_tick(), TickPlan::Act(ActionSource::Exploit));
    assert!(!core.remember(2));
    assert!(core.memory().is_empty());
}

#[test]
fn first_tick_only_warms_up() {
    let mut schedule = TrainingSchedule::default();
    schedule.train = true;
    schedule.exploration_rate = EXPLORATION_SCALE;
    let mut core: AgentCore<u8> = AgentCore::new(schedule);
    assert_eq!(core.begin_tick(), TickPlan::Warmup);
    for _ in 0..20 {
        match core.begin_tick() {
            TickPlan::Act(ActionSource::Explore(i)) => assert!(i < ACTION_SPACE),
            other => panic!("expected exploration, got {:?}", other),
        }
    }
    assert_eq!(core.step(), 21);
}

#[test]
fn warmup_answers_with_no_move() {
    assert_eq!(TickPlan::Warmup.immediate_answer(), Some(AIAction::Idle));
    assert_eq!(TickPlan::Act(ActionSource::Exploit).immediate_answer(), None);
    assert_eq!(TickPlan::Act(ActionSource::Explore(2)).immediate_answer(), None);
}

#[test]
fn schedule_outside_training_needs_no_frequency() {
    let schedule = TrainingSchedule {
        exploration_rate: 0,
        update_frequency: 0,
        batch_size: 0,
        replay_size: 1,
        train: false,
    };
    assert!(!schedule.should_train(10, 10));
}

#[test]
fn nearest_food_of_each_sign() {
    let candidates = vec![(true, 50), (false, 7), (true, 20), (true, 20), (false, 3), (true, 90)];
    assert_eq!(first_nearest(&candidates, true), Some(2));
    assert_eq!(first_nearest(&candidates, false), Some(4));
    assert_eq!(first_nearest(&vec![(true, 1), (true, 1)], false), None);
    assert_eq!(first_nearest(&Vec::new(), true), None);
    assert_eq!(first_nearest(&vec![(false, -5), (false, -5)], false), Some(0));
}
