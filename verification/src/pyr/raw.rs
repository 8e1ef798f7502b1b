use vstd::prelude::*;

verus! {

/// A direction as the arena game reads it.
#[derive(PartialEq, Eq, Structural, Clone, Copy, Debug)]
pub enum Direction {
    Up,
    Down,
    Left,
    Right,
    Idle,
}

/// The number the arena game uses for a direction.
pub open spec fn direction_code(direction: Direction) -> i32 {
    match direction {
        Direction::Up => 1,
        Direction::Down => 2,
        Direction::Left => 3,
        Direction::Right => 4,
        Direction::Idle => 5,
    }
}

impl Direction {
    /// The number the arena game uses for this direction.
    pub fn code(&self) -> (code: i32)
        ensures
            code == direction_code(*self),
    {
        match self {
            Direction::Up => 1,
            Direction::Down => 2,
            Direction::Left => 3,
            Direction::Right => 4,
            Direction::Idle => 5,
        }
    }
}


/// The offset between the game's screen coordinates and the agent's
/// arena-centred coordinates.
pub const ARENA_CENTER: i64 = 350;

/// The per-frame record that the arena game hands over.
#[derive(Clone, Copy, Debug)]
pub struct RawOverall {
    pub frame: u64,
    pub score: i64,
    pub score_to_pass: i64,
    pub self_x: i64,
    pub self_y: i64,
    pub self_h: i64,
    pub self_w: i64,
    pub self_vel: i64,
    pub self_lv: i64,
    pub opponent_x: i64,
    pub opponent_y: i64,
    pub opponent_lv: i64,
}

/// The player as the agent sees it, in arena-centred coordinates.
#[derive(Clone, Copy, Debug)]
pub struct PlayerRecord {
    pub x: i64,
    pub y: i64,
    pub height: i64,
    pub width: i64,
    pub level: i64,
    pub velocity: i64,
    pub score: i64,
}

/// The opponent as the agent sees it, in arena-centred coordinates.
#[derive(Clone, Copy, Debug)]
pub struct OpponentRecord {
    pub x: i64,
    pub y: i64,
    pub level: i64,
}

impl RawOverall {
    /// Whether the player's position can be moved to arena-centred coordinates
    /// without leaving the range of `i64`.
    pub open spec fn player_centerable(&self) -> bool {
        &&& self.self_x >= i64::MIN + ARENA_CENTER
        &&& self.self_y >= i64::MIN + ARENA_CENTER
    }

    /// Whether the opponent's position can be moved to arena-centred
    /// coordinates without leaving the range of `i64`.
    pub open spec fn opponent_centerable(&self) -> bool {
        &&& self.opponent_x >= i64::MIN + ARENA_CENTER
        &&& self.opponent_y >= i64::MIN + ARENA_CENTER
    }

    /// The player, with its position shifted so that the arena's centre is the origin.
    pub fn player_record(&self) -> (player: PlayerRecord)
        requires
            self.player_centerable(),
        ensures
            player.x == self.self_x - ARENA_CENTER,
            player.y == self.self_y - ARENA_CENTER,
            player.height == self.self_h,
            player.width == self.self_w,
            player.level == self.self_lv,
            player.velocity == self.self_vel,
            player.score == self.score,
    {
        PlayerRecord {
            x: self.self_x - ARENA_CENTER,
            y: self.self_y - ARENA_CENTER,
            height: self.self_h,
            width: self.self_w,
            level: self.self_lv,
            velocity: self.self_vel,
            score: self.score,
        }
    }

    /// The opponent, with its position shifted so that the arena's centre is the origin.
    pub fn opponent_record(&self) -> (opponent: OpponentRecord)
        requires
            self.opponent_centerable(),
        ensures
            opponent.x == self.opponent_x - ARENA_CENTER,
            opponent.y == self.opponent_y - ARENA_CENTER,
            opponent.level == self.opponent_lv,
    {
        OpponentRecord {
            x: self.opponent_x - ARENA_CENTER,
            y: self.opponent_y - ARENA_CENTER,
            level: self.opponent_lv,
        }
    }
}

/// A piece of food (or garbage) as the arena game hands it over.
#[derive(Clone, Copy, Debug)]
pub struct RawFood {
    pub h: i64,
    pub w: i64,
    pub x: i64,
    pub y: i64,
    pub score: i64,
    pub kind: i32,
}

/// The kinds of items that lie in the arena.
#[derive(PartialEq, Eq, Structural, Clone, Copy, Debug)]
pub enum FoodKind {
    Food1,
    Food2,
    Food3,
    Garbage1,
    Garbage2,
    Garbage3,
}

/// The number the arena game uses for a kind of item.
pub open spec fn food_kind_code(kind: FoodKind) -> i32 {
    match kind {
        FoodKind::Food1 => 1,
        FoodKind::Food2 => 2,
        FoodKind::Food3 => 3,
        FoodKind::Garbage1 => 4,
        FoodKind::Garbage2 => 5,
        FoodKind::Garbage3 => 6,
    }
}

impl FoodKind {
    /// The number the arena game uses for this kind of item.
    pub fn code(&self) -> (code: i32)
        ensures
            code == food_kind_code(*self),
    {
        match self {
            FoodKind::Food1 => 1,
            FoodKind::Food2 => 2,
            FoodKind::Food3 => 3,
            FoodKind::Garbage1 => 4,
            FoodKind::Garbage2 => 5,
            FoodKind::Garbage3 => 6,
        }
    }
}

} // verus!
