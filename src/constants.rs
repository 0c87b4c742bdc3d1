use vstd::prelude::*;

verus! {

/// Sub-pixel units per pixel, and microseconds per second.
pub const UNIT: i64 = 1_000_000;

/// Play-field size, in pixels.
pub const GAME_SIZE_X: i64 = 240;
pub const GAME_SIZE_Y: i64 = 130;

/// Centre of the play-field, in sub-pixel units.
pub const GAME_CENTER_X: i64 = 120 * UNIT;
pub const GAME_CENTER_Y: i64 = 65 * UNIT;

/// Every position is kept within this distance of the origin, in sub-pixel
/// units (a million pixels), so that the fixed-point arithmetic cannot overflow.
pub const WORLD_LIMIT: i64 = 1_000_000 * UNIT;

/// Largest sprite side accepted for a hitbox, in sub-pixel units.
pub const MAX_SPRITE_SIZE: i64 = 1_000 * UNIT;

/// Longest tick accepted, in microseconds (a hundred seconds): within it the
/// fixed-point products of speeds and tick lengths stay well inside `i64`, and
/// a bullet moved from inside the world stays within twice the world limit.
pub const MAX_DT: i64 = 100 * UNIT;

pub const PLAYER_LIVES_START: i32 = 5;
pub const PLAYER_LIVES_MAX: i32 = 7;
pub const PLAYER_TIME_INVISBLE: i64 = 2_000_000;
/// Pixels per second.
pub const PLAYER_SPEED: i64 = 90;
pub const PLAYER_SHOOT_TIME: i64 = 120_000;
/// Side of the player's square hitbox, in sub-pixel units.
pub const PLAYER_HITBOX_SIZE: i64 = 7 * UNIT;

pub const ENERMY_MINI_ANIM_TIME_SPAWN: i64 = 300_000;
pub const ENEMY_ANIM_TIME_SPAWN: i64 = 700_000;
pub const ENERMY_ANIM_TIME_FLAP: i64 = 120_000;
pub const ENERMY_MINI_HOMING_TIME_MIN: i64 = 4_000_000;
pub const ENERMY_MINI_HOMING_TIME_MAX: i64 = 10_000_000;
/// Pixels per second.
pub const ENERMY_SPEED: i64 = 50;
/// Pixels per second of the descent of a homing enemy.
pub const ENERMY_SPEED_HOMING_Y: i64 = 3;
pub const ENERMY_SHOOT_BURST_TIME: i64 = 200_000;
pub const ENERMY_SHOOT_TIME: i64 = 2_000_000;
pub const ENERMY_MAX_BURST_COUNT: i64 = 5;

pub const ENERMY_SPAWN_STARTING_COUNT: i32 = 2;
pub const ENERMY_SPAWN_MAX_COUNT: i32 = 9;
pub const TIME_UNTIL_MAX_DIFFICULTY: i64 = 70_000_000;
pub const ENERMY_SPAWN_TIME: i64 = 500_000;

/// Pixels per second.
pub const ENERMY_BULLET_SPEED: i64 = 80;
pub const PLAYER_BULLET_SPEED: i64 = 80;
pub const BULLET_ANIM_TIME_SPAWN: i64 = 300_000;
pub const BULLET_WIDTH: i64 = 2 * UNIT;
pub const BULLET_HEIGHT: i64 = 6 * UNIT;

pub const SCORE_SURVIVED_ALL: u64 = 750;
pub const SCORE_KILL_ALL: u64 = 1000;
pub const SCORE_MINI: u64 = 20;
pub const SCORE_NORMAL: u64 = 100;

} // verus!
