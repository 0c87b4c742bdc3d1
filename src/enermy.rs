use vstd::prelude::*;
use quad_rand::RandGenerator;
use crate::constants::{
    UNIT, GAME_SIZE_X, GAME_SIZE_Y, MAX_DT, WORLD_LIMIT, ENERMY_SPEED, ENERMY_SPEED_HOMING_Y,
    ENERMY_MINI_ANIM_TIME_SPAWN, ENEMY_ANIM_TIME_SPAWN, ENERMY_ANIM_TIME_FLAP,
    ENERMY_MINI_HOMING_TIME_MIN, ENERMY_MINI_HOMING_TIME_MAX, ENERMY_SHOOT_BURST_TIME,
};
use crate::geometry::{sat_time, ticks_total, lemma_ticks_total_nonneg, Vec2, Rect, sprite_size_ok, clamp, clamp_spec, keep_in_world, add_time};
use crate::bullet::{Bullet, BulletHurtType};
use crate::resources::SoundIdentifier;
use crate::rng::{draw_below, draw_range};
use crate::wave::{WaveManager, LastEnermyDeathReason};

verus! {

/// Strength class of an enemy.
#[derive(Clone, Copy, Debug, PartialEq, Eq, Structural)]
pub enum EnermyType {
    NORMAL,
    MINI,
}

#[derive(Clone, Copy, Debug, PartialEq, Eq, Structural)]
pub enum EnermyColor {
    PURPLE,
    RED,
    GREEN,
}

/// What happens when the player kills an enemy.
#[derive(Clone, Copy, Debug, PartialEq, Eq, Structural)]
pub enum EnermyDeathMethod {
    /// Nothing happens.
    NoEffect,
    /// That many mini enemies appear in a row from where it died.
    SpawnChildren(i32),
}

#[derive(Clone, Copy, Debug, PartialEq, Eq, Structural)]
pub enum EnermyCommand {
    ChangeState(EnermyState),
}

/// Side lengths of the enemy sprites, in sub-pixel units, which size their
/// hitboxes.
#[derive(Clone, Copy, Debug, PartialEq, Eq, Structural)]
pub struct SpriteSizes {
    pub normal: Vec2,
    pub mini: Vec2,
}

/// Fields that every enemy has, whatever its state.
#[derive(Clone, Copy, Debug, PartialEq, Eq, Structural)]
pub struct EnermyStateShared {
    pub pos: Vec2,
    /// Width and height of the sprite, which size the hitbox.
    pub size: Vec2,
    /// Which of the sprites for its tier and colour draws this enemy.
    pub sprite: u64,
    pub health: i32,
    pub death_method: EnermyDeathMethod,
    /// Time within the wing-flap cycle.
    pub animation_timer: i64,
    pub enermy_type: EnermyType,
    pub enermy_color: EnermyColor,
    /// Countdown to homing in on the player; mini enemies only.
    pub charge_timer_optional: Option<i64>,
}

#[derive(Clone, Copy, Debug, PartialEq, Eq, Structural)]
pub struct EnermyStateNormal {
    pub shoot_timer: i64,
}

#[derive(Clone, Copy, Debug, PartialEq, Eq, Structural)]
pub struct EnermyStateShooting {
    pub shots_left: i32,
    pub shoot_timer: i64,
}

#[derive(Clone, Copy, Debug, PartialEq, Eq, Structural)]
pub struct EnermyStateHoming {}

#[derive(Clone, Copy, Debug, PartialEq, Eq, Structural)]
pub struct EnermyStateSpawning {
    pub spawn_timer: i64,
}

#[derive(Clone, Copy, Debug, PartialEq, Eq, Structural)]
pub enum EnermyState {
    Homing(EnermyStateHoming),
    Normal(EnermyStateNormal),
    Spawning(EnermyStateSpawning),
    Shooting(EnermyStateShooting),
}

#[derive(Clone, Copy, Debug, PartialEq, Eq, Structural)]
pub struct Enermy {
    pub state_shared: EnermyStateShared,
    pub state: EnermyState,
}

/// Length of the wing-flap cycle: four frames.
pub const FLAP_CYCLE: i64 = ENERMY_ANIM_TIME_FLAP * 4;
pub const X_PADDING: i64 = 4 * UNIT;
pub const TOP_PADDING: i64 = 7 * UNIT;
pub const BOTTOM_PADDING: i64 = 60 * UNIT;
/// Number of sprite choices drawn for an enemy; the renderer reduces it to the
/// sprites it has.
pub const SPRITE_CHOICES: u64 = 64;

pub open spec fn spawn_duration(t: EnermyType) -> int {
    match t {
        EnermyType::MINI => ENERMY_MINI_ANIM_TIME_SPAWN as int,
        EnermyType::NORMAL => ENEMY_ANIM_TIME_SPAWN as int,
    }
}

/// One tick of the spawn animation: `Some` of the new elapsed time while it
/// runs, `None` once the tier's spawn duration has elapsed.
pub open spec fn spawn_step(t: EnermyType, elapsed: int, dt: int) -> Option<int> {
    if elapsed + dt >= spawn_duration(t) {
        None
    } else {
        Some(elapsed + dt)
    }
}

pub open spec fn color_of_index(i: int) -> EnermyColor {
    if i == 0 {
        EnermyColor::PURPLE
    } else if i == 1 {
        EnermyColor::GREEN
    } else {
        EnermyColor::RED
    }
}

/// A position brought into the area where enemies fly: four pixels from either
/// side, seven from the top and sixty from the bottom.
pub open spec fn in_view(p: Vec2) -> Vec2 {
    Vec2 {
        x: clamp_spec(p.x as int, X_PADDING as int, GAME_SIZE_X * UNIT - X_PADDING) as i64,
        y: clamp_spec(p.y as int, TOP_PADDING as int, GAME_SIZE_Y * UNIT - BOTTOM_PADDING) as i64,
    }
}

pub open spec fn is_in_view(p: Vec2) -> bool {
    &&& X_PADDING <= p.x <= GAME_SIZE_X * UNIT - X_PADDING
    &&& TOP_PADDING <= p.y <= GAME_SIZE_Y * UNIT - BOTTOM_PADDING
}

/// Drift of an enemy in its normal state: `speed * dt * dt` with `dt` in seconds.
pub open spec fn drift(dt: int) -> int {
    ENERMY_SPEED * (dt * dt) / UNIT as int
}

/// Where a normal-state enemy is after a tick: drifted sideways, then kept in view.
pub open spec fn normal_pos(p: Vec2, dt: int) -> Vec2 {
    in_view(Vec2 { x: (p.x + drift(dt)) as i64, y: p.y })
}

/// The wing-flap clock after a tick, wrapped round its cycle.
pub open spec fn flap_after(a: int, dt: int) -> int {
    (a + dt) % FLAP_CYCLE as int
}

/// Horizontal step of a homing enemy: towards the player's side, at a fifth of
/// a pixel per second scaled by the sway in `[0, 1000]` thousandths.
pub open spec fn homing_dx(x: int, player_x: int, sway: int, dt: int) -> int {
    let s = (sway + 1000) / 2;
    if player_x - x > 0 {
        s * dt / 5000
    } else {
        -(s * dt / 5000)
    }
}

pub open spec fn homing_pos(p: Vec2, player: Vec2, sway: int, dt: int) -> Vec2 {
    Vec2 {
        x: clamp_spec(p.x + homing_dx(p.x as int, player.x as int, sway, dt), -WORLD_LIMIT, WORLD_LIMIT as int) as i64,
        y: clamp_spec(p.y + ENERMY_SPEED_HOMING_Y * dt, -WORLD_LIMIT, WORLD_LIMIT as int) as i64,
    }
}

pub open spec fn enemy_rect(s: EnermyStateShared) -> Rect {
    Rect { x: (s.pos.x - s.size.x / 2) as i64, y: s.pos.y, w: s.size.x, h: s.size.y }
}

/// The normal state for `dt` microseconds: drift, the shot clock counting up,
/// the homing countdown counting down, and a switch to homing once it runs out.
pub open spec fn normal_step(
    old_shared: EnermyStateShared,
    old_data: EnermyStateNormal,
    new_shared: EnermyStateShared,
    new_state: EnermyState,
    dt: int,
) -> bool {
    let charge = match old_shared.charge_timer_optional {
        Some(c) => Some((c - dt) as i64),
        None => None,
    };
    let homes = match old_shared.charge_timer_optional {
        Some(c) => c - dt <= 0,
        None => false,
    };
    &&& new_shared == (EnermyStateShared {
        pos: normal_pos(old_shared.pos, dt),
        charge_timer_optional: charge,
        animation_timer: if homes {
            old_shared.animation_timer
        } else {
            flap_after(old_shared.animation_timer as int, dt) as i64
        },
        ..old_shared
    })
    &&& new_state == if homes {
        EnermyState::Homing(EnermyStateHoming {})
    } else {
        EnermyState::Normal(EnermyStateNormal { shoot_timer: sat_time(old_data.shoot_timer as int, dt) as i64 })
    }
}

/// The homing state for `dt` microseconds: a step towards the player's side
/// and down; past the bottom of the field the enemy dies, and the environment
/// is recorded as the cause. A warning sounds each time the flap cycle wraps.
pub open spec fn homing_step(
    old_shared: EnermyStateShared,
    new_shared: EnermyStateShared,
    player_pos: Vec2,
    sway: int,
    dt: int,
    old_reason: LastEnermyDeathReason,
    new_reason: LastEnermyDeathReason,
    old_sounds: Seq<SoundIdentifier>,
    new_sounds: Seq<SoundIdentifier>,
) -> bool {
    let pos = homing_pos(old_shared.pos, player_pos, sway, dt);
    let falls_out = pos.y > GAME_SIZE_Y * UNIT;
    &&& new_shared == (EnermyStateShared {
        pos,
        health: if falls_out { 0 } else { old_shared.health },
        animation_timer: flap_after(old_shared.animation_timer as int, dt) as i64,
        ..old_shared
    })
    &&& new_reason == if falls_out { LastEnermyDeathReason::Environment } else { old_reason }
    &&& new_sounds == if old_shared.animation_timer + dt >= FLAP_CYCLE {
        old_sounds.push(SoundIdentifier::Warning)
    } else {
        old_sounds
    }
}

/// The shooting state for `dt` microseconds: a jitter of at most half the
/// enemy speed, kept in view; when the burst clock runs out it restarts, one
/// shot is used, one bullet that hurts the player leaves from one of two
/// points beside the enemy, and the enemy recoils two pixels up. With no shot
/// left the enemy goes back to its normal state.
pub open spec fn shooting_step(
    old_shared: EnermyStateShared,
    old_data: EnermyStateShooting,
    new_shared: EnermyStateShared,
    new_state: EnermyState,
    dt: int,
    old_bullets: Seq<Bullet>,
    new_bullets: Seq<Bullet>,
    old_sounds: Seq<SoundIdentifier>,
    new_sounds: Seq<SoundIdentifier>,
) -> bool {
    let fires = old_data.shoot_timer - dt <= 0;
    let shots = if fires { old_data.shots_left - 1 } else { old_data.shots_left as int };
    let jittered = if fires {
        Vec2 { x: new_shared.pos.x, y: (new_shared.pos.y + 2 * UNIT) as i64 }
    } else {
        new_shared.pos
    };
    &&& new_shared == (EnermyStateShared {
        pos: new_shared.pos,
        animation_timer: flap_after(old_shared.animation_timer as int, dt) as i64,
        ..old_shared
    })
    &&& is_in_view(jittered)
    &&& new_shared.pos.wf()
    &&& -25 * dt <= jittered.x - in_view(old_shared.pos).x <= 25 * dt
    &&& -25 * dt <= jittered.y - in_view(old_shared.pos).y <= 25 * dt
    &&& if fires {
        &&& new_bullets.len() == old_bullets.len() + 1
        &&& new_bullets.take(old_bullets.len() as int) == old_bullets
        &&& ({
            let b = new_bullets.last();
            &&& b.hurt_type == BulletHurtType::Player
            &&& !b.is_kill
            &&& b.anim_timer == 0
            &&& (b.pos == Vec2 { x: (jittered.x - old_shared.size.x / 8) as i64, y: jittered.y }
                || b.pos == Vec2 { x: jittered.x, y: (jittered.y - 3 * UNIT) as i64 })
        })
        &&& new_sounds == old_sounds.push(SoundIdentifier::EnermyShoot)
    } else {
        &&& new_bullets == old_bullets
        &&& new_sounds == old_sounds
    }
    &&& new_state == if shots <= 0 {
        EnermyState::Normal(EnermyStateNormal { shoot_timer: 0 })
    } else {
        EnermyState::Shooting(EnermyStateShooting {
            shots_left: shots as i32,
            shoot_timer: if fires { ENERMY_SHOOT_BURST_TIME } else { (old_data.shoot_timer - dt) as i64 },
        })
    }
}

/// How one tick changes an enemy itself (its bullets, sounds and the recorded
/// cause of death aside), in each state.
pub open spec fn enemy_step_ok(old_e: Enermy, new_e: Enermy, player_pos: Vec2, sway: int, dt: int) -> bool {
    match old_e.state {
        EnermyState::Spawning(s) => {
            &&& new_e.state_shared == old_e.state_shared
            &&& new_e.state == match spawn_step(old_e.state_shared.enermy_type, s.spawn_timer as int, dt) {
                Some(e) => EnermyState::Spawning(EnermyStateSpawning { spawn_timer: e as i64 }),
                None => EnermyState::Normal(EnermyStateNormal { shoot_timer: 0 }),
            }
        },
        EnermyState::Normal(n) => normal_step(old_e.state_shared, n, new_e.state_shared, new_e.state, dt),
        EnermyState::Shooting(s) => {
            let fires = s.shoot_timer - dt <= 0;
            let shots = if fires { s.shots_left - 1 } else { s.shots_left as int };
            &&& new_e.state_shared == (EnermyStateShared {
                pos: new_e.state_shared.pos,
                animation_timer: flap_after(old_e.state_shared.animation_timer as int, dt) as i64,
                ..old_e.state_shared
            })
            &&& new_e.state == if shots <= 0 {
                EnermyState::Normal(EnermyStateNormal { shoot_timer: 0 })
            } else {
                EnermyState::Shooting(EnermyStateShooting {
                    shots_left: shots as i32,
                    shoot_timer: if fires { ENERMY_SHOOT_BURST_TIME } else { (s.shoot_timer - dt) as i64 },
                })
            }
        },
        EnermyState::Homing(_) => {
            let pos = homing_pos(old_e.state_shared.pos, player_pos, sway, dt);
            &&& new_e.state == old_e.state
            &&& new_e.state_shared == (EnermyStateShared {
                pos,
                health: if pos.y > GAME_SIZE_Y * UNIT { 0 } else { old_e.state_shared.health },
                animation_timer: flap_after(old_e.state_shared.animation_timer as int, dt) as i64,
                ..old_e.state_shared
            })
        },
    }
}

impl EnermyColor {
    /// One of the three colours, drawn from `rng`.
    pub fn random(rng: &RandGenerator) -> (r: EnermyColor) {
        let k = draw_below(rng, 3);
        Self::from_index(k)
    }

    /// The colour at place `i` of purple, green, red; red past the end.
    pub fn from_index(i: u64) -> (r: EnermyColor)
        ensures
            r == color_of_index(i as int),
    {
        if i == 0 {
            EnermyColor::PURPLE
        } else if i == 1 {
            EnermyColor::GREEN
        } else {
            EnermyColor::RED
        }
    }
}

impl EnermyStateShared {
    pub open spec fn wf(self) -> bool {
        &&& self.pos.wf()
        &&& sprite_size_ok(self.size.x)
        &&& sprite_size_ok(self.size.y)
        &&& 0 <= self.animation_timer < FLAP_CYCLE
        &&& self.health >= 0
        &&& match self.charge_timer_optional {
            Some(c) => c >= -MAX_DT,
            None => true,
        }
    }
}

impl Enermy {
    pub open spec fn wf(self) -> bool {
        &&& self.state_shared.wf()
        &&& match self.state {
            EnermyState::Spawning(s) => 0 <= s.spawn_timer < spawn_duration(self.state_shared.enermy_type),
            EnermyState::Normal(n) => n.shoot_timer >= 0,
            EnermyState::Shooting(s) => s.shots_left >= 0 && s.shoot_timer >= 0,
            EnermyState::Homing(_) => true,
        }
        &&& !(self.state is Homing) ==> match self.state_shared.charge_timer_optional {
            Some(c) => c > 0,
            None => true,
        }
    }

    pub open spec fn hitbox(self) -> Rect {
        enemy_rect(self.state_shared)
    }

    pub open spec fn is_homing(self) -> bool {
        self.state is Homing
    }

    pub open spec fn alive(self) -> bool {
        self.state_shared.health > 0
    }

    /// A new enemy in its spawn animation. Mini enemies get a homing
    /// countdown drawn from `[4, 10)` seconds; normal ones never home.
    pub fn new(
        pos: Vec2,
        size: Vec2,
        sprite: u64,
        health: i32,
        death_method: EnermyDeathMethod,
        enermy_type: EnermyType,
        enermy_color: EnermyColor,
        rng: &RandGenerator,
    ) -> (r: Enermy)
        ensures
            r.state_shared.pos == pos,
            r.state_shared.size == size,
            r.state_shared.sprite == sprite,
            r.state_shared.health == health,
            r.state_shared.death_method == death_method,
            r.state_shared.animation_timer == 0,
            r.state_shared.enermy_type == enermy_type,
            r.state_shared.enermy_color == enermy_color,
            r.state == EnermyState::Spawning(EnermyStateSpawning { spawn_timer: 0 }),
            match enermy_type {
                EnermyType::NORMAL => r.state_shared.charge_timer_optional is None,
                EnermyType::MINI => match r.state_shared.charge_timer_optional {
                    Some(c) => ENERMY_MINI_HOMING_TIME_MIN <= c < ENERMY_MINI_HOMING_TIME_MAX,
                    None => false,
                },
            },
    {
        let charge_timer_optional = match enermy_type {
            EnermyType::NORMAL => None,
            EnermyType::MINI => {
                let ms = draw_range(
                    rng,
                    ENERMY_MINI_HOMING_TIME_MIN / 1000,
                    ENERMY_MINI_HOMING_TIME_MAX / 1000,
                );
                Some(ms * 1000)
            },
        };
        Enermy {
            state_shared: EnermyStateShared {
                pos,
                size,
                sprite,
                health,
                death_method,
                animation_timer: 0,
                enermy_type,
                enermy_color,
                charge_timer_optional,
            },
            state: EnermyState::Spawning(EnermyStateSpawning { spawn_timer: 0 }),
        }
    }

    /// The hitbox: centred horizontally on the position, hanging below it.
    pub fn collision_rect(&self) -> (r: Rect)
        requires
            self.state_shared.wf(),
        ensures
            r == self.hitbox(),
            r.wf(),
    {
        let s = &self.state_shared;
        Rect { x: s.pos.x - s.size.x / 2, y: s.pos.y, w: s.size.x, h: s.size.y }
    }

    pub fn overlaps(&self, other_rect: &Rect) -> (r: bool)
        requires
            self.state_shared.wf(),
            other_rect.wf(),
        ensures
            r == crate::geometry::rects_overlap(self.hitbox(), *other_rect),
    {
        self.collision_rect().overlaps(other_rect)
    }

    /// Brings a position into the area where enemies fly.
    pub fn clamp_in_view(pos: &mut Vec2)
        ensures
            *final(pos) == in_view(*old(pos)),
            is_in_view(*final(pos)),
    {
        pos.x = clamp(pos.x, X_PADDING, GAME_SIZE_X * UNIT - X_PADDING);
        pos.y = clamp(pos.y, TOP_PADDING, GAME_SIZE_Y * UNIT - BOTTOM_PADDING);
    }

    fn update_state_spawning(
        state_shared: &EnermyStateShared,
        dt: i64,
        state_data: &mut EnermyStateSpawning,
    ) -> (r: Option<EnermyCommand>)
        requires
            0 <= old(state_data).spawn_timer < spawn_duration(state_shared.enermy_type),
            0 <= dt <= MAX_DT,
        ensures
            final(state_data).spawn_timer == old(state_data).spawn_timer + dt,
            match spawn_step(state_shared.enermy_type, old(state_data).spawn_timer as int, dt as int) {
                Some(e) => r is None && final(state_data).spawn_timer == e,
                None => r == Some(
                    EnermyCommand::ChangeState(EnermyState::Normal(EnermyStateNormal { shoot_timer: 0 })),
                ),
            },
    {
        state_data.spawn_timer = state_data.spawn_timer + dt;
        let end_time = match state_shared.enermy_type {
            EnermyType::MINI => ENERMY_MINI_ANIM_TIME_SPAWN,
            EnermyType::NORMAL => ENEMY_ANIM_TIME_SPAWN,
        };
        if state_data.spawn_timer >= end_time {
            return Some(
                EnermyCommand::ChangeState(EnermyState::Normal(EnermyStateNormal { shoot_timer: 0 })),
            );
        }
        None
    }

    fn update_state_normal(
        state_shared: &mut EnermyStateShared,
        dt: i64,
        state_data: &mut EnermyStateNormal,
    ) -> (r: Option<EnermyCommand>)
        requires
            old(state_shared).wf(),
            match old(state_shared).charge_timer_optional {
                Some(c) => c > 0,
                None => true,
            },
            0 <= dt <= MAX_DT,
        ensures
            (r is Some) == match old(state_shared).charge_timer_optional {
                Some(c) => c - dt <= 0,
                None => false,
            },
            normal_step(
                *old(state_shared),
                *old(state_data),
                *final(state_shared),
                match r {
                    Some(EnermyCommand::ChangeState(s)) => s,
                    None => EnermyState::Normal(*final(state_data)),
                },
                dt as int,
            ),
    {
        assert(0 <= dt * dt <= 10_000_000_000_000_000) by (nonlinear_arith)
            requires
                0 <= dt <= 100_000_000,
        ;
        let sq = dt * dt;
        state_shared.pos.x = state_shared.pos.x + ENERMY_SPEED * sq / UNIT;
        Self::clamp_in_view(&mut state_shared.pos);
        state_data.shoot_timer = add_time(state_data.shoot_timer, dt);
        if let Some(c) = state_shared.charge_timer_optional {
            let left = c - dt;
            state_shared.charge_timer_optional = Some(left);
            if left <= 0 {
                return Some(EnermyCommand::ChangeState(EnermyState::Homing(EnermyStateHoming {})));
            }
        }
        state_shared.animation_timer = (state_shared.animation_timer + dt) % FLAP_CYCLE;
        None
    }

    fn update_state_homing(
        state_shared: &mut EnermyStateShared,
        dt: i64,
        player_pos: &Vec2,
        game_manager: &mut WaveManager,
        sounds: &mut Vec<SoundIdentifier>,
        sway: i64,
    )
        requires
            old(state_shared).wf(),
            player_pos.wf(),
            -1000 <= sway <= 1000,
            0 <= dt <= MAX_DT,
        ensures
            homing_step(
                *old(state_shared),
                *final(state_shared),
                *player_pos,
                sway as int,
                dt as int,
                old(game_manager).last_enermydeath_reason,
                final(game_manager).last_enermydeath_reason,
                old(sounds)@,
                final(sounds)@,
            ),
            *final(game_manager) == (WaveManager {
                last_enermydeath_reason: final(game_manager).last_enermydeath_reason,
                ..*old(game_manager)
            }),
    {
        let a = state_shared.animation_timer + dt;
        if a >= FLAP_CYCLE {
            sounds.push(SoundIdentifier::Warning);
        }
        state_shared.animation_timer = a % FLAP_CYCLE;
        let s = (sway + 1000) / 2;
        assert(0 <= s * dt <= 1000 * MAX_DT) by (nonlinear_arith)
            requires
                0 <= s <= 1000,
                0 <= dt <= MAX_DT,
        ;
        let step = s * dt / 5000;
        let dx = if player_pos.x - state_shared.pos.x > 0 {
            step
        } else {
            -step
        };
        state_shared.pos.x = keep_in_world(state_shared.pos.x + dx);
        state_shared.pos.y = keep_in_world(state_shared.pos.y + ENERMY_SPEED_HOMING_Y * dt);
        if state_shared.pos.y > GAME_SIZE_Y * UNIT {
            state_shared.health = 0;
            game_manager.last_enermydeath_reason = LastEnermyDeathReason::Environment;
        }
    }

    fn update_state_shooting(
        state_shared: &mut EnermyStateShared,
        dt: i64,
        bullets: &mut Vec<Bullet>,
        state_data: &mut EnermyStateShooting,
        sounds: &mut Vec<SoundIdentifier>,
        rng: &RandGenerator,
    ) -> (r: Option<EnermyCommand>)
        requires
            old(state_shared).wf(),
            old(state_data).shots_left >= 0,
            old(state_data).shoot_timer >= 0,
            0 <= dt <= MAX_DT,
        ensures
            ({
                let fires = old(state_data).shoot_timer - dt <= 0;
                &&& final(state_data).shots_left == if fires {
                    old(state_data).shots_left - 1
                } else {
                    old(state_data).shots_left as int
                }
                &&& final(state_data).shoot_timer == if fires {
                    ENERMY_SHOOT_BURST_TIME as int
                } else {
                    old(state_data).shoot_timer - dt
                }
                &&& r == if final(state_data).shots_left <= 0 {
                    Some(EnermyCommand::ChangeState(EnermyState::Normal(EnermyStateNormal { shoot_timer: 0 })))
                } else {
                    None
                }
            }),
            shooting_step(
                *old(state_shared),
                *old(state_data),
                *final(state_shared),
                match r {
                    Some(EnermyCommand::ChangeState(s)) => s,
                    None => EnermyState::Shooting(*final(state_data)),
                },
                dt as int,
                old(bullets)@,
                final(bullets)@,
                old(sounds)@,
                final(sounds)@,
            ),
    {
        let jx = draw_range(rng, -1000, 1000);
        let jy = draw_range(rng, -1000, 1000);
        assert(-1000 * dt <= jx * dt <= 1000 * dt) by (nonlinear_arith)
            requires
                -1000 <= jx <= 1000,
                0 <= dt,
        ;
        assert(-1000 * dt <= jy * dt <= 1000 * dt) by (nonlinear_arith)
            requires
                -1000 <= jy <= 1000,
                0 <= dt,
        ;
        state_shared.pos.x = state_shared.pos.x + jx * dt / 40;
        state_shared.pos.y = state_shared.pos.y + jy * dt / 40;
        Self::clamp_in_view(&mut state_shared.pos);
        assert(-25 * dt <= state_shared.pos.x - in_view(old(state_shared).pos).x <= 25 * dt);
        assert(-25 * dt <= state_shared.pos.y - in_view(old(state_shared).pos).y <= 25 * dt);
        state_data.shoot_timer = state_data.shoot_timer - dt;
        if state_data.shoot_timer <= 0 {
            state_data.shoot_timer = ENERMY_SHOOT_BURST_TIME;
            state_data.shots_left = state_data.shots_left - 1;
            let p = state_shared.pos;
            let spawn = if draw_below(rng, 2) == 0 {
                Vec2 { x: p.x - state_shared.size.x / 8, y: p.y }
            } else {
                Vec2 { x: p.x, y: p.y - 3 * UNIT }
            };
            bullets.push(Bullet::new(spawn, BulletHurtType::Player));
            assert(bullets@.take(old(bullets)@.len() as int) =~= old(bullets)@);
            sounds.push(SoundIdentifier::EnermyShoot);
            state_shared.pos.y = state_shared.pos.y - 2 * UNIT;
        }
        state_shared.animation_timer = (state_shared.animation_timer + dt) % FLAP_CYCLE;
        if state_data.shots_left <= 0 {
            return Some(
                EnermyCommand::ChangeState(EnermyState::Normal(EnermyStateNormal { shoot_timer: 0 })),
            );
        }
        None
    }

    /// One tick of the enemy's state machine.
    ///
    /// `sway` is the current sample, in thousandths, of the sine wave that
    /// modulates homing; `player_pos` is where the player is. Only a shooting
    /// enemy emits bullets, and only a homing one can change the recorded cause
    /// of the last enemy death. No state leads back to spawning.
    pub fn update(
        &mut self,
        dt: i64,
        bullets: &mut Vec<Bullet>,
        player_pos: &Vec2,
        game_manager: &mut WaveManager,
        sounds: &mut Vec<SoundIdentifier>,
        sway: i64,
        rng: &RandGenerator,
    )
        requires
            old(self).wf(),
            player_pos.wf(),
            -1000 <= sway <= 1000,
            0 <= dt <= MAX_DT,
        ensures
            final(self).wf(),
            !(old(self).state is Spawning) ==> !(final(self).state is Spawning),
            final(self).state_shared.enermy_type == old(self).state_shared.enermy_type,
            final(self).state_shared.enermy_color == old(self).state_shared.enermy_color,
            final(self).state_shared.death_method == old(self).state_shared.death_method,
            final(bullets)@.len() >= old(bullets)@.len(),
            final(bullets)@.take(old(bullets)@.len() as int) == old(bullets)@,
            forall|k: int|
                old(bullets)@.len() <= k < final(bullets)@.len() ==> (#[trigger] final(bullets)@[k]).wf()
                    && final(bullets)@[k].hurt_type == BulletHurtType::Player && !final(bullets)@[k].is_kill,
            enemy_step_ok(*old(self), *final(self), *player_pos, sway as int, dt as int),
            final(game_manager).last_enermydeath_reason == old(game_manager).last_enermydeath_reason
                || final(game_manager).last_enermydeath_reason == LastEnermyDeathReason::Environment,
            *final(game_manager) == (WaveManager {
                last_enermydeath_reason: final(game_manager).last_enermydeath_reason,
                ..*old(game_manager)
            }),
            match old(self).state {
                EnermyState::Spawning(s) => {
                    &&& final(self).state_shared == old(self).state_shared
                    &&& final(self).state == match spawn_step(
                        old(self).state_shared.enermy_type,
                        s.spawn_timer as int,
                        dt as int,
                    ) {
                        Some(e) => EnermyState::Spawning(EnermyStateSpawning { spawn_timer: e as i64 }),
                        None => EnermyState::Normal(EnermyStateNormal { shoot_timer: 0 }),
                    }
                    &&& final(bullets)@ == old(bullets)@
                    &&& final(sounds)@ == old(sounds)@
                    &&& *final(game_manager) == *old(game_manager)
                },
                EnermyState::Normal(n) => {
                    &&& normal_step(old(self).state_shared, n, final(self).state_shared, final(self).state, dt as int)
                    &&& final(bullets)@ == old(bullets)@
                    &&& final(sounds)@ == old(sounds)@
                    &&& *final(game_manager) == *old(game_manager)
                },
                EnermyState::Shooting(s) => {
                    &&& shooting_step(
                        old(self).state_shared,
                        s,
                        final(self).state_shared,
                        final(self).state,
                        dt as int,
                        old(bullets)@,
                        final(bullets)@,
                        old(sounds)@,
                        final(sounds)@,
                    )
                    &&& *final(game_manager) == *old(game_manager)
                },
                EnermyState::Homing(_) => {
                    &&& final(self).state == old(self).state
                    &&& homing_step(
                        old(self).state_shared,
                        final(self).state_shared,
                        *player_pos,
                        sway as int,
                        dt as int,
                        old(game_manager).last_enermydeath_reason,
                        final(game_manager).last_enermydeath_reason,
                        old(sounds)@,
                        final(sounds)@,
                    )
                    &&& final(bullets)@ == old(bullets)@
                },
            },
    {
        let command_optional = match &mut self.state {
            EnermyState::Spawning(state_data) => {
                assert(bullets@.take(bullets@.len() as int) =~= bullets@);
                Self::update_state_spawning(&self.state_shared, dt, state_data)
            },
            EnermyState::Normal(state_data) => {
                assert(bullets@.take(bullets@.len() as int) =~= bullets@);
                Self::update_state_normal(&mut self.state_shared, dt, state_data)
            },
            EnermyState::Shooting(state_data) => {
                let r = Self::update_state_shooting(
                    &mut self.state_shared,
                    dt,
                    bullets,
                    state_data,
                    sounds,
                    rng,
                );
                proof {
                    assert forall|k: int|
                        old(bullets)@.len() <= k < bullets@.len() implies (#[trigger] bullets@[k]).wf() by {
                        assert(k == bullets@.len() - 1);
                    }
                }
                r
            },
            EnermyState::Homing(_) => {
                assert(bullets@.take(bullets@.len() as int) =~= bullets@);
                Self::update_state_homing(
                    &mut self.state_shared,
                    dt,
                    player_pos,
                    game_manager,
                    sounds,
                    sway,
                );
                None
            },
        };
        if let Some(command) = command_optional {
            match command {
                EnermyCommand::ChangeState(new_state) => {
                    self.state = new_state;
                },
            }
        }
    }
}

/// The spawn animation run over ticks `dts`: `Some` of the elapsed time while
/// the enemy is still spawning, `None` once it has switched to its normal state
/// (from which no tick leads back).
pub open spec fn spawn_run(t: EnermyType, elapsed: int, dts: Seq<int>) -> Option<int>
    decreases dts.len(),
{
    if dts.len() == 0 {
        Some(elapsed)
    } else {
        match spawn_step(t, elapsed, dts[0]) {
            Some(e) => spawn_run(t, e, dts.drop_first()),
            None => None,
        }
    }
}

/// However the time is cut into ticks, a spawning enemy switches to its normal
/// state exactly when the ticks add up to its tier's spawn duration, and until
/// then its spawn clock holds the time elapsed.
pub proof fn lemma_spawn_ends_after_duration(t: EnermyType, elapsed: int, dts: Seq<int>)
    requires
        0 <= elapsed < spawn_duration(t),
        forall|i: int| 0 <= i < dts.len() ==> dts[i] >= 0,
    ensures
        spawn_run(t, elapsed, dts) == if elapsed + ticks_total(dts) >= spawn_duration(t) {
            None::<int>
        } else {
            Some(elapsed + ticks_total(dts))
        },
    decreases dts.len(),
{
    if dts.len() > 0 {
        let rest = dts.drop_first();
        assert forall|i: int| 0 <= i < rest.len() implies rest[i] >= 0 by {
            assert(rest[i] == dts[i + 1]);
        }
        lemma_ticks_total_nonneg(rest);
        if elapsed + dts[0] < spawn_duration(t) {
            lemma_spawn_ends_after_duration(t, elapsed + dts[0], rest);
        }
    }
}

} // verus!
