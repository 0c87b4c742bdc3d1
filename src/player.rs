use vstd::prelude::*;
use crate::constants::{
    UNIT, GAME_SIZE_X, MAX_DT, PLAYER_SPEED, PLAYER_SHOOT_TIME, PLAYER_HITBOX_SIZE,
    PLAYER_TIME_INVISBLE, WORLD_LIMIT,
};
use crate::geometry::{sat_time, Vec2, Rect, sprite_size_ok, clamp_spec, keep_in_world, add_time};
use crate::bullet::{Bullet, BulletHurtType};
use crate::resources::SoundIdentifier;

verus! {

#[derive(Clone, Copy, Debug, PartialEq, Eq, Structural)]
pub enum PlayerState {
    Normal,
    /// Remaining microseconds of immunity to damage.
    Invincible(i64),
}

pub enum PlayerCommand {
    ChangeState(PlayerState),
}

/// What the player asks for during one tick.
#[derive(Clone, Copy, Debug, PartialEq, Eq, Structural)]
pub struct PlayerInput {
    pub left: bool,
    pub right: bool,
    pub shoot: bool,
}

pub struct Player {
    pub pos: Vec2,
    /// Width of the sprite, in sub-pixel units.
    pub width: i64,
    /// Time since the last shot, counting up.
    pub shoot_timer: i64,
    pub state: PlayerState,
}

pub open spec fn player_state_ok(s: PlayerState) -> bool {
    match s {
        PlayerState::Normal => true,
        PlayerState::Invincible(t) => 0 < t <= PLAYER_TIME_INVISBLE,
    }
}

pub open spec fn player_rect(pos: Vec2) -> Rect {
    Rect { x: pos.x, y: pos.y, w: PLAYER_HITBOX_SIZE, h: PLAYER_HITBOX_SIZE }
}

/// Horizontal position after the movement keys of one tick: left moves down
/// to the field's edge at zero, right moves up to the field width less the
/// sprite width.
pub open spec fn moved_x(x: int, width: int, input: PlayerInput, dt: int) -> int {
    let after_left = if input.left {
        if x - PLAYER_SPEED * dt < 0 { 0 } else { x - PLAYER_SPEED * dt }
    } else {
        x
    };
    let right_edge = GAME_SIZE_X * UNIT - width;
    if input.right {
        if after_left + PLAYER_SPEED * dt > right_edge {
            right_edge
        } else {
            after_left + PLAYER_SPEED * dt
        }
    } else {
        after_left
    }
}

/// The invincibility countdown after `dt` microseconds.
pub open spec fn state_after(s: PlayerState, dt: int) -> PlayerState {
    match s {
        PlayerState::Normal => PlayerState::Normal,
        PlayerState::Invincible(t) => if t - dt <= 0 {
            PlayerState::Normal
        } else {
            PlayerState::Invincible((t - dt) as i64)
        },
    }
}

/// Where a shot of the player appears: three pixels right of and four above
/// the player's position.
pub open spec fn muzzle(pos: Vec2) -> Vec2 {
    Vec2 {
        x: clamp_spec(pos.x + 3 * UNIT, -WORLD_LIMIT, WORLD_LIMIT as int) as i64,
        y: clamp_spec(pos.y - 4 * UNIT, -WORLD_LIMIT, WORLD_LIMIT as int) as i64,
    }
}

impl Player {
    pub open spec fn wf(&self) -> bool {
        &&& self.pos.wf()
        &&& sprite_size_ok(self.width)
        &&& self.shoot_timer >= 0
        &&& player_state_ok(self.state)
    }

    pub open spec fn hitbox(&self) -> Rect {
        player_rect(self.pos)
    }

    pub fn new(pos: Vec2, width: i64) -> (r: Player)
        ensures
            r.pos == pos,
            r.width == width,
            r.shoot_timer == 0,
            r.state == PlayerState::Normal,
    {
        Player { pos, width, shoot_timer: 0, state: PlayerState::Normal }
    }

    /// The hitbox, which follows the position.
    pub fn collision_rect(&self) -> (r: Rect)
        ensures
            r == self.hitbox(),
    {
        Rect { x: self.pos.x, y: self.pos.y, w: PLAYER_HITBOX_SIZE, h: PLAYER_HITBOX_SIZE }
    }

    pub fn process_optional_command(&mut self, command_optional: Option<PlayerCommand>)
        ensures
            match command_optional {
                Some(PlayerCommand::ChangeState(s)) => *final(self) == (Player { state: s, ..*old(self) }),
                None => *final(self) == *old(self),
            },
    {
        if let Some(player_command) = command_optional {
            match player_command {
                PlayerCommand::ChangeState(state) => {
                    self.state = state;
                },
            }
        }
    }

    /// Puts the player back at `pos`, in the normal state, ready to shoot.
    pub fn reset(&mut self, pos: Vec2)
        ensures
            final(self).pos == pos,
            final(self).width == old(self).width,
            final(self).shoot_timer == 0,
            final(self).state == PlayerState::Normal,
    {
        self.pos = pos;
        self.shoot_timer = 0;
        self.state = PlayerState::Normal;
    }

    /// One tick: movement, the shot cooldown and the invincibility countdown.
    /// A shot is fired when asked for if, at the start of the tick, the
    /// cooldown has run out, whatever the state; it appends one bullet that
    /// hurts enemies and a sound, and restarts the cooldown. Otherwise the
    /// cooldown counts up.
    pub fn update(
        &mut self,
        dt: i64,
        input: &PlayerInput,
        bullets: &mut Vec<Bullet>,
        sounds: &mut Vec<SoundIdentifier>,
    )
        requires
            old(self).wf(),
            0 <= dt <= MAX_DT,
        ensures
            final(self).wf(),
            final(self).pos.x == moved_x(old(self).pos.x as int, old(self).width as int, *input, dt as int),
            final(self).pos.y == old(self).pos.y,
            final(self).width == old(self).width,
            final(self).state == state_after(old(self).state, dt as int),
            ({
                let t = sat_time(old(self).shoot_timer as int, dt as int);
                if input.shoot && old(self).shoot_timer >= PLAYER_SHOOT_TIME {
                    &&& final(self).shoot_timer == 0
                    &&& final(bullets)@ == old(bullets)@.push(
                        Bullet::new_spec(muzzle(final(self).pos), BulletHurtType::Enermy),
                    )
                    &&& final(sounds)@ == old(sounds)@.push(SoundIdentifier::PlayerShoot)
                } else {
                    &&& final(self).shoot_timer == t
                    &&& final(bullets)@ == old(bullets)@
                    &&& final(sounds)@ == old(sounds)@
                }
            }),
    {
        if input.left {
            let x = self.pos.x - PLAYER_SPEED * dt;
            self.pos.x = if x < 0 { 0 } else { x };
        }
        if input.right {
            let right_edge = GAME_SIZE_X * UNIT - self.width;
            let x = self.pos.x + PLAYER_SPEED * dt;
            self.pos.x = if x > right_edge { right_edge } else { x };
        }
        if input.shoot && self.shoot_timer >= PLAYER_SHOOT_TIME {
            let spawn = Vec2 {
                x: keep_in_world(self.pos.x + 3 * UNIT),
                y: keep_in_world(self.pos.y - 4 * UNIT),
            };
            bullets.push(Bullet::new(spawn, BulletHurtType::Enermy));
            sounds.push(SoundIdentifier::PlayerShoot);
            self.shoot_timer = 0;
        } else {
            self.shoot_timer = add_time(self.shoot_timer, dt);
        }
        let command = match self.state {
            PlayerState::Normal => None,
            PlayerState::Invincible(time_left) => {
                if time_left <= dt {
                    Some(PlayerCommand::ChangeState(PlayerState::Normal))
                } else {
                    Some(PlayerCommand::ChangeState(PlayerState::Invincible(time_left - dt)))
                }
            },
        };
        self.process_optional_command(command);
    }
}

} // verus!
