use vstd::prelude::*;
use crate::constants::{WORLD_LIMIT, PLAYER_BULLET_SPEED, ENERMY_BULLET_SPEED, BULLET_WIDTH, BULLET_HEIGHT, BULLET_ANIM_TIME_SPAWN, MAX_DT};
use crate::geometry::{Vec2, Rect, in_world};

verus! {

/// Whom a bullet can damage (not who fired it).
#[derive(Clone, Copy, Debug, PartialEq, Eq, Structural)]
pub enum BulletHurtType {
    Player,
    Enermy,
}

/// A straight-line projectile.
#[derive(Clone, Copy, Debug, PartialEq, Eq, Structural)]
pub struct Bullet {
    pub pos: Vec2,
    pub hurt_type: BulletHurtType,
    /// Time since the bullet appeared, held at the length of its spawn animation.
    pub anim_timer: i64,
    pub is_kill: bool,
}

/// Vertical speed in pixels per second: up for bullets that hurt enemies,
/// down for bullets that hurt the player.
pub open spec fn vertical_speed(t: BulletHurtType) -> int {
    match t {
        BulletHurtType::Enermy => -(PLAYER_BULLET_SPEED as int),
        BulletHurtType::Player => ENERMY_BULLET_SPEED as int,
    }
}

pub open spec fn bullet_rect(pos: Vec2) -> Rect {
    Rect { x: pos.x, y: pos.y, w: BULLET_WIDTH, h: BULLET_HEIGHT }
}

/// The bullet after a tick of `dt` microseconds.
pub open spec fn bullet_moved(b: Bullet, dt: int) -> Bullet {
    Bullet {
        pos: Vec2 { x: b.pos.x, y: (b.pos.y + vertical_speed(b.hurt_type) * dt) as i64 },
        anim_timer: if b.anim_timer + dt >= BULLET_ANIM_TIME_SPAWN {
            BULLET_ANIM_TIME_SPAWN
        } else {
            (b.anim_timer + dt) as i64
        },
        ..b
    }
}

impl Bullet {
    pub open spec fn new_spec(pos: Vec2, hurt_type: BulletHurtType) -> Bullet {
        Bullet { pos, hurt_type, anim_timer: 0, is_kill: false }
    }

    pub open spec fn wf(self) -> bool {
        &&& self.pos.wf()
        &&& 0 <= self.anim_timer <= BULLET_ANIM_TIME_SPAWN
    }

    /// Within twice the world limit: where a bullet may be after one move
    /// from inside the world, before retention drops it.
    pub open spec fn in_reach(self) -> bool {
        &&& -2 * WORLD_LIMIT <= self.pos.x <= 2 * WORLD_LIMIT
        &&& -2 * WORLD_LIMIT <= self.pos.y <= 2 * WORLD_LIMIT
    }

    pub fn new(pos: Vec2, hurt_type: BulletHurtType) -> (r: Bullet)
        ensures
            r == Bullet::new_spec(pos, hurt_type),
    {
        Bullet { pos, hurt_type, anim_timer: 0, is_kill: false }
    }

    /// Velocity in pixels per second, fixed by whom the bullet hurts.
    pub fn velocity(&self) -> (r: Vec2)
        ensures
            r.x == 0,
            r.y == vertical_speed(self.hurt_type),
    {
        match self.hurt_type {
            BulletHurtType::Enermy => Vec2 { x: 0, y: -PLAYER_BULLET_SPEED },
            BulletHurtType::Player => Vec2 { x: 0, y: ENERMY_BULLET_SPEED },
        }
    }

    /// The hitbox, which follows the position.
    pub fn collision_rect(&self) -> (r: Rect)
        ensures
            r == bullet_rect(self.pos),
    {
        Rect { x: self.pos.x, y: self.pos.y, w: BULLET_WIDTH, h: BULLET_HEIGHT }
    }

    pub fn overlaps(&self, other_rect: &Rect) -> (r: bool)
        requires
            self.in_reach(),
            other_rect.wf(),
        ensures
            r == crate::geometry::rects_overlap(bullet_rect(self.pos), *other_rect),
    {
        self.collision_rect().overlaps(other_rect)
    }

    /// Moves the bullet along its velocity for `dt` microseconds.
    pub fn update(&mut self, dt: i64)
        requires
            old(self).wf(),
            0 <= dt <= MAX_DT,
        ensures
            *final(self) == bullet_moved(*old(self), dt as int),
            in_world(final(self).pos.x),
            final(self).in_reach(),
            0 <= final(self).anim_timer <= BULLET_ANIM_TIME_SPAWN,
    {
        match self.hurt_type {
            BulletHurtType::Enermy => {
                self.pos.y = self.pos.y - PLAYER_BULLET_SPEED * dt;
            },
            BulletHurtType::Player => {
                self.pos.y = self.pos.y + ENERMY_BULLET_SPEED * dt;
            },
        }
        if self.anim_timer >= BULLET_ANIM_TIME_SPAWN - dt {
            self.anim_timer = BULLET_ANIM_TIME_SPAWN;
        } else {
            self.anim_timer = self.anim_timer + dt;
        }
    }
}

/// A bullet keeps its horizontal coordinate, and with time passing its
/// vertical coordinate moves strictly in the direction set by whom it hurts:
/// down for bullets that hurt the player, up for those that hurt enemies.
pub proof fn lemma_bullet_straight_line(b: Bullet, dt: int)
    requires
        b.wf(),
        0 < dt <= MAX_DT,
    ensures
        bullet_moved(b, dt).pos.x == b.pos.x,
        b.hurt_type == BulletHurtType::Player ==> bullet_moved(b, dt).pos.y > b.pos.y,
        b.hurt_type == BulletHurtType::Enermy ==> bullet_moved(b, dt).pos.y < b.pos.y,
        bullet_moved(b, dt).hurt_type == b.hurt_type,
{
    assert(0 < 80 * dt <= 80 * MAX_DT);
}

} // verus!
