use quad_rand::RandGenerator;
use space_demons::bullet::{Bullet, BulletHurtType};
use space_demons::constants::{UNIT, PLAYER_TIME_INVISBLE};
use space_demons::enermy::{
    Enermy, EnermyColor, EnermyDeathMethod, EnermyState, EnermyStateHoming, EnermyStateNormal,
    EnermyStateShooting, EnermyType,
};
use space_demons::geometry::{clamp, Rect, Vec2};
use space_demons::player::{Player, PlayerInput, PlayerState};
use space_demons::resources::SoundIdentifier;
use space_demons::wave::{LastEnermyDeathReason, WaveManager};

fn seeded(seed: u64) -> RandGenerator {
    let rng = RandGenerator::new();
    rng.srand(seed);
    rng
}

fn px(x: i64, y: i64) -> Vec2 {
    Vec2 { x: x * UNIT, y: y * UNIT }
}

fn normal_enemy(pos: Vec2, rng: &RandGenerator) -> Enermy {
    Enermy::new(pos, px(16, 16), 0, 1, EnermyDeathMethod::NoEffect, EnermyType::NORMAL, EnermyColor::RED, rng)
}

#[test]
fn rects_touching_edges_do_not_overlap() {
    let a = Rect { x: 0, y: 0, w: 10, h: 10 };
    let b = Rect { x: 10, y: 0, w: 10, h: 10 };
    let c = Rect { x: 9, y: 9, w: 10, h: 10 };
    assert!(!a.overlaps(&b));
    assert!(a.overlaps(&c));
    assert!(c.overlaps(&a));
}

#[test]
fn clamp_brings_value_into_range() {
    assert_eq!(clamp(-5, 0, 10), 0);
    assert_eq!(clamp(15, 0, 10), 10);
    assert_eq!(clamp(7, 0, 10), 7);
}

#[test]
fn bullet_velocity_depends_on_target() {
    let up = Bullet::new(px(10, 50), BulletHurtType::Enermy);
    let down = Bullet::new(px(10, 50), BulletHurtType::Player);
    assert_eq!(up.velocity(), Vec2 { x: 0, y: -80 });
    assert_eq!(down.velocity(), Vec2 { x: 0, y: 80 });
    assert!(!up.is_kill);
}

#[test]
fn bullet_moves_straight_and_monotonically() {
    let mut down = Bullet::new(px(10, 50), BulletHurtType::Player);
    let mut up = Bullet::new(px(10, 50), BulletHurtType::Enermy);
    let mut last_down = down.pos.y;
    let mut last_up = up.pos.y;
    for dt in [16_000i64, 1, 33_333, 100_000] {
        down.update(dt);
        up.update(dt);
        assert_eq!(down.pos.x, 10 * UNIT);
        assert_eq!(up.pos.x, 10 * UNIT);
        assert!(down.pos.y > last_down);
        assert!(up.pos.y < last_up);
        last_down = down.pos.y;
        last_up = up.pos.y;
    }
    // 80 px/s for 0.149334 s
    assert_eq!(down.pos.y, 50 * UNIT + 80 * 149_334);
    assert_eq!(up.pos.y, 50 * UNIT - 80 * 149_334);
    assert_eq!(down.anim_timer, 149_334);
}

#[test]
fn bullet_hitbox_follows_position() {
    let mut b = Bullet::new(px(10, 50), BulletHurtType::Player);
    b.update(500_000);
    assert_eq!(b.collision_rect(), Rect { x: 10 * UNIT, y: 90 * UNIT, w: 2 * UNIT, h: 6 * UNIT });
    assert!(b.overlaps(&Rect { x: 11 * UNIT, y: 95 * UNIT, w: UNIT, h: UNIT }));
    assert!(!b.overlaps(&Rect { x: 12 * UNIT, y: 95 * UNIT, w: UNIT, h: UNIT }));
}

#[test]
fn player_moves_within_field() {
    let mut p = Player::new(px(120, 100), 8 * UNIT);
    let mut bullets = Vec::new();
    let mut sounds = Vec::new();
    let left = PlayerInput { left: true, right: false, shoot: false };
    let right = PlayerInput { left: false, right: true, shoot: false };
    p.update(100_000, &left, &mut bullets, &mut sounds);
    assert_eq!(p.pos.x, 120 * UNIT - 9 * UNIT);
    p.update(1_000_000, &left, &mut bullets, &mut sounds);
    p.update(1_000_000, &left, &mut bullets, &mut sounds);
    assert_eq!(p.pos.x, 0);
    for _ in 0..4 {
        p.update(1_000_000, &right, &mut bullets, &mut sounds);
    }
    assert_eq!(p.pos.x, 240 * UNIT - 8 * UNIT);
    assert_eq!(p.pos.y, 100 * UNIT);
    assert!(bullets.is_empty());
}

#[test]
fn player_shoots_once_per_cooldown() {
    let mut p = Player::new(px(100, 100), 8 * UNIT);
    let mut bullets = Vec::new();
    let mut sounds = Vec::new();
    let shoot = PlayerInput { left: false, right: false, shoot: true };
    p.update(100_000, &shoot, &mut bullets, &mut sounds);
    assert!(bullets.is_empty());
    assert_eq!(p.shoot_timer, 100_000);
    // the cooldown is tested as it stands at the start of the tick
    p.update(20_000, &shoot, &mut bullets, &mut sounds);
    assert!(bullets.is_empty());
    assert_eq!(p.shoot_timer, 120_000);
    p.update(50_000, &shoot, &mut bullets, &mut sounds);
    assert_eq!(bullets.len(), 1);
    assert_eq!(bullets[0].pos, px(103, 96));
    assert_eq!(bullets[0].hurt_type, BulletHurtType::Enermy);
    assert_eq!(sounds, vec![SoundIdentifier::PlayerShoot]);
    assert_eq!(p.shoot_timer, 0);
    p.update(50_000, &shoot, &mut bullets, &mut sounds);
    assert_eq!(bullets.len(), 1);
    assert_eq!(p.shoot_timer, 50_000);
}

#[test]
fn player_shoots_while_invincible_and_invincibility_runs_out() {
    let mut p = Player::new(px(100, 100), 8 * UNIT);
    p.state = PlayerState::Invincible(PLAYER_TIME_INVISBLE);
    let mut bullets = Vec::new();
    let mut sounds = Vec::new();
    let shoot = PlayerInput { left: false, right: false, shoot: true };
    p.update(500_000, &shoot, &mut bullets, &mut sounds);
    assert!(bullets.is_empty());
    assert_eq!(p.state, PlayerState::Invincible(1_500_000));
    p.update(1_000_000, &shoot, &mut bullets, &mut sounds);
    assert_eq!(bullets.len(), 1);
    p.update(500_000, &shoot, &mut bullets, &mut sounds);
    assert_eq!(p.state, PlayerState::Normal);
}

#[test]
fn spawning_ends_after_tier_duration_whatever_the_ticks() {
    let rng = seeded(1);
    let mut bullets = Vec::new();
    let mut sounds = Vec::new();
    let mut wm = WaveManager::new();
    for (tier, dts) in [
        (EnermyType::NORMAL, vec![100_000i64; 7]),
        (EnermyType::NORMAL, vec![350_000, 350_000]),
        (EnermyType::NORMAL, vec![699_999, 1]),
        (EnermyType::MINI, vec![100_000, 200_000]),
        (EnermyType::MINI, vec![300_000]),
    ] {
        let size = px(8, 8);
        let mut e = Enermy::new(px(100, 40), size, 0, 1, EnermyDeathMethod::NoEffect, tier, EnermyColor::GREEN, &rng);
        let mut transitions = 0;
        for (k, dt) in dts.iter().enumerate() {
            let was_spawning = matches!(e.state, EnermyState::Spawning(_));
            e.update(*dt, &mut bullets, &px(100, 100), &mut wm, &mut sounds, 0, &rng);
            let spawning = matches!(e.state, EnermyState::Spawning(_));
            if was_spawning && !spawning {
                transitions += 1;
            }
            assert_eq!(spawning, k + 1 < dts.len());
        }
        for _ in 0..5 {
            e.update(100_000, &mut bullets, &px(100, 100), &mut wm, &mut sounds, 0, &rng);
            assert!(!matches!(e.state, EnermyState::Spawning(_)));
        }
        assert_eq!(transitions, 1);
    }
}

#[test]
fn normal_enemy_without_homing_delay_stays_normal_and_in_view() {
    let rng = seeded(2);
    let mut e = normal_enemy(px(238, 100), &rng);
    e.state = EnermyState::Normal(EnermyStateNormal { shoot_timer: 0 });
    let mut bullets = Vec::new();
    let mut sounds = Vec::new();
    let mut wm = WaveManager::new();
    for _ in 0..50 {
        e.update(100_000, &mut bullets, &px(0, 0), &mut wm, &mut sounds, 500, &rng);
        assert!(matches!(e.state, EnermyState::Normal(_)));
    }
    assert_eq!(e.state_shared.pos, px(236, 70));
    assert!(bullets.is_empty());
}

#[test]
fn normal_enemy_drifts_by_speed_times_dt_squared() {
    let rng = seeded(3);
    let mut e = normal_enemy(px(100, 40), &rng);
    e.state = EnermyState::Normal(EnermyStateNormal { shoot_timer: 0 });
    let mut wm = WaveManager::new();
    e.update(200_000, &mut Vec::new(), &px(0, 0), &mut wm, &mut Vec::new(), 0, &rng);
    // 50 * 0.2 * 0.2 = 2 px
    assert_eq!(e.state_shared.pos, px(102, 40));
    assert_eq!(e.state, EnermyState::Normal(EnermyStateNormal { shoot_timer: 200_000 }));
}

#[test]
fn mini_enemy_homes_when_its_delay_runs_out() {
    let rng = seeded(4);
    let mut e = Enermy::new(px(100, 40), px(8, 8), 0, 1, EnermyDeathMethod::NoEffect, EnermyType::MINI, EnermyColor::PURPLE, &rng);
    let delay = e.state_shared.charge_timer_optional.unwrap();
    assert!((4_000_000..10_000_000).contains(&delay));
    e.state = EnermyState::Normal(EnermyStateNormal { shoot_timer: 0 });
    let mut wm = WaveManager::new();
    let mut ticks = 0;
    while !matches!(e.state, EnermyState::Homing(_)) {
        e.update(1_000_000, &mut Vec::new(), &px(0, 0), &mut wm, &mut Vec::new(), 0, &rng);
        ticks += 1;
    }
    assert_eq!(ticks, (delay + 999_999) / 1_000_000);
}

#[test]
fn homing_enemy_moves_towards_player_and_dies_below_field() {
    let rng = seeded(5);
    let mut e = normal_enemy(px(100, 120), &rng);
    e.state = EnermyState::Homing(EnermyStateHoming {});
    let mut wm = WaveManager::new();
    wm.last_enermydeath_reason = LastEnermyDeathReason::Player;
    let mut sounds = Vec::new();
    e.update(1_000_000, &mut Vec::new(), &px(150, 100), &mut wm, &mut sounds, 1000, &rng);
    // full sway: a fifth of a pixel to the right; three pixels down
    assert_eq!(e.state_shared.pos, Vec2 { x: 100 * UNIT + 200_000, y: 123 * UNIT });
    assert_eq!(e.state_shared.health, 1);
    e.update(1_000_000, &mut Vec::new(), &px(0, 100), &mut wm, &mut sounds, -1000, &rng);
    assert_eq!(e.state_shared.pos.x, 100 * UNIT + 200_000);
    e.update(1_000_000, &mut Vec::new(), &px(0, 100), &mut wm, &mut sounds, 0, &rng);
    assert_eq!(e.state_shared.pos, Vec2 { x: 100 * UNIT + 100_000, y: 129 * UNIT });
    assert_eq!(e.state_shared.health, 1);
    assert_eq!(wm.last_enermydeath_reason, LastEnermyDeathReason::Player);
    e.update(1_000_000, &mut Vec::new(), &px(0, 100), &mut wm, &mut sounds, 0, &rng);
    assert_eq!(e.state_shared.health, 0);
    assert_eq!(wm.last_enermydeath_reason, LastEnermyDeathReason::Environment);
    assert!(sounds.contains(&SoundIdentifier::Warning));
}

#[test]
fn shooting_enemy_fires_bursts_then_returns_to_normal() {
    let rng = seeded(6);
    let mut e = normal_enemy(px(100, 40), &rng);
    e.state = EnermyState::Shooting(EnermyStateShooting { shots_left: 2, shoot_timer: 0 });
    let mut bullets = Vec::new();
    let mut sounds = Vec::new();
    let mut wm = WaveManager::new();
    e.update(10_000, &mut bullets, &px(0, 0), &mut wm, &mut sounds, 0, &rng);
    assert_eq!(bullets.len(), 1);
    assert_eq!(bullets[0].hurt_type, BulletHurtType::Player);
    assert_eq!(e.state, EnermyState::Shooting(EnermyStateShooting { shots_left: 1, shoot_timer: 200_000 }));
    e.update(100_000, &mut bullets, &px(0, 0), &mut wm, &mut sounds, 0, &rng);
    assert_eq!(bullets.len(), 1);
    e.update(100_000, &mut bullets, &px(0, 0), &mut wm, &mut sounds, 0, &rng);
    assert_eq!(bullets.len(), 2);
    assert_eq!(e.state, EnermyState::Normal(EnermyStateNormal { shoot_timer: 0 }));
    assert_eq!(sounds, vec![SoundIdentifier::EnermyShoot, SoundIdentifier::EnermyShoot]);
}

#[test]
fn clamp_in_view_uses_paddings() {
    let mut p = px(-10, 500);
    Enermy::clamp_in_view(&mut p);
    assert_eq!(p, px(4, 70));
    let mut q = px(300, 0);
    Enermy::clamp_in_view(&mut q);
    assert_eq!(q, px(236, 7));
}

#[test]
fn enemy_hitbox_is_centred_on_position() {
    let rng = seeded(7);
    let e = normal_enemy(px(100, 40), &rng);
    assert_eq!(e.collision_rect(), Rect { x: 92 * UNIT, y: 40 * UNIT, w: 16 * UNIT, h: 16 * UNIT });
    assert!(e.overlaps(&Rect { x: 107 * UNIT, y: 55 * UNIT, w: UNIT, h: UNIT }));
    assert!(!e.overlaps(&Rect { x: 108 * UNIT, y: 55 * UNIT, w: UNIT, h: UNIT }));
}

#[test]
fn colours_by_index() {
    assert_eq!(EnermyColor::from_index(0), EnermyColor::PURPLE);
    assert_eq!(EnermyColor::from_index(1), EnermyColor::GREEN);
    assert_eq!(EnermyColor::from_index(2), EnermyColor::RED);
    let rng = seeded(8);
    for _ in 0..20 {
        let c = EnermyColor::random(&rng);
        assert!(matches!(c, EnermyColor::PURPLE | EnermyColor::GREEN | EnermyColor::RED));
    }
}

#[test]
fn mini_homing_delays_stay_below_ten_seconds() {
    let rng = seeded(9);
    for _ in 0..200 {
        let e = Enermy::new(px(10, 10), px(8, 8), 0, 1, EnermyDeathMethod::NoEffect, EnermyType::MINI, EnermyColor::RED, &rng);
        let d = e.state_shared.charge_timer_optional.unwrap();
        assert!(d >= 4_000_000 && d < 10_000_000);
        assert_eq!(d % 1000, 0);
    }
}
