use quad_rand::RandGenerator;
use space_demons::bullet::{Bullet, BulletHurtType};
use space_demons::combat::{
    enemy_damage_pass, homing_contact_pass, player_damage_pass, process_deaths, resolve_combat,
    retain_bullets, retain_enemies, spawn_children, PendingDeath,
};
use space_demons::constants::{UNIT, PLAYER_TIME_INVISBLE, PLAYER_LIVES_MAX};
use space_demons::enermy::{
    Enermy, EnermyColor, EnermyDeathMethod, EnermyState, EnermyStateHoming, EnermyStateSpawning,
    EnermyType, SpriteSizes,
};
use space_demons::game::{
    ChangeStatePayload, FrameInput, GameManager, GameStateCommand, GameStateGame,
    GameStateIdentifier, GameStateMenu, MenuPayload,
};
use space_demons::geometry::Vec2;
use space_demons::player::{Player, PlayerInput, PlayerState};
use space_demons::resources::SoundIdentifier;
use space_demons::wave::{
    spawn_enermy, LastEnermyDeathReason, SpawnBlueprint, WaveManager, WaveManagerMessage,
    WaveManagerState, WaveManagerStateSpawning,
};

fn seeded(seed: u64) -> RandGenerator {
    let rng = RandGenerator::new();
    rng.srand(seed);
    rng
}

fn px(x: i64, y: i64) -> Vec2 {
    Vec2 { x: x * UNIT, y: y * UNIT }
}

fn sizes() -> SpriteSizes {
    SpriteSizes { normal: px(16, 16), mini: px(8, 8) }
}

fn enemy(pos: Vec2, tier: EnermyType, death: EnermyDeathMethod, rng: &RandGenerator) -> Enermy {
    let size = match tier {
        EnermyType::NORMAL => px(16, 16),
        EnermyType::MINI => px(8, 8),
    };
    Enermy::new(pos, size, 0, 1, death, tier, EnermyColor::GREEN, rng)
}

fn idle() -> PlayerInput {
    PlayerInput { left: false, right: false, shoot: false }
}

fn frame(dt: i64) -> FrameInput {
    FrameInput { dt, sway: 0, player: idle(), start: false }
}

#[test]
fn spawn_count_ramps_linearly_and_saturates() {
    assert_eq!(WaveManager::get_enermy_spawn_count(0), 2);
    assert_eq!(WaveManager::get_enermy_spawn_count(35_000_000), 5);
    assert_eq!(WaveManager::get_enermy_spawn_count(10_000_000), 3);
    assert_eq!(WaveManager::get_enermy_spawn_count(70_000_000), 9);
    assert_eq!(WaveManager::get_enermy_spawn_count(500_000_000), 9);
}

#[test]
fn cleared_battle_at_half_ramp_spawns_midpoint_wave() {
    let rng = seeded(10);
    let mut wm = WaveManager::new();
    wm.state = WaveManagerState::Battle;
    wm.internal_timer = 35_000_000 - 16_000;
    let mut enemies = Vec::new();
    let mut sounds = Vec::new();
    let msg = wm.update(16_000, &mut enemies, &sizes(), &mut sounds, &rng);
    assert_eq!(wm.internal_timer, 35_000_000);
    assert_eq!(
        wm.state,
        WaveManagerState::Spawning(WaveManagerStateSpawning { enermies_left: (2 + 9) / 2, spawn_timer: 0 })
    );
    assert_eq!(msg, Some(WaveManagerMessage::LevelCleared(LastEnermyDeathReason::Environment)));
}

#[test]
fn battle_waits_while_enemies_live() {
    let rng = seeded(11);
    let mut wm = WaveManager::new();
    wm.state = WaveManagerState::Battle;
    let mut enemies = vec![enemy(px(100, 40), EnermyType::NORMAL, EnermyDeathMethod::NoEffect, &rng)];
    let msg = wm.update(16_000, &mut enemies, &sizes(), &mut Vec::new(), &rng);
    assert_eq!(msg, None);
    assert_eq!(wm.state, WaveManagerState::Battle);
}

#[test]
fn two_enemy_wave_reaches_battle_after_two_intervals() {
    let rng = seeded(12);
    let mut wm = WaveManager::new();
    let mut enemies = Vec::new();
    let mut sounds = Vec::new();
    wm.update(500_000, &mut enemies, &sizes(), &mut sounds, &rng);
    assert_eq!(enemies.len(), 1);
    assert!(matches!(wm.state, WaveManagerState::Spawning(_)));
    wm.update(500_000, &mut enemies, &sizes(), &mut sounds, &rng);
    assert_eq!(enemies.len(), 2);
    assert_eq!(wm.state, WaveManagerState::Battle);
    assert_eq!(sounds, vec![SoundIdentifier::Spawn, SoundIdentifier::Spawn]);

    let mut wm = WaveManager::new();
    let mut enemies = Vec::new();
    for k in 1..=10 {
        wm.update(100_000, &mut enemies, &sizes(), &mut Vec::new(), &rng);
        assert_eq!(matches!(wm.state, WaveManagerState::Battle), k == 10);
    }
    assert_eq!(enemies.len(), 2);
}

#[test]
fn wave_enemies_spawn_near_centre() {
    let rng = seeded(13);
    let mut enemies = Vec::new();
    for _ in 0..100 {
        spawn_enermy(&mut enemies, &sizes(), SpawnBlueprint::Normal, EnermyColor::RED, &rng);
    }
    for e in &enemies {
        let p = e.state_shared.pos;
        assert!(p.x >= 20 * UNIT && p.x < 220 * UNIT);
        assert!(p.y >= 5 * UNIT && p.y < 75 * UNIT);
        assert_eq!(e.state_shared.health, 1);
        assert_eq!(e.state_shared.enermy_type, EnermyType::NORMAL);
        assert_eq!(e.state_shared.enermy_color, EnermyColor::RED);
        assert!(matches!(
            e.state_shared.death_method,
            EnermyDeathMethod::NoEffect | EnermyDeathMethod::SpawnChildren(1) | EnermyDeathMethod::SpawnChildren(2)
        ));
        assert_eq!(e.state, EnermyState::Spawning(EnermyStateSpawning { spawn_timer: 0 }));
    }
}

#[test]
fn children_spawn_in_a_row_with_parent_colour() {
    let rng = seeded(14);
    let mut enemies = Vec::new();
    spawn_children(&mut enemies, px(50, 30), 2, EnermyColor::PURPLE, &sizes(), &rng);
    assert_eq!(enemies.len(), 2);
    assert_eq!(enemies[0].state_shared.pos, px(50, 30));
    assert_eq!(enemies[1].state_shared.pos, px(60, 30));
    for e in &enemies {
        assert_eq!(e.state_shared.enermy_type, EnermyType::MINI);
        assert_eq!(e.state_shared.enermy_color, EnermyColor::PURPLE);
        assert_eq!(e.state_shared.death_method, EnermyDeathMethod::NoEffect);
        assert_eq!(e.state, EnermyState::Spawning(EnermyStateSpawning { spawn_timer: 0 }));
    }
    spawn_children(&mut enemies, px(50, 30), 3, EnermyColor::RED, &sizes(), &rng);
    assert_eq!(enemies.len(), 5);
    assert_eq!(enemies[3].state_shared.pos.x, 50 * UNIT + 20 * UNIT / 3);
    assert_eq!(enemies[4].state_shared.pos.x, 50 * UNIT + 40 * UNIT / 3);
    spawn_children(&mut enemies, px(50, 30), 0, EnermyColor::RED, &sizes(), &rng);
    assert_eq!(enemies.len(), 5);
}

#[test]
fn one_bullet_kills_one_enemy_and_scores_once() {
    let rng = seeded(15);
    for (tier, points) in [(EnermyType::NORMAL, 100u64), (EnermyType::MINI, 20u64)] {
        let mut enemies = vec![
            enemy(px(100, 40), tier, EnermyDeathMethod::NoEffect, &rng),
            enemy(px(102, 40), tier, EnermyDeathMethod::NoEffect, &rng),
        ];
        let mut bullets = vec![Bullet::new(px(100, 42), BulletHurtType::Enermy)];
        let mut player = Player::new(px(120, 110), 8 * UNIT);
        let mut lives = 5;
        let mut score = 0u64;
        let mut reason = LastEnermyDeathReason::Environment;
        let mut sounds = Vec::new();
        let over = resolve_combat(
            &mut bullets, &mut enemies, &mut player, &mut lives, &mut score, &mut reason, &sizes(), &mut sounds, &rng,
        );
        assert!(!over);
        assert_eq!(score, points);
        assert!(bullets.is_empty());
        assert_eq!(enemies.len(), 1);
        assert_eq!(enemies[0].state_shared.pos, px(102, 40));
        assert_eq!(reason, LastEnermyDeathReason::Player);
        assert_eq!(sounds, vec![SoundIdentifier::EnermyOuch]);
    }
}

#[test]
fn killed_parent_spawns_children_and_sound() {
    let rng = seeded(16);
    let mut enemies = vec![enemy(px(100, 40), EnermyType::NORMAL, EnermyDeathMethod::SpawnChildren(2), &rng)];
    let mut bullets = vec![Bullet::new(px(100, 42), BulletHurtType::Enermy)];
    let mut reason = LastEnermyDeathReason::Environment;
    let mut sounds = Vec::new();
    let deaths = enemy_damage_pass(&mut bullets, &mut enemies, &mut reason, &mut sounds);
    assert_eq!(
        deaths,
        vec![PendingDeath {
            pos: px(100, 40),
            death_method: EnermyDeathMethod::SpawnChildren(2),
            enermy_type: EnermyType::NORMAL,
            enermy_color: EnermyColor::GREEN,
        }]
    );
    assert!(bullets[0].is_kill);
    assert_eq!(enemies[0].state_shared.health, 0);
    let mut score = 0u64;
    process_deaths(&deaths, &mut enemies, &mut score, &sizes(), &mut sounds, &rng);
    assert_eq!(score, 100);
    assert_eq!(enemies.len(), 3);
    assert_eq!(enemies[1].state_shared.pos, px(100, 40));
    assert_eq!(enemies[2].state_shared.pos, px(110, 40));
    assert_eq!(enemies[1].state_shared.enermy_color, EnermyColor::GREEN);
    assert_eq!(enemies[2].state_shared.enermy_type, EnermyType::MINI);
    assert_eq!(sounds, vec![SoundIdentifier::EnermyOuch, SoundIdentifier::SpawnMini]);
    retain_bullets(&mut bullets);
    retain_enemies(&mut enemies);
    assert!(bullets.is_empty());
    assert_eq!(enemies.len(), 2);
}

#[test]
fn bullet_hits_only_first_live_enemy() {
    let rng = seeded(17);
    let mut dead = enemy(px(100, 40), EnermyType::NORMAL, EnermyDeathMethod::NoEffect, &rng);
    dead.state_shared.health = 0;
    let mut tough = enemy(px(101, 40), EnermyType::NORMAL, EnermyDeathMethod::NoEffect, &rng);
    tough.state_shared.health = 3;
    let third = enemy(px(102, 40), EnermyType::NORMAL, EnermyDeathMethod::NoEffect, &rng);
    let mut enemies = vec![dead, tough, third];
    let mut bullets = vec![
        Bullet::new(px(100, 42), BulletHurtType::Enermy),
        Bullet::new(px(100, 42), BulletHurtType::Player),
    ];
    let mut reason = LastEnermyDeathReason::Environment;
    let deaths = enemy_damage_pass(&mut bullets, &mut enemies, &mut reason, &mut Vec::new());
    assert!(deaths.is_empty());
    assert_eq!(enemies[0].state_shared.health, 0);
    assert_eq!(enemies[1].state_shared.health, 2);
    assert_eq!(enemies[2].state_shared.health, 1);
    assert!(bullets[0].is_kill);
    assert!(!bullets[1].is_kill);
}

#[test]
fn retention_drops_killed_and_far_bullets() {
    let mut far = Bullet::new(px(0, 0), BulletHurtType::Enermy);
    far.pos.y = -2 * space_demons::constants::WORLD_LIMIT;
    let mut killed = Bullet::new(px(5, 5), BulletHurtType::Enermy);
    killed.is_kill = true;
    let keep = Bullet::new(px(7, 7), BulletHurtType::Player);
    let mut bullets = vec![far, killed, keep];
    retain_bullets(&mut bullets);
    assert_eq!(bullets, vec![keep]);
}

#[test]
fn invincible_player_loses_no_life_to_any_contact() {
    let rng = seeded(18);
    let mut player = Player::new(px(100, 100), 8 * UNIT);
    player.state = PlayerState::Invincible(1_000_000);
    let mut homing = enemy(px(103, 95), EnermyType::MINI, EnermyDeathMethod::NoEffect, &rng);
    homing.state = EnermyState::Homing(EnermyStateHoming {});
    let mut enemies = vec![homing, homing];
    let mut bullets = vec![
        Bullet::new(px(101, 101), BulletHurtType::Player),
        Bullet::new(px(102, 101), BulletHurtType::Player),
    ];
    let mut lives = 3;
    let mut score = 0u64;
    let mut reason = LastEnermyDeathReason::Environment;
    let over = resolve_combat(
        &mut bullets, &mut enemies, &mut player, &mut lives, &mut score, &mut reason, &sizes(), &mut Vec::new(), &rng,
    );
    assert!(!over);
    assert_eq!(lives, 3);
    assert_eq!(player.state, PlayerState::Invincible(1_000_000));
    assert_eq!(bullets.len(), 2);
    assert_eq!(enemies.len(), 2);
}

#[test]
fn homing_contacts_each_cost_a_life_and_die() {
    let rng = seeded(19);
    let mut player = Player::new(px(100, 100), 8 * UNIT);
    let mut homing = enemy(px(103, 95), EnermyType::MINI, EnermyDeathMethod::NoEffect, &rng);
    homing.state = EnermyState::Homing(EnermyStateHoming {});
    let far = enemy(px(10, 10), EnermyType::MINI, EnermyDeathMethod::NoEffect, &rng);
    let mut enemies = vec![homing, far, homing];
    let mut lives = 5;
    let mut sounds = Vec::new();
    homing_contact_pass(&mut enemies, &mut player, &mut lives, &mut sounds);
    assert_eq!(lives, 3);
    assert_eq!(player.state, PlayerState::Invincible(PLAYER_TIME_INVISBLE));
    assert_eq!(enemies[0].state_shared.health, 0);
    assert_eq!(enemies[1].state_shared.health, 1);
    assert_eq!(enemies[2].state_shared.health, 0);
    assert_eq!(sounds, vec![SoundIdentifier::PlayerOuch, SoundIdentifier::PlayerOuch]);
}

#[test]
fn first_overlapping_bullet_hurts_player_once_then_invincibility_holds() {
    let mut player = Player::new(px(100, 100), 8 * UNIT);
    let mut lives = 5;
    let mut sounds = Vec::new();
    let mut bullets = vec![
        Bullet::new(px(50, 50), BulletHurtType::Player),
        Bullet::new(px(101, 101), BulletHurtType::Player),
        Bullet::new(px(102, 101), BulletHurtType::Player),
    ];
    let hit = player_damage_pass(&mut bullets, &mut player, &mut lives, &mut sounds);
    assert_eq!(hit, Some(1));
    assert_eq!(lives, 4);
    assert_eq!(player.state, PlayerState::Invincible(PLAYER_TIME_INVISBLE));
    assert!(!bullets[0].is_kill && bullets[1].is_kill && !bullets[2].is_kill);
    let again = player_damage_pass(&mut bullets, &mut player, &mut lives, &mut sounds);
    assert_eq!(again, None);
    assert_eq!(lives, 4);
}

fn session() -> GameStateGame {
    GameStateGame::new(px(116, 100), 8 * UNIT, sizes())
}

#[test]
fn end_to_end_bullet_hit_then_invincibility_window() {
    let rng = seeded(20);
    let mut g = session();
    assert_eq!(g.player_lives, 5);
    assert_eq!(g.player.state, PlayerState::Normal);
    // the bullet is placed so that after moving 80 px/s for 1 ms it overlaps the player
    g.bullet.push(Bullet::new(px(117, 99), BulletHurtType::Player));
    let mut lives = g.player_lives;
    let mut score = g.player_score;
    let hit = resolve_combat(
        &mut g.bullet, &mut g.enermies, &mut g.player, &mut lives, &mut score,
        &mut g.wave_manager.last_enermydeath_reason, &g.sizes, &mut Vec::new(), &rng,
    );
    assert!(!hit);
    assert_eq!(lives, 4);
    assert_eq!(g.player.state, PlayerState::Invincible(PLAYER_TIME_INVISBLE));
    assert!(g.bullet.is_empty());
    g.player_lives = lives;
    // a second overlapping bullet a tenth of a second later
    g.player.update(100_000, &idle(), &mut g.bullet, &mut Vec::new());
    assert_eq!(g.player.state, PlayerState::Invincible(PLAYER_TIME_INVISBLE - 100_000));
    g.bullet.push(Bullet::new(px(117, 99), BulletHurtType::Player));
    let r = g.update(&frame(1_000), &mut Vec::new(), &rng);
    assert_eq!(r, None);
    assert_eq!(g.player_lives, 4);
    assert_eq!(g.bullet.len(), 1);
}

#[test]
fn session_tick_hit_costs_life_and_removes_bullet() {
    let rng = seeded(21);
    let mut g = session();
    g.bullet.push(Bullet::new(px(117, 99), BulletHurtType::Player));
    let mut sounds = Vec::new();
    let r = g.update(&frame(1_000), &mut sounds, &rng);
    assert_eq!(r, None);
    assert_eq!(g.player_lives, 4);
    assert_eq!(g.player.state, PlayerState::Invincible(PLAYER_TIME_INVISBLE - 1_000));
    assert!(g.bullet.is_empty());
    assert!(sounds.contains(&SoundIdentifier::PlayerOuch));
}

#[test]
fn last_life_lost_ends_session_with_score() {
    let rng = seeded(22);
    let mut g = session();
    g.player_lives = 1;
    g.player_score = 1234;
    g.bullet.push(Bullet::new(px(117, 99), BulletHurtType::Player));
    let r = g.update(&frame(1_000), &mut Vec::new(), &rng);
    assert_eq!(
        r,
        Some(GameStateCommand::ChangeState(
            GameStateIdentifier::Menu,
            Some(ChangeStatePayload::MenuPayload(MenuPayload { score: 1234 }))
        ))
    );
    assert_eq!(g.player_lives, 0);
    assert!(g.bullet.is_empty());
}

#[test]
fn cleared_wave_grants_life_and_bonus() {
    let rng = seeded(23);
    let mut g = session();
    g.wave_manager.state = WaveManagerState::Battle;
    let mut sounds = Vec::new();
    g.update(&frame(1_000), &mut sounds, &rng);
    assert_eq!(g.player_lives, 6);
    assert_eq!(g.player_score, 750);
    assert!(sounds.contains(&SoundIdentifier::WaveCleared));
    g.player_lives = PLAYER_LIVES_MAX;
    g.wave_manager.state = WaveManagerState::Battle;
    g.wave_manager.last_enermydeath_reason = LastEnermyDeathReason::Player;
    g.enermies.clear();
    g.update(&frame(1_000), &mut Vec::new(), &rng);
    assert_eq!(g.player_lives, PLAYER_LIVES_MAX);
    assert_eq!(g.player_score, 1750);
}

#[test]
fn session_tick_shot_kills_enemy_and_scores() {
    let rng = seeded(24);
    let mut g = session();
    g.wave_manager.state = WaveManagerState::Battle;
    g.enermies.push(enemy(px(100, 40), EnermyType::NORMAL, EnermyDeathMethod::NoEffect, &rng));
    g.bullet.push(Bullet::new(px(100, 42), BulletHurtType::Enermy));
    g.update(&frame(1_000), &mut Vec::new(), &rng);
    assert_eq!(g.player_score, 100);
    assert!(g.enermies.is_empty());
    assert!(g.bullet.is_empty());
}

#[test]
fn session_restart_resets_everything() {
    let rng = seeded(25);
    let mut g = session();
    g.player_lives = 2;
    g.player_score = 99;
    g.bullet.push(Bullet::new(px(1, 1), BulletHurtType::Enermy));
    g.enermies.push(enemy(px(100, 40), EnermyType::NORMAL, EnermyDeathMethod::NoEffect, &rng));
    g.player.pos = px(3, 100);
    g.on_enter(None);
    assert_eq!(g.player_lives, 5);
    assert_eq!(g.player_score, 0);
    assert!(g.bullet.is_empty() && g.enermies.is_empty());
    assert_eq!(g.player.pos, px(116, 100));
    assert_eq!(g.wave_manager.internal_timer, 0);
}

#[test]
fn menu_and_manager_switch_states() {
    let rng = seeded(26);
    let mut menu = GameStateMenu::new();
    assert_eq!(menu.update(&frame(1_000)), None);
    let start = FrameInput { start: true, ..frame(1_000) };
    assert_eq!(menu.update(&start), Some(GameStateCommand::ChangeState(GameStateIdentifier::Game, None)));
    menu.on_enter(Some(ChangeStatePayload::MenuPayload(MenuPayload { score: 42 })));
    assert_eq!(menu.last_score_optional, Some(42));

    let mut manager = GameManager::new(session());
    manager.update(&frame(1_000), &mut Vec::new(), &rng);
    assert_eq!(manager.current_state_identifier, GameStateIdentifier::Menu);
    manager.update(&start, &mut Vec::new(), &rng);
    assert_eq!(manager.current_state_identifier, GameStateIdentifier::Game);
    manager.game.player_lives = 1;
    manager.game.bullet.push(Bullet::new(px(117, 99), BulletHurtType::Player));
    manager.update(&frame(1_000), &mut Vec::new(), &rng);
    assert_eq!(manager.current_state_identifier, GameStateIdentifier::Menu);
    assert_eq!(manager.menu.last_score_optional, Some(0));
}
