use vstd::prelude::*;
use quad_rand::RandGenerator;
use crate::constants::{
    MAX_DT, PLAYER_LIVES_START, PLAYER_LIVES_MAX, SCORE_SURVIVED_ALL, SCORE_KILL_ALL,
};
use crate::geometry::{Vec2, sprite_size_ok, sat_time};
use crate::player::{Player, PlayerInput, PlayerState, moved_x};
use crate::enermy::{Enermy, SpriteSizes};
use crate::bullet::Bullet;
use crate::wave::{WaveManager, WaveManagerMessage, LastEnermyDeathReason, sizes_ok};
use crate::combat::{
    bullets_wf, bullets_in_reach, enemies_wf, resolve_combat, add_score, lives_after_combat,
    player_after_combat, bullets_after_hit, enemies_after_contact, combat_damage, kept_bullets,
    kept_enemies, children_ok, deaths_score,
};
use crate::bullet::{bullet_moved, BulletHurtType};
use crate::enermy::{enemy_step_ok, EnermyType};
use crate::player::{state_after, muzzle};
use crate::wave::{wave_state_after, WaveManagerState};
use crate::constants::PLAYER_SHOOT_TIME;
use crate::resources::SoundIdentifier;

verus! {

#[derive(Clone, Copy, Debug, PartialEq, Eq, Structural)]
pub struct MenuPayload {
    pub score: u64,
}

#[derive(Clone, Copy, Debug, PartialEq, Eq, Structural)]
pub enum ChangeStatePayload {
    MenuPayload(MenuPayload),
}

#[derive(Clone, Copy, Debug, PartialEq, Eq, Hash, Structural)]
pub enum GameStateIdentifier {
    Menu,
    Game,
}

#[derive(Clone, Copy, Debug, PartialEq, Eq, Structural)]
pub enum GameStateCommand {
    ChangeState(GameStateIdentifier, Option<ChangeStatePayload>),
}

/// Everything the simulation reads from outside during one tick.
#[derive(Clone, Copy, Debug, PartialEq, Eq, Structural)]
pub struct FrameInput {
    /// Length of the tick, in microseconds.
    pub dt: i64,
    /// Current sample, in thousandths, of the sine wave that sways homing enemies.
    pub sway: i64,
    pub player: PlayerInput,
    /// The start key was pressed during this tick.
    pub start: bool,
}

/// The menu shown between sessions, with the score of the last one.
#[derive(Clone, Copy, Debug, PartialEq, Eq, Structural)]
pub struct GameStateMenu {
    pub last_score_optional: Option<u64>,
}

/// One session: the player, the entity collections, the score and lives, and
/// the wave manager.
pub struct GameStateGame {
    pub player_score: u64,
    pub player_lives: i32,
    pub player: Player,
    pub enermies: Vec<Enermy>,
    pub bullet: Vec<Bullet>,
    pub wave_manager: WaveManager,
    pub sizes: SpriteSizes,
    /// Where the player starts a session.
    pub player_spawn: Vec2,
}

pub struct GameManager {
    pub menu: GameStateMenu,
    pub game: GameStateGame,
    pub current_state_identifier: GameStateIdentifier,
}

/// Score bonus for clearing a wave: more when the player killed the last
/// enemy than when the environment did.
pub open spec fn clear_bonus(reason: LastEnermyDeathReason) -> int {
    match reason {
        LastEnermyDeathReason::Environment => SCORE_SURVIVED_ALL as int,
        LastEnermyDeathReason::Player => SCORE_KILL_ALL as int,
    }
}

/// The wave was cleared at the start of the tick: the battle is on and no
/// enemy is left.
pub open spec fn wave_cleared(g: GameStateGame) -> bool {
    g.wave_manager.state is Battle && g.enermies@.len() == 0
}

pub open spec fn lives_after_wave(g: GameStateGame) -> int {
    if wave_cleared(g) {
        if g.player_lives < PLAYER_LIVES_MAX { g.player_lives + 1 } else { PLAYER_LIVES_MAX as int }
    } else {
        g.player_lives as int
    }
}

pub open spec fn score_after_wave(g: GameStateGame) -> int {
    if wave_cleared(g) {
        add_score(g.player_score as int, clear_bonus(g.wave_manager.last_enermydeath_reason))
    } else {
        g.player_score as int
    }
}

/// The enemies `es`, bullets `bs` and cause of the last enemy death `reason`
/// as the combat resolver finds them: each enemy of `g` has taken its step
/// (a wave enemy may have joined at the end), each bullet of `g` has moved
/// (new bullets, shot by enemies, come after them), and the cause of death is
/// unchanged unless a homing enemy fell out of the field.
pub open spec fn advanced(
    g: GameStateGame,
    es: Seq<Enermy>,
    bs: Seq<Bullet>,
    reason: LastEnermyDeathReason,
    input: FrameInput,
) -> bool {
    let n = g.enermies@.len();
    let m = g.bullet@.len();
    &&& n <= es.len() <= n + 1
    &&& enemies_wf(es)
    &&& forall|k: int|
        0 <= k < n ==> enemy_step_ok(g.enermies@[k], #[trigger] es[k], g.player.pos, input.sway as int, input.dt as int)
    &&& forall|k: int|
        n <= k < es.len() ==> (#[trigger] es[k]).state_shared.enermy_type == EnermyType::NORMAL
            && es[k].state_shared.health == 1
    &&& m <= bs.len()
    &&& bullets_in_reach(bs)
    &&& forall|k: int| 0 <= k < m ==> #[trigger] bs[k] == bullet_moved(g.bullet@[k], input.dt as int)
    &&& forall|k: int|
        m <= k < bs.len() ==> (#[trigger] bs[k]).hurt_type == BulletHurtType::Player && !bs[k].is_kill
    &&& (reason == g.wave_manager.last_enermydeath_reason || reason == LastEnermyDeathReason::Environment)
}

/// The session `f` after the combat resolver and the player's own step have
/// run on `es`, `bs` and `reason` (see `advanced`), with the wave reward given.
pub open spec fn tick_outcome(
    g: GameStateGame,
    es: Seq<Enermy>,
    bs: Seq<Bullet>,
    reason: LastEnermyDeathReason,
    input: FrameInput,
    f: GameStateGame,
    r: Option<GameStateCommand>,
) -> bool {
    let p = g.player;
    let lives = lives_after_combat(lives_after_wave(g), bs, es, p);
    let pc = player_after_combat(bs, es, p);
    &&& f.player_lives == lives
    &&& f.wave_manager.state == wave_state_after(g.wave_manager, g.enermies@.len() as int, input.dt as int)
    &&& if lives <= 0 {
        &&& r == Some(
            GameStateCommand::ChangeState(
                GameStateIdentifier::Menu,
                Some(ChangeStatePayload::MenuPayload(MenuPayload { score: f.player_score })),
            ),
        )
        &&& f.player == pc
        &&& f.bullet@ == kept_bullets(bullets_after_hit(bs, p))
        &&& f.enermies@ == enemies_after_contact(bs, es, p)
        &&& f.player_score == score_after_wave(g)
        &&& f.wave_manager.last_enermydeath_reason == reason
    } else {
        let (bs2, es2, ds, hit) = combat_damage(bs, es, p);
        let kept = kept_bullets(bs2);
        let k = kept_enemies(es2).len() as int;
        &&& r is None
        &&& f.player_score == add_score(score_after_wave(g), deaths_score(ds))
        &&& f.wave_manager.last_enermydeath_reason == if hit { LastEnermyDeathReason::Player } else { reason }
        &&& f.enermies@.take(k) == kept_enemies(es2)
        &&& children_ok(ds, f.enermies@.skip(k), g.sizes)
        &&& f.player.pos.x == moved_x(pc.pos.x as int, pc.width as int, input.player, input.dt as int)
        &&& f.player.pos.y == pc.pos.y
        &&& f.player.state == state_after(pc.state, input.dt as int)
        &&& if input.player.shoot && pc.shoot_timer >= PLAYER_SHOOT_TIME {
            &&& f.bullet@ == kept.push(Bullet::new_spec(muzzle(f.player.pos), BulletHurtType::Enermy))
            &&& f.player.shoot_timer == 0
        } else {
            &&& f.bullet@ == kept
            &&& f.player.shoot_timer == sat_time(pc.shoot_timer as int, input.dt as int)
        }
    }
}

impl GameStateMenu {
    pub fn new() -> (r: GameStateMenu)
        ensures
            r.last_score_optional is None,
    {
        GameStateMenu { last_score_optional: None }
    }

    /// Starts a session when the start key is pressed.
    pub fn update(&mut self, input: &FrameInput) -> (r: Option<GameStateCommand>)
        ensures
            *final(self) == *old(self),
            r == if input.start {
                Some(GameStateCommand::ChangeState(GameStateIdentifier::Game, None))
            } else {
                None
            },
    {
        if input.start {
            return Some(GameStateCommand::ChangeState(GameStateIdentifier::Game, None));
        }
        None
    }

    /// Keeps the score that a finished session hands over.
    pub fn on_enter(&mut self, payload_optional: Option<ChangeStatePayload>)
        ensures
            final(self).last_score_optional == match payload_optional {
                Some(ChangeStatePayload::MenuPayload(p)) => Some(p.score),
                None => old(self).last_score_optional,
            },
    {
        if let Some(payload) = payload_optional {
            match payload {
                ChangeStatePayload::MenuPayload(menu_payload) => {
                    self.last_score_optional = Some(menu_payload.score);
                },
            }
        }
    }
}

impl GameStateGame {
    /// What a session keeps across restarts.
    pub open spec fn setup_ok(&self) -> bool {
        &&& sizes_ok(self.sizes)
        &&& self.player_spawn.wf()
        &&& sprite_size_ok(self.player.width)
    }

    pub open spec fn wf(&self) -> bool {
        &&& self.setup_ok()
        &&& 1 <= self.player_lives <= PLAYER_LIVES_MAX
        &&& self.player.wf()
        &&& bullets_wf(self.bullet@)
        &&& enemies_wf(self.enermies@)
        &&& self.wave_manager.wf()
    }

    /// A fresh session with the player at `player_spawn`.
    pub fn new(player_spawn: Vec2, player_width: i64, sizes: SpriteSizes) -> (r: GameStateGame)
        requires
            player_spawn.wf(),
            sprite_size_ok(player_width),
            sizes_ok(sizes),
        ensures
            r.wf(),
            r.player_score == 0,
            r.player_lives == PLAYER_LIVES_START,
            r.player.pos == player_spawn,
            r.player.width == player_width,
            r.player.state == PlayerState::Normal,
            r.player.shoot_timer == 0,
            r.wave_manager == WaveManager::fresh(),
            r.enermies@.len() == 0,
            r.bullet@.len() == 0,
    {
        GameStateGame {
            player_score: 0,
            player_lives: PLAYER_LIVES_START,
            player: Player::new(player_spawn, player_width),
            enermies: Vec::new(),
            bullet: Vec::new(),
            wave_manager: WaveManager::new(),
            sizes,
            player_spawn,
        }
    }

    /// Starts the session over.
    pub fn on_enter(&mut self, payload_optional: Option<ChangeStatePayload>)
        requires
            old(self).setup_ok(),
        ensures
            final(self).wf(),
            final(self).sizes == old(self).sizes,
            final(self).player_spawn == old(self).player_spawn,
            final(self).player_score == 0,
            final(self).player_lives == PLAYER_LIVES_START,
            final(self).player.pos == old(self).player_spawn,
            final(self).player.width == old(self).player.width,
            final(self).player.state == PlayerState::Normal,
            final(self).player.shoot_timer == 0,
            final(self).enermies@.len() == 0,
            final(self).bullet@.len() == 0,
            final(self).wave_manager == WaveManager::fresh(),
    {
        self.wave_manager.reset();
        self.player.reset(self.player_spawn);
        self.player_score = 0;
        self.player_lives = PLAYER_LIVES_START;
        self.enermies.clear();
        self.bullet.clear();
    }

    /// A cleared wave gives one life, up to the maximum, and a score bonus
    /// that depends on what killed the last enemy.
    pub fn reward_cleared_wave(
        player_lives: &mut i32,
        player_score: &mut u64,
        reason: LastEnermyDeathReason,
        sounds: &mut Vec<SoundIdentifier>,
    )
        requires
            *old(player_lives) <= PLAYER_LIVES_MAX,
        ensures
            *final(player_lives) == if *old(player_lives) < PLAYER_LIVES_MAX {
                *old(player_lives) + 1
            } else {
                PLAYER_LIVES_MAX as int
            },
            *final(player_score) == crate::combat::add_score(*old(player_score) as int, clear_bonus(reason)),
            final(sounds)@ == old(sounds)@.push(SoundIdentifier::WaveCleared),
    {
        *player_lives = if *player_lives < PLAYER_LIVES_MAX {
            *player_lives + 1
        } else {
            PLAYER_LIVES_MAX
        };
        let bonus = match reason {
            LastEnermyDeathReason::Environment => SCORE_SURVIVED_ALL,
            LastEnermyDeathReason::Player => SCORE_KILL_ALL,
        };
        sounds.push(SoundIdentifier::WaveCleared);
        *player_score = if *player_score > u64::MAX - bonus {
            u64::MAX
        } else {
            *player_score + bonus
        };
    }

    /// One tick of the session, in its fixed order: the wave manager (a
    /// cleared wave gives one life, up to the maximum, and a score bonus), each
    /// enemy, each bullet, the combat resolver, and last the player. When the
    /// player has no life left the session asks for the menu, with the score.
    pub fn update(
        &mut self,
        input: &FrameInput,
        sounds: &mut Vec<SoundIdentifier>,
        rng: &RandGenerator,
    ) -> (r: Option<GameStateCommand>)
        requires
            old(self).wf(),
            0 <= input.dt <= MAX_DT,
            -1000 <= input.sway <= 1000,
        ensures
            exists|es: Seq<Enermy>, bs: Seq<Bullet>, reason: LastEnermyDeathReason|
                #[trigger] advanced(*old(self), es, bs, reason, *input) && tick_outcome(
                    *old(self),
                    es,
                    bs,
                    reason,
                    *input,
                    *final(self),
                    r,
                ),
            final(self).setup_ok(),
            final(self).sizes == old(self).sizes,
            final(self).player_spawn == old(self).player_spawn,
            final(self).wave_manager.internal_timer == sat_time(
                old(self).wave_manager.internal_timer as int,
                input.dt as int,
            ),
            forall|k: int|
                0 <= k < final(self).bullet@.len() ==> !(#[trigger] final(self).bullet@[k]).is_kill,
            match r {
                None => {
                    &&& final(self).wf()
                    &&& final(self).player.pos.x == moved_x(
                        old(self).player.pos.x as int,
                        old(self).player.width as int,
                        input.player,
                        input.dt as int,
                    )
                    &&& final(self).player.pos.y == old(self).player.pos.y
                    &&& forall|k: int|
                        0 <= k < final(self).bullet@.len() ==> !(#[trigger] final(self).bullet@[k]).is_kill
                    &&& forall|k: int|
                        0 <= k < final(self).enermies@.len() ==> (#[trigger] final(self).enermies@[k]).alive()
                },
                Some(c) => {
                    &&& final(self).player_lives <= 0
                    &&& c == GameStateCommand::ChangeState(
                        GameStateIdentifier::Menu,
                        Some(ChangeStatePayload::MenuPayload(MenuPayload { score: final(self).player_score })),
                    )
                },
            },
    {
        let dt = input.dt;
        let ghost g0 = *old(self);
        let ghost n = old(self).enermies@.len();
        let ghost m = old(self).bullet@.len();
        let ghost es0 = self.enermies@;
        let message = self.wave_manager.update(dt, &mut self.enermies, &self.sizes, sounds, rng);
        let ghost es_w = self.enermies@;
        proof {
            assert forall|k: int| 0 <= k < self.enermies@.len() implies (#[trigger] self.enermies@[k]).wf() by {
                if k < es0.len() {
                    assert(self.enermies@.take(es0.len() as int)[k] == es0[k]);
                }
            }
            assert forall|k: int| 0 <= k < n implies #[trigger] es_w[k] == es0[k] by {
                if es_w.len() > n {
                    assert(es_w.take(n as int)[k] == es0[k]);
                }
            }
        }
        if let Some(WaveManagerMessage::LevelCleared(reason)) = message {
            Self::reward_cleared_wave(&mut self.player_lives, &mut self.player_score, reason, sounds);
        }
        let ghost timer1 = self.wave_manager.internal_timer;
        let ghost score1 = self.player_score;
        let ghost lives1 = self.player_lives;
        let ghost player1 = self.player;
        let ghost sizes1 = self.sizes;
        let ghost spawn1 = self.player_spawn;
        let ghost wave1 = self.wave_manager.state;
        let ghost reason0 = old(self).wave_manager.last_enermydeath_reason;
        assert(lives1 == lives_after_wave(g0));
        assert(score1 == score_after_wave(g0));
        let mut i: usize = 0;
        while i < self.enermies.len()
            invariant
                i <= self.enermies@.len(),
                self.enermies@.len() == es_w.len(),
                n <= es_w.len() <= n + 1,
                n == g0.enermies@.len(),
                m == g0.bullet@.len(),
                g0 == *old(self),
                forall|k: int| 0 <= k < n ==> #[trigger] es_w[k] == g0.enermies@[k],
                forall|k: int|
                    n <= k < es_w.len() ==> (#[trigger] es_w[k]).state_shared.enermy_type == EnermyType::NORMAL
                        && es_w[k].state_shared.health == 1 && es_w[k].state is Spawning,
                forall|k: int|
                    0 <= k < i ==> enemy_step_ok(es_w[k], #[trigger] self.enermies@[k], player1.pos, input.sway as int, dt as int),
                forall|k: int| i <= k < es_w.len() ==> #[trigger] self.enermies@[k] == es_w[k],
                self.bullet@.len() >= m,
                forall|k: int| 0 <= k < m ==> #[trigger] self.bullet@[k] == g0.bullet@[k],
                forall|k: int|
                    m <= k < self.bullet@.len() ==> (#[trigger] self.bullet@[k]).hurt_type == BulletHurtType::Player
                        && !self.bullet@[k].is_kill,
                self.wave_manager.last_enermydeath_reason == reason0
                    || self.wave_manager.last_enermydeath_reason == LastEnermyDeathReason::Environment,
                reason0 == g0.wave_manager.last_enermydeath_reason,
                self.wave_manager.state == wave1,
                wave1 == wave_state_after(g0.wave_manager, n as int, dt as int),
                enemies_wf(self.enermies@),
                bullets_wf(self.bullet@),
                self.wave_manager.wf(),
                self.wave_manager.internal_timer == timer1,
                self.player == player1,
                player1.wf(),
                player1 == old(self).player,
                timer1 == sat_time(old(self).wave_manager.internal_timer as int, dt as int),
                self.player_score == score1,
                self.player_lives == lives1,
                lives1 == lives_after_wave(g0),
                score1 == score_after_wave(g0),
                1 <= lives1 <= PLAYER_LIVES_MAX,
                self.sizes == sizes1,
                self.player_spawn == spawn1,
                sizes_ok(sizes1),
                spawn1.wf(),
                sprite_size_ok(player1.width),
                0 <= dt <= MAX_DT,
                -1000 <= input.sway <= 1000,
                sizes1 == old(self).sizes,
                spawn1 == old(self).player_spawn,
            decreases self.enermies@.len() - i,
        {
            let mut e = self.enermies[i];
            assert(self.enermies@[i as int].wf());
            let ghost bs = self.bullet@;
            let ghost before = self.enermies@;
            e.update(dt, &mut self.bullet, &self.player.pos, &mut self.wave_manager, sounds, input.sway, rng);
            self.enermies.set(i, e);
            proof {
                assert forall|k: int| 0 <= k < self.bullet@.len() implies (#[trigger] self.bullet@[k]).wf() by {
                    if k < bs.len() {
                        assert(self.bullet@.take(bs.len() as int)[k] == bs[k]);
                    }
                }
                assert forall|k: int| 0 <= k < m implies #[trigger] self.bullet@[k] == g0.bullet@[k] by {
                    assert(self.bullet@.take(bs.len() as int)[k] == bs[k]);
                }
                assert forall|k: int| m <= k < self.bullet@.len() implies (#[trigger] self.bullet@[k]).hurt_type
                    == BulletHurtType::Player && !self.bullet@[k].is_kill by {
                    if k < bs.len() {
                        assert(self.bullet@.take(bs.len() as int)[k] == bs[k]);
                    }
                }
                assert(before[i as int] == es_w[i as int]);
            }
            i += 1;
        }
        let ghost bs1 = self.bullet@;
        let ghost es_m = self.enermies@;
        let ghost reason_m = self.wave_manager.last_enermydeath_reason;
        let mut j: usize = 0;
        while j < self.bullet.len()
            invariant
                j <= self.bullet@.len(),
                self.bullet@.len() == bs1.len(),
                bullets_wf(bs1),
                forall|k: int| j <= k < bs1.len() ==> #[trigger] self.bullet@[k] == bs1[k],
                forall|k: int| 0 <= k < j ==> (#[trigger] self.bullet@[k]).in_reach(),
                forall|k: int| 0 <= k < j ==> #[trigger] self.bullet@[k] == bullet_moved(bs1[k], dt as int),
                0 <= dt <= MAX_DT,
                self.enermies@ == es_m,
                self.wave_manager.last_enermydeath_reason == reason_m,
                self.wave_manager.state == wave1,
                enemies_wf(self.enermies@),
                self.wave_manager.wf(),
                self.wave_manager.internal_timer == timer1,
                timer1 == sat_time(old(self).wave_manager.internal_timer as int, dt as int),
                self.player == player1,
                player1.wf(),
                player1 == old(self).player,
                self.player_score == score1,
                self.player_lives == lives1,
                1 <= lives1 <= PLAYER_LIVES_MAX,
                self.sizes == sizes1,
                self.player_spawn == spawn1,
                sizes_ok(sizes1),
                spawn1.wf(),
                sprite_size_ok(player1.width),
                sizes1 == old(self).sizes,
                spawn1 == old(self).player_spawn,
            decreases bs1.len() - j,
        {
            let mut b = self.bullet[j];
            assert(bs1[j as int].wf());
            b.update(dt);
            self.bullet.set(j, b);
            j += 1;
        }
        let ghost bs_m = self.bullet@;
        proof {
            assert(bullets_in_reach(bs_m));
            assert forall|k: int| 0 <= k < m implies #[trigger] bs_m[k] == bullet_moved(g0.bullet@[k], input.dt as int) by {
                assert(bs1[k] == g0.bullet@[k]);
            }
            assert forall|k: int| m <= k < bs_m.len() implies (#[trigger] bs_m[k]).hurt_type == BulletHurtType::Player
                && !bs_m[k].is_kill by {
                assert(bs_m[k] == bullet_moved(bs1[k], dt as int));
            }
            assert forall|k: int| 0 <= k < n implies enemy_step_ok(
                g0.enermies@[k],
                #[trigger] es_m[k],
                g0.player.pos,
                input.sway as int,
                input.dt as int,
            ) by {
                assert(es_w[k] == g0.enermies@[k]);
            }
            assert forall|k: int| n <= k < es_m.len() implies (#[trigger] es_m[k]).state_shared.enermy_type
                == EnermyType::NORMAL && es_m[k].state_shared.health == 1 by {
                assert(enemy_step_ok(es_w[k], es_m[k], player1.pos, input.sway as int, dt as int));
            }
            assert(advanced(g0, es_m, bs_m, reason_m, *input));
        }
        let game_over = resolve_combat(
            &mut self.bullet,
            &mut self.enermies,
            &mut self.player,
            &mut self.player_lives,
            &mut self.player_score,
            &mut self.wave_manager.last_enermydeath_reason,
            &self.sizes,
            sounds,
            rng,
        );
        if game_over {
            let r = Some(
                GameStateCommand::ChangeState(
                    GameStateIdentifier::Menu,
                    Some(ChangeStatePayload::MenuPayload(MenuPayload { score: self.player_score })),
                ),
            );
            assert(tick_outcome(g0, es_m, bs_m, reason_m, *input, *self, r));
            return r;
        }
        let ghost bs2 = self.bullet@;
        self.player.update(dt, &input.player, &mut self.bullet, sounds);
        proof {
            assert forall|k: int| 0 <= k < self.bullet@.len() implies (#[trigger] self.bullet@[k]).wf()
                && !self.bullet@[k].is_kill by {
                if k < bs2.len() {
                    assert(self.bullet@[k] == bs2[k]);
                }
            }
            assert(tick_outcome(g0, es_m, bs_m, reason_m, *input, *self, None));
        }
        None
    }
}

impl GameManager {
    pub open spec fn wf(&self) -> bool {
        &&& self.game.setup_ok()
        &&& self.current_state_identifier == GameStateIdentifier::Game ==> self.game.wf()
    }

    /// Starts at the menu.
    pub fn new(game: GameStateGame) -> (r: GameManager)
        requires
            game.setup_ok(),
        ensures
            r.wf(),
            r.current_state_identifier == GameStateIdentifier::Menu,
    {
        GameManager { menu: GameStateMenu::new(), game, current_state_identifier: GameStateIdentifier::Menu }
    }

    /// One tick of the current state; a state change enters the next state
    /// with what the last one handed over.
    pub fn update(
        &mut self,
        input: &FrameInput,
        sounds: &mut Vec<SoundIdentifier>,
        rng: &RandGenerator,
    )
        requires
            old(self).wf(),
            0 <= input.dt <= MAX_DT,
            -1000 <= input.sway <= 1000,
        ensures
            final(self).wf(),
            old(self).current_state_identifier == GameStateIdentifier::Menu && input.start
                ==> final(self).current_state_identifier == GameStateIdentifier::Game
                && final(self).game.player_lives == PLAYER_LIVES_START && final(self).game.player_score == 0,
            old(self).current_state_identifier == GameStateIdentifier::Menu && !input.start ==> final(self).current_state_identifier
                == GameStateIdentifier::Menu,
            old(self).current_state_identifier == GameStateIdentifier::Game ==> {
                &&& exists|es: Seq<Enermy>, bs: Seq<Bullet>, reason: LastEnermyDeathReason, r: Option<GameStateCommand>|
                    advanced(old(self).game, es, bs, reason, *input) && #[trigger] tick_outcome(
                        old(self).game,
                        es,
                        bs,
                        reason,
                        *input,
                        final(self).game,
                        r,
                    ) && final(self).current_state_identifier == if r is Some {
                        GameStateIdentifier::Menu
                    } else {
                        GameStateIdentifier::Game
                    }
                &&& (final(self).current_state_identifier == GameStateIdentifier::Menu
                    <==> final(self).game.player_lives <= 0)
                &&& final(self).current_state_identifier == GameStateIdentifier::Menu
                    ==> final(self).menu.last_score_optional == Some(final(self).game.player_score)
            },
    {
        let state_command_optional = match self.current_state_identifier {
            GameStateIdentifier::Menu => self.menu.update(input),
            GameStateIdentifier::Game => self.game.update(input, sounds, rng),
        };
        if let Some(state_command) = state_command_optional {
            match state_command {
                GameStateCommand::ChangeState(next_state, payload_optional) => {
                    self.current_state_identifier = next_state;
                    match next_state {
                        GameStateIdentifier::Menu => self.menu.on_enter(payload_optional),
                        GameStateIdentifier::Game => self.game.on_enter(payload_optional),
                    }
                },
            }
        }
    }
}

} // verus!
