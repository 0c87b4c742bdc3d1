use vstd::prelude::*;
use quad_rand::RandGenerator;
use crate::constants::{
    UNIT, GAME_CENTER_X, GAME_CENTER_Y, MAX_DT, ENERMY_SPAWN_STARTING_COUNT,
    ENERMY_SPAWN_MAX_COUNT, TIME_UNTIL_MAX_DIFFICULTY, ENERMY_SPAWN_TIME,
};
use crate::geometry::{sat_time, ticks_total, lemma_ticks_total_nonneg, Vec2, sprite_size_ok, add_time};
use crate::enermy::{
    Enermy, EnermyColor, EnermyType, EnermyDeathMethod, EnermyState, EnermyStateSpawning,
    SpriteSizes, SPRITE_CHOICES,
};
use crate::resources::SoundIdentifier;
use crate::rng::{draw_below, draw_range};

verus! {

#[derive(Clone, Copy, Debug, PartialEq, Eq, Structural)]
pub struct WaveManagerStateSpawning {
    pub enermies_left: i32,
    pub spawn_timer: i64,
}

#[derive(Clone, Copy, Debug, PartialEq, Eq, Structural)]
pub enum WaveManagerState {
    Spawning(WaveManagerStateSpawning),
    Battle,
}

pub enum WaveManagerCommand {
    ChangeState(WaveManagerState),
}

/// What the wave manager tells the session.
#[derive(Clone, Copy, Debug, PartialEq, Eq, Structural)]
pub enum WaveManagerMessage {
    /// Every enemy of the wave is gone and the next wave begins; carries the
    /// cause of the last enemy death.
    LevelCleared(LastEnermyDeathReason),
}

#[derive(Clone, Copy, Debug, PartialEq, Eq, Structural)]
pub enum LastEnermyDeathReason {
    Environment,
    Player,
}

/// Where a new enemy comes from.
#[derive(Clone, Copy, Debug, PartialEq, Eq, Structural)]
pub enum SpawnBlueprint {
    /// A normal enemy of a wave, near the centre of the field.
    Normal,
    /// A mini enemy at the given position.
    Mini(Vec2),
}

#[derive(Clone, Copy, Debug, PartialEq, Eq, Structural)]
pub struct WaveManager {
    pub state: WaveManagerState,
    pub last_enermydeath_reason: LastEnermyDeathReason,
    /// Time since the session began, in microseconds.
    pub internal_timer: i64,
}

/// Number of enemies in the wave that starts after `time` microseconds of the
/// session: from the starting count up to the maximum, linearly over the ramp
/// duration and then held, rounded down.
pub open spec fn spawn_count(time: int) -> int {
    let t = if time < 0 {
        0
    } else if time > TIME_UNTIL_MAX_DIFFICULTY {
        TIME_UNTIL_MAX_DIFFICULTY as int
    } else {
        time
    };
    ENERMY_SPAWN_STARTING_COUNT + (ENERMY_SPAWN_MAX_COUNT - ENERMY_SPAWN_STARTING_COUNT) * t
        / TIME_UNTIL_MAX_DIFFICULTY as int
}

/// The spawn cadence for one tick: `(enemies left, spawn clock, spawned)`.
/// The clock runs; once it reaches the spawn interval one enemy is spawned and
/// the interval is taken off the clock.
pub open spec fn spawning_step(left: int, timer: int, dt: int) -> (int, int, bool) {
    let t = sat_time(timer, dt);
    if t >= ENERMY_SPAWN_TIME {
        (left - 1, t - ENERMY_SPAWN_TIME, true)
    } else {
        (left, t, false)
    }
}

pub open spec fn sizes_ok(s: SpriteSizes) -> bool {
    &&& sprite_size_ok(s.normal.x)
    &&& sprite_size_ok(s.normal.y)
    &&& sprite_size_ok(s.mini.x)
    &&& sprite_size_ok(s.mini.y)
}

/// The wave state after one tick, given how many enemies were alive at its
/// start.
pub open spec fn wave_state_after(wm: WaveManager, enemies: int, dt: int) -> WaveManagerState {
    match wm.state {
        WaveManagerState::Spawning(s) => {
            let (left, timer, _) = spawning_step(s.enermies_left as int, s.spawn_timer as int, dt);
            if left <= 0 {
                WaveManagerState::Battle
            } else {
                WaveManagerState::Spawning(
                    WaveManagerStateSpawning { enermies_left: left as i32, spawn_timer: timer as i64 },
                )
            }
        },
        WaveManagerState::Battle => if enemies == 0 {
            WaveManagerState::Spawning(
                WaveManagerStateSpawning {
                    enermies_left: spawn_count(sat_time(wm.internal_timer as int, dt)) as i32,
                    spawn_timer: 0,
                },
            )
        } else {
            WaveManagerState::Battle
        },
    }
}

/// A freshly spawned enemy with one health point, in its spawn animation.
pub open spec fn spawned_from(e: Enermy, b: SpawnBlueprint, color: EnermyColor, sizes: SpriteSizes) -> bool {
    &&& e.wf()
    &&& e.state_shared.health == 1
    &&& e.state_shared.enermy_color == color
    &&& e.state_shared.animation_timer == 0
    &&& e.state == EnermyState::Spawning(EnermyStateSpawning { spawn_timer: 0 })
    &&& e.state_shared.sprite < SPRITE_CHOICES
    &&& match b {
        SpawnBlueprint::Normal => {
            &&& e.state_shared.enermy_type == EnermyType::NORMAL
            &&& e.state_shared.size == sizes.normal
            &&& e.state_shared.charge_timer_optional is None
            &&& GAME_CENTER_X - 100 * UNIT <= e.state_shared.pos.x < GAME_CENTER_X + 100 * UNIT
            &&& GAME_CENTER_Y - 60 * UNIT <= e.state_shared.pos.y < GAME_CENTER_Y + 10 * UNIT
            &&& (e.state_shared.death_method == EnermyDeathMethod::NoEffect
                || e.state_shared.death_method == EnermyDeathMethod::SpawnChildren(1)
                || e.state_shared.death_method == EnermyDeathMethod::SpawnChildren(2))
        },
        SpawnBlueprint::Mini(pos) => {
            &&& e.state_shared.enermy_type == EnermyType::MINI
            &&& e.state_shared.size == sizes.mini
            &&& e.state_shared.pos == pos
            &&& e.state_shared.death_method == EnermyDeathMethod::NoEffect
            &&& e.state_shared.charge_timer_optional is Some
        },
    }
}

/// Appends one enemy made from `spawn_blueprint`. A normal enemy lands at a
/// random offset from the field's centre and, on even odds, splits into one
/// or two mini enemies when killed.
pub fn spawn_enermy(
    enermies: &mut Vec<Enermy>,
    sizes: &SpriteSizes,
    spawn_blueprint: SpawnBlueprint,
    enermy_color: EnermyColor,
    rng: &RandGenerator,
)
    requires
        sizes_ok(*sizes),
        match spawn_blueprint {
            SpawnBlueprint::Mini(pos) => pos.wf(),
            SpawnBlueprint::Normal => true,
        },
    ensures
        final(enermies)@.len() == old(enermies)@.len() + 1,
        final(enermies)@.take(old(enermies)@.len() as int) == old(enermies)@,
        spawned_from(final(enermies)@.last(), spawn_blueprint, enermy_color, *sizes),
{
    let health: i32 = 1;
    let sprite = draw_below(rng, SPRITE_CHOICES);
    let enermy = match spawn_blueprint {
        SpawnBlueprint::Normal => {
            let offset_x = draw_range(rng, -100_000, 100_000) * 1000;
            let offset_y = draw_range(rng, -60_000, 10_000) * 1000;
            let spawn_pos = Vec2 { x: GAME_CENTER_X + offset_x, y: GAME_CENTER_Y + offset_y };
            let death_method = if draw_below(rng, 2) == 1 {
                let spawn_amount = draw_range(rng, 1, 3);
                EnermyDeathMethod::SpawnChildren(spawn_amount as i32)
            } else {
                EnermyDeathMethod::NoEffect
            };
            Enermy::new(
                spawn_pos,
                sizes.normal,
                sprite,
                health,
                death_method,
                EnermyType::NORMAL,
                enermy_color,
                rng,
            )
        },
        SpawnBlueprint::Mini(pos) => Enermy::new(
            pos,
            sizes.mini,
            sprite,
            health,
            EnermyDeathMethod::NoEffect,
            EnermyType::MINI,
            enermy_color,
            rng,
        ),
    };
    enermies.push(enermy);
    assert(enermies@.take(old(enermies)@.len() as int) =~= old(enermies)@);
}

impl WaveManager {
    /// The manager at the start of a session: spawning the first wave, with
    /// the session clock at zero.
    pub open spec fn fresh() -> WaveManager {
        WaveManager {
            state: WaveManagerState::Spawning(
                WaveManagerStateSpawning { enermies_left: ENERMY_SPAWN_STARTING_COUNT, spawn_timer: 0 },
            ),
            last_enermydeath_reason: LastEnermyDeathReason::Environment,
            internal_timer: 0,
        }
    }

    pub open spec fn wf(&self) -> bool {
        &&& self.internal_timer >= 0
        &&& match self.state {
            WaveManagerState::Spawning(s) => s.enermies_left >= 1 && s.spawn_timer >= 0,
            WaveManagerState::Battle => true,
        }
    }

    /// A manager at the start of a session: spawning the first wave.
    pub fn new() -> (r: WaveManager)
        ensures
            r.wf(),
            r.state == WaveManagerState::Spawning(
                WaveManagerStateSpawning { enermies_left: ENERMY_SPAWN_STARTING_COUNT, spawn_timer: 0 },
            ),
            r.last_enermydeath_reason == LastEnermyDeathReason::Environment,
            r.internal_timer == 0,
    {
        WaveManager {
            state: WaveManagerState::Spawning(
                WaveManagerStateSpawning { enermies_left: ENERMY_SPAWN_STARTING_COUNT, spawn_timer: 0 },
            ),
            last_enermydeath_reason: LastEnermyDeathReason::Environment,
            internal_timer: 0,
        }
    }

    /// Back to the start of a session.
    pub fn reset(&mut self)
        ensures
            final(self).wf(),
            final(self).state == WaveManagerState::Spawning(
                WaveManagerStateSpawning { enermies_left: ENERMY_SPAWN_STARTING_COUNT, spawn_timer: 0 },
            ),
            final(self).last_enermydeath_reason == LastEnermyDeathReason::Environment,
            final(self).internal_timer == 0,
    {
        *self = Self::new();
    }

    pub fn get_enermy_spawn_count(time: i64) -> (r: i32)
        ensures
            r == spawn_count(time as int),
            ENERMY_SPAWN_STARTING_COUNT <= r <= ENERMY_SPAWN_MAX_COUNT,
    {
        let t = if time < 0 {
            0
        } else if time > TIME_UNTIL_MAX_DIFFICULTY {
            TIME_UNTIL_MAX_DIFFICULTY
        } else {
            time
        };
        let span = (ENERMY_SPAWN_MAX_COUNT - ENERMY_SPAWN_STARTING_COUNT) as i64;
        assert(0 <= span * t <= span * TIME_UNTIL_MAX_DIFFICULTY) by (nonlinear_arith)
            requires
                span == 7,
                0 <= t <= TIME_UNTIL_MAX_DIFFICULTY,
        ;
        let extra = span * t / TIME_UNTIL_MAX_DIFFICULTY;
        assert(0 <= extra <= span);
        ENERMY_SPAWN_STARTING_COUNT + extra as i32
    }

    /// The spawning state for one tick: at each spawn interval one normal
    /// enemy of a random colour appears; once none is left the battle begins.
    pub fn update_state_spawning(
        game_state_spawning: &mut WaveManagerStateSpawning,
        dt: i64,
        enermies: &mut Vec<Enermy>,
        sizes: &SpriteSizes,
        sounds: &mut Vec<SoundIdentifier>,
        rng: &RandGenerator,
    ) -> (r: Option<WaveManagerCommand>)
        requires
            old(game_state_spawning).enermies_left >= 1,
            old(game_state_spawning).spawn_timer >= 0,
            0 <= dt <= MAX_DT,
            sizes_ok(*sizes),
        ensures
            ({
                let (left, timer, spawned) = spawning_step(
                    old(game_state_spawning).enermies_left as int,
                    old(game_state_spawning).spawn_timer as int,
                    dt as int,
                );
                &&& final(game_state_spawning).enermies_left == left
                &&& final(game_state_spawning).spawn_timer == timer
                &&& if spawned {
                    &&& final(enermies)@.len() == old(enermies)@.len() + 1
                    &&& final(enermies)@.take(old(enermies)@.len() as int) == old(enermies)@
                    &&& spawned_from(
                        final(enermies)@.last(),
                        SpawnBlueprint::Normal,
                        final(enermies)@.last().state_shared.enermy_color,
                        *sizes,
                    )
                    &&& final(sounds)@ == old(sounds)@.push(SoundIdentifier::Spawn)
                } else {
                    &&& final(enermies)@ == old(enermies)@
                    &&& final(sounds)@ == old(sounds)@
                }
                &&& match r {
                    Some(WaveManagerCommand::ChangeState(s)) => left <= 0 && s == WaveManagerState::Battle,
                    None => left > 0,
                }
            }),
    {
        game_state_spawning.spawn_timer = add_time(game_state_spawning.spawn_timer, dt);
        if game_state_spawning.spawn_timer >= ENERMY_SPAWN_TIME {
            game_state_spawning.enermies_left = game_state_spawning.enermies_left - 1;
            game_state_spawning.spawn_timer = game_state_spawning.spawn_timer - ENERMY_SPAWN_TIME;
            let color = EnermyColor::random(rng);
            spawn_enermy(enermies, sizes, SpawnBlueprint::Normal, color, rng);
            sounds.push(SoundIdentifier::Spawn);
        }
        if game_state_spawning.enermies_left <= 0 {
            return Some(WaveManagerCommand::ChangeState(WaveManagerState::Battle));
        }
        None
    }

    /// The battle state: once no enemy is left, the next wave is sized from
    /// the session time.
    pub fn update_state_battle(enermies: &Vec<Enermy>, internal_timer: i64) -> (r: Option<
        WaveManagerCommand,
    >)
        ensures
            match r {
                Some(WaveManagerCommand::ChangeState(s)) => {
                    &&& enermies@.len() == 0
                    &&& s == WaveManagerState::Spawning(
                        WaveManagerStateSpawning {
                            enermies_left: spawn_count(internal_timer as int) as i32,
                            spawn_timer: 0,
                        },
                    )
                },
                None => enermies@.len() > 0,
            },
    {
        if enermies.len() == 0 {
            let enermies_left = Self::get_enermy_spawn_count(internal_timer);
            return Some(
                WaveManagerCommand::ChangeState(
                    WaveManagerState::Spawning(WaveManagerStateSpawning { enermies_left, spawn_timer: 0 }),
                ),
            );
        }
        None
    }

    /// One tick of the wave state machine. Leaving the battle for the next
    /// wave reports that the level was cleared, with the cause of the last
    /// enemy death.
    pub fn update(
        &mut self,
        dt: i64,
        enermies: &mut Vec<Enermy>,
        sizes: &SpriteSizes,
        sounds: &mut Vec<SoundIdentifier>,
        rng: &RandGenerator,
    ) -> (r: Option<WaveManagerMessage>)
        requires
            old(self).wf(),
            0 <= dt <= MAX_DT,
            sizes_ok(*sizes),
        ensures
            final(self).wf(),
            final(self).internal_timer == sat_time(old(self).internal_timer as int, dt as int),
            final(self).last_enermydeath_reason == old(self).last_enermydeath_reason,
            final(self).state == wave_state_after(*old(self), old(enermies)@.len() as int, dt as int),
            match old(self).state {
                WaveManagerState::Spawning(s) => {
                    let (left, timer, spawned) = spawning_step(
                        s.enermies_left as int,
                        s.spawn_timer as int,
                        dt as int,
                    );
                    &&& r is None
                    &&& final(self).state == if left <= 0 {
                        WaveManagerState::Battle
                    } else {
                        WaveManagerState::Spawning(
                            WaveManagerStateSpawning { enermies_left: left as i32, spawn_timer: timer as i64 },
                        )
                    }
                    &&& if spawned {
                        &&& final(enermies)@.len() == old(enermies)@.len() + 1
                        &&& final(enermies)@.take(old(enermies)@.len() as int) == old(enermies)@
                        &&& spawned_from(
                            final(enermies)@.last(),
                            SpawnBlueprint::Normal,
                            final(enermies)@.last().state_shared.enermy_color,
                            *sizes,
                        )
                        &&& final(sounds)@ == old(sounds)@.push(SoundIdentifier::Spawn)
                    } else {
                        &&& final(enermies)@ == old(enermies)@
                        &&& final(sounds)@ == old(sounds)@
                    }
                },
                WaveManagerState::Battle => {
                    &&& final(enermies)@ == old(enermies)@
                    &&& final(sounds)@ == old(sounds)@
                    &&& if old(enermies)@.len() == 0 {
                        &&& final(self).state == WaveManagerState::Spawning(
                            WaveManagerStateSpawning {
                                enermies_left: spawn_count(final(self).internal_timer as int) as i32,
                                spawn_timer: 0,
                            },
                        )
                        &&& r == Some(WaveManagerMessage::LevelCleared(old(self).last_enermydeath_reason))
                    } else {
                        &&& final(self).state == WaveManagerState::Battle
                        &&& r is None
                    }
                },
            },
    {
        self.internal_timer = add_time(self.internal_timer, dt);
        let state_command_optional = match &mut self.state {
            WaveManagerState::Spawning(game_state_spawning) => Self::update_state_spawning(
                game_state_spawning,
                dt,
                enermies,
                sizes,
                sounds,
                rng,
            ),
            WaveManagerState::Battle => Self::update_state_battle(enermies, self.internal_timer),
        };
        if let Some(state_command) = state_command_optional {
            match state_command {
                WaveManagerCommand::ChangeState(target_state) => {
                    let cleared = matches!(self.state, WaveManagerState::Battle);
                    self.state = target_state;
                    if cleared {
                        return Some(WaveManagerMessage::LevelCleared(self.last_enermydeath_reason));
                    }
                },
            }
        }
        None
    }
}

/// The spawning state run over ticks `dts`: `Some((enemies left, spawn
/// clock))` while it lasts, `None` once the battle has begun.
pub open spec fn spawning_run(left: int, timer: int, dts: Seq<int>) -> Option<(int, int)>
    decreases dts.len(),
{
    if dts.len() == 0 {
        Some((left, timer))
    } else {
        let (l, t, _) = spawning_step(left, timer, dts[0]);
        if l <= 0 {
            None
        } else {
            spawning_run(l, t, dts.drop_first())
        }
    }
}

/// With ticks no longer than the spawn interval, a wave of `left` enemies
/// spawns one enemy per interval and the battle begins exactly when the
/// elapsed time reaches `left` intervals (from a fresh clock, `left` spawn
/// intervals' worth of time). Until then the enemies spawned and the clock
/// account for all the time elapsed.
pub proof fn lemma_wave_spawns_one_per_interval(left: int, timer: int, dts: Seq<int>)
    requires
        left >= 1,
        0 <= timer < ENERMY_SPAWN_TIME,
        forall|i: int| 0 <= i < dts.len() ==> 0 <= #[trigger] dts[i] <= ENERMY_SPAWN_TIME,
    ensures
        (spawning_run(left, timer, dts) is None) <==> timer + ticks_total(dts) >= left
            * ENERMY_SPAWN_TIME,
        match spawning_run(left, timer, dts) {
            Some((l, t)) => {
                &&& 1 <= l <= left
                &&& 0 <= t < ENERMY_SPAWN_TIME
                &&& (left - l) * ENERMY_SPAWN_TIME + t == timer + ticks_total(dts)
            },
            None => true,
        },
    decreases dts.len(),
{
    if dts.len() > 0 {
        let rest = dts.drop_first();
        assert forall|i: int| 0 <= i < rest.len() implies 0 <= #[trigger] rest[i] <= ENERMY_SPAWN_TIME by {
            assert(rest[i] == dts[i + 1]);
        }
        lemma_ticks_total_nonneg(rest);
        let (l, t, _) = spawning_step(left, timer, dts[0]);
        if l > 0 {
            lemma_wave_spawns_one_per_interval(l, t, rest);
        }
    }
}

} // verus!
