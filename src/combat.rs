use vstd::prelude::*;
use quad_rand::RandGenerator;
use crate::constants::{PLAYER_TIME_INVISBLE, UNIT, WORLD_LIMIT, SCORE_MINI, SCORE_NORMAL};
use crate::enermy::{EnermyState, EnermyStateSpawning, SpriteSizes};
use crate::wave::{spawn_enermy, spawned_from, sizes_ok, SpawnBlueprint};
use crate::geometry::{Vec2, Rect, rects_overlap, clamp_spec, keep_in_world};
use crate::bullet::{Bullet, BulletHurtType, bullet_rect};
use crate::player::{Player, PlayerState};
use crate::enermy::{Enermy, EnermyDeathMethod, EnermyType, EnermyColor};
use crate::wave::LastEnermyDeathReason;
use crate::resources::SoundIdentifier;

verus! {

/// A bullet that can hurt the player and touches the rectangle `r`.
pub open spec fn hits_player(b: Bullet, r: Rect) -> bool {
    b.hurt_type == BulletHurtType::Player && rects_overlap(bullet_rect(b.pos), r)
}

/// The first bullet from index `start` on that hurts the player at `r`.
pub open spec fn player_hit_from(bs: Seq<Bullet>, r: Rect, start: int) -> Option<int>
    decreases bs.len() - start,
{
    if start < 0 || start >= bs.len() {
        None
    } else if hits_player(bs[start], r) {
        Some(start)
    } else {
        player_hit_from(bs, r, start + 1)
    }
}

/// The bullet that hits the player in the player-damage pass, if any: none
/// while the player is invincible.
pub open spec fn pass_hit(bs: Seq<Bullet>, p: Player) -> Option<int> {
    if p.state is Invincible {
        None
    } else {
        player_hit_from(bs, p.hitbox(), 0)
    }
}

/// A homing enemy that touches the rectangle `r`.
pub open spec fn homing_contact(e: Enermy, r: Rect) -> bool {
    e.is_homing() && rects_overlap(e.hitbox(), r)
}

/// Number of homing enemies that touch `r`.
pub open spec fn homing_contacts(es: Seq<Enermy>, r: Rect) -> int
    decreases es.len(),
{
    if es.len() == 0 {
        0
    } else {
        homing_contacts(es.drop_last(), r) + if homing_contact(es.last(), r) { 1int } else { 0 }
    }
}

/// The enemies after the homing-contact pass: each one that touches `r` is
/// killed, the rest are unchanged.
pub open spec fn after_contacts(es: Seq<Enermy>, r: Rect) -> Seq<Enermy> {
    Seq::new(
        es.len(),
        |i: int|
            if homing_contact(es[i], r) {
                Enermy {
                    state_shared: crate::enermy::EnermyStateShared { health: 0, ..es[i].state_shared },
                    ..es[i]
                }
            } else {
                es[i]
            },
    )
}

pub open spec fn lose_lives(lives: int, n: int) -> int {
    if lives - n < 0 { 0 } else { lives - n }
}

pub open spec fn bullets_wf(bs: Seq<Bullet>) -> bool {
    forall|i: int| 0 <= i < bs.len() ==> #[trigger] bs[i].wf()
}

pub open spec fn bullets_in_reach(bs: Seq<Bullet>) -> bool {
    forall|i: int| 0 <= i < bs.len() ==> #[trigger] bs[i].in_reach()
}

pub open spec fn enemies_wf(es: Seq<Enermy>) -> bool {
    forall|i: int| 0 <= i < es.len() ==> #[trigger] es[i].wf()
}

/// Bullets that hurt the player, against a player in the normal state: the
/// first bullet that touches the player costs one life (never below zero),
/// makes the player invincible for the full duration and is marked killed.
/// Later bullets are not looked at. An invincible player takes no damage.
/// Returns the index of the bullet that hit.
pub fn player_damage_pass(
    bullets: &mut Vec<Bullet>,
    player: &mut Player,
    player_lives: &mut i32,
    sounds: &mut Vec<SoundIdentifier>,
) -> (r: Option<usize>)
    requires
        bullets_in_reach(old(bullets)@),
        old(player).wf(),
        *old(player_lives) >= 0,
    ensures
        match r {
            Some(i) => pass_hit(old(bullets)@, *old(player)) == Some(i as int),
            None => pass_hit(old(bullets)@, *old(player)) is None,
        },
        match r {
            Some(i) => {
                &&& old(player).state == PlayerState::Normal
                &&& i < old(bullets)@.len()
                &&& hits_player(old(bullets)@[i as int], old(player).hitbox())
                &&& forall|k: int| 0 <= k < i ==> !hits_player(#[trigger] old(bullets)@[k], old(player).hitbox())
                &&& final(bullets)@ == old(bullets)@.update(i as int, Bullet { is_kill: true, ..old(bullets)@[i as int] })
                &&& *final(player_lives) == lose_lives(*old(player_lives) as int, 1)
                &&& *final(player) == (Player { state: PlayerState::Invincible(PLAYER_TIME_INVISBLE), ..*old(player) })
                &&& final(sounds)@ == old(sounds)@.push(SoundIdentifier::PlayerOuch)
            },
            None => {
                &&& (old(player).state is Invincible || forall|k: int| 0 <= k < old(bullets)@.len()
                    ==> !hits_player(#[trigger] old(bullets)@[k], old(player).hitbox()))
                &&& final(bullets)@ == old(bullets)@
                &&& *final(player_lives) == *old(player_lives)
                &&& *final(player) == *old(player)
                &&& final(sounds)@ == old(sounds)@
            },
        },
{
    if let PlayerState::Invincible(_) = player.state {
        return None;
    }
    let rect = player.collision_rect();
    let mut i: usize = 0;
    while i < bullets.len()
        invariant
            i <= bullets@.len(),
            bullets@ == old(bullets)@,
            bullets_in_reach(bullets@),
            rect == old(player).hitbox(),
            rect.wf(),
            *player == *old(player),
            *player_lives == *old(player_lives),
            sounds@ == old(sounds)@,
            old(player).state == PlayerState::Normal,
            forall|k: int| 0 <= k < i ==> !hits_player(#[trigger] old(bullets)@[k], old(player).hitbox()),
            player_hit_from(bullets@, rect, 0) == player_hit_from(bullets@, rect, i as int),
        decreases bullets@.len() - i,
    {
        let b = bullets[i];
        if b.hurt_type == BulletHurtType::Player && b.overlaps(&rect) {
            *player_lives = if *player_lives > 0 { *player_lives - 1 } else { 0 };
            sounds.push(SoundIdentifier::PlayerOuch);
            player.process_optional_command(
                Some(crate::player::PlayerCommand::ChangeState(PlayerState::Invincible(PLAYER_TIME_INVISBLE))),
            );
            bullets.set(i, Bullet { is_kill: true, ..b });
            return Some(i);
        }
        i += 1;
    }
    None
}

/// Homing enemies against the player. Whether the player is invincible is
/// read once, at the start: if not, every homing enemy that touches the player
/// costs one life (never below zero), makes the player invincible for the full
/// duration and dies.
pub fn homing_contact_pass(
    enermies: &mut Vec<Enermy>,
    player: &mut Player,
    player_lives: &mut i32,
    sounds: &mut Vec<SoundIdentifier>,
)
    requires
        enemies_wf(old(enermies)@),
        old(player).wf(),
        *old(player_lives) >= 0,
    ensures
        if old(player).state is Invincible {
            &&& final(enermies)@ == old(enermies)@
            &&& *final(player_lives) == *old(player_lives)
            &&& *final(player) == *old(player)
            &&& final(sounds)@ == old(sounds)@
        } else {
            let n = homing_contacts(old(enermies)@, old(player).hitbox());
            &&& final(enermies)@ == after_contacts(old(enermies)@, old(player).hitbox())
            &&& *final(player_lives) == lose_lives(*old(player_lives) as int, n)
            &&& *final(player) == if n > 0 {
                Player { state: PlayerState::Invincible(PLAYER_TIME_INVISBLE), ..*old(player) }
            } else {
                *old(player)
            }
            &&& final(sounds)@ == old(sounds)@ + Seq::new(n as nat, |k: int| SoundIdentifier::PlayerOuch)
        },
{
    if let PlayerState::Invincible(_) = player.state {
        return;
    }
    let rect = player.collision_rect();
    let ghost r = old(player).hitbox();
    let ghost es0 = old(enermies)@;
    let ghost sounds0 = old(sounds)@;
    let mut i: usize = 0;
    proof {
        assert(es0.take(0) =~= Seq::<Enermy>::empty());
        assert(sounds@ =~= sounds0 + Seq::new(0, |k: int| SoundIdentifier::PlayerOuch));
    }
    while i < enermies.len()
        invariant
            i <= enermies@.len(),
            enermies@.len() == es0.len(),
            enemies_wf(es0),
            rect == r,
            rect.wf(),
            r == old(player).hitbox(),
            old(player).state == PlayerState::Normal,
            forall|k: int| 0 <= k < i ==> #[trigger] enermies@[k] == after_contacts(es0, r)[k],
            forall|k: int| i <= k < es0.len() ==> #[trigger] enermies@[k] == es0[k],
            *player_lives == lose_lives(*old(player_lives) as int, homing_contacts(es0.take(i as int), r)),
            *player == if homing_contacts(es0.take(i as int), r) > 0 {
                Player { state: PlayerState::Invincible(PLAYER_TIME_INVISBLE), ..*old(player) }
            } else {
                *old(player)
            },
            sounds@ == sounds0 + Seq::new(homing_contacts(es0.take(i as int), r) as nat, |k: int| SoundIdentifier::PlayerOuch),
            homing_contacts(es0.take(i as int), r) >= 0,
        decreases es0.len() - i,
    {
        let e = enermies[i];
        assert(es0.take(i as int + 1).drop_last() =~= es0.take(i as int));
        assert(es0.take(i as int + 1).last() == es0[i as int]);
        assert(e == es0[i as int]);
        assert(es0[i as int].wf());
        if matches!(e.state, crate::enermy::EnermyState::Homing(_)) && e.overlaps(&rect) {
            *player_lives = if *player_lives > 0 { *player_lives - 1 } else { 0 };
            sounds.push(SoundIdentifier::PlayerOuch);
            player.process_optional_command(
                Some(crate::player::PlayerCommand::ChangeState(PlayerState::Invincible(PLAYER_TIME_INVISBLE))),
            );
            let mut killed = e;
            killed.state_shared.health = 0;
            enermies.set(i, killed);
            proof {
                let n = homing_contacts(es0.take(i as int), r);
                assert(sounds@ =~= sounds0 + Seq::new((n + 1) as nat, |k: int| SoundIdentifier::PlayerOuch));
            }
        }
        i += 1;
    }
    proof {
        assert(es0.take(es0.len() as int) =~= es0);
        assert(enermies@ =~= after_contacts(es0, r));
    }
}

/// What is left of an enemy killed by the player, for death processing.
#[derive(Clone, Copy, Debug, PartialEq, Eq, Structural)]
pub struct PendingDeath {
    pub pos: Vec2,
    pub death_method: EnermyDeathMethod,
    pub enermy_type: EnermyType,
    pub enermy_color: EnermyColor,
}

pub open spec fn death_of(e: Enermy) -> PendingDeath {
    PendingDeath {
        pos: e.state_shared.pos,
        death_method: e.state_shared.death_method,
        enermy_type: e.state_shared.enermy_type,
        enermy_color: e.state_shared.enermy_color,
    }
}

/// A live enemy that touches the rectangle `r`.
pub open spec fn targetable(e: Enermy, r: Rect) -> bool {
    e.alive() && rects_overlap(e.hitbox(), r)
}

/// The first enemy from index `start` on that a bullet at `r` can hit.
pub open spec fn first_from(es: Seq<Enermy>, r: Rect, start: int) -> Option<int>
    decreases es.len() - start,
{
    if start < 0 || start >= es.len() {
        None
    } else if targetable(es[start], r) {
        Some(start)
    } else {
        first_from(es, r, start + 1)
    }
}

/// State of the enemy-damage pass: bullets seen so far, enemies, pending
/// deaths, and whether any bullet has hit.
pub type DamageState = (Seq<Bullet>, Seq<Enermy>, Seq<PendingDeath>, bool);

/// One bullet of the enemy-damage pass: a live bullet that hurts enemies hits
/// the first live enemy it touches, takes one health point from it and is
/// marked killed; an enemy brought to zero health becomes a pending death.
pub open spec fn damage_step(st: DamageState, b: Bullet) -> DamageState {
    let (bs, es, ds, hit) = st;
    if b.hurt_type == BulletHurtType::Enermy && !b.is_kill {
        match first_from(es, bullet_rect(b.pos), 0) {
            Some(j) => {
                let e = es[j];
                let hurt = Enermy {
                    state_shared: crate::enermy::EnermyStateShared {
                        health: (e.state_shared.health - 1) as i32,
                        ..e.state_shared
                    },
                    ..e
                };
                (
                    bs.push(Bullet { is_kill: true, ..b }),
                    es.update(j, hurt),
                    if e.state_shared.health - 1 <= 0 { ds.push(death_of(e)) } else { ds },
                    true,
                )
            },
            None => (bs.push(b), es, ds, hit),
        }
    } else {
        (bs.push(b), es, ds, hit)
    }
}

/// The enemy-damage pass over `bullets`, in order, against enemies `es`.
pub open spec fn damage_run(bullets: Seq<Bullet>, es: Seq<Enermy>) -> DamageState
    decreases bullets.len(),
{
    if bullets.len() == 0 {
        (Seq::empty(), es, Seq::empty(), false)
    } else {
        damage_step(damage_run(bullets.drop_last(), es), bullets.last())
    }
}

/// Index of the first live enemy whose hitbox touches `r`.
pub fn first_target(enermies: &Vec<Enermy>, r: &Rect) -> (res: Option<usize>)
    requires
        enemies_wf(enermies@),
        r.wf(),
    ensures
        match res {
            Some(j) => {
                &&& j < enermies@.len()
                &&& targetable(enermies@[j as int], *r)
                &&& first_from(enermies@, *r, 0) == Some(j as int)
            },
            None => first_from(enermies@, *r, 0) is None,
        },
{
    let mut j: usize = 0;
    while j < enermies.len()
        invariant
            j <= enermies@.len(),
            enemies_wf(enermies@),
            r.wf(),
            first_from(enermies@, *r, 0) == first_from(enermies@, *r, j as int),
        decreases enermies@.len() - j,
    {
        let e = enermies[j];
        assert(enermies@[j as int].wf());
        assert(e.state_shared.wf());
        if e.state_shared.health > 0 && e.overlaps(r) {
            return Some(j);
        }
        j += 1;
    }
    None
}

/// Bullets that hurt enemies, in order, against the live enemies (see
/// `damage_step`). Any hit records the player as the cause of the last enemy
/// death. Returns the enemies brought to zero health, in the order they died;
/// each death asks for one sound.
pub fn enemy_damage_pass(
    bullets: &mut Vec<Bullet>,
    enermies: &mut Vec<Enermy>,
    last_reason: &mut LastEnermyDeathReason,
    sounds: &mut Vec<SoundIdentifier>,
) -> (deaths: Vec<PendingDeath>)
    requires
        bullets_in_reach(old(bullets)@),
        enemies_wf(old(enermies)@),
    ensures
        ({
            let (bs, es, ds, hit) = damage_run(old(bullets)@, old(enermies)@);
            &&& final(bullets)@ == bs
            &&& final(enermies)@ == es
            &&& deaths@ == ds
            &&& *final(last_reason) == if hit { LastEnermyDeathReason::Player } else { *old(last_reason) }
            &&& final(sounds)@ == old(sounds)@ + Seq::new(ds.len(), |k: int| SoundIdentifier::EnermyOuch)
        }),
        bullets_in_reach(final(bullets)@),
        enemies_wf(final(enermies)@),
        forall|k: int| 0 <= k < deaths@.len() ==> (#[trigger] deaths@[k]).pos.wf(),
{
    let ghost bs0 = old(bullets)@;
    let ghost es0 = old(enermies)@;
    let ghost sounds0 = old(sounds)@;
    let ghost reason0 = *old(last_reason);
    let ghost mut hit = false;
    let mut deaths: Vec<PendingDeath> = Vec::new();
    let mut i: usize = 0;
    proof {
        assert(bs0.take(0) =~= Seq::<Bullet>::empty());
        assert(sounds@ =~= sounds0 + Seq::new(0, |k: int| SoundIdentifier::EnermyOuch));
    }
    while i < bullets.len()
        invariant
            i <= bullets@.len(),
            bullets@.len() == bs0.len(),
            bullets_in_reach(bs0),
            bullets_in_reach(bullets@),
            enemies_wf(enermies@),
            forall|k: int| i <= k < bs0.len() ==> #[trigger] bullets@[k] == bs0[k],
            damage_run(bs0.take(i as int), es0) == (bullets@.take(i as int), enermies@, deaths@, hit),
            *last_reason == if hit { LastEnermyDeathReason::Player } else { reason0 },
            sounds@ == sounds0 + Seq::new(deaths@.len(), |k: int| SoundIdentifier::EnermyOuch),
            forall|k: int| 0 <= k < deaths@.len() ==> (#[trigger] deaths@[k]).pos.wf(),
        decreases bs0.len() - i,
    {
        let b = bullets[i];
        proof {
            assert(bs0.take(i as int + 1).drop_last() =~= bs0.take(i as int));
            assert(bs0.take(i as int + 1).last() == bs0[i as int]);
            assert(b == bs0[i as int]);
            assert(b.in_reach());
        }
        let ghost before = bullets@;
        if b.hurt_type == BulletHurtType::Enermy && !b.is_kill {
            let rect = b.collision_rect();
            match first_target(enermies, &rect) {
                Some(j) => {
                    let e = enermies[j];
                    assert(enermies@[j as int].wf());
                    let mut hurt = e;
                    hurt.state_shared.health = e.state_shared.health - 1;
                    enermies.set(j, hurt);
                    *last_reason = LastEnermyDeathReason::Player;
                    proof {
                        hit = true;
                    }
                    if hurt.state_shared.health <= 0 {
                        let ghost n = deaths@.len();
                        sounds.push(SoundIdentifier::EnermyOuch);
                        deaths.push(
                            PendingDeath {
                                pos: e.state_shared.pos,
                                death_method: e.state_shared.death_method,
                                enermy_type: e.state_shared.enermy_type,
                                enermy_color: e.state_shared.enermy_color,
                            },
                        );
                        assert(sounds@ =~= sounds0 + Seq::new(deaths@.len(), |k: int| SoundIdentifier::EnermyOuch));
                    }
                    bullets.set(i, Bullet { is_kill: true, ..b });
                },
                None => {},
            }
        }
        proof {
            assert(bullets@.take(i as int + 1) =~= before.take(i as int).push(bullets@[i as int]));
        }
        i += 1;
    }
    proof {
        assert(bs0.take(bs0.len() as int) =~= bs0);
        assert(bullets@.take(bs0.len() as int) =~= bullets@);
    }
    deaths
}

/// Where child `k` of `n` appears: along a twenty-pixel line to the right of
/// the parent's position, at `k / n` of its length.
pub open spec fn child_pos(pos: Vec2, k: int, n: int) -> Vec2 {
    Vec2 { x: clamp_spec(pos.x + 20 * UNIT * k / n, -WORLD_LIMIT, WORLD_LIMIT as int) as i64, y: pos.y }
}

pub open spec fn child_count(amount: int) -> int {
    if amount > 0 { amount } else { 0 }
}

/// Spawns `amount` mini enemies of colour `enermy_color` in a row from `pos`,
/// each in its own spawn animation.
pub fn spawn_children(
    enermies: &mut Vec<Enermy>,
    pos: Vec2,
    amount: i32,
    enermy_color: EnermyColor,
    sizes: &SpriteSizes,
    rng: &RandGenerator,
)
    requires
        pos.wf(),
        sizes_ok(*sizes),
    ensures
        final(enermies)@.len() == old(enermies)@.len() + child_count(amount as int),
        final(enermies)@.take(old(enermies)@.len() as int) == old(enermies)@,
        forall|k: int|
            0 <= k < child_count(amount as int) ==> spawned_from(
                #[trigger] final(enermies)@[old(enermies)@.len() + k],
                SpawnBlueprint::Mini(child_pos(pos, k, amount as int)),
                enermy_color,
                *sizes,
            ),
{
    let ghost es0 = old(enermies)@;
    let mut i: i32 = 0;
    while i < amount
        invariant
            0 <= i,
            i <= amount || i == 0,
            enermies@.len() == es0.len() + i,
            enermies@.take(es0.len() as int) == es0,
            pos.wf(),
            sizes_ok(*sizes),
            forall|k: int|
                0 <= k < i ==> spawned_from(
                    #[trigger] enermies@[es0.len() + k],
                    SpawnBlueprint::Mini(child_pos(pos, k, amount as int)),
                    enermy_color,
                    *sizes,
                ),
        decreases amount - i,
    {
        let step: i64 = 20 * UNIT;
        assert(0 <= step * (i as int) <= step * 2147483647) by (nonlinear_arith)
            requires
                0 <= i <= 2147483647,
                step == 20_000_000,
        ;
        let offset = step * (i as i64) / (amount as i64);
        let spawn_pos = Vec2 { x: keep_in_world(pos.x + offset), y: pos.y };
        let ghost before = enermies@;
        spawn_enermy(enermies, sizes, SpawnBlueprint::Mini(spawn_pos), enermy_color, rng);
        proof {
            assert(enermies@.take(es0.len() as int) =~= before.take(es0.len() as int));
            assert forall|k: int| 0 <= k < i + 1 implies spawned_from(
                #[trigger] enermies@[es0.len() + k],
                SpawnBlueprint::Mini(child_pos(pos, k, amount as int)),
                enermy_color,
                *sizes,
            ) by {
                if k < i {
                    assert(enermies@[es0.len() + k] == before[es0.len() + k]);
                }
            }
        }
        i += 1;
    }
}

pub open spec fn tier_score(t: EnermyType) -> int {
    match t {
        EnermyType::NORMAL => SCORE_NORMAL as int,
        EnermyType::MINI => SCORE_MINI as int,
    }
}

/// Score for a sequence of deaths.
pub open spec fn deaths_score(ds: Seq<PendingDeath>) -> int
    decreases ds.len(),
{
    if ds.len() == 0 {
        0
    } else {
        deaths_score(ds.drop_last()) + tier_score(ds.last().enermy_type)
    }
}

/// How many children a death asks for.
pub open spec fn amount_of(d: PendingDeath) -> int {
    match d.death_method {
        EnermyDeathMethod::NoEffect => 0,
        EnermyDeathMethod::SpawnChildren(n) => n as int,
    }
}

/// The children that deaths `ds` spawn, in order: for each death, its
/// `amount` mini enemies in a row from where it died, of its colour.
pub open spec fn children_ok(ds: Seq<PendingDeath>, kids: Seq<Enermy>, sizes: SpriteSizes) -> bool
    decreases ds.len(),
{
    if ds.len() == 0 {
        kids.len() == 0
    } else {
        let d = ds.last();
        let n = child_count(amount_of(d));
        let m = kids.len() - n;
        &&& m >= 0
        &&& children_ok(ds.drop_last(), kids.take(m), sizes)
        &&& forall|k: int|
            0 <= k < n ==> spawned_from(
                #[trigger] kids[m + k],
                SpawnBlueprint::Mini(child_pos(d.pos, k, amount_of(d))),
                d.enermy_color,
                sizes,
            )
    }
}

/// Number of mini enemies that a sequence of deaths spawns.
pub open spec fn deaths_children(ds: Seq<PendingDeath>) -> int
    decreases ds.len(),
{
    if ds.len() == 0 {
        0
    } else {
        deaths_children(ds.drop_last()) + match ds.last().death_method {
            EnermyDeathMethod::NoEffect => 0,
            EnermyDeathMethod::SpawnChildren(n) => child_count(n as int),
        }
    }
}

pub open spec fn sounds_of_deaths(ds: Seq<PendingDeath>) -> Seq<SoundIdentifier>
    decreases ds.len(),
{
    if ds.len() == 0 {
        Seq::empty()
    } else {
        sounds_of_deaths(ds.drop_last()) + match ds.last().death_method {
            EnermyDeathMethod::NoEffect => Seq::empty(),
            EnermyDeathMethod::SpawnChildren(_) => seq![SoundIdentifier::SpawnMini],
        }
    }
}

pub open spec fn add_score(score: int, points: int) -> int {
    if score + points > u64::MAX { u64::MAX as int } else { score + points }
}

/// A mini enemy fresh from a death cascade.
pub open spec fn fresh_child(e: Enermy) -> bool {
    &&& e.wf()
    &&& e.state_shared.health == 1
    &&& e.state_shared.enermy_type == EnermyType::MINI
    &&& e.state == EnermyState::Spawning(EnermyStateSpawning { spawn_timer: 0 })
}

/// Death processing: each death scores its tier's points (the score stops at
/// its largest value), and a death that spawns children appends them (see
/// `spawn_children`) with one sound.
pub fn process_deaths(
    deaths: &Vec<PendingDeath>,
    enermies: &mut Vec<Enermy>,
    player_score: &mut u64,
    sizes: &SpriteSizes,
    sounds: &mut Vec<SoundIdentifier>,
    rng: &RandGenerator,
)
    requires
        forall|k: int| 0 <= k < deaths@.len() ==> (#[trigger] deaths@[k]).pos.wf(),
        enemies_wf(old(enermies)@),
        sizes_ok(*sizes),
    ensures
        *final(player_score) == add_score(*old(player_score) as int, deaths_score(deaths@)),
        final(enermies)@.len() == old(enermies)@.len() + deaths_children(deaths@),
        final(enermies)@.len() >= old(enermies)@.len(),
        children_ok(deaths@, final(enermies)@.skip(old(enermies)@.len() as int), *sizes),
        final(enermies)@.take(old(enermies)@.len() as int) == old(enermies)@,
        forall|k: int|
            old(enermies)@.len() <= k < final(enermies)@.len() ==> fresh_child(#[trigger] final(enermies)@[k]),
        enemies_wf(final(enermies)@),
        final(sounds)@ == old(sounds)@ + sounds_of_deaths(deaths@),
{
    let ghost es0 = old(enermies)@;
    let ghost sounds0 = old(sounds)@;
    let ghost score0 = *old(player_score) as int;
    let mut i: usize = 0;
    proof {
        assert(deaths@.take(0) =~= Seq::<PendingDeath>::empty());
        assert(es0.take(es0.len() as int) =~= es0);
        assert(enermies@.skip(es0.len() as int) =~= Seq::<Enermy>::empty());
        assert(sounds@ =~= sounds0 + Seq::<SoundIdentifier>::empty());
    }
    while i < deaths.len()
        invariant
            i <= deaths@.len(),
            forall|k: int| 0 <= k < deaths@.len() ==> (#[trigger] deaths@[k]).pos.wf(),
            sizes_ok(*sizes),
            *player_score == add_score(score0, deaths_score(deaths@.take(i as int))),
            deaths_score(deaths@.take(i as int)) >= 0,
            enermies@.len() == es0.len() + deaths_children(deaths@.take(i as int)),
            children_ok(deaths@.take(i as int), enermies@.skip(es0.len() as int), *sizes),
            enermies@.len() >= es0.len(),
            enermies@.take(es0.len() as int) == es0,
            forall|k: int| es0.len() <= k < enermies@.len() ==> fresh_child(#[trigger] enermies@[k]),
            enemies_wf(enermies@),
            sounds@ == sounds0 + sounds_of_deaths(deaths@.take(i as int)),
        decreases deaths@.len() - i,
    {
        let d = deaths[i];
        proof {
            assert(deaths@.take(i as int + 1).drop_last() =~= deaths@.take(i as int));
            assert(deaths@.take(i as int + 1).last() == d);
        }
        let points = match d.enermy_type {
            EnermyType::NORMAL => SCORE_NORMAL,
            EnermyType::MINI => SCORE_MINI,
        };
        *player_score = if *player_score > u64::MAX - points { u64::MAX } else { *player_score + points };
        match d.death_method {
            EnermyDeathMethod::NoEffect => {
                assert(sounds@ =~= sounds0 + sounds_of_deaths(deaths@.take(i as int + 1)));
                let ghost kids = enermies@.skip(es0.len() as int);
                assert(kids.take(kids.len() as int) =~= kids);
            },
            EnermyDeathMethod::SpawnChildren(amount) => {
                sounds.push(SoundIdentifier::SpawnMini);
                assert(sounds@ =~= sounds0 + sounds_of_deaths(deaths@.take(i as int + 1)));
                let ghost before = enermies@;
                spawn_children(enermies, d.pos, amount, d.enermy_color, sizes, rng);
                proof {
                    let kids0 = before.skip(es0.len() as int);
                    let kids = enermies@.skip(es0.len() as int);
                    let n = child_count(amount as int);
                    assert(kids.len() - n == kids0.len());
                    assert(kids.take(kids0.len() as int) =~= kids0) by {
                        assert forall|k: int| 0 <= k < kids0.len() implies kids[k] == kids0[k] by {
                            assert(enermies@.take(before.len() as int)[es0.len() + k] == before[es0.len() + k]);
                        }
                    }
                    assert forall|k: int| 0 <= k < n implies spawned_from(
                        #[trigger] kids[kids0.len() + k],
                        SpawnBlueprint::Mini(child_pos(d.pos, k, amount_of(d))),
                        d.enermy_color,
                        *sizes,
                    ) by {
                        assert(kids[kids0.len() + k] == enermies@[before.len() + k]);
                    }
                    assert forall|k: int| 0 <= k < es0.len() implies enermies@[k] == #[trigger] es0[k] by {
                        assert(enermies@.take(before.len() as int)[k] == before[k]);
                        assert(before.take(es0.len() as int)[k] == before[k]);
                    }
                    assert(enermies@.take(es0.len() as int) =~= es0);
                    assert forall|k: int| es0.len() <= k < enermies@.len() implies fresh_child(
                        #[trigger] enermies@[k],
                    ) by {
                        if k < before.len() {
                            assert(enermies@.take(before.len() as int)[k] == before[k]);
                        } else {
                            let m = k - before.len();
                            assert(enermies@[before.len() + m] == enermies@[k]);
                        }
                    }
                    assert forall|k: int| 0 <= k < enermies@.len() implies (#[trigger] enermies@[k]).wf() by {
                        if k < before.len() {
                            assert(enermies@.take(before.len() as int)[k] == before[k]);
                        } else {
                            let m = k - before.len();
                            assert(enermies@[before.len() + m] == enermies@[k]);
                        }
                    }
                }
            },
        }
        i += 1;
    }
    proof {
        assert(deaths@.take(deaths@.len() as int) =~= deaths@);
    }
}

/// A bullet survives retention when it has not hit anything and is still
/// within the world.
pub open spec fn bullet_kept(b: Bullet) -> bool {
    !b.is_kill && b.wf()
}

pub open spec fn kept_bullets(bs: Seq<Bullet>) -> Seq<Bullet>
    decreases bs.len(),
{
    if bs.len() == 0 {
        Seq::empty()
    } else if bullet_kept(bs.last()) {
        kept_bullets(bs.drop_last()).push(bs.last())
    } else {
        kept_bullets(bs.drop_last())
    }
}

pub open spec fn kept_enemies(es: Seq<Enermy>) -> Seq<Enermy>
    decreases es.len(),
{
    if es.len() == 0 {
        Seq::empty()
    } else if es.last().alive() {
        kept_enemies(es.drop_last()).push(es.last())
    } else {
        kept_enemies(es.drop_last())
    }
}

/// Drops the bullets marked killed, and those that have left the world;
/// the others keep their order.
pub fn retain_bullets(bullets: &mut Vec<Bullet>)
    ensures
        final(bullets)@ == kept_bullets(old(bullets)@),
{
    let ghost bs0 = old(bullets)@;
    let mut kept: Vec<Bullet> = Vec::new();
    let mut i: usize = 0;
    proof {
        assert(bs0.take(0) =~= Seq::<Bullet>::empty());
    }
    while i < bullets.len()
        invariant
            i <= bullets@.len(),
            bullets@ == bs0,
            kept@ == kept_bullets(bs0.take(i as int)),
        decreases bs0.len() - i,
    {
        let b = bullets[i];
        proof {
            assert(bs0.take(i as int + 1).drop_last() =~= bs0.take(i as int));
        }
        if !b.is_kill && -WORLD_LIMIT <= b.pos.x && b.pos.x <= WORLD_LIMIT && -WORLD_LIMIT <= b.pos.y
            && b.pos.y <= WORLD_LIMIT && 0 <= b.anim_timer && b.anim_timer
            <= crate::constants::BULLET_ANIM_TIME_SPAWN {
            kept.push(b);
        }
        i += 1;
    }
    proof {
        assert(bs0.take(bs0.len() as int) =~= bs0);
    }
    *bullets = kept;
}

/// Drops the enemies with no health left; the others keep their order.
pub fn retain_enemies(enermies: &mut Vec<Enermy>)
    ensures
        final(enermies)@ == kept_enemies(old(enermies)@),
{
    let ghost es0 = old(enermies)@;
    let mut kept: Vec<Enermy> = Vec::new();
    let mut i: usize = 0;
    proof {
        assert(es0.take(0) =~= Seq::<Enermy>::empty());
    }
    while i < enermies.len()
        invariant
            i <= enermies@.len(),
            enermies@ == es0,
            kept@ == kept_enemies(es0.take(i as int)),
        decreases es0.len() - i,
    {
        let e = enermies[i];
        proof {
            assert(es0.take(i as int + 1).drop_last() =~= es0.take(i as int));
        }
        if e.state_shared.health > 0 {
            kept.push(e);
        }
        i += 1;
    }
    proof {
        assert(es0.take(es0.len() as int) =~= es0);
    }
    *enermies = kept;
}

/// After retention no bullet is marked killed: every bullet left was live
/// before it and is one of the bullets it was given, and all are well formed.
pub proof fn lemma_retained_bullets_live(bs: Seq<Bullet>)
    ensures
        forall|k: int| 0 <= k < kept_bullets(bs).len() ==> {
            &&& !(#[trigger] kept_bullets(bs)[k]).is_kill
            &&& kept_bullets(bs)[k].wf()
            &&& bs.contains(kept_bullets(bs)[k])
        },
    decreases bs.len(),
{
    if bs.len() > 0 {
        let p = bs.drop_last();
        lemma_retained_bullets_live(p);
        assert forall|k: int| 0 <= k < kept_bullets(bs).len() implies {
            &&& !(#[trigger] kept_bullets(bs)[k]).is_kill
            &&& kept_bullets(bs)[k].wf()
            &&& bs.contains(kept_bullets(bs)[k])
        } by {
            if k < kept_bullets(p).len() {
                assert(kept_bullets(bs)[k] == kept_bullets(p)[k]);
                let j = choose|j: int| 0 <= j < p.len() && p[j] == kept_bullets(p)[k];
                assert(bs[j] == p[j]);
            } else {
                assert(kept_bullets(bs)[k] == bs.last());
                assert(bs[bs.len() - 1] == bs.last());
            }
        }
    }
}

/// Every enemy left after retention is alive and one of those it was given.
pub proof fn lemma_retained_enemies_alive(es: Seq<Enermy>)
    ensures
        forall|k: int| 0 <= k < kept_enemies(es).len() ==> {
            &&& (#[trigger] kept_enemies(es)[k]).alive()
            &&& es.contains(kept_enemies(es)[k])
        },
    decreases es.len(),
{
    if es.len() > 0 {
        let p = es.drop_last();
        lemma_retained_enemies_alive(p);
        assert forall|k: int| 0 <= k < kept_enemies(es).len() implies {
            &&& (#[trigger] kept_enemies(es)[k]).alive()
            &&& es.contains(kept_enemies(es)[k])
        } by {
            if k < kept_enemies(p).len() {
                assert(kept_enemies(es)[k] == kept_enemies(p)[k]);
                let j = choose|j: int| 0 <= j < p.len() && p[j] == kept_enemies(p)[k];
                assert(es[j] == p[j]);
            } else {
                assert(kept_enemies(es)[k] == es.last());
                assert(es[es.len() - 1] == es.last());
            }
        }
    }
}

/// The bullets after the player-damage pass.
pub open spec fn bullets_after_hit(bs: Seq<Bullet>, p: Player) -> Seq<Bullet> {
    match pass_hit(bs, p) {
        Some(i) => bs.update(i, Bullet { is_kill: true, ..bs[i] }),
        None => bs,
    }
}

/// The player is invincible once the player-damage pass is over.
pub open spec fn shielded_after_hit(bs: Seq<Bullet>, p: Player) -> bool {
    p.state is Invincible || pass_hit(bs, p) is Some
}

/// Homing enemies that reach the player in the homing-contact pass.
pub open spec fn contact_count(bs: Seq<Bullet>, es: Seq<Enermy>, p: Player) -> int {
    if shielded_after_hit(bs, p) { 0 } else { homing_contacts(es, p.hitbox()) }
}

/// The enemies after the homing-contact pass.
pub open spec fn enemies_after_contact(bs: Seq<Bullet>, es: Seq<Enermy>, p: Player) -> Seq<Enermy> {
    if shielded_after_hit(bs, p) { es } else { after_contacts(es, p.hitbox()) }
}

/// Lives after both passes that can hurt the player.
pub open spec fn lives_after_combat(lives: int, bs: Seq<Bullet>, es: Seq<Enermy>, p: Player) -> int {
    lose_lives(
        lose_lives(lives, if pass_hit(bs, p) is Some { 1int } else { 0 }),
        contact_count(bs, es, p),
    )
}

/// The player after both passes that can hurt it: invincible for the full
/// duration if anything hit.
pub open spec fn player_after_combat(bs: Seq<Bullet>, es: Seq<Enermy>, p: Player) -> Player {
    if pass_hit(bs, p) is Some || contact_count(bs, es, p) > 0 {
        Player { state: PlayerState::Invincible(PLAYER_TIME_INVISBLE), ..p }
    } else {
        p
    }
}

/// The enemy-damage pass that follows the two passes against the player.
pub open spec fn combat_damage(bs: Seq<Bullet>, es: Seq<Enermy>, p: Player) -> DamageState {
    damage_run(bullets_after_hit(bs, p), enemies_after_contact(bs, es, p))
}

/// Retention keeps fresh children, which are alive, after the kept enemies.
proof fn lemma_kept_enemies_append_alive(a: Seq<Enermy>, b: Seq<Enermy>)
    requires
        forall|k: int| 0 <= k < b.len() ==> (#[trigger] b[k]).alive(),
    ensures
        kept_enemies(a + b) == kept_enemies(a) + b,
    decreases b.len(),
{
    if b.len() == 0 {
        assert(a + b =~= a);
        assert(kept_enemies(a) + b =~= kept_enemies(a));
    } else {
        let c = b.drop_last();
        assert forall|k: int| 0 <= k < c.len() implies (#[trigger] c[k]).alive() by {
            assert(c[k] == b[k]);
        }
        lemma_kept_enemies_append_alive(a, c);
        assert((a + b).drop_last() =~= a + c);
        assert((a + b).last() == b.last());
        assert(b[b.len() - 1] == b.last());
        assert((kept_enemies(a) + c).push(b.last()) =~= kept_enemies(a) + b);
    }
}

/// The combat resolver of one tick, in its fixed order: bullets against the
/// player, homing enemies against the player, then, unless the player has no
/// life left, bullets against enemies and death processing, and last
/// retention. Returns whether the player has no life left; the passes against
/// enemies are then skipped, and only the bullets are filtered.
pub fn resolve_combat(
    bullets: &mut Vec<Bullet>,
    enermies: &mut Vec<Enermy>,
    player: &mut Player,
    player_lives: &mut i32,
    player_score: &mut u64,
    last_reason: &mut LastEnermyDeathReason,
    sizes: &SpriteSizes,
    sounds: &mut Vec<SoundIdentifier>,
    rng: &RandGenerator,
) -> (game_over: bool)
    requires
        bullets_in_reach(old(bullets)@),
        enemies_wf(old(enermies)@),
        old(player).wf(),
        *old(player_lives) >= 0,
        sizes_ok(*sizes),
    ensures
        *final(player) == player_after_combat(old(bullets)@, old(enermies)@, *old(player)),
        *final(player_lives) == lives_after_combat(*old(player_lives) as int, old(bullets)@, old(enermies)@, *old(player)),
        game_over ==> {
            &&& final(bullets)@ == kept_bullets(bullets_after_hit(old(bullets)@, *old(player)))
            &&& final(enermies)@ == enemies_after_contact(old(bullets)@, old(enermies)@, *old(player))
            &&& *final(player_score) == *old(player_score)
            &&& *final(last_reason) == *old(last_reason)
        },
        !game_over ==> ({
            let (bs2, es2, ds, hit) = combat_damage(old(bullets)@, old(enermies)@, *old(player));
            let k = kept_enemies(es2).len() as int;
            &&& final(bullets)@ == kept_bullets(bs2)
            &&& *final(player_score) == add_score(*old(player_score) as int, deaths_score(ds))
            &&& *final(last_reason) == if hit { LastEnermyDeathReason::Player } else { *old(last_reason) }
            &&& final(enermies)@.take(k) == kept_enemies(es2)
            &&& children_ok(ds, final(enermies)@.skip(k), *sizes)
        }),
        final(player).wf(),
        final(player).pos == old(player).pos,
        final(player).shoot_timer == old(player).shoot_timer,
        final(player).width == old(player).width,
        final(player).state == old(player).state || final(player).state == PlayerState::Invincible(
            PLAYER_TIME_INVISBLE,
        ),
        old(player).state is Invincible ==> *final(player_lives) == *old(player_lives)
            && *final(player) == *old(player),
        0 <= *final(player_lives) <= *old(player_lives),
        game_over == (*final(player_lives) <= 0),
        *final(player_score) >= *old(player_score),
        bullets_wf(final(bullets)@),
        forall|k: int| 0 <= k < final(bullets)@.len() ==> !(#[trigger] final(bullets)@[k]).is_kill,
        !game_over ==> enemies_wf(final(enermies)@),
        !game_over ==> forall|k: int| 0 <= k < final(enermies)@.len() ==> (#[trigger] final(enermies)@[k]).alive(),
{
    player_damage_pass(bullets, player, player_lives, sounds);
    proof {
        lemma_homing_contacts_nonneg(enermies@, player.hitbox());
    }
    homing_contact_pass(enermies, player, player_lives, sounds);
    if *player_lives <= 0 {
        let ghost hit_bullets = bullets@;
        retain_bullets(bullets);
        proof {
            lemma_retained_bullets_live(hit_bullets);
        }
        return true;
    }
    assert forall|k: int| 0 <= k < bullets@.len() implies (#[trigger] bullets@[k]).in_reach() by {
        assert(bullets@[k].pos == old(bullets)@[k].pos);
    }
    assert forall|k: int| 0 <= k < enermies@.len() implies (#[trigger] enermies@[k]).wf() by {
        assert(old(enermies)@[k].wf());
    }
    let deaths = enemy_damage_pass(bullets, enermies, last_reason, sounds);
    proof {
        lemma_deaths_score_nonneg(deaths@);
    }
    let ghost es2 = enermies@;
    process_deaths(&deaths, enermies, player_score, sizes, sounds, rng);
    let ghost es = enermies@;
    proof {
        let kids = es.skip(es2.len() as int);
        assert(es =~= es2 + kids) by {
            assert forall|k: int| 0 <= k < es2.len() implies es[k] == es2[k] by {
                assert(es.take(es2.len() as int)[k] == es2[k]);
            }
        }
        assert forall|k: int| 0 <= k < kids.len() implies (#[trigger] kids[k]).alive() by {
            assert(kids[k] == es[es2.len() + k]);
        }
        lemma_kept_enemies_append_alive(es2, kids);
    }
    let ghost bs = bullets@;
    retain_bullets(bullets);
    retain_enemies(enermies);
    proof {
        lemma_retained_bullets_live(bs);
        lemma_retained_enemies_alive(es);
        assert forall|k: int| 0 <= k < enermies@.len() implies (#[trigger] enermies@[k]).wf() by {
            assert(kept_enemies(es)[k] == enermies@[k]);
            assert(es.contains(enermies@[k]));
        }
        let kids = es.skip(es2.len() as int);
        let k = kept_enemies(es2).len() as int;
        assert(enermies@.take(k) =~= kept_enemies(es2));
        assert(enermies@.skip(k) =~= kids);
    }
    false
}

proof fn lemma_homing_contacts_nonneg(es: Seq<Enermy>, r: Rect)
    ensures
        homing_contacts(es, r) >= 0,
    decreases es.len(),
{
    if es.len() > 0 {
        lemma_homing_contacts_nonneg(es.drop_last(), r);
    }
}

proof fn lemma_deaths_score_nonneg(ds: Seq<PendingDeath>)
    ensures
        deaths_score(ds) >= 0,
    decreases ds.len(),
{
    if ds.len() > 0 {
        lemma_deaths_score_nonneg(ds.drop_last());
    }
}

/// A bullet that can still hurt enemies.
pub open spec fn live_enemy_bullet(b: Bullet) -> bool {
    b.hurt_type == BulletHurtType::Enermy && !b.is_kill
}

/// When a single live bullet that hurts enemies kills a single enemy with one
/// health point, the enemy-damage pass records that one death, once, and
/// death processing then scores that enemy's tier exactly once.
pub proof fn lemma_one_bullet_one_kill(bs: Seq<Bullet>, es: Seq<Enermy>, i: int, j: int)
    requires
        0 <= i < bs.len(),
        live_enemy_bullet(bs[i]),
        forall|k: int| 0 <= k < bs.len() && k != i ==> !live_enemy_bullet(#[trigger] bs[k]),
        0 <= j < es.len(),
        first_from(es, bullet_rect(bs[i].pos), 0) == Some(j),
        es[j].state_shared.health == 1,
    ensures
        damage_run(bs, es).2 == seq![death_of(es[j])],
        deaths_score(damage_run(bs, es).2) == tier_score(es[j].state_shared.enermy_type),
{
    lemma_one_bullet_prefix(bs, es, i, j, bs.len() as int);
    assert(bs.take(bs.len() as int) =~= bs);
    let d = seq![death_of(es[j])];
    assert(d.drop_last() =~= Seq::<PendingDeath>::empty());
    assert(deaths_score(Seq::<PendingDeath>::empty()) == 0);
    assert(d.last() == death_of(es[j]));
}

proof fn lemma_one_bullet_prefix(bs: Seq<Bullet>, es: Seq<Enermy>, i: int, j: int, n: int)
    requires
        0 <= i < bs.len(),
        live_enemy_bullet(bs[i]),
        forall|k: int| 0 <= k < bs.len() && k != i ==> !live_enemy_bullet(#[trigger] bs[k]),
        0 <= j < es.len(),
        first_from(es, bullet_rect(bs[i].pos), 0) == Some(j),
        es[j].state_shared.health == 1,
        0 <= n <= bs.len(),
    ensures
        damage_run(bs.take(n), es).2 == if n > i { seq![death_of(es[j])] } else { Seq::empty() },
        n <= i ==> damage_run(bs.take(n), es).1 == es,
    decreases n,
{
    if n > 0 {
        lemma_one_bullet_prefix(bs, es, i, j, n - 1);
        assert(bs.take(n).drop_last() =~= bs.take(n - 1));
        assert(bs.take(n).last() == bs[n - 1]);
        if n - 1 == i {
            assert(Seq::<PendingDeath>::empty().push(death_of(es[j])) =~= seq![death_of(es[j])]);
        }
    } else {
        assert(bs.take(0) =~= Seq::<Bullet>::empty());
    }
}

} // verus!
