use vstd::prelude::*;
use crate::bullet::{CollisionEvent, Target, ENEMY_HALF};
use crate::collide::{circle_intersects, circle_meets_box};
use crate::enemy::{EnemyBundle, EnemyType};
use crate::gun::{BulletBlueprint, Gun, GunModel};
use crate::health::{sat_i64, Health};
use crate::motion::Curve;
use crate::rng::random_in;
use crate::score::{ScoreBoard, ScoreEvent};

verus! {

/// Radius of the blast around an enemy that dies from a player's hit.
pub const EXPLOSION_RADIUS: i64 = 32_000;

/// Damage the blast deals to each enemy it reaches.
pub const EXPLOSION_DAMAGE: i64 = 20;

/// Index of the first enemy with identity `id`.
pub open spec fn find_enemy(es: Seq<EnemyBundle>, id: u64) -> Option<int>
    decreases es.len(),
{
    if es.len() == 0 {
        None
    } else {
        match find_enemy(es.drop_last(), id) {
            Some(k) => Some(k),
            None => if es.last().id == id {
                Some(es.len() - 1)
            } else {
                None
            },
        }
    }
}

/// The enemies after a blast at `(cx, cy)`: each one whose box the blast
/// reaches takes the blast's damage.
pub open spec fn explode(es: Seq<EnemyBundle>, cx: i64, cy: i64) -> Seq<EnemyBundle> {
    Seq::new(
        es.len(),
        |k: int|
            if circle_meets_box(cx as int, cy as int, EXPLOSION_RADIUS as int, es[k].x as int, es[k].y as int, ENEMY_HALF as int) {
                EnemyBundle { health: es[k].health.spec_damage(EXPLOSION_DAMAGE), ..es[k] }
            } else {
                es[k]
            },
    )
}

/// The state that damage application works on: the enemies, the player's
/// pools while the player lives, and what has come of the hits so far.
pub struct CombatState {
    pub enemies: Seq<EnemyBundle>,
    pub player: Option<Health>,
    pub scores: Seq<ScoreEvent>,
    pub kills: Seq<EnemyType>,
    pub player_died: bool,
}

/// One hit applied. A hit on what is already gone changes nothing. An enemy
/// killed by the player's side scores, blasts its neighbours, and is
/// removed; a player who dies is removed.
pub open spec fn apply_event(st: CombatState, ev: CollisionEvent) -> CombatState {
    match ev.target {
        Target::Player => match st.player {
            None => st,
            Some(h) => {
                let h2 = h.spec_damage(ev.damage);
                if h2.is_alive {
                    CombatState { player: Some(h2), ..st }
                } else {
                    CombatState { player: None, player_died: true, ..st }
                }
            },
        },
        Target::Enemy(id) => match find_enemy(st.enemies, id) {
            None => st,
            Some(k) => {
                let e = st.enemies[k];
                let h2 = e.health.spec_damage(ev.damage);
                let hit = st.enemies.update(k, EnemyBundle { health: h2, ..e });
                if h2.is_alive {
                    CombatState { enemies: hit, ..st }
                } else if ev.is_player {
                    CombatState { enemies: hit.remove(k), ..st }
                } else {
                    let (base, inc) = e.enemy.t.spec_score();
                    CombatState {
                        enemies: explode(hit, e.x, e.y).remove(k),
                        scores: st.scores.push(ScoreEvent { base_score: base, multiplier_increment: inc }),
                        kills: st.kills.push(e.enemy.t),
                        ..st
                    }
                }
            },
        },
    }
}

/// The hits applied in order.
pub open spec fn apply_all(st: CombatState, evs: Seq<CollisionEvent>) -> CombatState
    decreases evs.len(),
{
    if evs.len() == 0 {
        st
    } else {
        apply_event(apply_all(st, evs.drop_last()), evs.last())
    }
}

/// What came of a tick's hits: score events and kinds killed, in order, and
/// whether the player died.
#[derive(Debug)]
pub struct DamageReport {
    pub score_events: Vec<ScoreEvent>,
    pub kills: Vec<EnemyType>,
    pub player_died: bool,
}

/// Index of the first enemy with identity `id`, as `find_enemy`.
fn find_enemy_index(es: &Vec<EnemyBundle>, id: u64) -> (r: Option<usize>)
    ensures
        r matches Some(k) ==> find_enemy(es@, id) == Some(k as int) && k < es@.len(),
        r is None <==> find_enemy(es@, id) is None,
{
    proof {
        lemma_find_bounds(es@, id);
    }
    let mut i: usize = 0;
    while i < es.len()
        invariant
            0 <= i <= es@.len(),
            find_enemy(es@.take(i as int), id) is None,
        decreases es@.len() - i,
    {
        assert(es@.take(i + 1).drop_last() =~= es@.take(i as int));
        if es[i].id == id {
            proof {
                lemma_find_stable(es@, id, i as int + 1);
                assert(es@.take(es@.len() as int) =~= es@);
            }
            return Some(i);
        }
        i += 1;
    }
    assert(es@.take(i as int) =~= es@);
    None
}

/// A found index lies within the sequence and holds the identity sought.
proof fn lemma_find_bounds(es: Seq<EnemyBundle>, id: u64)
    ensures
        find_enemy(es, id) matches Some(k) ==> 0 <= k < es.len() && es[k].id == id,
    decreases es.len(),
{
    if es.len() > 0 {
        lemma_find_bounds(es.drop_last(), id);
    }
}

/// Once found in a prefix, the first match stays the same in longer ones.
proof fn lemma_find_stable(es: Seq<EnemyBundle>, id: u64, n: int)
    requires
        0 < n <= es.len(),
        find_enemy(es.take(n), id) is Some,
    ensures
        forall|m: int| n <= m <= es.len() ==> #[trigger] find_enemy(es.take(m), id) == find_enemy(es.take(n), id),
    decreases es.len() - n,
{
    assert forall|m: int| n <= m <= es.len() implies #[trigger] find_enemy(es.take(m), id) == find_enemy(es.take(n), id) by {
        lemma_find_prefix(es, id, n, m);
    }
}

proof fn lemma_find_prefix(es: Seq<EnemyBundle>, id: u64, n: int, m: int)
    requires
        0 < n <= m <= es.len(),
        find_enemy(es.take(n), id) is Some,
    ensures
        find_enemy(es.take(m), id) == find_enemy(es.take(n), id),
    decreases m - n,
{
    if m > n {
        lemma_find_prefix(es, id, n, m - 1);
        assert(es.take(m).drop_last() =~= es.take(m - 1));
    }
}

/// Deals the blast's damage to every enemy it reaches.
fn explosion(enemies: &mut Vec<EnemyBundle>, cx: i64, cy: i64)
    ensures
        final(enemies)@ == explode(old(enemies)@, cx, cy),
{
    let ghost src = enemies@;
    let mut j: usize = 0;
    while j < enemies.len()
        invariant
            enemies@.len() == src.len(),
            0 <= j <= src.len(),
            forall|k: int| 0 <= k < j ==> #[trigger] enemies@[k] == explode(src, cx, cy)[k],
            forall|k: int| j <= k < src.len() ==> #[trigger] enemies@[k] == src[k],
        decreases src.len() - j,
    {
        if circle_intersects(cx, cy, EXPLOSION_RADIUS, enemies[j].x, enemies[j].y, ENEMY_HALF) {
            enemies[j].health.damage(EXPLOSION_DAMAGE);
        }
        j += 1;
    }
    assert(enemies@ =~= explode(src, cx, cy));
}

/// Applies every hit in order to the enemies and to the player's pools
/// (`None` once the player is gone), and reports what came of them.
pub fn apply_collision_damage(
    events: &Vec<CollisionEvent>,
    enemies: &mut Vec<EnemyBundle>,
    player: &mut Option<Health>,
) -> (r: DamageReport)
    ensures
        ({
            let st = apply_all(
                CombatState { enemies: old(enemies)@, player: *old(player), scores: seq![], kills: seq![], player_died: false },
                events@,
            );
            &&& final(enemies)@ == st.enemies
            &&& *final(player) == st.player
            &&& r.score_events@ == st.scores
            &&& r.kills@ == st.kills
            &&& r.player_died == st.player_died
        }),
{
    let ghost init = CombatState { enemies: enemies@, player: *player, scores: seq![], kills: seq![], player_died: false };
    let mut scores: Vec<ScoreEvent> = Vec::new();
    let mut kills: Vec<EnemyType> = Vec::new();
    let mut died = false;
    let mut i: usize = 0;
    while i < events.len()
        invariant
            0 <= i <= events@.len(),
            ({
                let st = apply_all(init, events@.take(i as int));
                &&& enemies@ == st.enemies
                &&& *player == st.player
                &&& scores@ == st.scores
                &&& kills@ == st.kills
                &&& died == st.player_died
            }),
        decreases events@.len() - i,
    {
        let ev = events[i];
        let ghost before = CombatState { enemies: enemies@, player: *player, scores: scores@, kills: kills@, player_died: died };
        match ev.target {
            Target::Player => {
                match *player {
                    None => {},
                    Some(h) => {
                        let mut h2 = h;
                        h2.damage(ev.damage);
                        if h2.is_alive() {
                            *player = Some(h2);
                        } else {
                            *player = None;
                            died = true;
                        }
                    },
                }
            },
            Target::Enemy(id) => {
                match find_enemy_index(enemies, id) {
                    None => {},
                    Some(k) => {
                        let ghost e = enemies@[k as int];
                        enemies[k].health.damage(ev.damage);
                        let ghost hit = enemies@;
                        assert(hit == before.enemies.update(k as int, EnemyBundle { health: e.health.spec_damage(ev.damage), ..e }));
                        if !enemies[k].health.is_alive() {
                            if !ev.is_player {
                                let t = enemies[k].enemy.get_type();
                                let (base, inc) = t.get_score();
                                scores.push(ScoreEvent { base_score: base, multiplier_increment: inc });
                                kills.push(t);
                                let cx = enemies[k].x;
                                let cy = enemies[k].y;
                                explosion(enemies, cx, cy);
                                assert(enemies@ == explode(hit, e.x, e.y));
                            }
                            enemies.remove(k);
                        }
                    },
                }
            },
        }
        proof {
            assert(events@.take(i + 1).drop_last() =~= events@.take(i as int));
            assert(apply_event(before, ev) == CombatState { enemies: enemies@, player: *player, scores: scores@, kills: kills@, player_died: died });
        }
        i += 1;
    }
    assert(events@.take(i as int) =~= events@);
    DamageReport { score_events: scores, kills, player_died: died }
}

/// The board after each score event in turn: points, then multiplier.
pub open spec fn score_all(b: ScoreBoard, evs: Seq<ScoreEvent>) -> ScoreBoard
    decreases evs.len(),
{
    if evs.len() == 0 {
        b
    } else {
        let prior = score_all(b, evs.drop_last());
        prior.spec_add_score(evs.last().base_score).spec_add_mul(evs.last().multiplier_increment)
    }
}

/// The player's shot damage for a multiplier: 35 per step of the
/// multiplier plus three, at most sixteen steps.
pub open spec fn mul_damage(mul: u64) -> i64 {
    (35 * (if mul + 3 < 16 { mul + 3 } else { 16 })) as i64
}

/// Applies the score events in order and sets the player's shot damage
/// from the multiplier after each.
pub fn update_score(scoreboard: &mut ScoreBoard, player_gun: &mut Gun, events: &Vec<ScoreEvent>)
    ensures
        *final(scoreboard) == score_all(*old(scoreboard), events@),
        final(player_gun)@ == if events@.len() > 0 {
            old(player_gun)@.set_damage(mul_damage(final(scoreboard).mul))
        } else {
            old(player_gun)@
        },
{
    let ghost b0 = *scoreboard;
    let ghost g0 = player_gun@;
    let mut i: usize = 0;
    while i < events.len()
        invariant
            0 <= i <= events@.len(),
            *scoreboard == score_all(b0, events@.take(i as int)),
            player_gun@ == if i > 0 { g0.set_damage(mul_damage(scoreboard.mul)) } else { g0 },
        decreases events@.len() - i,
    {
        let ev = events[i];
        scoreboard.add_score(ev.base_score);
        scoreboard.add_mul(ev.multiplier_increment);
        let mul = scoreboard.get_mul();
        let steps: i64 = if mul < 13 { mul as i64 + 3 } else { 16 };
        player_gun.set_bullet_damage(35 * steps);
        assert(events@.take(i + 1).drop_last() =~= events@.take(i as int));
        i += 1;
    }
    assert(events@.take(i as int) =~= events@);
}

/// Number of blueprints a kill reward picks from.
pub const REWARD_CHOICES: u64 = 5;

/// The blueprint a reward roll picks: a player's projectile for fifty
/// damage.
pub open spec fn reward_blueprint(roll: u64) -> BulletBlueprint {
    let (fy, fx) = if roll == 0 {
        (Curve::Quadratic { k: 1000 }, Curve::Constant { v: 0 })
    } else if roll == 1 {
        (Curve::Quadratic { k: 1000 }, Curve::Constant { v: 5000 })
    } else if roll == 2 {
        (Curve::Quadratic { k: 1000 }, Curve::Constant { v: -5000i64 })
    } else if roll == 3 {
        (Curve::Constant { v: 10000 }, Curve::Constant { v: 5000 })
    } else {
        (Curve::Constant { v: 10000 }, Curve::Constant { v: -5000i64 })
    };
    BulletBlueprint { dir: 1, fy, fx, tick: 0, ply: true, damage: 50 }
}

/// The blueprint a reward roll picks, as `reward_blueprint`.
pub fn random_bullet(roll: u64) -> (r: BulletBlueprint)
    ensures
        r == reward_blueprint(roll),
        r.wf(),
{
    let (fy, fx) = if roll == 0 {
        (Curve::Quadratic { k: 1000 }, Curve::Constant { v: 0 })
    } else if roll == 1 {
        (Curve::Quadratic { k: 1000 }, Curve::Constant { v: 5000 })
    } else if roll == 2 {
        (Curve::Quadratic { k: 1000 }, Curve::Constant { v: -5000 })
    } else if roll == 3 {
        (Curve::Constant { v: 10000 }, Curve::Constant { v: 5000 })
    } else {
        (Curve::Constant { v: 10000 }, Curve::Constant { v: -5000 })
    };
    BulletBlueprint { dir: 1, fy, fx, tick: 0, ply: true, damage: 50 }
}

/// The player's gun after killing an enemy of kind `t`: a spawner adds the
/// rolled blueprint, a wavy one adds thirty damage, a spammer shortens the
/// shot interval by half a millisecond.
pub open spec fn reward(g: GunModel, t: EnemyType, roll: u64) -> GunModel {
    match t {
        EnemyType::Spawner => g.add_bullet(reward_blueprint(roll)),
        EnemyType::Wavy => g.set_damage(sat_i64(g.damage + 30) as i64),
        EnemyType::Spammer => g.set_delay(sat_i64(g.shoot_delay - 500) as i64),
        _ => g,
    }
}

/// The rewards of the kills in order.
pub open spec fn reward_all(g: GunModel, kills: Seq<EnemyType>, rolls: Seq<u64>) -> GunModel
    decreases kills.len(),
{
    if kills.len() == 0 {
        g
    } else {
        let n = kills.len() - 1;
        reward(reward_all(g, kills.drop_last(), rolls.take(n)), kills[n], rolls[n])
    }
}

/// Applies the reward of each kill, with its roll, to the player's gun.
pub fn apply_kill_rewards(gun: &mut Gun, kills: &Vec<EnemyType>, rolls: &Vec<u64>)
    requires
        kills@.len() == rolls@.len(),
        old(gun).wf(),
    ensures
        final(gun)@ == reward_all(old(gun)@, kills@, rolls@),
        final(gun).wf(),
{
    let ghost g0 = gun@;
    let mut i: usize = 0;
    while i < kills.len()
        invariant
            kills@.len() == rolls@.len(),
            0 <= i <= kills@.len(),
            gun@ == reward_all(g0, kills@.take(i as int), rolls@.take(i as int)),
            gun.wf(),
        decreases kills@.len() - i,
    {
        let roll = rolls[i];
        match kills[i] {
            EnemyType::Spawner => {
                let bp = random_bullet(roll);
                gun.add_bullet(bp);
                assert forall|j: int| 0 <= j < gun.bullet_blueprints@.len() implies #[trigger] gun.bullet_blueprints@[j].wf() by {
                }
            },
            EnemyType::Wavy => {
                let d = gun.get_bullet_damage();
                let nd: i64 = if d > i64::MAX - 30 { i64::MAX } else { d + 30 };
                gun.set_bullet_damage(nd);
            },
            EnemyType::Spammer => {
                let v = gun.get_bullet_delay();
                let w: i128 = v as i128 - 500;
                let nv: i64 = if w > i64::MAX as i128 { i64::MAX } else { w as i64 };
                gun.set_bullet_delay(nv);
            },
            _ => {},
        }
        proof {
            assert(kills@.take(i + 1).drop_last() =~= kills@.take(i as int));
            assert(rolls@.take(i + 1).take(i as int) =~= rolls@.take(i as int));
        }
        i += 1;
    }
    assert(kills@.take(i as int) =~= kills@);
    assert(rolls@.take(i as int) =~= rolls@);
}

/// Draws a roll for each kill and applies the kills' rewards; returns the
/// rolls drawn.
pub fn kill_rewards(gun: &mut Gun, kills: &Vec<EnemyType>) -> (r: Vec<u64>)
    requires
        old(gun).wf(),
    ensures
        r@.len() == kills@.len(),
        forall|k: int| 0 <= k < r@.len() ==> #[trigger] r@[k] < REWARD_CHOICES,
        final(gun)@ == reward_all(old(gun)@, kills@, r@),
        final(gun).wf(),
{
    let mut rolls: Vec<u64> = Vec::new();
    let mut i: usize = 0;
    while i < kills.len()
        invariant
            0 <= i <= kills@.len(),
            rolls@.len() == i,
            forall|k: int| 0 <= k < rolls@.len() ==> #[trigger] rolls@[k] < REWARD_CHOICES,
        decreases kills@.len() - i,
    {
        rolls.push(random_in(0, REWARD_CHOICES));
        i += 1;
    }
    apply_kill_rewards(gun, kills, &rolls);
    rolls
}

} // verus!
