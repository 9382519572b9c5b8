use vstd::prelude::*;
use crate::bullet::{sat_add_u64, shift, Bullet, BulletBundle};
use crate::gun::{BulletBlueprint, Gun, GunBluePrint};
use crate::shapes::{circle_points, square_points, triangle_points, line_points, generate_circle, generate_square, generate_triangle, generate_line};
use crate::health::sat_i64;
use crate::rng::random_in;
use crate::{B_BOUND, L_BOUND, PIXEL, R_BOUND, T_BOUND};
use crate::health::Health;
use crate::motion::Curve;
use crate::timer::{Timer, TimerMode};

verus! {

/// How each kind of enemy moves and fights.
#[derive(Clone, Copy, Debug, PartialEq, Eq, Structural)]
pub enum EnemyType {
    /// Dives toward the bottom; no ranged attack.
    Melee,
    /// Fires straight down.
    Linear,
    /// Weaves while firing.
    Wavy,
    /// Fires diagonal spreads.
    Spammer,
    /// Fires outline bursts instead of its gun.
    Spawner,
}

impl EnemyType {
    /// Points for a kill of this kind, and the multiplier increase it earns.
    pub open spec fn spec_score(self) -> (u64, u64) {
        match self {
            EnemyType::Spawner => (500, 3),
            EnemyType::Spammer => (400, 2),
            EnemyType::Wavy => (300, 1),
            _ => (50, 0),
        }
    }

    pub fn get_score(&self) -> (r: (u64, u64))
        ensures
            r == self.spec_score(),
    {
        match *self {
            EnemyType::Spawner => (500, 3),
            EnemyType::Spammer => (400, 2),
            EnemyType::Wavy => (300, 1),
            _ => (50, 0),
        }
    }
}

/// The horizontal and vertical offsets an enemy moves by, as functions of
/// its lifetime.
#[derive(Clone, Copy, Debug, PartialEq, Eq, Structural)]
pub struct EnemyPath {
    pub x_path: Curve,
    pub y_path: Curve,
}

/// The state of one enemy: its kind, lifetime, time since its last shot
/// (negative while a cooldown is imposed), its path, the range its shot
/// interval is drawn from, and its gun.
#[derive(Debug)]
pub struct Enemy {
    pub t: EnemyType,
    pub tick: u64,
    pub last_shot: i64,
    pub x_path: Curve,
    pub y_path: Curve,
    pub shot_range: (u64, u64),
    pub gun: Gun,
}

impl Enemy {
    pub fn get_type(&self) -> (r: EnemyType)
        ensures
            r == self.t,
    {
        self.t
    }
}

/// An enemy in the field: its identity, position, state and pools.
#[derive(Debug)]
pub struct EnemyBundle {
    pub id: u64,
    pub x: i64,
    pub y: i64,
    pub enemy: Enemy,
    pub health: Health,
}

impl EnemyBundle {
    /// A new enemy at `(spawn_x, spawn_y)` that has not yet lived or fired.
    pub fn new(
        id: u64,
        spawn_x: i64,
        spawn_y: i64,
        t: EnemyType,
        health: Health,
        path: EnemyPath,
        shot_range: (u64, u64),
        gun: Gun,
    ) -> (r: EnemyBundle)
        ensures
            r.id == id,
            r.x == spawn_x,
            r.y == spawn_y,
            r.enemy.t == t,
            r.enemy.tick == 0,
            r.enemy.last_shot == 0,
            r.enemy.x_path == path.x_path,
            r.enemy.y_path == path.y_path,
            r.enemy.shot_range == shot_range,
            r.enemy.gun == gun,
            r.health == health,
    {
        EnemyBundle {
            id,
            x: spawn_x,
            y: spawn_y,
            enemy: Enemy {
                t,
                tick: 0,
                last_shot: 0,
                x_path: path.x_path,
                y_path: path.y_path,
                shot_range,
                gun,
            },
            health,
        }
    }
}

/// Shot interval range of linear and melee enemies (µs).
pub const LINEAR_DELAY: (u64, u64) = (500_000, 2_500_000);

/// Shot interval range of spammers (µs).
pub const SPAMMER_DELAY: (u64, u64) = (500_000, 1_500_000);

/// Shot interval range of spawners (µs).
pub const SPAWNER_DELAY: (u64, u64) = (1_500_000, 7_500_000);

/// Kind drawn from a roll in `0..=100` by fixed bands.
pub open spec fn kind_of_roll(roll: u64) -> EnemyType {
    if roll <= 20 {
        EnemyType::Melee
    } else if roll <= 40 {
        EnemyType::Linear
    } else if roll <= 60 {
        EnemyType::Wavy
    } else if roll <= 80 {
        EnemyType::Spammer
    } else {
        EnemyType::Spawner
    }
}

/// The path of each kind. The spawner's vertical path is the cosine of
/// three times its lifetime alone: a term in the reciprocal of the lifetime,
/// unbounded as the lifetime nears zero, is left out, and past the first
/// seconds it adds less than a tenth of a pixel per tick.
pub open spec fn path_of(t: EnemyType) -> EnemyPath {
    match t {
        EnemyType::Melee => EnemyPath { x_path: Curve::Constant { v: 0 }, y_path: Curve::Quadratic { k: 33 } },
        EnemyType::Linear => EnemyPath {
            x_path: Curve::Constant { v: 2000 },
            y_path: Curve::Constant { v: 500 },
        },
        EnemyType::Wavy => EnemyPath {
            x_path: Curve::Constant { v: 500 },
            y_path: Curve::Cosine { amp: 3000, rate: 159, bias: 100 },
        },
        EnemyType::Spammer => EnemyPath {
            x_path: Curve::Constant { v: 750 },
            y_path: Curve::Cosine { amp: 1000, rate: 159, bias: 200 },
        },
        EnemyType::Spawner => EnemyPath {
            x_path: Curve::Constant { v: 100 },
            y_path: Curve::Cosine { amp: 1000, rate: 477, bias: 0 },
        },
    }
}

/// The shot interval range of each kind.
pub open spec fn delay_of(t: EnemyType) -> (u64, u64) {
    match t {
        EnemyType::Spammer => SPAMMER_DELAY,
        EnemyType::Spawner => SPAWNER_DELAY,
        _ => LINEAR_DELAY,
    }
}

/// Shield, health, regeneration delay (µs) and recharge of each kind.
pub open spec fn vitals_of(t: EnemyType) -> (i64, i64, u64, i64) {
    match t {
        EnemyType::Melee => (20, 150, 3_500_000, 5),
        EnemyType::Linear => (0, 150, 0, 5),
        EnemyType::Wavy => (150, 150, 3_000_000, 5),
        EnemyType::Spammer => (100, 150, 3_000_000, 5),
        EnemyType::Spawner => (200, 250, 3_000_000, 5),
    }
}

/// A hostile blueprint moving down the field by `fy` and across by `fx`
/// each tick, for twenty damage.
pub open spec fn hostile_shot(fy: i64, fx: i64) -> BulletBlueprint {
    BulletBlueprint {
        dir: -1i8,
        fy: Curve::Constant { v: fy },
        fx: Curve::Constant { v: fx },
        tick: 0,
        ply: false,
        damage: 20,
    }
}

/// The blueprints each kind's gun starts with.
pub open spec fn blueprints_of(t: EnemyType) -> Seq<BulletBlueprint> {
    match t {
        EnemyType::Linear => seq![hostile_shot(5000, 0)],
        EnemyType::Wavy => seq![hostile_shot(2000, 0), hostile_shot(2000, 0)],
        EnemyType::Spammer => seq![
            hostile_shot(8000, -4000i64),
            hostile_shot(4000, -8000i64),
            hostile_shot(8000, 4000),
            hostile_shot(4000, 8000),
        ],
        _ => seq![],
    }
}

/// The settings of each kind's gun.
pub open spec fn gun_of(t: EnemyType) -> GunBluePrint {
    match t {
        EnemyType::Melee => GunBluePrint { shoot_delay: 0, damage: 0, max_bullets: 1, max_ammo: 0, reload_delay: 0 },
        EnemyType::Linear => GunBluePrint {
            shoot_delay: 1_250_000,
            damage: 20,
            max_bullets: 1,
            max_ammo: 1000,
            reload_delay: 2_000_000,
        },
        EnemyType::Wavy => GunBluePrint {
            shoot_delay: 1_500_000,
            damage: 100,
            max_bullets: 2,
            max_ammo: 1000,
            reload_delay: 2_000_000,
        },
        EnemyType::Spammer => GunBluePrint {
            shoot_delay: 750_000,
            damage: 10,
            max_bullets: 4,
            max_ammo: 3000,
            reload_delay: 2_000_000,
        },
        EnemyType::Spawner => GunBluePrint {
            shoot_delay: 0,
            damage: 0,
            max_bullets: 1,
            max_ammo: 1000,
            reload_delay: 2_000_000,
        },
    }
}

/// The enemy of kind `t` that a wave places at `(x, y)`, fully described.
pub open spec fn is_fresh_enemy(e: EnemyBundle, id: u64, x: i64, y: i64, t: EnemyType) -> bool {
    let (shield, health, regen, recharge) = vitals_of(t);
    let g = gun_of(t);
    &&& e.id == id
    &&& e.x == x
    &&& e.y == y
    &&& e.enemy.t == t
    &&& e.enemy.tick == 0
    &&& e.enemy.last_shot == 0
    &&& e.enemy.x_path == path_of(t).x_path
    &&& e.enemy.y_path == path_of(t).y_path
    &&& e.enemy.shot_range == delay_of(t)
    &&& e.enemy.gun.bullet_blueprints@ == blueprints_of(t)
    &&& e.enemy.gun.damage == g.damage
    &&& e.enemy.gun.shoot_delay == g.shoot_delay
    &&& e.enemy.gun.max_bullets == g.max_bullets
    &&& e.enemy.gun.ammo == g.max_ammo
    &&& e.enemy.gun.max_ammo == g.max_ammo
    &&& e.enemy.gun.shot_timer == Timer::new_spec(g.shoot_delay, TimerMode::Repeating)
    &&& e.enemy.gun.reload_stopwatch == Timer::new_spec(g.reload_delay, TimerMode::Once)
    &&& e.health.shield == shield
    &&& e.health.max_shield == shield
    &&& e.health.health == health
    &&& e.health.max_health == health
    &&& e.health.is_alive
    &&& e.health.timer == Timer::new_spec(regen, TimerMode::Once)
    &&& e.health.shield_recharge == recharge
}

fn hostile_blueprint(fy: i64, fx: i64) -> (r: BulletBlueprint)
    requires
        -100_000_000 <= fy <= 100_000_000,
        -100_000_000 <= fx <= 100_000_000,
    ensures
        r == hostile_shot(fy, fx),
        r.wf(),
{
    BulletBlueprint {
        dir: -1,
        fy: Curve::Constant { v: fy },
        fx: Curve::Constant { v: fx },
        tick: 0,
        ply: false,
        damage: 20,
    }
}

/// The kind that a roll in `0..=100` selects: a fifth of the range each.
pub fn kind_from_roll(roll: u64) -> (r: EnemyType)
    ensures
        r == kind_of_roll(roll),
{
    if roll <= 20 {
        EnemyType::Melee
    } else if roll <= 40 {
        EnemyType::Linear
    } else if roll <= 60 {
        EnemyType::Wavy
    } else if roll <= 80 {
        EnemyType::Spammer
    } else {
        EnemyType::Spawner
    }
}

/// The enemy of kind `t`, with its kind's path, pools and gun, at `(x, y)`.
pub fn spawn_enemy(id: u64, x: i64, y: i64, t: EnemyType) -> (r: EnemyBundle)
    ensures
        is_fresh_enemy(r, id, x, y, t),
        r.enemy.gun.wf(),
{
    let (path, range, shield, hp, regen): (EnemyPath, (u64, u64), i64, i64, u64) = match t {
        EnemyType::Melee => (
            EnemyPath { x_path: Curve::Constant { v: 0 }, y_path: Curve::Quadratic { k: 33 } },
            LINEAR_DELAY,
            20,
            150,
            3_500_000,
        ),
        EnemyType::Linear => (
            EnemyPath { x_path: Curve::Constant { v: 2000 }, y_path: Curve::Constant { v: 500 } },
            LINEAR_DELAY,
            0,
            150,
            0,
        ),
        EnemyType::Wavy => (
            EnemyPath {
                x_path: Curve::Constant { v: 500 },
                y_path: Curve::Cosine { amp: 3000, rate: 159, bias: 100 },
            },
            LINEAR_DELAY,
            150,
            150,
            3_000_000,
        ),
        EnemyType::Spammer => (
            EnemyPath {
                x_path: Curve::Constant { v: 750 },
                y_path: Curve::Cosine { amp: 1000, rate: 159, bias: 200 },
            },
            SPAMMER_DELAY,
            100,
            150,
            3_000_000,
        ),
        EnemyType::Spawner => (
            EnemyPath {
                x_path: Curve::Constant { v: 100 },
                y_path: Curve::Cosine { amp: 1000, rate: 477, bias: 0 },
            },
            SPAWNER_DELAY,
            200,
            250,
            3_000_000,
        ),
    };
    let mut bullets: Vec<BulletBlueprint> = Vec::new();
    let gun = match t {
        EnemyType::Melee => Gun::new(bullets, 0, 0, 1, 0, 0),
        EnemyType::Linear => {
            bullets.push(hostile_blueprint(5000, 0));
            Gun::new_from_blueprint(
                bullets,
                GunBluePrint {
                    shoot_delay: 1_250_000,
                    damage: 20,
                    max_bullets: 1,
                    max_ammo: 1000,
                    reload_delay: 2_000_000,
                },
            )
        },
        EnemyType::Wavy => {
            bullets.push(hostile_blueprint(2000, 0));
            bullets.push(hostile_blueprint(2000, 0));
            Gun::new_from_blueprint(
                bullets,
                GunBluePrint {
                    shoot_delay: 1_500_000,
                    damage: 100,
                    max_bullets: 2,
                    max_ammo: 1000,
                    reload_delay: 2_000_000,
                },
            )
        },
        EnemyType::Spammer => {
            bullets.push(hostile_blueprint(8000, -4000));
            bullets.push(hostile_blueprint(4000, -8000));
            bullets.push(hostile_blueprint(8000, 4000));
            bullets.push(hostile_blueprint(4000, 8000));
            Gun::new_from_blueprint(
                bullets,
                GunBluePrint {
                    shoot_delay: 750_000,
                    damage: 10,
                    max_bullets: 4,
                    max_ammo: 3000,
                    reload_delay: 2_000_000,
                },
            )
        },
        EnemyType::Spawner => Gun::new(bullets, 0, 0, 1, 1000, 2_000_000),
    };
    proof {
        assert(gun.bullet_blueprints@ =~= blueprints_of(t));
    }
    EnemyBundle::new(id, x, y, t, Health::new(shield, hp, regen, 5), path, range, gun)
}

/// How far an enemy above the field drops per tick.
pub const DEFAULT_FALL_SPEED: i64 = 20_000;

/// Where an enemy that escaped at the bottom comes back, above the top.
pub const RESPAWN_HEIGHT: i64 = 450_000;

/// Lifetime past which an escaped enemy's lifetime starts over (µs).
pub const TICK_MAX: u64 = 180_000_000;

/// How far below an enemy its shots appear.
pub const MUZZLE_DROP: i64 = 30_000;

/// Range of the radius of a spawner's burst.
pub const BURST_RADIUS: (u64, u64) = (100_000, 580_000);

/// Number of burst outlines a spawner picks from.
pub const BURST_SHAPES: u64 = 3;

/// The random values an enemy's step uses: its shot interval, and for a
/// spawner the radius and outline of its burst.
#[derive(Clone, Copy, Debug, PartialEq, Eq, Structural)]
pub struct EnemyRolls {
    pub shot_delay: u64,
    pub radius: u64,
    pub shape: u64,
}

impl Enemy {
    pub open spec fn wf(self) -> bool {
        &&& self.x_path.wf()
        &&& self.y_path.wf()
        &&& self.shot_range.0 < self.shot_range.1 <= i64::MAX
        &&& self.gun.wf()
    }

    /// The rolls are in the ranges they are drawn from.
    pub open spec fn rolls_ok(self, r: EnemyRolls) -> bool {
        &&& self.shot_range.0 <= r.shot_delay < self.shot_range.1
        &&& BURST_RADIUS.0 <= r.radius < BURST_RADIUS.1
        &&& r.shape < BURST_SHAPES
    }
}

/// What a spawner's burst fires: slow falling hostile projectiles.
pub open spec fn burst_bullet() -> Bullet {
    Bullet {
        dir: -1i8,
        fy: Curve::Quadratic { k: 1000 },
        fx: Curve::Constant { v: 0 },
        tick: 0,
        ply: false,
        damage: 50,
    }
}

/// The points of a spawner's burst around `(x, y)`.
pub open spec fn burst_points(x: i64, y: i64, r: EnemyRolls) -> Seq<(i64, i64)> {
    let rad = r.radius as i64;
    let half = (rad / 2) as i64;
    let size = (r.radius * 25 / 100_000) as nat;
    if r.shape == 0 {
        circle_points(x, y, rad, size)
    } else if r.shape == 1 {
        square_points(x, y, rad, size / 2)
    } else if r.shape == 2 {
        triangle_points(((x - half) as i64, y), ((x + half) as i64, y), (x, (y + half) as i64), size / 3)
    } else {
        line_points((x - half) as i64, (y - half) as i64, (x + half) as i64, (y + half) as i64, size)
    }
}

/// A projectile at each point.
pub open spec fn bullets_at(pts: Seq<(i64, i64)>, b: Bullet) -> Seq<BulletBundle> {
    Seq::new(pts.len(), |k: int| BulletBundle { x: pts[k].0, y: pts[k].1, bullet: b })
}

/// A projectile of each blueprint, all at `(x, y)`.
pub open spec fn bullets_of(bps: Seq<BulletBlueprint>, x: i64, y: i64) -> Seq<BulletBundle> {
    Seq::new(
        bps.len(),
        |k: int|
            BulletBundle {
                x,
                y,
                bullet: Bullet {
                    dir: bps[k].dir,
                    fx: bps[k].fx,
                    fy: bps[k].fy,
                    tick: bps[k].tick,
                    ply: bps[k].ply,
                    damage: bps[k].damage,
                },
            },
    )
}

/// What an enemy of kind `t` fires from `(x, y)`.
pub open spec fn volley(t: EnemyType, bps: Seq<BulletBlueprint>, x: i64, y: i64, r: EnemyRolls) -> Seq<BulletBundle> {
    match t {
        EnemyType::Spawner => bullets_at(burst_points(x, y, r), burst_bullet()),
        EnemyType::Melee => Seq::empty(),
        _ => bullets_of(bps, x, (y - MUZZLE_DROP) as i64),
    }
}

/// The enemy after a step of `dt`, what it fired, and whether it escaped
/// at the bottom of the field.
pub open spec fn spec_step(e: EnemyBundle, dt: u64, r: EnemyRolls) -> (EnemyBundle, Seq<BulletBundle>, bool) {
    let tick = sat_add_u64(e.enemy.tick, dt);
    let aged = Enemy { tick, ..e.enemy };
    if e.y > T_BOUND {
        (EnemyBundle { y: (e.y - DEFAULT_FALL_SPEED) as i64, enemy: aged, ..e }, Seq::empty(), false)
    } else if e.x < -L_BOUND {
        (EnemyBundle { x: (R_BOUND - PIXEL) as i64, enemy: aged, ..e }, Seq::empty(), false)
    } else if e.x > R_BOUND {
        (EnemyBundle { x: (-L_BOUND + PIXEL) as i64, enemy: aged, ..e }, Seq::empty(), false)
    } else {
        let breach = e.y < B_BOUND;
        let y1: i64 = if breach { RESPAWN_HEIGHT } else { e.y };
        let tick1: u64 = if breach && tick > TICK_MAX { 0 } else { tick };
        let x2 = shift(e.x, -e.enemy.x_path.at(tick1));
        let y2 = shift(y1, -e.enemy.y_path.at(tick1));
        let since = sat_i64(e.enemy.last_shot + dt);
        let fires = since > r.shot_delay && y2 < T_BOUND;
        let last: i64 = if fires { (-r.shot_delay) as i64 } else { since as i64 };
        let shots = if fires { volley(e.enemy.t, e.enemy.gun@.blueprints, x2, y2, r) } else { Seq::empty() };
        (
            EnemyBundle { x: x2, y: y2, enemy: Enemy { tick: tick1, last_shot: last, ..e.enemy }, ..e },
            shots,
            breach,
        )
    }
}

/// A projectile of each blueprint at `(x, y)`.
fn fire_blueprints(bps: &Vec<BulletBlueprint>, x: i64, y: i64) -> (r: Vec<BulletBundle>)
    ensures
        r@ == bullets_of(bps@, x, y),
{
    let mut out: Vec<BulletBundle> = Vec::new();
    let mut i: usize = 0;
    while i < bps.len()
        invariant
            0 <= i <= bps@.len(),
            out@ == bullets_of(bps@, x, y).take(i as int),
        decreases bps@.len() - i,
    {
        let bp = bps[i];
        out.push(BulletBundle::new(x, y, Bullet::new(bp.dir, bp.fy, bp.fx, bp.tick, bp.ply, bp.damage)));
        i += 1;
        assert(out@ =~= bullets_of(bps@, x, y).take(i as int));
    }
    assert(out@ =~= bullets_of(bps@, x, y));
    out
}

/// A projectile of kind `b` at each point.
pub(crate) fn place_bullets(pts: &Vec<(i64, i64)>, b: Bullet) -> (r: Vec<BulletBundle>)
    ensures
        r@ == bullets_at(pts@, b),
{
    let mut out: Vec<BulletBundle> = Vec::new();
    let mut i: usize = 0;
    while i < pts.len()
        invariant
            0 <= i <= pts@.len(),
            out@ == bullets_at(pts@, b).take(i as int),
        decreases pts@.len() - i,
    {
        out.push(BulletBundle::new(pts[i].0, pts[i].1, b));
        i += 1;
        assert(out@ =~= bullets_at(pts@, b).take(i as int));
    }
    assert(out@ =~= bullets_at(pts@, b));
    out
}

/// The points of a spawner's burst, as `burst_points`.
fn burst(x: i64, y: i64, r: &EnemyRolls) -> (pts: Vec<(i64, i64)>)
    requires
        -1_000_000_000_000_000 <= x <= 1_000_000_000_000_000,
        -1_000_000_000_000_000 <= y <= 1_000_000_000_000_000,
        BURST_RADIUS.0 <= r.radius < BURST_RADIUS.1,
    ensures
        pts@ == burst_points(x, y, *r),
{
    let rad: i64 = r.radius as i64;
    let half: i64 = rad / 2;
    let size: usize = (r.radius * 25 / 100_000) as usize;
    if r.shape == 0 {
        generate_circle(x, y, rad, size)
    } else if r.shape == 1 {
        generate_square(x, y, rad, size / 2)
    } else if r.shape == 2 {
        generate_triangle((x - half, y), (x + half, y), (x, y + half), size / 3)
    } else {
        generate_line(x - half, y - half, x + half, y + half, size)
    }
}

impl EnemyBundle {
    /// One step of `dt`: falls while above the field, wraps at the sides,
    /// comes back at the top after escaping at the bottom, and otherwise
    /// follows its path and fires once the drawn interval has passed.
    /// Returns what it fired and whether it escaped.
    pub fn step(&mut self, dt: u64, rolls: &EnemyRolls) -> (r: (Vec<BulletBundle>, bool))
        requires
            old(self).enemy.wf(),
            old(self).enemy.rolls_ok(*rolls),
        ensures
            (*final(self), r.0@, r.1) == spec_step(*old(self), dt, *rolls),
            final(self).enemy.wf(),
    {
        let tick = self.enemy.tick.saturating_add(dt);
        self.enemy.tick = tick;
        if self.y > T_BOUND {
            self.y = self.y - DEFAULT_FALL_SPEED;
            return (Vec::new(), false);
        }
        if self.x < -L_BOUND {
            self.x = R_BOUND - PIXEL;
            return (Vec::new(), false);
        }
        if self.x > R_BOUND {
            self.x = -L_BOUND + PIXEL;
            return (Vec::new(), false);
        }
        let breach = self.y < B_BOUND;
        if breach {
            self.y = RESPAWN_HEIGHT;
            if tick > TICK_MAX {
                self.enemy.tick = 0;
            }
        }
        let t1 = self.enemy.tick;
        let vy = self.enemy.y_path.eval(t1);
        let vx = self.enemy.x_path.eval(t1);
        self.y = self.y - vy;
        self.x = self.x - vx;
        let sum: i128 = self.enemy.last_shot as i128 + dt as i128;
        let since: i64 = if sum > i64::MAX as i128 { i64::MAX } else { sum as i64 };
        let delay = rolls.shot_delay;
        let fires = (since as i128) > (delay as i128) && self.y < T_BOUND;
        if fires {
            self.enemy.last_shot = -(delay as i64);
            let shots = match self.enemy.t {
                EnemyType::Spawner => {
                    let pts = burst(self.x, self.y, rolls);
                    place_bullets(
                        &pts,
                        Bullet::new(-1, Curve::Quadratic { k: 1000 }, Curve::Constant { v: 0 }, 0, false, 50),
                    )
                },
                EnemyType::Melee => Vec::new(),
                _ => fire_blueprints(&self.enemy.gun.bullet_blueprints, self.x, self.y - MUZZLE_DROP),
            };
            (shots, breach)
        } else {
            self.enemy.last_shot = since;
            (Vec::new(), breach)
        }
    }
}

/// Every enemy's step in order: the enemies after it, what they fired, and
/// how many escaped at the bottom.
pub open spec fn steps_all(es: Seq<EnemyBundle>, dt: u64, rs: Seq<EnemyRolls>) -> (Seq<EnemyBundle>, Seq<BulletBundle>, nat)
    decreases es.len(),
{
    if es.len() == 0 {
        (Seq::empty(), Seq::empty(), 0)
    } else {
        let n = es.len() - 1;
        let (done, shots, escaped) = steps_all(es.drop_last(), dt, rs.take(n));
        let (e, fired, breach) = spec_step(es[n], dt, rs[n]);
        (done.push(e), shots + fired, if breach { escaped + 1 } else { escaped })
    }
}

pub open spec fn all_enemies_wf(es: Seq<EnemyBundle>) -> bool {
    forall|i: int| 0 <= i < es.len() ==> #[trigger] es[i].enemy.wf()
}

/// Steps every enemy with the given rolls, adds what they fire to
/// `bullets`, and returns how many escaped at the bottom.
pub fn enemy_control_with(
    enemies: &mut Vec<EnemyBundle>,
    bullets: &mut Vec<BulletBundle>,
    dt: u64,
    rolls: &Vec<EnemyRolls>,
) -> (r: u64)
    requires
        old(enemies)@.len() == rolls@.len(),
        all_enemies_wf(old(enemies)@),
        forall|i: int| 0 <= i < rolls@.len() ==> #[trigger] old(enemies)@[i].enemy.rolls_ok(rolls@[i]),
    ensures
        final(enemies)@ == steps_all(old(enemies)@, dt, rolls@).0,
        final(bullets)@ == old(bullets)@ + steps_all(old(enemies)@, dt, rolls@).1,
        r == steps_all(old(enemies)@, dt, rolls@).2,
        r <= old(enemies)@.len(),
        all_enemies_wf(final(enemies)@),
{
    let ghost src = enemies@;
    let ghost start = bullets@;
    let mut escaped: u64 = 0;
    let mut i: usize = 0;
    while i < enemies.len()
        invariant
            src.len() == rolls@.len(),
            enemies@.len() == src.len(),
            0 <= i <= src.len(),
            all_enemies_wf(src),
            forall|k: int| 0 <= k < rolls@.len() ==> #[trigger] src[k].enemy.rolls_ok(rolls@[k]),
            enemies@.take(i as int) == steps_all(src.take(i as int), dt, rolls@.take(i as int)).0,
            forall|k: int| i <= k < src.len() ==> #[trigger] enemies@[k] == src[k],
            bullets@ == start + steps_all(src.take(i as int), dt, rolls@.take(i as int)).1,
            escaped == steps_all(src.take(i as int), dt, rolls@.take(i as int)).2,
            escaped <= i,
            forall|k: int| 0 <= k < i ==> #[trigger] enemies@[k].enemy.wf(),
        decreases src.len() - i,
    {
        let ghost before = enemies@;
        assert(src[i as int].enemy.rolls_ok(rolls@[i as int]));
        let (mut shots, breach) = enemies[i].step(dt, &rolls[i]);
        bullets.append(&mut shots);
        if breach {
            escaped = escaped + 1;
        }
        proof {
            assert(src.take(i + 1).drop_last() =~= src.take(i as int));
            assert(rolls@.take(i + 1).take(i as int) =~= rolls@.take(i as int));
            assert(enemies@ == before.update(i as int, enemies@[i as int]));
            assert(enemies@.take(i + 1) =~= before.take(i as int).push(enemies@[i as int]));
        }
        i += 1;
    }
    proof {
        assert(src.take(i as int) =~= src);
        assert(rolls@.take(i as int) =~= rolls@);
        assert(enemies@.take(i as int) =~= enemies@);
    }
    escaped
}

/// Where and of what kind one new enemy appears: a position and a roll in
/// `0..=100` that picks the kind.
#[derive(Clone, Copy, Debug, PartialEq, Eq, Structural)]
pub struct Placement {
    pub x: i64,
    pub y: i64,
    pub roll: u64,
}

/// Height of the band above the field where new enemies appear.
pub const SPAWN_BAND: i64 = 200_000;

/// A placement within the ranges new enemies are drawn from.
pub open spec fn placement_ok(p: Placement) -> bool {
    &&& -L_BOUND <= p.x < R_BOUND
    &&& T_BOUND <= p.y < T_BOUND + SPAWN_BAND
    &&& p.roll <= 100
}

/// `added` holds a fresh enemy for each placement, numbered from `first`.
pub open spec fn spawned_for(added: Seq<EnemyBundle>, ps: Seq<Placement>, first: u64) -> bool {
    &&& added.len() == ps.len()
    &&& forall|k: int|
        0 <= k < ps.len() ==> is_fresh_enemy(#[trigger] added[k], (first + k) as u64, ps[k].x, ps[k].y, kind_of_roll(ps[k].roll))
}

/// Adds a fresh enemy for each placement, numbering them from `next_id`.
pub fn spawn_placements(enemies: &mut Vec<EnemyBundle>, next_id: &mut u64, placements: &Vec<Placement>)
    requires
        *old(next_id) + placements@.len() <= u64::MAX,
    ensures
        final(enemies)@.len() == old(enemies)@.len() + placements@.len(),
        final(enemies)@.take(old(enemies)@.len() as int) == old(enemies)@,
        spawned_for(final(enemies)@.skip(old(enemies)@.len() as int), placements@, *old(next_id)),
        *final(next_id) == *old(next_id) + placements@.len(),
        forall|k: int| old(enemies)@.len() <= k < final(enemies)@.len() ==> #[trigger] final(enemies)@[k].enemy.wf(),
{
    let ghost start = enemies@;
    let ghost first = *next_id;
    let mut i: usize = 0;
    while i < placements.len()
        invariant
            first + placements@.len() <= u64::MAX,
            0 <= i <= placements@.len(),
            *next_id == first + i,
            enemies@.len() == start.len() + i,
            enemies@.take(start.len() as int) == start,
            forall|k: int|
                0 <= k < i ==> is_fresh_enemy(#[trigger] enemies@[start.len() + k], (first + k) as u64, placements@[k].x, placements@[k].y, kind_of_roll(placements@[k].roll)),
            forall|k: int| start.len() <= k < enemies@.len() ==> #[trigger] enemies@[k].enemy.wf(),
        decreases placements@.len() - i,
    {
        let p = placements[i];
        let e = spawn_enemy(*next_id, p.x, p.y, kind_from_roll(p.roll));
        proof {
            assert(e.enemy.x_path.wf() && e.enemy.y_path.wf());
        }
        enemies.push(e);
        *next_id = *next_id + 1;
        i += 1;
        assert(enemies@.take(start.len() as int) =~= start);
    }
    proof {
        let added = enemies@.skip(start.len() as int);
        assert forall|k: int| 0 <= k < placements@.len() implies is_fresh_enemy(#[trigger] added[k], (first + k) as u64, placements@[k].x, placements@[k].y, kind_of_roll(placements@[k].roll)) by {
            assert(added[k] == enemies@[start.len() + k]);
        }
    }
}

/// Draws `wave_size` placements in the spawn band and adds an enemy
/// for each; returns the placements drawn.
pub fn spawn_wave_box(wave_size: u64, enemies: &mut Vec<EnemyBundle>, next_id: &mut u64) -> (r: Vec<Placement>)
    requires
        *old(next_id) + wave_size <= u64::MAX,
    ensures
        r@.len() == wave_size,
        forall|k: int| 0 <= k < r@.len() ==> placement_ok(#[trigger] r@[k]),
        final(enemies)@.len() == old(enemies)@.len() + r@.len(),
        final(enemies)@.take(old(enemies)@.len() as int) == old(enemies)@,
        spawned_for(final(enemies)@.skip(old(enemies)@.len() as int), r@, *old(next_id)),
        *final(next_id) == *old(next_id) + r@.len(),
        forall|k: int| old(enemies)@.len() <= k < final(enemies)@.len() ==> #[trigger] final(enemies)@[k].enemy.wf(),
{
    let mut ps: Vec<Placement> = Vec::new();
    let mut i: u64 = 0;
    while i < wave_size
        invariant
            i <= wave_size,
            ps@.len() == i,
            forall|k: int| 0 <= k < ps@.len() ==> placement_ok(#[trigger] ps@[k]),
        decreases wave_size - i,
    {
        let x = random_in(0, (L_BOUND + R_BOUND) as u64) as i64 - L_BOUND;
        let y = random_in(0, SPAWN_BAND as u64) as i64 + T_BOUND;
        let roll = random_in(0, 101);
        ps.push(Placement { x, y, roll });
        i += 1;
    }
    spawn_placements(enemies, next_id, &ps);
    ps
}

/// What each enemy's step drew, and the placements of the reinforcements
/// that escapes brought.
#[derive(Debug)]
pub struct ControlReport {
    pub rolls: Vec<EnemyRolls>,
    pub reinforcements: Vec<Placement>,
}

/// Draws each enemy's rolls, steps every enemy, adds what they fire to
/// `bullets`, and brings one reinforcement per escape.
pub fn enemy_control(
    enemies: &mut Vec<EnemyBundle>,
    bullets: &mut Vec<BulletBundle>,
    next_id: &mut u64,
    dt: u64,
) -> (r: ControlReport)
    requires
        all_enemies_wf(old(enemies)@),
        *old(next_id) + old(enemies)@.len() <= u64::MAX,
    ensures
        r.rolls@.len() == old(enemies)@.len(),
        forall|k: int| 0 <= k < r.rolls@.len() ==> #[trigger] old(enemies)@[k].enemy.rolls_ok(r.rolls@[k]),
        ({
            let (stepped, shots, escaped) = steps_all(old(enemies)@, dt, r.rolls@);
            &&& final(bullets)@ == old(bullets)@ + shots
            &&& r.reinforcements@.len() == escaped
            &&& final(enemies)@.len() == stepped.len() + escaped
            &&& final(enemies)@.take(stepped.len() as int) == stepped
            &&& spawned_for(final(enemies)@.skip(stepped.len() as int), r.reinforcements@, *old(next_id))
            &&& *final(next_id) == *old(next_id) + escaped
        }),
        forall|k: int| 0 <= k < r.reinforcements@.len() ==> placement_ok(#[trigger] r.reinforcements@[k]),
        all_enemies_wf(final(enemies)@),
{
    let mut rolls: Vec<EnemyRolls> = Vec::new();
    let mut i: usize = 0;
    while i < enemies.len()
        invariant
            all_enemies_wf(enemies@),
            0 <= i <= enemies@.len(),
            rolls@.len() == i,
            forall|k: int| 0 <= k < i ==> #[trigger] enemies@[k].enemy.rolls_ok(rolls@[k]),
        decreases enemies@.len() - i,
    {
        assert(enemies@[i as int].enemy.wf());
        let range = enemies[i].enemy.shot_range;
        let shot_delay = random_in(range.0, range.1);
        let radius = random_in(BURST_RADIUS.0, BURST_RADIUS.1);
        let shape = random_in(0, BURST_SHAPES);
        rolls.push(EnemyRolls { shot_delay, radius, shape });
        i += 1;
    }
    let escaped = enemy_control_with(enemies, bullets, dt, &rolls);
    let ghost stepped = enemies@;
    let mut reinforcements: Vec<Placement> = Vec::new();
    let mut k: u64 = 0;
    while k < escaped
        invariant
            k <= escaped,
            reinforcements@.len() == k,
            forall|q: int| 0 <= q < reinforcements@.len() ==> placement_ok(#[trigger] reinforcements@[q]),
        decreases escaped - k,
    {
        let x = random_in(0, (L_BOUND + R_BOUND) as u64) as i64 - L_BOUND;
        let y = random_in(0, SPAWN_BAND as u64) as i64 + T_BOUND;
        let roll = random_in(0, 101);
        reinforcements.push(Placement { x, y, roll });
        k += 1;
    }
    spawn_placements(enemies, next_id, &reinforcements);
    proof {
        assert forall|q: int| 0 <= q < enemies@.len() implies #[trigger] enemies@[q].enemy.wf() by {
            if q < stepped.len() {
                assert(enemies@[q] == enemies@.take(stepped.len() as int)[q]);
            }
        }
    }
    ControlReport { rolls, reinforcements }
}

/// Wave size at the start, grown by elapsed minutes.
pub const WAVE_SIZE: u64 = 15;

/// Interval between waves at the start (µs), shrunk by elapsed minutes.
pub const WAVE_INTERVAL: u64 = 45_000_000;

/// One minute, in microseconds.
pub const MINUTE: u64 = 60_000_000;

/// The repeating timer that brings waves.
#[derive(Clone, Copy, Debug, PartialEq, Eq, Structural)]
pub struct WaveTimer(pub Timer);

/// The interval after `elapsed` µs of play: the base interval divided by
/// one plus the elapsed minutes (rounded down).
pub open spec fn wave_interval(elapsed: u64) -> int {
    (WAVE_INTERVAL * MINUTE) / (MINUTE + elapsed)
}

/// The wave size after `elapsed` µs of play: the base size times one plus
/// the elapsed minutes (rounded down).
pub open spec fn wave_size(elapsed: u64) -> int {
    (WAVE_SIZE * (MINUTE + elapsed)) / (MINUTE as int)
}

/// The longer the play, the shorter the interval between waves and the
/// larger each wave.
pub proof fn lemma_waves_intensify(earlier: u64, later: u64)
    requires
        earlier <= later,
    ensures
        wave_interval(later) <= wave_interval(earlier),
        wave_size(earlier) <= wave_size(later),
{
    let n = (WAVE_INTERVAL * MINUTE) as int;
    let (d1, d2) = ((MINUTE + earlier) as int, (MINUTE + later) as int);
    assert(n / d2 <= n / d1) by (nonlinear_arith)
        requires
            0 < d1 <= d2,
            n >= 0,
    ;
    let m = MINUTE as int;
    assert((WAVE_SIZE * d1) / m <= (WAVE_SIZE * d2) / m) by (nonlinear_arith)
        requires
            0 < d1 <= d2,
            m > 0,
    ;
}

/// The next interval and wave size after `elapsed` µs of play.
pub fn next_wave(elapsed: u64) -> (r: (u64, u64))
    ensures
        r.0 == wave_interval(elapsed),
        r.1 == wave_size(elapsed),
{
    let span: u128 = MINUTE as u128 + elapsed as u128;
    let interval: u128 = (WAVE_INTERVAL as u128 * MINUTE as u128) / span;
    let size: u128 = (WAVE_SIZE as u128 * span) / MINUTE as u128;
    assert(interval <= WAVE_INTERVAL) by (nonlinear_arith)
        requires
            interval == (WAVE_INTERVAL * MINUTE) / (span as int),
            span >= MINUTE,
    ;
    assert(size <= u64::MAX) by (nonlinear_arith)
        requires
            size == (WAVE_SIZE * span) / (MINUTE as int),
            span <= MINUTE + u64::MAX,
    ;
    (interval as u64, size as u64)
}

impl WaveTimer {
    /// The timer of the opening wave.
    pub fn new() -> (r: WaveTimer)
        ensures
            r.0 == Timer::new_spec(WAVE_INTERVAL, TimerMode::Repeating),
    {
        WaveTimer(Timer::new(WAVE_INTERVAL, TimerMode::Repeating))
    }

    /// Advances the timer; when it runs out, sets the next interval from
    /// the time played, starts it over, and returns the size of the wave
    /// that is due.
    pub fn tick_wave(&mut self, dt: u64, elapsed: u64) -> (r: Option<u64>)
        ensures
            old(self).0.spec_tick(dt).finished ==> r == Some(wave_size(elapsed) as u64) && final(self).0
                == (Timer {
                duration: wave_interval(elapsed) as u64,
                ..old(self).0.spec_tick(dt).spec_reset()
            }),
            !old(self).0.spec_tick(dt).finished ==> r is None && final(self).0 == old(self).0.spec_tick(dt),
    {
        self.0.tick(dt);
        if self.0.finished() {
            let (interval, size) = next_wave(elapsed);
            self.0.set_duration(interval);
            self.0.reset();
            Some(size)
        } else {
            None
        }
    }
}

/// Spawns the opening wave and returns its timer with the placements drawn.
pub fn init_wave(enemies: &mut Vec<EnemyBundle>, next_id: &mut u64) -> (r: (WaveTimer, Vec<Placement>))
    requires
        *old(next_id) + WAVE_SIZE <= u64::MAX,
    ensures
        r.0.0 == Timer::new_spec(WAVE_INTERVAL, TimerMode::Repeating),
        r.1@.len() == WAVE_SIZE,
        forall|k: int| 0 <= k < r.1@.len() ==> placement_ok(#[trigger] r.1@[k]),
        final(enemies)@.take(old(enemies)@.len() as int) == old(enemies)@,
        spawned_for(final(enemies)@.skip(old(enemies)@.len() as int), r.1@, *old(next_id)),
        *final(next_id) == *old(next_id) + r.1@.len(),
{
    let placed = spawn_wave_box(WAVE_SIZE, enemies, next_id);
    (WaveTimer::new(), placed)
}

/// Advances the wave timer and, when a wave is due, spawns it; returns the
/// placements of the wave, if one came.
pub fn wave_manager(
    timer: &mut WaveTimer,
    enemies: &mut Vec<EnemyBundle>,
    next_id: &mut u64,
    dt: u64,
    elapsed: u64,
) -> (r: Option<Vec<Placement>>)
    requires
        *old(next_id) + wave_size(elapsed) <= u64::MAX,
    ensures
        old(timer).0.spec_tick(dt).finished ==> r is Some && final(timer).0 == (Timer {
            duration: wave_interval(elapsed) as u64,
            ..old(timer).0.spec_tick(dt).spec_reset()
        }),
        !old(timer).0.spec_tick(dt).finished ==> r is None && final(timer).0 == old(timer).0.spec_tick(dt)
            && final(enemies)@ == old(enemies)@ && *final(next_id) == *old(next_id),
        r matches Some(ps) ==> {
            &&& ps@.len() == wave_size(elapsed)
            &&& forall|k: int| 0 <= k < ps@.len() ==> placement_ok(#[trigger] ps@[k])
            &&& final(enemies)@.take(old(enemies)@.len() as int) == old(enemies)@
            &&& spawned_for(final(enemies)@.skip(old(enemies)@.len() as int), ps@, *old(next_id))
            &&& *final(next_id) == *old(next_id) + ps@.len()
        },
{
    match timer.tick_wave(dt, elapsed) {
        Some(size) => {
            Some(spawn_wave_box(size, enemies, next_id))
        },
        None => None,
    }
}

} // verus!
