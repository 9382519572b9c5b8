use vstd::prelude::*;
use crate::bullet::{shift, Bullet, BulletBundle};
use crate::enemy::bullets_at;
use crate::gun::{BulletBlueprint, Gun, GunModel};
use crate::health::Health;
use crate::motion::Curve;
use crate::shapes::{ShapeBloop, ShapeGun, ShapeGunModel, ShapeType, SHAPE_COORD_MAX};
use crate::{L_BOUND, PIXEL, R_BOUND};

verus! {

/// Highest the player may go.
pub const PLAYER_T_BOUND: i64 = -200_000;

/// Where the player appears.
pub const SPAWN_X: i64 = 0;
pub const SPAWN_Y: i64 = -400_000;

/// Player speed, in thousandths of a pixel per second.
pub const MOVE_SPEED: i64 = 180_000;

/// Player shot interval (µs).
pub const SHOT_DELAY: u64 = 80_000;

pub const SHIELD_SIZE: i64 = 500;
pub const HEALTH_SIZE: i64 = 500;
pub const BULLET_DAMAGE: i64 = 20;

/// How much of the reload delay the reload key skips (µs).
pub const RELOAD_SKIP: u64 = 1_500_000;

/// The intents of one tick, from the input layer.
#[derive(Clone, Copy, Debug, PartialEq, Eq, Structural)]
pub struct PlayerInput {
    pub left: bool,
    pub right: bool,
    pub up: bool,
    pub down: bool,
    pub boost: bool,
    pub reload: bool,
    pub shape_fire: bool,
    pub fire: bool,
}

/// The player: position, pools, gun and shape gun.
#[derive(Debug)]
pub struct PlayerBundle {
    pub x: i64,
    pub y: i64,
    pub health: Health,
    pub gun: Gun,
    pub s_gun: ShapeGun,
}

impl PlayerBundle {
    pub open spec fn wf(&self) -> bool {
        &&& self.gun.wf()
        &&& self.s_gun.wf()
        &&& self.s_gun.bullet.wf()
    }
}

/// `x` brought back into the field: leaving at one side enters at the other.
pub open spec fn bound_x(x: i64) -> i64 {
    if x > R_BOUND {
        (PIXEL - L_BOUND) as i64
    } else if x < -L_BOUND {
        (R_BOUND - PIXEL) as i64
    } else {
        x
    }
}

/// `y` kept within the player's band.
pub open spec fn bound_y(y: i64) -> i64 {
    if y > PLAYER_T_BOUND {
        (PLAYER_T_BOUND - PIXEL) as i64
    } else if y < SPAWN_Y {
        (SPAWN_Y + PIXEL) as i64
    } else {
        y
    }
}

/// Distance moved in `dt` µs, three times as far with the boost.
pub open spec fn move_dist(dt: u64, boost: bool) -> int {
    MOVE_SPEED * dt * (if boost { 3int } else { 1int }) / 1_000_000
}

/// The player's position after a tick: bounded, then moved by the intents.
pub open spec fn moved(x: i64, y: i64, i: PlayerInput, dt: u64) -> (i64, i64) {
    let d = move_dist(dt, i.boost);
    let dx = (if i.right { d } else { 0 }) - (if i.left { d } else { 0 });
    let dy = (if i.up { d } else { 0 }) - (if i.down { d } else { 0 });
    (shift(bound_x(x), dx), shift(bound_y(y), dy))
}

/// The gun's state up to the shot: its timer advanced and, on the reload
/// key, emptied with most of the reload delay skipped.
pub open spec fn gun_before_shot(g: GunModel, i: PlayerInput, dt: u64) -> GunModel {
    let g1 = GunModel { shot_timer: g.shot_timer.spec_tick(dt), ..g };
    if i.reload {
        GunModel { ammo: 0, reload_stopwatch: g1.reload_stopwatch.spec_reset().spec_tick(RELOAD_SKIP), ..g1 }
    } else {
        g1
    }
}

/// Whether the gun fires this tick.
pub open spec fn gun_fires(g: GunModel, i: PlayerInput, dt: u64) -> bool {
    let g2 = gun_before_shot(g, i, dt);
    i.fire && g2.shot_timer.finished && g2.ammo > 0
}

/// The gun after a tick: the shot, then the reload timer while empty, and
/// a reload once it runs out.
pub open spec fn gun_after(g: GunModel, i: PlayerInput, dt: u64) -> GunModel {
    let g2 = gun_before_shot(g, i, dt);
    let g3 = if gun_fires(g, i, dt) {
        GunModel { shot_timer: g2.shot_timer.spec_reset(), ammo: (g2.ammo - 1) as u64, ..g2 }
    } else {
        g2
    };
    if g3.ammo == 0 {
        let t = g3.reload_stopwatch.spec_tick(dt);
        if t.finished {
            GunModel { ammo: g3.max_ammo, reload_stopwatch: t.spec_reset(), ..g3 }
        } else {
            GunModel { reload_stopwatch: t, ..g3 }
        }
    } else {
        g3
    }
}

/// Whether the shape gun fires this tick from `(x, y)`.
pub open spec fn shape_fires(s: ShapeGunModel, i: PlayerInput, x: i64, y: i64) -> bool {
    &&& i.shape_fire
    &&& s.shots > 0
    &&& -SHAPE_COORD_MAX <= x <= SHAPE_COORD_MAX
    &&& -SHAPE_COORD_MAX <= y <= SHAPE_COORD_MAX
}

/// The shape gun after a tick: a shot spent if it fired, then its reload
/// timer while empty, and a refill once it runs out.
pub open spec fn shape_after(s: ShapeGunModel, fired: bool, dt: u64) -> ShapeGunModel {
    let s1 = if fired { ShapeGunModel { shots: (s.shots - 1) as u64, ..s } } else { s };
    if s1.shots == 0 {
        let t = s1.timer.spec_tick(dt);
        if t.finished {
            ShapeGunModel { shots: s1.max_shots, timer: t.spec_reset(), ..s1 }
        } else {
            ShapeGunModel { timer: t, ..s1 }
        }
    } else {
        s1
    }
}

/// The projectile a blueprint makes.
pub open spec fn bullet_of(bp: BulletBlueprint) -> Bullet {
    Bullet { dir: bp.dir, fx: bp.fx, fy: bp.fy, tick: bp.tick, ply: bp.ply, damage: bp.damage }
}

/// A projectile of each blueprint at `(x, y)`, dealing the gun's damage.
pub open spec fn player_volley(bps: Seq<BulletBlueprint>, x: i64, y: i64, damage: i64) -> Seq<BulletBundle> {
    Seq::new(bps.len(), |k: int| BulletBundle { x, y, bullet: Bullet { damage, ..bullet_of(bps[k]) } })
}

/// The blueprints the player's gun starts with: two weaving shots and a
/// fast straight one.
pub open spec fn starting_blueprints() -> Seq<BulletBlueprint> {
    seq![
        BulletBlueprint { dir: 1, fy: Curve::Constant { v: 5000 }, fx: Curve::Cosine { amp: 9000, rate: 1592, bias: 0 }, tick: 0, ply: true, damage: 50 },
        BulletBlueprint { dir: 1, fy: Curve::Constant { v: 5000 }, fx: Curve::Cosine { amp: -9000i64, rate: 1592, bias: 0 }, tick: 0, ply: true, damage: 50 },
        BulletBlueprint { dir: 1, fy: Curve::Constant { v: 20000 }, fx: Curve::Constant { v: 0 }, tick: 0, ply: true, damage: 50 },
    ]
}

/// What the player's shape gun fires: a rising, weaving projectile.
pub open spec fn shape_shot() -> BulletBlueprint {
    BulletBlueprint {
        dir: 1,
        fy: Curve::Quadratic { k: 1000 },
        fx: Curve::Cosine { amp: 5000, rate: 796, bias: 0 },
        tick: 0,
        ply: true,
        damage: 60,
    }
}

/// One player's projectile: moves up by `fy` and across by `fx` each tick.
fn player_blueprint(fy: Curve, fx: Curve) -> (r: BulletBlueprint)
    requires
        fy.wf(),
        fx.wf(),
    ensures
        r == (BulletBlueprint { dir: 1, fy, fx, tick: 0, ply: true, damage: 50 }),
        r.wf(),
{
    BulletBlueprint { dir: 1, fy, fx, tick: 0, ply: true, damage: 50 }
}

impl PlayerBundle {
    /// The player at the spawn point: full pools, a three-blueprint gun and
    /// a shape gun with three triangles.
    pub fn new() -> (r: PlayerBundle)
        ensures
            r.x == SPAWN_X,
            r.y == SPAWN_Y,
            r.health.shield == SHIELD_SIZE,
            r.health.max_shield == SHIELD_SIZE,
            r.health.health == HEALTH_SIZE,
            r.health.max_health == HEALTH_SIZE,
            r.health.is_alive,
            r.health.timer.duration == 3_750_000,
            r.health.shield_recharge == 100,
            r.gun@.blueprints == starting_blueprints(),
            r.gun@.damage == BULLET_DAMAGE,
            r.gun@.shoot_delay == SHOT_DELAY,
            r.gun@.max_bullets == 10,
            r.gun@.ammo == 50,
            r.gun@.max_ammo == 50,
            r.gun@.reload_stopwatch.duration == 3_000_000,
            r.s_gun@.bloops.len() == 3,
            r.s_gun@.shots == 10,
            r.s_gun@.max_shots == 10,
            r.s_gun@.size == 200_000,
            r.s_gun@.bullet == shape_shot(),
            r.wf(),
    {
        let mut starting: Vec<BulletBlueprint> = Vec::new();
        starting.push(player_blueprint(Curve::Constant { v: 5000 }, Curve::Cosine { amp: 9000, rate: 1592, bias: 0 }));
        starting.push(player_blueprint(Curve::Constant { v: 5000 }, Curve::Cosine { amp: -9000, rate: 1592, bias: 0 }));
        starting.push(player_blueprint(Curve::Constant { v: 20000 }, Curve::Constant { v: 0 }));
        let mut s_gun = ShapeGun::default_gun();
        s_gun.add_bloop(ShapeBloop { offset: (0, 50_000), num_bullets: 50, t: ShapeType::Triangle, size_scale: (200, 600) });
        s_gun.add_bloop(ShapeBloop { offset: (55_000, -50_000), num_bullets: 20, t: ShapeType::Triangle, size_scale: (200, 600) });
        s_gun.add_bloop(ShapeBloop { offset: (-55_000, 0), num_bullets: 30, t: ShapeType::Triangle, size_scale: (200, 600) });
        s_gun.bullet = BulletBlueprint {
            dir: 1,
            fy: Curve::Quadratic { k: 1000 },
            fx: Curve::Cosine { amp: 5000, rate: 796, bias: 0 },
            tick: 0,
            ply: true,
            damage: 60,
        };
        assert(starting@ =~= starting_blueprints());
        let gun = Gun::new(starting, SHOT_DELAY, BULLET_DAMAGE, 10, 50, 3_000_000);
        let p = PlayerBundle {
            x: SPAWN_X,
            y: SPAWN_Y,
            health: Health::new(SHIELD_SIZE, HEALTH_SIZE, 3_750_000, 100),
            gun,
            s_gun,
        };
        assert(p.s_gun.bloops@.len() == 3);
        assert forall|i: int| 0 <= i < p.s_gun.bloops@.len() implies #[trigger] p.s_gun.bloops@[i].wf() by {
        }
        p
    }
}

/// A projectile of each blueprint at `(x, y)` with damage `damage`.
fn fire_gun(bps: &Vec<BulletBlueprint>, x: i64, y: i64, damage: i64) -> (r: Vec<BulletBundle>)
    ensures
        r@ == player_volley(bps@, x, y, damage),
{
    let mut out: Vec<BulletBundle> = Vec::new();
    let mut i: usize = 0;
    while i < bps.len()
        invariant
            0 <= i <= bps@.len(),
            out@ == player_volley(bps@, x, y, damage).take(i as int),
        decreases bps@.len() - i,
    {
        let bp = bps[i];
        out.push(BulletBundle::new(x, y, Bullet::new(bp.dir, bp.fy, bp.fx, bp.tick, bp.ply, damage)));
        i += 1;
        assert(out@ =~= player_volley(bps@, x, y, damage).take(i as int));
    }
    assert(out@ =~= player_volley(bps@, x, y, damage));
    out
}

fn offset(p: i64, d: i128) -> (r: i64)
    requires
        -100_000_000_000_000_000_000 <= d <= 100_000_000_000_000_000_000,
    ensures
        r == shift(p, d as int),
{
    let v: i128 = p as i128 + d;
    if v < i64::MIN as i128 {
        i64::MIN
    } else if v > i64::MAX as i128 {
        i64::MAX
    } else {
        v as i64
    }
}

/// The player's position after a tick, as `moved`.
fn move_player(x: i64, y: i64, input: PlayerInput, dt: u64) -> (r: (i64, i64))
    ensures
        r == moved(x, y, input, dt),
{
    let x1: i64 = if x > R_BOUND {
        PIXEL - L_BOUND
    } else if x < -L_BOUND {
        R_BOUND - PIXEL
    } else {
        x
    };
    let y1: i64 = if y > PLAYER_T_BOUND {
        PLAYER_T_BOUND - PIXEL
    } else if y < SPAWN_Y {
        SPAWN_Y + PIXEL
    } else {
        y
    };
    let mult: i128 = if input.boost { 3 } else { 1 };
    assert(0 <= MOVE_SPEED * dt * mult <= 10_000_000_000_000_000_000_000_000) by (nonlinear_arith)
        requires
            0 <= dt <= u64::MAX,
            1 <= mult <= 3,
    ;
    let d: i128 = MOVE_SPEED as i128 * dt as i128 * mult / 1_000_000;
    assert(0 <= d <= 10_000_000_000_000_000_000) by (nonlinear_arith)
        requires
            d == (MOVE_SPEED * dt * mult) / 1_000_000,
            0 <= MOVE_SPEED * dt * mult <= 10_000_000_000_000_000_000_000_000,
    ;
    let dx: i128 = (if input.right { d } else { 0 }) - (if input.left { d } else { 0 });
    let dy: i128 = (if input.up { d } else { 0 }) - (if input.down { d } else { 0 });
    (offset(x1, dx), offset(y1, dy))
}

/// The gun's part of a tick: timers, the reload key, the shot and the
/// reload; returns the volley fired.
fn gun_phase(gun: &mut Gun, input: PlayerInput, dt: u64, x: i64, y: i64) -> (r: Vec<BulletBundle>)
    requires
        old(gun).wf(),
    ensures
        final(gun)@ == gun_after(old(gun)@, input, dt),
        r@ == if gun_fires(old(gun)@, input, dt) {
            player_volley(old(gun)@.blueprints, x, y, old(gun)@.damage)
        } else {
            Seq::empty()
        },
        final(gun).wf(),
{
    let ghost g = gun@;
    gun.tick_time(dt);
    if input.reload {
        gun.set_ammo(0);
        gun.reload_stopwatch.reset();
        gun.reload_stopwatch.tick(RELOAD_SKIP);
    }
    assert(gun@ == gun_before_shot(g, input, dt));
    let mut out: Vec<BulletBundle> = Vec::new();
    if input.fire && gun.can_shoot() {
        gun.reset_shot_timer();
        gun.shoot_bullet();
        let damage = gun.get_bullet_damage();
        out = fire_gun(&gun.bullet_blueprints, x, y, damage);
    }
    if gun.get_ammo() == 0 {
        gun.tick_reload_time(dt);
        if gun.can_reload() {
            gun.reload();
        }
    }
    out
}

/// The shape gun's part of a tick: the burst when asked and able, then the
/// reload; returns the burst fired.
fn shape_phase(s_gun: &mut ShapeGun, input: PlayerInput, dt: u64, x: i64, y: i64) -> (r: Vec<BulletBundle>)
    requires
        old(s_gun).wf(),
    ensures
        final(s_gun)@ == shape_after(old(s_gun)@, shape_fires(old(s_gun)@, input, x, y), dt),
        r@ == if shape_fires(old(s_gun)@, input, x, y) {
            bullets_at(old(s_gun).burst_points(old(s_gun)@.bloops, x, y), bullet_of(old(s_gun)@.bullet))
        } else {
            Seq::empty()
        },
        final(s_gun).wf(),
        final(s_gun).bullet == old(s_gun).bullet,
{
    let mut out: Vec<BulletBundle> = Vec::new();
    if input.shape_fire && s_gun.get_shots() > 0 && -SHAPE_COORD_MAX <= x && x <= SHAPE_COORD_MAX
        && -SHAPE_COORD_MAX <= y && y <= SHAPE_COORD_MAX {
        let pts = s_gun.get_shapes(x, y);
        s_gun.shoot();
        let bp = s_gun.bullet;
        out = crate::enemy::place_bullets(&pts, Bullet::new(bp.dir, bp.fy, bp.fx, bp.tick, bp.ply, bp.damage));
    }
    if s_gun.get_shots() == 0 {
        s_gun.timer.tick(dt);
        if s_gun.timer.finished() {
            s_gun.reload();
        }
    }
    out
}

/// One tick of the player from the input intents: keeps the player in its
/// band, moves it, handles the reload key, fires the shape gun and the gun
/// when asked and able, and runs the reload timers of empty weapons.
/// Returns the projectiles fired: the shape burst, then the gun's volley.
pub fn sprite_movement(player: &mut PlayerBundle, input: PlayerInput, dt: u64) -> (r: Vec<BulletBundle>)
    requires
        old(player).wf(),
    ensures
        ({
            let (x, y) = moved(old(player).x, old(player).y, input, dt);
            let g = old(player).gun@;
            let s = old(player).s_gun@;
            let sf = shape_fires(s, input, x, y);
            let burst = if sf {
                bullets_at(old(player).s_gun.burst_points(s.bloops, x, y), bullet_of(s.bullet))
            } else {
                Seq::empty()
            };
            let volley = if gun_fires(g, input, dt) {
                player_volley(g.blueprints, x, y, g.damage)
            } else {
                Seq::empty()
            };
            &&& final(player).x == x
            &&& final(player).y == y
            &&& final(player).health == old(player).health
            &&& final(player).gun@ == gun_after(g, input, dt)
            &&& final(player).s_gun@ == shape_after(s, sf, dt)
            &&& r@ == burst + volley
        }),
        final(player).wf(),
{
    let (x, y) = move_player(player.x, player.y, input, dt);
    player.x = x;
    player.y = y;
    let mut out = shape_phase(&mut player.s_gun, input, dt, x, y);
    let mut volley = gun_phase(&mut player.gun, input, dt, x, y);
    out.append(&mut volley);
    out
}

} // verus!
