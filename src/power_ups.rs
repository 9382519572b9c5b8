use vstd::prelude::*;
use crate::bullet::PLAYER_HALF;
use crate::collide::{boxes_overlap, intersects};
use crate::combat::{random_bullet, reward_blueprint};
use crate::gun::{Gun, GunModel};
use crate::health::{clamp_pool, sat_i64, Health};
use crate::rng::random_in;
use crate::shapes::{ShapeBloop, ShapeGun, ShapeGunModel, ShapeType, clamp_shape_size};
use crate::B_BOUND;

verus! {

/// The pickups that improve the player's weapons and pools.
#[derive(Clone, Copy, Debug, PartialEq, Eq, Structural)]
pub enum PowerUpTypes {
    BulletAmmo,
    BulletSpeed,
    BulletDamage,
    AddRandomBullet,
    ShapeAmmo,
    ShapeReloadTime,
    AddRandomShape,
    ShapeSize,
    HealthIncrease,
    ShieldIncrease,
    ShieldRegen,
}

/// A pickup in the field.
#[derive(Clone, Copy, Debug, PartialEq, Eq, Structural)]
pub struct PowerUpBundle {
    pub x: i64,
    pub y: i64,
    pub p_type: PowerUpTypes,
}

/// Half side of a pickup's box.
pub const POWER_UP_HALF: i64 = 16_000;

/// How fast pickups fall, in thousandths of a pixel per second.
pub const POWER_UP_SPEED: i64 = 180_000;

/// Height at which a wave of pickups appears.
pub const POWER_UP_HEIGHT: i64 = 400_000;

/// Horizontal spacing of the three pickups of a wave.
pub const POWER_UP_SPREAD: i64 = 460_000;

/// The weapon pickups a wave draws from (each stat pickup twice as likely
/// as a new blueprint).
pub open spec fn bullet_pick(i: u64) -> PowerUpTypes {
    if i == 0 || i == 3 {
        PowerUpTypes::BulletAmmo
    } else if i == 1 || i == 4 {
        PowerUpTypes::BulletDamage
    } else if i == 2 || i == 5 {
        PowerUpTypes::BulletSpeed
    } else {
        PowerUpTypes::AddRandomBullet
    }
}

/// The shape gun pickups a wave draws from.
pub open spec fn shape_pick(i: u64) -> PowerUpTypes {
    if i == 0 || i == 3 {
        PowerUpTypes::ShapeAmmo
    } else if i == 1 || i == 4 {
        PowerUpTypes::ShapeReloadTime
    } else if i == 2 || i == 5 {
        PowerUpTypes::ShapeSize
    } else {
        PowerUpTypes::AddRandomShape
    }
}

/// The pool pickups a wave draws from.
pub open spec fn health_pick(i: u64) -> PowerUpTypes {
    if i == 0 {
        PowerUpTypes::HealthIncrease
    } else if i == 1 {
        PowerUpTypes::ShieldIncrease
    } else {
        PowerUpTypes::ShieldRegen
    }
}

/// The wave of three pickups that the picks select, left to right.
pub open spec fn wave_of(b: u64, s: u64, h: u64) -> Seq<PowerUpBundle> {
    seq![
        PowerUpBundle { x: (-POWER_UP_SPREAD) as i64, y: POWER_UP_HEIGHT, p_type: bullet_pick(b) },
        PowerUpBundle { x: 0, y: POWER_UP_HEIGHT, p_type: shape_pick(s) },
        PowerUpBundle { x: POWER_UP_SPREAD, y: POWER_UP_HEIGHT, p_type: health_pick(h) },
    ]
}

/// The wave of pickups that the picks select: a weapon pickup, a shape gun
/// pickup and a pool pickup.
pub fn powerup_wave(b: u64, s: u64, h: u64) -> (r: Vec<PowerUpBundle>)
    ensures
        r@ == wave_of(b, s, h),
{
    let bp = if b == 0 || b == 3 {
        PowerUpTypes::BulletAmmo
    } else if b == 1 || b == 4 {
        PowerUpTypes::BulletDamage
    } else if b == 2 || b == 5 {
        PowerUpTypes::BulletSpeed
    } else {
        PowerUpTypes::AddRandomBullet
    };
    let sp = if s == 0 || s == 3 {
        PowerUpTypes::ShapeAmmo
    } else if s == 1 || s == 4 {
        PowerUpTypes::ShapeReloadTime
    } else if s == 2 || s == 5 {
        PowerUpTypes::ShapeSize
    } else {
        PowerUpTypes::AddRandomShape
    };
    let hp = if h == 0 {
        PowerUpTypes::HealthIncrease
    } else if h == 1 {
        PowerUpTypes::ShieldIncrease
    } else {
        PowerUpTypes::ShieldRegen
    };
    let mut v: Vec<PowerUpBundle> = Vec::new();
    v.push(PowerUpBundle { x: -POWER_UP_SPREAD, y: POWER_UP_HEIGHT, p_type: bp });
    v.push(PowerUpBundle { x: 0, y: POWER_UP_HEIGHT, p_type: sp });
    v.push(PowerUpBundle { x: POWER_UP_SPREAD, y: POWER_UP_HEIGHT, p_type: hp });
    assert(v@ =~= wave_of(b, s, h));
    v
}

/// Draws a wave of three pickups at the top of the field.
pub fn spawn_powerup_wave() -> (r: Vec<PowerUpBundle>)
    ensures
        exists|b: u64, s: u64, h: u64| b < 7 && s < 7 && h < 3 && r@ == wave_of(b, s, h),
{
    let b = random_in(0, 7);
    let s = random_in(0, 7);
    let h = random_in(0, 3);
    powerup_wave(b, s, h)
}

/// `y` lowered by the fall of a pickup over `dt` µs.
pub open spec fn fallen(y: i64, dt: u64) -> i64 {
    sat_i64(y - POWER_UP_SPEED * dt / 1_000_000) as i64
}

/// The pickups that are not below the field, moved down.
pub open spec fn moved_powerups(ps: Seq<PowerUpBundle>, dt: u64) -> Seq<PowerUpBundle>
    decreases ps.len(),
{
    if ps.len() == 0 {
        Seq::empty()
    } else {
        let prior = moved_powerups(ps.drop_last(), dt);
        let p = ps.last();
        if p.y < B_BOUND {
            prior
        } else {
            prior.push(PowerUpBundle { y: fallen(p.y, dt), ..p })
        }
    }
}

/// Removes the pickups below the field and moves the others down.
pub fn move_powerups(power_ups: &mut Vec<PowerUpBundle>, dt: u64)
    ensures
        final(power_ups)@ == moved_powerups(old(power_ups)@, dt),
{
    let ghost src = power_ups@;
    let mut out: Vec<PowerUpBundle> = Vec::new();
    let mut i: usize = 0;
    while i < power_ups.len()
        invariant
            src == power_ups@,
            0 <= i <= src.len(),
            out@ == moved_powerups(src.take(i as int), dt),
        decreases src.len() - i,
    {
        let p = power_ups[i];
        if p.y >= B_BOUND {
            let drop: i128 = POWER_UP_SPEED as i128 * dt as i128 / 1_000_000;
            let ny: i128 = p.y as i128 - drop;
            let y: i64 = if ny < i64::MIN as i128 { i64::MIN } else { ny as i64 };
            out.push(PowerUpBundle { y, ..p });
        }
        assert(src.take(i + 1).drop_last() =~= src.take(i as int));
        i += 1;
    }
    assert(src.take(i as int) =~= src);
    *power_ups = out;
}

/// The random values a pickup may use: a blueprint roll, an outline roll,
/// and the offset and scales of a new outline.
#[derive(Clone, Copy, Debug, PartialEq, Eq, Structural)]
pub struct PowerUpRolls {
    pub bullet: u64,
    pub shape: u64,
    pub x_off: i64,
    pub y_off: i64,
    pub x_scale: i64,
    pub y_scale: i64,
}

/// Ranges of the offset and scales of an outline a pickup adds.
pub const SHAPE_X_OFF: i64 = 200_000;
pub const SHAPE_Y_OFF: i64 = 150_000;
pub const SHAPE_SCALE_LO: i64 = 500;
pub const SHAPE_SCALE_HI: i64 = 3000;

pub open spec fn rolls_ok(r: PowerUpRolls) -> bool {
    &&& r.bullet < 5
    &&& r.shape < 3
    &&& -SHAPE_X_OFF <= r.x_off < SHAPE_X_OFF
    &&& 0 <= r.y_off < SHAPE_Y_OFF
    &&& SHAPE_SCALE_LO <= r.x_scale < SHAPE_SCALE_HI
    &&& SHAPE_SCALE_LO <= r.y_scale < SHAPE_SCALE_HI
}

/// The outline an outline roll adds.
pub open spec fn bloop_of(r: PowerUpRolls) -> ShapeBloop {
    ShapeBloop {
        offset: (r.x_off, r.y_off),
        num_bullets: 50,
        t: if r.shape == 0 {
            ShapeType::Circle
        } else if r.shape == 1 {
            ShapeType::Triangle
        } else {
            ShapeType::Square
        },
        size_scale: (r.x_scale, r.y_scale),
    }
}

/// The player's pools and weapons after picking up `p` with rolls `r`.
pub open spec fn picked(p: PowerUpTypes, h: Health, g: GunModel, s: ShapeGunModel, r: PowerUpRolls) -> (Health, GunModel, ShapeGunModel) {
    match p {
        PowerUpTypes::BulletAmmo => (h, GunModel { max_ammo: if g.max_ammo + 100 > u64::MAX { u64::MAX } else { (g.max_ammo + 100) as u64 }, ..g }, s),
        PowerUpTypes::BulletSpeed => (h, g.set_delay(sat_i64(g.shoot_delay - 5000) as i64), s),
        PowerUpTypes::BulletDamage => (h, g.set_damage(sat_i64(g.damage + 50) as i64), s),
        PowerUpTypes::AddRandomBullet => (h, g.add_bullet(reward_blueprint(r.bullet)), s),
        PowerUpTypes::ShapeAmmo => (h, g, ShapeGunModel { max_shots: if s.max_shots + 1 > u64::MAX { u64::MAX } else { (s.max_shots + 1) as u64 }, ..s }),
        PowerUpTypes::ShapeReloadTime => {
            let t: u64 = if s.timer.duration >= 50_000 { (s.timer.duration - 50_000) as u64 } else { 0 };
            (h, g, ShapeGunModel { reload_time: t, timer: crate::timer::Timer { duration: t, ..s.timer }, ..s })
        },
        PowerUpTypes::AddRandomShape => (h, g, ShapeGunModel { bloops: s.bloops.push(bloop_of(r)), ..s }),
        PowerUpTypes::ShapeSize => (h, g, ShapeGunModel { size: clamp_shape_size((s.size * 105 / 100) as i64), ..s }),
        PowerUpTypes::HealthIncrease => (h.spec_heal(100), g, s),
        PowerUpTypes::ShieldIncrease => {
            let m = sat_i64(h.max_shield + 100) as i64;
            (Health { max_shield: m, shield: clamp_pool(h.shield, m), ..h }, g, s)
        },
        PowerUpTypes::ShieldRegen => (Health { shield_recharge: sat_i64(h.shield_recharge + 50) as i64, ..h }, g, s),
    }
}

fn plus_sat(a: i64, b: i64) -> (r: i64)
    requires
        b >= 0,
    ensures
        r == sat_i64(a + b),
{
    if a > i64::MAX - b {
        i64::MAX
    } else {
        a + b
    }
}

/// Applies pickup `p` with rolls `r` to the player's pools and weapons.
pub fn apply_powerup(p: PowerUpTypes, health: &mut Health, gun: &mut Gun, s_gun: &mut ShapeGun, r: &PowerUpRolls)
    requires
        old(gun).wf(),
        old(s_gun).wf(),
        rolls_ok(*r),
    ensures
        (*final(health), final(gun)@, final(s_gun)@) == picked(p, *old(health), old(gun)@, old(s_gun)@, *r),
        final(gun).wf(),
        final(s_gun).wf(),
{
    match p {
        PowerUpTypes::BulletAmmo => {
            let cur = gun.get_max_ammo();
            gun.set_max_ammo(cur.saturating_add(100));
        },
        PowerUpTypes::BulletSpeed => {
            let cur = gun.get_bullet_delay();
            let w: i128 = cur as i128 - 5000;
            gun.set_bullet_delay(if w > i64::MAX as i128 { i64::MAX } else { w as i64 });
        },
        PowerUpTypes::BulletDamage => {
            let cur = gun.get_bullet_damage();
            gun.set_bullet_damage(plus_sat(cur, 50));
        },
        PowerUpTypes::AddRandomBullet => {
            gun.add_bullet(random_bullet(r.bullet));
        },
        PowerUpTypes::ShapeAmmo => {
            let shots = s_gun.get_max_shots();
            s_gun.set_max_shots(shots.saturating_add(1));
        },
        PowerUpTypes::ShapeReloadTime => {
            let cur = s_gun.timer.duration;
            s_gun.set_reload_time(cur.saturating_sub(50_000));
        },
        PowerUpTypes::AddRandomShape => {
            let t = if r.shape == 0 {
                ShapeType::Circle
            } else if r.shape == 1 {
                ShapeType::Triangle
            } else {
                ShapeType::Square
            };
            s_gun.add_bloop(ShapeBloop { offset: (r.x_off, r.y_off), num_bullets: 50, t, size_scale: (r.x_scale, r.y_scale) });
        },
        PowerUpTypes::ShapeSize => {
            let cur = s_gun.get_size();
            s_gun.set_size(cur * 105 / 100);
        },
        PowerUpTypes::HealthIncrease => {
            health.heal(100);
        },
        PowerUpTypes::ShieldIncrease => {
            let cur = health.get_max_shield();
            health.set_max_shield(plus_sat(cur, 100));
        },
        PowerUpTypes::ShieldRegen => {
            let cur = health.get_recharge();
            health.set_recharge(plus_sat(cur, 50));
        },
    }
}

/// Index of the first pickup whose box meets the player's.
pub open spec fn first_contact(ps: Seq<PowerUpBundle>, x: i64, y: i64) -> Option<int>
    decreases ps.len(),
{
    if ps.len() == 0 {
        None
    } else {
        match first_contact(ps.drop_last(), x, y) {
            Some(k) => Some(k),
            None => if boxes_overlap(x as int, y as int, PLAYER_HALF as int, ps.last().x as int, ps.last().y as int, POWER_UP_HALF as int) {
                Some(ps.len() - 1)
            } else {
                None
            },
        }
    }
}

proof fn lemma_first_contact_bounds(ps: Seq<PowerUpBundle>, x: i64, y: i64)
    ensures
        first_contact(ps, x, y) matches Some(k) ==> 0 <= k < ps.len(),
    decreases ps.len(),
{
    if ps.len() > 0 {
        lemma_first_contact_bounds(ps.drop_last(), x, y);
    }
}

proof fn lemma_first_contact_prefix(ps: Seq<PowerUpBundle>, x: i64, y: i64, n: int, m: int)
    requires
        0 < n <= m <= ps.len(),
        first_contact(ps.take(n), x, y) is Some,
    ensures
        first_contact(ps.take(m), x, y) == first_contact(ps.take(n), x, y),
    decreases m - n,
{
    if m > n {
        lemma_first_contact_prefix(ps, x, y, n, m - 1);
        assert(ps.take(m).drop_last() =~= ps.take(m - 1));
    }
}

/// When the player at `(x, y)` touches a pickup, applies the first one
/// touched and clears every pickup; returns the kind picked up.
pub fn handle_powerup_collision(
    x: i64,
    y: i64,
    health: &mut Health,
    gun: &mut Gun,
    s_gun: &mut ShapeGun,
    power_ups: &mut Vec<PowerUpBundle>,
    r: &PowerUpRolls,
) -> (res: Option<PowerUpTypes>)
    requires
        old(gun).wf(),
        old(s_gun).wf(),
        rolls_ok(*r),
    ensures
        match first_contact(old(power_ups)@, x, y) {
            None => res is None && *final(health) == *old(health) && final(gun)@ == old(gun)@
                && final(s_gun)@ == old(s_gun)@ && final(power_ups)@ == old(power_ups)@,
            Some(k) => res == Some(old(power_ups)@[k].p_type) && final(power_ups)@.len() == 0 && (
            *final(health),
            final(gun)@,
            final(s_gun)@,
            ) == picked(old(power_ups)@[k].p_type, *old(health), old(gun)@, old(s_gun)@, *r),
        },
        final(gun).wf(),
        final(s_gun).wf(),
{
    proof {
        lemma_first_contact_bounds(power_ups@, x, y);
    }
    let mut i: usize = 0;
    while i < power_ups.len()
        invariant
            0 <= i <= power_ups@.len(),
            first_contact(power_ups@.take(i as int), x, y) is None,
            power_ups@ == old(power_ups)@,
            *health == *old(health),
            gun@ == old(gun)@,
            s_gun@ == old(s_gun)@,
            gun.wf(),
            s_gun.wf(),
            rolls_ok(*r),
        decreases power_ups@.len() - i,
    {
        assert(power_ups@.take(i + 1).drop_last() =~= power_ups@.take(i as int));
        if intersects(x, y, PLAYER_HALF, power_ups[i].x, power_ups[i].y, POWER_UP_HALF) {
            proof {
                lemma_first_contact_prefix(power_ups@, x, y, i + 1, power_ups@.len() as int);
                assert(power_ups@.take(power_ups@.len() as int) =~= power_ups@);
            }
            let p = power_ups[i].p_type;
            apply_powerup(p, health, gun, s_gun, r);
            *power_ups = Vec::new();
            return Some(p);
        }
        i += 1;
    }
    assert(power_ups@.take(i as int) =~= power_ups@);
    None
}

/// Draws the rolls a pickup may use.
pub fn draw_powerup_rolls() -> (r: PowerUpRolls)
    ensures
        rolls_ok(r),
{
    let bullet = random_in(0, 5);
    let shape = random_in(0, 3);
    let x_off = random_in(0, (2 * SHAPE_X_OFF) as u64) as i64 - SHAPE_X_OFF;
    let y_off = random_in(0, SHAPE_Y_OFF as u64) as i64;
    let x_scale = random_in(SHAPE_SCALE_LO as u64, SHAPE_SCALE_HI as u64) as i64;
    let y_scale = random_in(SHAPE_SCALE_LO as u64, SHAPE_SCALE_HI as u64) as i64;
    PowerUpRolls { bullet, shape, x_off, y_off, x_scale, y_scale }
}

} // verus!
