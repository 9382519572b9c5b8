use bullet_hell::bullet::{advance, Bullet, BulletBundle};
use bullet_hell::collide::{circle_intersects, intersects};
use bullet_hell::gun::{BulletBlueprint, Gun, GunBluePrint};
use bullet_hell::health::Health;
use bullet_hell::motion::{cos_milli_exec, sin_milli_exec, Curve};
use bullet_hell::score::ScoreBoard;
use bullet_hell::timer::{Timer, TimerMode};

#[test]
fn constant_curve_moves_by_value_times_direction() {
    let b = BulletBundle::new(
        1000,
        2000,
        Bullet::new(1, Curve::Constant { v: 5000 }, Curve::Constant { v: -300 }, 0, true, 50),
    );
    let m = advance(b, 16_000).unwrap();
    assert_eq!(m.x, 1000 - 300);
    assert_eq!(m.y, 2000 + 5000);
    assert_eq!(m.bullet.tick, 16_000);
    let down = BulletBundle::new(
        0,
        0,
        Bullet::new(-1, Curve::Constant { v: 5000 }, Curve::Constant { v: 0 }, 0, false, 20),
    );
    let m = advance(down, 16_000).unwrap();
    assert_eq!(m.y, -5000);
    assert_eq!(m.x, 0);
}

#[test]
fn cosine_curve_trajectory() {
    // An eighth of a turn after half a second at 250 thousandths of a turn per second.
    let c = Curve::Cosine { amp: 1000, rate: 250, bias: 0 };
    assert_eq!(c.eval(500_000), 705);
    assert_eq!(c.eval(0), 1000);
    assert_eq!(c.eval(1_000_000), 0);
    assert_eq!(c.eval(2_000_000), -1000);
    let b = BulletBundle::new(0, 0, Bullet::new(-1, Curve::Constant { v: 0 }, c, 0, false, 20));
    let m = advance(b, 500_000).unwrap();
    assert_eq!(m.x, -705);
    assert_eq!(m.y, 0);
}

#[test]
fn displacement_does_not_depend_on_position() {
    let bullet = Bullet::new(1, Curve::Quadratic { k: 1000 }, Curve::Linear { k: 2000 }, 250_000, false, 20);
    let a = advance(BulletBundle::new(0, 0, bullet), 250_000).unwrap();
    let b = advance(BulletBundle::new(77_000, -123_000, bullet), 250_000).unwrap();
    assert_eq!(a.x - 0, b.x - 77_000);
    assert_eq!(a.y - 0, b.y + 123_000);
    // Lifetime half a second: 0.25 px for the square, 1 px for the line.
    assert_eq!(a.y, 250);
    assert_eq!(a.x, 1000);
}

#[test]
fn other_curves_have_exact_values() {
    assert_eq!(Curve::Linear { k: -3000 }.eval(2_000_000), -6000);
    assert_eq!(Curve::Quadratic { k: 1000 }.eval(3_000_000), 9000);
    assert_eq!(Curve::Quadratic { k: -7 }.eval(1_000_000), -7);
    assert_eq!(Curve::Cosine { amp: 100, rate: 0, bias: 5 }.eval(123), 105);
}

#[test]
fn sine_approximation_values() {
    assert_eq!(sin_milli_exec(0), 0);
    assert_eq!(sin_milli_exec(250), 1000);
    assert_eq!(sin_milli_exec(500), 0);
    assert_eq!(sin_milli_exec(750), -1000);
    assert_eq!(sin_milli_exec(1250), 1000);
    assert_eq!(cos_milli_exec(0), 1000);
    assert_eq!(cos_milli_exec(500), -1000);
}

#[test]
fn projectile_expires_and_leaves_bounds() {
    let b = Bullet::new(1, Curve::Constant { v: 0 }, Curve::Constant { v: 0 }, 4_990_000, true, 5);
    assert!(advance(BulletBundle::new(0, 0, b), 10_000).is_some());
    assert!(advance(BulletBundle::new(0, 0, b), 10_001).is_none());
    let young = Bullet::new(1, Curve::Constant { v: 0 }, Curve::Constant { v: 0 }, 0, true, 5);
    assert!(advance(BulletBundle::new(0, -500_001, young), 1).is_none());
    assert!(advance(BulletBundle::new(0, 464_001, young), 1).is_none());
    assert!(advance(BulletBundle::new(0, 464_000, young), 1).is_some());
}

#[test]
fn friendly_projectiles_wrap_hostile_do_not() {
    let f = Bullet::new(1, Curve::Constant { v: 0 }, Curve::Constant { v: 0 }, 0, true, 5);
    let h = Bullet::new(1, Curve::Constant { v: 0 }, Curve::Constant { v: 0 }, 0, false, 5);
    assert_eq!(advance(BulletBundle::new(-500_001, 0, f), 1).unwrap().x, 499_000);
    assert_eq!(advance(BulletBundle::new(500_001, 0, f), 1).unwrap().x, -499_000);
    assert_eq!(advance(BulletBundle::new(500_001, 0, h), 1).unwrap().x, 500_001);
}

#[test]
fn shield_absorbs_before_health() {
    let mut h = Health::new(10, 100, 1_000_000, 5);
    h.damage(4);
    assert_eq!(h.get_shield(), 6);
    assert_eq!(h.get_health(), 100);
    h.damage(15);
    assert_eq!(h.get_shield(), 0);
    assert_eq!(h.get_health(), 100);
    assert!(h.is_alive());
    h.damage(30);
    assert_eq!(h.get_health(), 70);
    h.damage(70);
    assert_eq!(h.get_health(), 0);
    assert!(!h.is_alive());
    h.damage(5);
    assert_eq!(h.get_health(), 0);
}

#[test]
fn shield_at_exactly_damage_goes_to_zero() {
    let mut h = Health::new(10, 100, 1_000_000, 5);
    h.damage(10);
    assert_eq!(h.get_shield(), 0);
    assert_eq!(h.get_health(), 100);
}

#[test]
fn regeneration_waits_then_recharges_to_max() {
    let mut h = Health::new(100, 100, 3_000_000, 20);
    h.damage(50);
    assert_eq!(h.get_shield(), 50);
    h.regen_tick(1_000_000);
    h.regen_tick(1_000_000);
    h.regen_tick(999_999);
    assert_eq!(h.get_shield(), 50);
    assert!(!h.can_shield_recharge());
    h.regen_tick(1);
    assert_eq!(h.get_shield(), 70);
    h.regen_tick(16_000);
    assert_eq!(h.get_shield(), 90);
    h.regen_tick(16_000);
    assert_eq!(h.get_shield(), 100);
    h.regen_tick(16_000);
    assert_eq!(h.get_shield(), 100);
    h.damage(1);
    h.regen_tick(16_000);
    assert_eq!(h.get_shield(), 99);
}

#[test]
fn recharge_clamps_at_max_shield() {
    let mut h = Health::new(30, 100, 0, 25);
    h.damage(10);
    h.recharge_shield();
    assert_eq!(h.get_shield(), 30);
    assert_eq!(h.get_max_shield(), 30);
    assert_eq!(h.get_max_health(), 100);
    assert_eq!(h.get_recharge(), 25);
}

#[test]
fn empty_gun_cannot_shoot_and_reload_refills() {
    let mut g = Gun::new(Vec::new(), 100_000, 20, 4, 1, 500_000);
    assert!(!g.can_shoot());
    g.tick_time(100_000);
    assert!(g.can_shoot());
    g.reset_shot_timer();
    g.shoot_bullet();
    assert_eq!(g.get_ammo(), 0);
    g.tick_time(100_000);
    assert!(!g.can_shoot());
    g.shoot_bullet();
    assert_eq!(g.get_ammo(), 0);
    g.tick_reload_time(499_999);
    assert!(!g.can_reload());
    g.tick_reload_time(1);
    assert!(g.can_reload());
    g.reload();
    assert_eq!(g.get_ammo(), g.get_max_ammo());
    assert_eq!(g.get_ammo(), 1);
    assert!(!g.can_reload());
}

#[test]
fn gun_tick_runs_reload_timer_only_when_empty() {
    let mut g = Gun::new(Vec::new(), 100_000, 20, 4, 2, 500_000);
    g.tick(600_000);
    assert!(!g.can_reload());
    g.set_ammo(0);
    g.tick(600_000);
    assert!(g.can_reload());
}

#[test]
fn blueprint_count_is_bounded() {
    let bp = BulletBlueprint {
        dir: 1,
        fy: Curve::Constant { v: 1 },
        fx: Curve::Constant { v: 0 },
        tick: 0,
        ply: true,
        damage: 1,
    };
    let mut g = Gun::new_from_blueprint(
        Vec::new(),
        GunBluePrint { shoot_delay: 1, damage: 2, max_bullets: 2, max_ammo: 3, reload_delay: 4 },
    );
    g.add_bullet(bp);
    g.add_bullet(bp);
    g.add_bullet(bp);
    assert_eq!(g.get_bullets().len(), 2);
    assert_eq!(g.get_bullet_damage(), 2);
    assert_eq!(g.get_max_ammo(), 3);
}

#[test]
fn bullet_delay_has_a_floor() {
    let mut g = Gun::new(Vec::new(), 100_000, 20, 4, 1, 500_000);
    g.set_bullet_delay(-5);
    assert_eq!(g.get_bullet_delay(), 30_000);
    assert_eq!(g.shot_timer.duration, 30_000);
    g.set_bullet_delay(45_000);
    assert_eq!(g.get_bullet_delay(), 45_000);
    g.set_bullet_damage(99);
    assert_eq!(g.get_bullet_damage(), 99);
}

#[test]
fn score_scales_by_multiplier() {
    let mut b = ScoreBoard { score: 0, mul: 3 };
    b.add_score(100);
    assert_eq!(b.get_score(), 300);
    b.set_mul(0);
    b.add_mul(5);
    assert_eq!(b.get_mul(), 5);
    b.add_mul(11);
    assert_eq!(b.get_mul(), 16);
    b.add_mul(1);
    assert_eq!(b.get_mul(), 16);
    b.set_mul(0);
    b.add_mul(u64::MAX);
    assert_eq!(b.get_mul(), 16);
}

#[test]
fn new_board_and_saturating_score() {
    let mut b = ScoreBoard::new();
    assert_eq!((b.get_score(), b.get_mul()), (0, 1));
    b.set_mul(2);
    b.add_score(u64::MAX);
    assert_eq!(b.get_score(), u64::MAX);
}

#[test]
fn timers_once_and_repeating() {
    let mut once = Timer::new(100, TimerMode::Once);
    once.tick(60);
    assert!(!once.finished());
    once.tick(60);
    assert!(once.finished());
    assert_eq!(once.elapsed, 100);
    once.tick(1000);
    assert!(once.finished());
    once.reset();
    assert!(!once.finished());
    assert_eq!(once.elapsed, 0);
    let mut rep = Timer::new(100, TimerMode::Repeating);
    rep.tick(250);
    assert!(rep.finished());
    assert_eq!(rep.elapsed, 50);
    rep.tick(10);
    assert!(!rep.finished());
    rep.set_duration(40);
    rep.tick(0);
    assert!(rep.finished());
    assert_eq!(rep.elapsed, 20);
}

#[test]
fn boxes_and_circles_touching() {
    assert!(intersects(0, 0, 8_000, 24_000, 0, 16_000));
    assert!(!intersects(0, 0, 8_000, 24_001, 0, 16_000));
    assert!(intersects(0, 0, 8_000, -24_000, 24_000, 16_000));
    assert!(circle_intersects(0, 0, 32_000, 48_000, 0, 16_000));
    assert!(!circle_intersects(0, 0, 32_000, 48_001, 0, 16_000));
    // Corner case: the nearest point is the box corner at (30, 30) px, beyond 32 px.
    assert!(!circle_intersects(0, 0, 32_000, 46_000, 46_000, 16_000));
    assert!(circle_intersects(0, 0, 32_000, 38_000, 38_000, 16_000));
}

#[test]
fn health_setters_keep_pools_in_range() {
    let mut h = Health::new(50, 100, 0, 5);
    h.set_health(150);
    assert_eq!(h.get_health(), 100);
    h.set_health(-5);
    assert_eq!(h.get_health(), 0);
    assert!(!h.is_alive());
    h.set_health(40);
    assert!(h.is_alive());
    h.set_max_health(30);
    assert_eq!((h.get_health(), h.get_max_health()), (30, 30));
    h.set_max_shield(20);
    assert_eq!((h.get_shield(), h.get_max_shield()), (20, 20));
    h.set_max_shield(80);
    assert_eq!((h.get_shield(), h.get_max_shield()), (20, 80));
}

#[test]
fn multiplier_is_capped_sum_at_every_step() {
    let mut b = ScoreBoard { score: 7, mul: 9 };
    b.set_mul(0);
    let mut sum: u64 = 0;
    for inc in [3u64, 0, 5, 7, 1, u64::MAX] {
        b.add_mul(inc);
        sum = sum.saturating_add(inc);
        assert_eq!(b.get_mul(), sum.min(16));
    }
    assert_eq!(b.get_score(), 7);
}
