use bullet_hell::enemy::{
    enemy_control_with, kind_from_roll, spawn_enemy, EnemyBundle, EnemyRolls, EnemyType,
};
use bullet_hell::bullet::BulletBundle;
use bullet_hell::game::{advance_game_timer, time_display, GameTimer};
use bullet_hell::motion::Curve;
use bullet_hell::player::{sprite_movement, PlayerBundle, PlayerInput};
use bullet_hell::power_ups::{
    apply_powerup, handle_powerup_collision, move_powerups, powerup_wave, spawn_powerup_wave,
    PowerUpBundle, PowerUpRolls, PowerUpTypes,
};
use bullet_hell::shapes::{
    generate_circle, generate_line, generate_square, generate_triangle, ShapeBloop, ShapeGun, ShapeType,
};

fn rolls(delay: u64) -> Vec<EnemyRolls> {
    vec![EnemyRolls { shot_delay: delay, radius: 100_000, shape: 0 }]
}

fn idle() -> PlayerInput {
    PlayerInput { left: false, right: false, up: false, down: false, boost: false, reload: false, shape_fire: false, fire: false }
}

fn pick() -> PowerUpRolls {
    PowerUpRolls { bullet: 1, shape: 0, x_off: -10_000, y_off: 20_000, x_scale: 1000, y_scale: 2000 }
}

#[test]
fn enemy_score_table() {
    assert_eq!(EnemyType::Spawner.get_score(), (500, 3));
    assert_eq!(EnemyType::Spammer.get_score(), (400, 2));
    assert_eq!(EnemyType::Wavy.get_score(), (300, 1));
    assert_eq!(EnemyType::Linear.get_score(), (50, 0));
    assert_eq!(EnemyType::Melee.get_score(), (50, 0));
}

#[test]
fn kind_bands() {
    assert_eq!(kind_from_roll(0), EnemyType::Melee);
    assert_eq!(kind_from_roll(20), EnemyType::Melee);
    assert_eq!(kind_from_roll(21), EnemyType::Linear);
    assert_eq!(kind_from_roll(41), EnemyType::Wavy);
    assert_eq!(kind_from_roll(80), EnemyType::Spammer);
    assert_eq!(kind_from_roll(100), EnemyType::Spawner);
}

#[test]
fn enemy_above_field_falls_and_skips_the_rest() {
    let mut es = vec![spawn_enemy(1, 0, 450_000, EnemyType::Linear)];
    let mut bullets: Vec<BulletBundle> = Vec::new();
    enemy_control_with(&mut es, &mut bullets, 100_000, &rolls(500_000));
    assert_eq!((es[0].x, es[0].y), (0, 430_000));
    assert_eq!(es[0].enemy.last_shot, 0);
    assert_eq!(es[0].enemy.tick, 100_000);
}

#[test]
fn enemy_wraps_at_the_sides() {
    let mut es = vec![spawn_enemy(1, -500_001, 0, EnemyType::Linear), spawn_enemy(2, 500_001, 0, EnemyType::Linear)];
    let mut bullets: Vec<BulletBundle> = Vec::new();
    let r = vec![EnemyRolls { shot_delay: 500_000, radius: 100_000, shape: 0 }; 2];
    enemy_control_with(&mut es, &mut bullets, 1, &r);
    assert_eq!(es[0].x, 499_000);
    assert_eq!(es[1].x, -499_000);
    assert_eq!((es[0].y, es[1].y), (0, 0));
}

#[test]
fn enemy_escaping_at_bottom_returns_at_top() {
    let mut es = vec![spawn_enemy(1, 0, -500_001, EnemyType::Linear)];
    es[0].enemy.tick = 200_000_000;
    let mut bullets: Vec<BulletBundle> = Vec::new();
    let escaped = enemy_control_with(&mut es, &mut bullets, 1, &rolls(500_000));
    assert_eq!(escaped, 1);
    assert_eq!(es[0].enemy.tick, 0);
    assert_eq!((es[0].x, es[0].y), (-2_000, 449_500));
}

#[test]
fn melee_never_fires_and_spawner_bursts() {
    let mut es = vec![spawn_enemy(1, 0, 0, EnemyType::Melee), spawn_enemy(2, 0, 0, EnemyType::Spawner)];
    let mut bullets: Vec<BulletBundle> = Vec::new();
    let r = vec![
        EnemyRolls { shot_delay: 500_000, radius: 100_000, shape: 0 },
        EnemyRolls { shot_delay: 1_500_000, radius: 200_000, shape: 1 },
    ];
    enemy_control_with(&mut es, &mut bullets, 2_000_000, &r);
    assert_eq!(es[0].enemy.last_shot, -500_000);
    assert_eq!(es[1].enemy.last_shot, -1_500_000);
    // A square of 200 px with 25 points to a side: 4 * 25 - 2 points.
    assert_eq!(bullets.len(), 98);
    assert!(bullets.iter().all(|b| !b.bullet.ply && b.bullet.damage == 50));
}

#[test]
fn spammer_fires_four_diagonals() {
    let mut es = vec![spawn_enemy(1, 0, 0, EnemyType::Spammer)];
    let mut bullets: Vec<BulletBundle> = Vec::new();
    enemy_control_with(&mut es, &mut bullets, 600_000, &rolls(500_000));
    assert_eq!(bullets.len(), 4);
    assert!(bullets.iter().all(|b| b.y == es[0].y - 30_000 && b.bullet.dir == -1));
}

#[test]
fn line_points_evenly_spaced() {
    assert_eq!(generate_line(0, 0, 10, -20, 5), vec![(0, 0), (2, -4), (4, -8), (6, -12), (8, -16)]);
    assert_eq!(generate_line(0, 0, -7, 0, 2), vec![(0, 0), (-3, 0)]);
    assert!(generate_line(0, 0, 10, 10, 0).is_empty());
}

#[test]
fn square_outline() {
    let pts = generate_square(0, 0, 100, 2);
    assert_eq!(pts, vec![(-50, 50), (-50, -50), (0, 50), (0, -50), (50, 0), (-50, 0)]);
    assert!(generate_square(0, 0, 100, 0).is_empty());
    assert_eq!(generate_square(0, 0, 100, 1), vec![(-50, 50), (-50, -50)]);
}

#[test]
fn circle_and_triangle_outlines() {
    let pts = generate_circle(10, 20, 1000, 4);
    assert_eq!(pts, vec![(1010, 20), (10, 1020), (-990, 20), (10, -980)]);
    let tri = generate_triangle((0, 0), (30, 0), (0, 30), 3);
    assert_eq!(tri.len(), 9);
    assert_eq!(tri[0..3].to_vec(), vec![(0, 0), (10, 0), (20, 0)]);
    assert_eq!(tri[3..6].to_vec(), vec![(0, 0), (0, 10), (0, 20)]);
    assert_eq!(tri[6..9].to_vec(), vec![(0, 30), (10, 20), (20, 10)]);
}

#[test]
fn shape_gun_burst_and_shots() {
    let mut g = ShapeGun::default_gun();
    assert!(g.get_shapes(0, 0).is_empty());
    g.add_bloop(ShapeBloop { offset: (0, 0), num_bullets: 50, t: ShapeType::HorizontalLine, size_scale: (1000, 1000) });
    let pts = g.get_shapes(5_000, 7_000);
    assert_eq!(pts.len(), 50);
    assert_eq!(pts[0], (5_000 - 200_000, 7_000));
    assert_eq!(pts[1], (5_000 - 200_000 + 8_000, 7_000));
    g.add_bloop(ShapeBloop { offset: (0, 0), num_bullets: 50, t: ShapeType::Triangle, size_scale: (1000, 1000) });
    assert_eq!(g.get_shapes(0, 0).len(), 50 + 48);
    g.remove_bloop(2);
    assert_eq!(g.get_shapes(0, 0).len(), 48);
    g.shoot();
    assert_eq!(g.get_shots(), 9);
    g.set_max_shots(12);
    g.reload();
    assert_eq!((g.get_shots(), g.get_max_shots()), (12, 12));
    g.set_size(0);
    assert_eq!(g.get_size(), 1000);
    g.set_reload_time(5);
    assert_eq!(g.timer.duration, 5);
}

#[test]
fn player_moves_within_its_band() {
    let mut p = PlayerBundle::new();
    assert_eq!((p.x, p.y), (0, -400_000));
    let mut i = idle();
    i.right = true;
    i.up = true;
    let fired = sprite_movement(&mut p, i, 100_000);
    assert!(fired.is_empty());
    assert_eq!((p.x, p.y), (18_000, -382_000));
    i.boost = true;
    sprite_movement(&mut p, i, 100_000);
    assert_eq!((p.x, p.y), (72_000, -328_000));
    p.y = -150_000;
    p.x = 600_000;
    sprite_movement(&mut p, idle(), 0);
    assert_eq!((p.x, p.y), (-499_000, -201_000));
}

#[test]
fn player_fires_gun_and_shape_burst() {
    let mut p = PlayerBundle::new();
    let mut i = idle();
    i.fire = true;
    assert!(sprite_movement(&mut p, i, 10_000).is_empty());
    let fired = sprite_movement(&mut p, i, 80_000);
    assert_eq!(fired.len(), 3);
    assert!(fired.iter().all(|b| b.bullet.ply && b.bullet.damage == 20));
    assert_eq!(p.gun.get_ammo(), 49);
    let mut s = idle();
    s.shape_fire = true;
    let burst = sprite_movement(&mut p, s, 0);
    // Three triangles, 50 points per outline split in three sides of 16.
    assert_eq!(burst.len(), 3 * 48);
    assert!(burst.iter().all(|b| b.bullet.damage == 60));
    assert_eq!(p.s_gun.get_shots(), 9);
}

#[test]
fn reload_key_empties_and_refills_after_the_rest_of_the_delay() {
    let mut p = PlayerBundle::new();
    let mut i = idle();
    i.reload = true;
    sprite_movement(&mut p, i, 0);
    assert_eq!(p.gun.get_ammo(), 0);
    sprite_movement(&mut p, idle(), 1_499_999);
    assert_eq!(p.gun.get_ammo(), 0);
    sprite_movement(&mut p, idle(), 1);
    assert_eq!(p.gun.get_ammo(), 50);
}

#[test]
fn powerup_wave_and_fall() {
    let w = powerup_wave(6, 2, 1);
    assert_eq!(
        w,
        vec![
            PowerUpBundle { x: -460_000, y: 400_000, p_type: PowerUpTypes::AddRandomBullet },
            PowerUpBundle { x: 0, y: 400_000, p_type: PowerUpTypes::ShapeSize },
            PowerUpBundle { x: 460_000, y: 400_000, p_type: PowerUpTypes::ShieldIncrease },
        ]
    );
    assert_eq!(spawn_powerup_wave().len(), 3);
    let mut ps = vec![PowerUpBundle { x: 0, y: 0, p_type: PowerUpTypes::BulletAmmo }, PowerUpBundle { x: 0, y: -500_001, p_type: PowerUpTypes::BulletAmmo }];
    move_powerups(&mut ps, 500_000);
    assert_eq!(ps, vec![PowerUpBundle { x: 0, y: -90_000, p_type: PowerUpTypes::BulletAmmo }]);
}

#[test]
fn powerups_change_pools_and_weapons() {
    let mut p = PlayerBundle::new();
    apply_powerup(PowerUpTypes::BulletAmmo, &mut p.health, &mut p.gun, &mut p.s_gun, &pick());
    assert_eq!(p.gun.get_max_ammo(), 150);
    apply_powerup(PowerUpTypes::BulletSpeed, &mut p.health, &mut p.gun, &mut p.s_gun, &pick());
    assert_eq!(p.gun.get_bullet_delay(), 75_000);
    apply_powerup(PowerUpTypes::BulletDamage, &mut p.health, &mut p.gun, &mut p.s_gun, &pick());
    assert_eq!(p.gun.get_bullet_damage(), 70);
    apply_powerup(PowerUpTypes::AddRandomBullet, &mut p.health, &mut p.gun, &mut p.s_gun, &pick());
    assert_eq!(p.gun.get_bullets().len(), 4);
    assert_eq!(p.gun.get_bullets()[3].fx, Curve::Constant { v: 5000 });
    apply_powerup(PowerUpTypes::ShapeAmmo, &mut p.health, &mut p.gun, &mut p.s_gun, &pick());
    assert_eq!(p.s_gun.get_max_shots(), 11);
    apply_powerup(PowerUpTypes::ShapeReloadTime, &mut p.health, &mut p.gun, &mut p.s_gun, &pick());
    assert_eq!(p.s_gun.timer.duration, 9_950_000);
    apply_powerup(PowerUpTypes::AddRandomShape, &mut p.health, &mut p.gun, &mut p.s_gun, &pick());
    assert_eq!(p.s_gun.bloops.len(), 4);
    assert_eq!(p.s_gun.bloops[3].t, ShapeType::Circle);
    assert_eq!(p.s_gun.bloops[3].offset, (-10_000, 20_000));
    apply_powerup(PowerUpTypes::ShapeSize, &mut p.health, &mut p.gun, &mut p.s_gun, &pick());
    assert_eq!(p.s_gun.get_size(), 210_000);
    apply_powerup(PowerUpTypes::HealthIncrease, &mut p.health, &mut p.gun, &mut p.s_gun, &pick());
    assert_eq!(p.health.get_health(), 500);
    p.health.set_health(350);
    apply_powerup(PowerUpTypes::HealthIncrease, &mut p.health, &mut p.gun, &mut p.s_gun, &pick());
    assert_eq!(p.health.get_health(), 450);
    apply_powerup(PowerUpTypes::HealthIncrease, &mut p.health, &mut p.gun, &mut p.s_gun, &pick());
    assert_eq!(p.health.get_health(), 500);
    apply_powerup(PowerUpTypes::ShieldIncrease, &mut p.health, &mut p.gun, &mut p.s_gun, &pick());
    assert_eq!(p.health.get_max_shield(), 600);
    apply_powerup(PowerUpTypes::ShieldRegen, &mut p.health, &mut p.gun, &mut p.s_gun, &pick());
    assert_eq!(p.health.get_recharge(), 150);
}

#[test]
fn touching_a_powerup_applies_the_first_and_clears_all() {
    let mut p = PlayerBundle::new();
    let mut ps = vec![
        PowerUpBundle { x: 100_000, y: 0, p_type: PowerUpTypes::ShieldRegen },
        PowerUpBundle { x: 0, y: 10_000, p_type: PowerUpTypes::BulletDamage },
        PowerUpBundle { x: 0, y: 0, p_type: PowerUpTypes::HealthIncrease },
    ];
    let none = handle_powerup_collision(0, 200_000, &mut p.health, &mut p.gun, &mut p.s_gun, &mut ps, &pick());
    assert_eq!(none, None);
    assert_eq!(ps.len(), 3);
    let got = handle_powerup_collision(0, 0, &mut p.health, &mut p.gun, &mut p.s_gun, &mut ps, &pick());
    assert_eq!(got, Some(PowerUpTypes::BulletDamage));
    assert!(ps.is_empty());
    assert_eq!(p.gun.get_bullet_damage(), 70);
    assert_eq!(p.health.get_health(), 500);
}

#[test]
fn game_clock() {
    let mut t = GameTimer::new();
    advance_game_timer(&mut t, 61_500_000);
    assert_eq!(t.0, 61_500_000);
    assert_eq!(time_display(t.0), (1, 1));
    assert_eq!(time_display(3_599_999_999), (59, 59));
    advance_game_timer(&mut t, u64::MAX);
    assert_eq!(t.0, u64::MAX);
}

#[test]
fn fresh_enemies_by_kind() {
    let e: EnemyBundle = spawn_enemy(3, 1, 2, EnemyType::Spammer);
    assert_eq!(e.enemy.gun.get_bullets().len(), 4);
    assert_eq!(e.enemy.shot_range, (500_000, 1_500_000));
    assert_eq!((e.health.get_shield(), e.health.get_health()), (100, 150));
    let s = spawn_enemy(4, 0, 0, EnemyType::Spawner);
    assert!(s.enemy.gun.get_bullets().is_empty());
    assert_eq!(s.health.get_health(), 250);
    let w = spawn_enemy(5, 0, 0, EnemyType::Wavy);
    assert_eq!(w.enemy.gun.get_bullets().len(), 2);
    assert_eq!(w.enemy.gun.get_bullet_damage(), 100);
}
