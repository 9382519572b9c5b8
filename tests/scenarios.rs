use bullet_hell::bullet::{
    bullet_movement, bullet_on_bullet_collision, Bullet, BulletBundle, CollisionEvent, Target,
};
use bullet_hell::combat::{apply_collision_damage, apply_kill_rewards, kill_rewards, update_score};
use bullet_hell::enemy::{
    enemy_control, enemy_control_with, init_wave, kind_from_roll, next_wave, spawn_enemy,
    spawn_wave_box, wave_manager, EnemyBundle, EnemyRolls, EnemyType, WaveTimer,
};
use bullet_hell::gun::Gun;
use bullet_hell::health::Health;
use bullet_hell::motion::Curve;
use bullet_hell::score::{ScoreBoard, ScoreEvent};

fn shot(x: i64, y: i64, ply: bool) -> BulletBundle {
    BulletBundle::new(x, y, Bullet::new(1, Curve::Constant { v: 0 }, Curve::Constant { v: 0 }, 0, ply, 10))
}

#[test]
fn linear_enemy_shot_hits_player_once() {
    let mut enemies = vec![spawn_enemy(1, 0, 0, EnemyType::Linear)];
    let mut bullets: Vec<BulletBundle> = Vec::new();
    let rolls = vec![EnemyRolls { shot_delay: 500_000, radius: 100_000, shape: 0 }];
    let mut ticks = 0;
    while bullets.is_empty() {
        let escaped = enemy_control_with(&mut enemies, &mut bullets, 100_000, &rolls);
        assert_eq!(escaped, 0);
        ticks += 1;
        assert!(ticks < 20);
    }
    assert_eq!(ticks, 6);
    assert_eq!(bullets.len(), 1);
    let b = bullets[0];
    assert!(!b.bullet.ply);
    assert_eq!(b.bullet.damage, 20);
    assert_eq!((enemies[0].x, enemies[0].y), (-12_000, -3_000));
    assert_eq!((b.x, b.y), (-12_000, -33_000));

    let player = Some((-12_000i64, -100_000i64));
    let no_enemies: Vec<EnemyBundle> = Vec::new();
    let mut board = ScoreBoard { score: 0, mul: 5 };
    let mut events: Vec<CollisionEvent> = Vec::new();
    for _ in 0..20 {
        let mut evs = bullet_movement(&mut bullets, &no_enemies, player, &mut board, 100_000);
        events.append(&mut evs);
        if bullets.is_empty() {
            break;
        }
    }
    assert_eq!(events, vec![CollisionEvent { target: Target::Player, damage: 20, is_player: true }]);
    assert!(bullets.is_empty());
    assert_eq!(board.get_mul(), 0);

    let mut ph = Some(Health::new(500, 500, 3_750_000, 100));
    let report = apply_collision_damage(&events, &mut enemies, &mut ph);
    assert_eq!(ph.unwrap().get_shield(), 480);
    assert!(report.score_events.is_empty());
    assert!(!report.player_died);
}

#[test]
fn friendly_and_hostile_projectiles_annihilate() {
    let mut bullets = vec![shot(0, 0, true), shot(4_000, 0, false)];
    bullet_on_bullet_collision(&mut bullets);
    assert!(bullets.is_empty());
    // Nothing reached the player or an enemy: no hit to apply.
    let mut board = ScoreBoard { score: 0, mul: 3 };
    let evs = bullet_movement(&mut bullets, &Vec::new(), Some((0, 0)), &mut board, 1);
    assert!(evs.is_empty());
    assert_eq!(board.get_mul(), 3);
}

#[test]
fn one_friendly_takes_only_the_first_hostile() {
    let mut bullets = vec![shot(0, 0, false), shot(1_000, 0, true), shot(2_000, 0, false), shot(300_000, 0, true)];
    bullet_on_bullet_collision(&mut bullets);
    assert_eq!(bullets, vec![shot(2_000, 0, false), shot(300_000, 0, true)]);
}

#[test]
fn two_friendlies_share_a_hostile() {
    let mut bullets = vec![shot(0, 0, true), shot(5_000, 0, false), shot(10_000, 0, true)];
    bullet_on_bullet_collision(&mut bullets);
    assert!(bullets.is_empty());
}

#[test]
fn simultaneous_hits_on_player_all_apply() {
    let mut bullets = vec![shot(0, 0, false), shot(1_000, 0, false)];
    let mut board = ScoreBoard { score: 0, mul: 2 };
    let evs = bullet_movement(&mut bullets, &Vec::new(), Some((0, 0)), &mut board, 1);
    assert_eq!(evs.len(), 2);
    assert!(bullets.is_empty());
    let mut enemies: Vec<EnemyBundle> = Vec::new();
    let mut ph = Some(Health::new(0, 15, 0, 0));
    let report = apply_collision_damage(&evs, &mut enemies, &mut ph);
    assert!(ph.is_none());
    assert!(report.player_died);
}

#[test]
fn friendly_shot_hits_enemy_and_kill_scores() {
    let mut enemies = vec![spawn_enemy(7, 0, 0, EnemyType::Linear), spawn_enemy(8, 40_000, 0, EnemyType::Wavy)];
    let mut bullets = vec![BulletBundle::new(
        0,
        -10_000,
        Bullet::new(1, Curve::Constant { v: 5000 }, Curve::Constant { v: 0 }, 0, true, 200),
    )];
    let mut board = ScoreBoard { score: 0, mul: 1 };
    let evs = bullet_movement(&mut bullets, &enemies, None, &mut board, 1);
    assert_eq!(evs, vec![CollisionEvent { target: Target::Enemy(7), damage: 200, is_player: false }]);
    assert!(bullets.is_empty());
    let mut ph = None;
    let report = apply_collision_damage(&evs, &mut enemies, &mut ph);
    assert_eq!(report.score_events, vec![ScoreEvent { base_score: 50, multiplier_increment: 0 }]);
    assert_eq!(report.kills, vec![EnemyType::Linear]);
    assert_eq!(enemies.len(), 1);
    assert_eq!(enemies[0].id, 8);
    // The blast reached the neighbour 40 px away: its shield took 20.
    assert_eq!(enemies[0].health.get_shield(), 130);
}

#[test]
fn hits_on_missing_targets_are_skipped() {
    let evs = vec![
        CollisionEvent { target: Target::Enemy(99), damage: 10, is_player: false },
        CollisionEvent { target: Target::Player, damage: 10, is_player: true },
    ];
    let mut enemies = vec![spawn_enemy(1, 0, 0, EnemyType::Melee)];
    let mut ph = None;
    let report = apply_collision_damage(&evs, &mut enemies, &mut ph);
    assert_eq!(enemies.len(), 1);
    assert_eq!(enemies[0].health.get_shield(), 20);
    assert!(report.score_events.is_empty());
    assert!(!report.player_died);
}

#[test]
fn score_events_raise_score_multiplier_and_damage() {
    let mut board = ScoreBoard { score: 10, mul: 1 };
    let mut gun = Gun::new(Vec::new(), 80_000, 20, 10, 50, 3_000_000);
    let evs = vec![ScoreEvent { base_score: 500, multiplier_increment: 3 }];
    update_score(&mut board, &mut gun, &evs);
    assert_eq!(board.get_score(), 510);
    assert_eq!(board.get_mul(), 4);
    assert_eq!(gun.get_bullet_damage(), 35 * 7);
    let evs = vec![ScoreEvent { base_score: 100, multiplier_increment: 16 }];
    update_score(&mut board, &mut gun, &evs);
    assert_eq!(board.get_score(), 910);
    assert_eq!(board.get_mul(), 16);
    assert_eq!(gun.get_bullet_damage(), 35 * 16);
}

#[test]
fn kill_rewards_change_the_gun() {
    let mut gun = Gun::new(Vec::new(), 30_200, 20, 10, 50, 3_000_000);
    apply_kill_rewards(
        &mut gun,
        &vec![EnemyType::Wavy, EnemyType::Spammer, EnemyType::Spawner, EnemyType::Linear, EnemyType::Spammer],
        &vec![0, 0, 3, 0, 0],
    );
    assert_eq!(gun.get_bullet_damage(), 50);
    assert_eq!(gun.get_bullet_delay(), 30_000);
    assert_eq!(gun.get_bullets().len(), 1);
    assert_eq!(gun.get_bullets()[0].fy, Curve::Constant { v: 10_000 });
    assert_eq!(gun.get_bullets()[0].fx, Curve::Constant { v: 5_000 });
    let rolls = kill_rewards(&mut gun, &vec![EnemyType::Spawner, EnemyType::Melee]);
    assert_eq!(rolls.len(), 2);
    assert!(rolls.iter().all(|r| *r < 5));
    assert_eq!(gun.get_bullets().len(), 2);
}

#[test]
fn wave_interval_halves_and_size_doubles_after_a_minute() {
    assert_eq!(next_wave(0), (45_000_000, 15));
    assert_eq!(next_wave(60_000_000), (22_500_000, 30));
    assert_eq!(next_wave(120_000_000), (15_000_000, 45));
    assert_eq!(next_wave(30_000_000), (30_000_000, 22));
}

#[test]
fn wave_timer_brings_wave_when_due() {
    let mut timer = WaveTimer::new();
    let mut enemies: Vec<EnemyBundle> = Vec::new();
    let mut next_id = 0u64;
    assert!(wave_manager(&mut timer, &mut enemies, &mut next_id, 44_000_000, 0).is_none());
    assert!(enemies.is_empty());
    let placed = wave_manager(&mut timer, &mut enemies, &mut next_id, 1_000_000, 60_000_000).unwrap();
    assert_eq!(placed.len(), 30);
    assert_eq!(enemies.len(), 30);
    assert_eq!(next_id, 30);
    assert_eq!(timer.0.duration, 22_500_000);
    assert_eq!(timer.0.elapsed, 0);
}

#[test]
fn opening_wave_and_reinforcements() {
    let mut enemies: Vec<EnemyBundle> = Vec::new();
    let mut next_id = 100u64;
    let (timer, placed) = init_wave(&mut enemies, &mut next_id);
    assert_eq!(timer.0.duration, 45_000_000);
    assert_eq!(placed.len(), 15);
    assert_eq!(enemies.len(), 15);
    for (k, (e, p)) in enemies.iter().zip(placed.iter()).enumerate() {
        assert_eq!(e.id, 100 + k as u64);
        assert_eq!((e.x, e.y), (p.x, p.y));
        assert_eq!(e.enemy.get_type(), kind_from_roll(p.roll));
        assert!(-500_000 <= p.x && p.x < 500_000);
        assert!(400_000 <= p.y && p.y < 600_000);
        assert!(p.roll <= 100);
    }
    let more = spawn_wave_box(2, &mut enemies, &mut next_id);
    assert_eq!(more.len(), 2);
    assert_eq!(enemies.len(), 17);
    assert!(spawn_wave_box(0, &mut enemies, &mut next_id).is_empty());
}

#[test]
fn random_draws_stay_in_range_and_vary() {
    let mut enemies: Vec<EnemyBundle> = (0..200).map(|k| spawn_enemy(k, 0, 0, EnemyType::Spawner)).collect();
    let mut bullets: Vec<BulletBundle> = Vec::new();
    let mut next_id = 1000u64;
    let report = enemy_control(&mut enemies, &mut bullets, &mut next_id, 1);
    assert_eq!(report.rolls.len(), 200);
    for r in &report.rolls {
        assert!(1_500_000 <= r.shot_delay && r.shot_delay < 7_500_000);
        assert!(100_000 <= r.radius && r.radius < 580_000);
        assert!(r.shape < 3);
    }
    assert!(report.rolls.iter().any(|r| r.shot_delay != 1_500_000));
    assert!(report.rolls.iter().any(|r| r.radius != 100_000));
    assert!(report.reinforcements.is_empty());
}
