use vstd::prelude::*;
use crate::collide::{boxes_overlap, intersects};
use crate::enemy::EnemyBundle;
use crate::health::sat_i64;
use crate::motion::Curve;
use crate::score::ScoreBoard;
use crate::{B_BOUND, L_BOUND, PIXEL, R_BOUND, T_BOUND};

verus! {

/// Lifetime after which a projectile is removed (µs).
pub const BULLET_DEATH: u64 = 5_000_000;

/// How far above the top edge a projectile may travel before removal.
pub const TOP_MARGIN: i64 = 64_000;

/// Half side of a projectile's hit box.
pub const BULLET_HALF: i64 = 8_000;

/// Half side of the player's hit box.
pub const PLAYER_HALF: i64 = 16_000;

/// Half side of an enemy's hit box.
pub const ENEMY_HALF: i64 = 16_000;

/// A live projectile: direction, offset curves, lifetime (µs), side
/// (`ply` for the player's), and damage.
#[derive(Clone, Copy, Debug, PartialEq, Eq, Structural)]
pub struct Bullet {
    pub dir: i8,
    pub fx: Curve,
    pub fy: Curve,
    pub tick: u64,
    pub ply: bool,
    pub damage: i64,
}

impl Bullet {
    pub open spec fn wf(self) -> bool {
        self.fx.wf() && self.fy.wf()
    }

    pub fn new(dir: i8, fy: Curve, fx: Curve, tick: u64, ply: bool, damage: i64) -> (r: Bullet)
        ensures
            r == (Bullet { dir, fx, fy, tick, ply, damage }),
    {
        Bullet { dir, fx, fy, tick, ply, damage }
    }

    /// Adds `time` to the lifetime (saturating).
    pub fn update(&mut self, time: u64)
        ensures
            *final(self) == (Bullet { tick: sat_add_u64(old(self).tick, time), ..*old(self) }),
    {
        self.tick = self.tick.saturating_add(time);
    }
}

pub open spec fn sat_add_u64(a: u64, b: u64) -> u64 {
    if a + b > u64::MAX {
        u64::MAX
    } else {
        (a + b) as u64
    }
}

/// A projectile in the field.
#[derive(Clone, Copy, Debug, PartialEq, Eq, Structural)]
pub struct BulletBundle {
    pub x: i64,
    pub y: i64,
    pub bullet: Bullet,
}

impl BulletBundle {
    pub fn new(spawn_x: i64, spawn_y: i64, bullet: Bullet) -> (r: BulletBundle)
        ensures
            r == (BulletBundle { x: spawn_x, y: spawn_y, bullet }),
    {
        BulletBundle { x: spawn_x, y: spawn_y, bullet }
    }
}

/// What a collision hit.
#[derive(Clone, Copy, Debug, PartialEq, Eq, Structural)]
pub enum Target {
    Player,
    Enemy(u64),
}

/// A hit of `damage` on `target`; `is_player` when the target is the player.
#[derive(Clone, Copy, Debug, PartialEq, Eq, Structural)]
pub struct CollisionEvent {
    pub target: Target,
    pub damage: i64,
    pub is_player: bool,
}

/// `p` moved by `d`, clamped into the range of `i64`.
pub open spec fn shift(p: i64, d: int) -> i64 {
    sat_i64(p + d) as i64
}

/// Position after the horizontal wrap: the player's projectiles that left
/// the field at one side come back at the other.
pub open spec fn wrap_x(x: i64, ply: bool) -> i64 {
    if ply && x < -L_BOUND {
        (R_BOUND - PIXEL) as i64
    } else if ply && x > R_BOUND {
        (-L_BOUND + PIXEL) as i64
    } else {
        x
    }
}

/// The projectile after a step of `dt`, or `None` once it is too old or out
/// of the vertical bounds.
pub open spec fn spec_advance(b: BulletBundle, dt: u64) -> Option<BulletBundle> {
    let tick = sat_add_u64(b.bullet.tick, dt);
    if tick > BULLET_DEATH || b.y < B_BOUND || b.y > T_BOUND + TOP_MARGIN {
        None
    } else {
        Some(
            BulletBundle {
                x: shift(wrap_x(b.x, b.bullet.ply), b.bullet.fx.at(tick) * b.bullet.dir),
                y: shift(b.y, b.bullet.fy.at(tick) * b.bullet.dir),
                bullet: Bullet { tick, ..b.bullet },
            },
        )
    }
}

/// The hits of the player's projectile `m` on the enemies, in their order.
pub open spec fn enemy_hits(m: BulletBundle, es: Seq<EnemyBundle>) -> Seq<CollisionEvent>
    decreases es.len(),
{
    if es.len() == 0 {
        Seq::empty()
    } else {
        let e = es.last();
        let prior = enemy_hits(m, es.drop_last());
        if boxes_overlap(m.x as int, m.y as int, BULLET_HALF as int, e.x as int, e.y as int, ENEMY_HALF as int) {
            prior.push(CollisionEvent { target: Target::Enemy(e.id), damage: m.bullet.damage, is_player: false })
        } else {
            prior
        }
    }
}

/// One projectile's step: what stays of it, the hits it makes, and whether
/// it hit the player.
pub open spec fn bullet_outcome(
    b: BulletBundle,
    es: Seq<EnemyBundle>,
    player: Option<(i64, i64)>,
    dt: u64,
) -> (Seq<BulletBundle>, Seq<CollisionEvent>, bool) {
    match spec_advance(b, dt) {
        None => (Seq::empty(), Seq::empty(), false),
        Some(m) => if !m.bullet.ply {
            match player {
                Some(p) => if boxes_overlap(m.x as int, m.y as int, BULLET_HALF as int, p.0 as int, p.1 as int, PLAYER_HALF as int) {
                    (Seq::empty(), seq![CollisionEvent { target: Target::Player, damage: m.bullet.damage, is_player: true }], true)
                } else {
                    (seq![m], Seq::empty(), false)
                },
                None => (seq![m], Seq::empty(), false),
            }
        } else {
            let hs = enemy_hits(m, es);
            if hs.len() > 0 {
                (Seq::empty(), hs, false)
            } else {
                (seq![m], Seq::empty(), false)
            }
        },
    }
}

/// Every projectile's step, in order: the projectiles that remain, all
/// hits, and whether any hit the player.
pub open spec fn movement_all(
    bs: Seq<BulletBundle>,
    es: Seq<EnemyBundle>,
    player: Option<(i64, i64)>,
    dt: u64,
) -> (Seq<BulletBundle>, Seq<CollisionEvent>, bool)
    decreases bs.len(),
{
    if bs.len() == 0 {
        (Seq::empty(), Seq::empty(), false)
    } else {
        let (kept, evs, hit) = movement_all(bs.drop_last(), es, player, dt);
        let (k, e, h) = bullet_outcome(bs.last(), es, player, dt);
        (kept + k, evs + e, hit || h)
    }
}

pub open spec fn all_wf(bs: Seq<BulletBundle>) -> bool {
    forall|i: int| 0 <= i < bs.len() ==> #[trigger] bs[i].bullet.wf()
}

fn shift_exec(p: i64, d: i128) -> (r: i64)
    requires
        -1_000_000_000_000_000_000 <= d <= 1_000_000_000_000_000_000,
    ensures
        r == shift(p, d as int),
{
    let v: i128 = p as i128 + d;
    if v < i64::MIN as i128 {
        i64::MIN
    } else if v > i64::MAX as i128 {
        i64::MAX
    } else {
        v as i64
    }
}

/// One projectile's step of `dt`, as `spec_advance`.
pub fn advance(b: BulletBundle, dt: u64) -> (r: Option<BulletBundle>)
    requires
        b.bullet.wf(),
    ensures
        r == spec_advance(b, dt),
{
    let tick = b.bullet.tick.saturating_add(dt);
    if tick > BULLET_DEATH || b.y < B_BOUND || b.y > T_BOUND + TOP_MARGIN {
        return None;
    }
    let x0: i64 = if b.bullet.ply && b.x < -L_BOUND {
        R_BOUND - PIXEL
    } else if b.bullet.ply && b.x > R_BOUND {
        -L_BOUND + PIXEL
    } else {
        b.x
    };
    let vx = b.bullet.fx.eval(tick);
    let vy = b.bullet.fy.eval(tick);
    let dir = b.bullet.dir;
    assert(-100_000_000_000_000_000 <= vx * dir <= 100_000_000_000_000_000) by (nonlinear_arith)
        requires
            -100_000_000_000_000 <= vx <= 100_000_000_000_000,
            -128 <= dir <= 127,
    ;
    assert(-100_000_000_000_000_000 <= vy * dir <= 100_000_000_000_000_000) by (nonlinear_arith)
        requires
            -100_000_000_000_000 <= vy <= 100_000_000_000_000,
            -128 <= dir <= 127,
    ;
    let x = shift_exec(x0, vx as i128 * dir as i128);
    let y = shift_exec(b.y, vy as i128 * dir as i128);
    Some(BulletBundle { x, y, bullet: Bullet { tick, ..b.bullet } })
}

/// The hits of projectile `m` on the enemies, as `enemy_hits`.
fn hits_on_enemies(m: BulletBundle, enemies: &Vec<EnemyBundle>) -> (r: Vec<CollisionEvent>)
    ensures
        r@ == enemy_hits(m, enemies@),
{
    let mut out: Vec<CollisionEvent> = Vec::new();
    let mut i: usize = 0;
    while i < enemies.len()
        invariant
            0 <= i <= enemies@.len(),
            out@ == enemy_hits(m, enemies@.take(i as int)),
        decreases enemies@.len() - i,
    {
        let e = &enemies[i];
        if intersects(m.x, m.y, BULLET_HALF, e.x, e.y, ENEMY_HALF) {
            out.push(CollisionEvent { target: Target::Enemy(e.id), damage: m.bullet.damage, is_player: false });
        }
        proof {
            assert(enemies@.take(i + 1).drop_last() =~= enemies@.take(i as int));
        }
        i += 1;
    }
    assert(enemies@.take(i as int) =~= enemies@);
    out
}

/// Moves every projectile, removes the expired and those that hit, and
/// returns the hits in order. A hit on the player resets the multiplier.
pub fn bullet_movement(
    bullets: &mut Vec<BulletBundle>,
    enemies: &Vec<EnemyBundle>,
    player: Option<(i64, i64)>,
    scoreboard: &mut ScoreBoard,
    dt: u64,
) -> (r: Vec<CollisionEvent>)
    requires
        all_wf(old(bullets)@),
    ensures
        final(bullets)@ == movement_all(old(bullets)@, enemies@, player, dt).0,
        r@ == movement_all(old(bullets)@, enemies@, player, dt).1,
        *final(scoreboard) == if movement_all(old(bullets)@, enemies@, player, dt).2 {
            ScoreBoard { mul: 0, ..*old(scoreboard) }
        } else {
            *old(scoreboard)
        },
        all_wf(final(bullets)@),
{
    let ghost src = bullets@;
    let mut kept: Vec<BulletBundle> = Vec::new();
    let mut events: Vec<CollisionEvent> = Vec::new();
    let mut hit = false;
    let mut i: usize = 0;
    while i < bullets.len()
        invariant
            src == bullets@,
            all_wf(src),
            0 <= i <= src.len(),
            (kept@, events@, hit) == movement_all(src.take(i as int), enemies@, player, dt),
            all_wf(kept@),
        decreases src.len() - i,
    {
        let b = bullets[i];
        assert(b.bullet.wf());
        let ghost before = kept@;
        match advance(b, dt) {
            None => {},
            Some(m) => {
                if !m.bullet.ply {
                    let mut struck = false;
                    if let Some(p) = player {
                        if intersects(m.x, m.y, BULLET_HALF, p.0, p.1, PLAYER_HALF) {
                            events.push(CollisionEvent { target: Target::Player, damage: m.bullet.damage, is_player: true });
                            hit = true;
                            struck = true;
                        }
                    }
                    if !struck {
                        kept.push(m);
                    }
                } else {
                    let mut hs = hits_on_enemies(m, enemies);
                    if hs.len() > 0 {
                        events.append(&mut hs);
                    } else {
                        kept.push(m);
                    }
                }
            },
        }
        proof {
            assert(src.take(i + 1).drop_last() =~= src.take(i as int));
            let (k, e, h) = bullet_outcome(b, enemies@, player, dt);
            assert(kept@ =~= before + k);
            assert forall|j: int| 0 <= j < kept@.len() implies #[trigger] kept@[j].bullet.wf() by {
                if j >= before.len() {
                    assert(kept@[j].bullet.fx == b.bullet.fx && kept@[j].bullet.fy == b.bullet.fy);
                }
            }
        }
        i += 1;
    }
    assert(src.take(i as int) =~= src);
    *bullets = kept;
    if hit {
        scoreboard.set_mul(0);
    }
    events
}

/// Projectiles `a` and `b` touch.
pub open spec fn bullets_touch(a: BulletBundle, b: BulletBundle) -> bool {
    boxes_overlap(a.x as int, a.y as int, BULLET_HALF as int, b.x as int, b.y as int, BULLET_HALF as int)
}

/// The first hostile projectile among the first `n` that the projectile at
/// `i` touches.
pub open spec fn first_match(s: Seq<BulletBundle>, i: int, n: int) -> Option<int>
    decreases n,
{
    if n <= 0 {
        None
    } else {
        match first_match(s, i, n - 1) {
            Some(j) => Some(j),
            None => if !s[n - 1].bullet.ply && bullets_touch(s[i], s[n - 1]) {
                Some(n - 1)
            } else {
                None
            },
        }
    }
}

/// Whether the projectile at `k` is destroyed once the player's projectiles
/// before `upto` have been matched: a player's projectile that touches a
/// hostile one goes, and so does the first hostile one it touches.
pub open spec fn doomed_upto(s: Seq<BulletBundle>, k: int, upto: int) -> bool {
    if s[k].bullet.ply {
        k < upto && first_match(s, k, s.len() as int) is Some
    } else {
        exists|f: int| 0 <= f < upto && s[f].bullet.ply && first_match(s, f, s.len() as int) == Some(k)
    }
}

/// Which projectiles a bullet-on-bullet pass destroys.
pub open spec fn collision_marks(s: Seq<BulletBundle>) -> Seq<bool> {
    Seq::new(s.len(), |k: int| doomed_upto(s, k, s.len() as int))
}

/// The elements of `s` whose mark is not set, in order.
pub open spec fn keep_unmarked<T>(s: Seq<T>, marks: Seq<bool>) -> Seq<T>
    decreases s.len(),
{
    if s.len() == 0 {
        Seq::empty()
    } else {
        let prior = keep_unmarked(s.drop_last(), marks.take(s.len() - 1));
        if marks[s.len() - 1] {
            prior
        } else {
            prior.push(s.last())
        }
    }
}

/// A match exists exactly when some hostile projectile among the first `n`
/// touches the one at `i`, and it is such a projectile.
pub proof fn lemma_first_match(s: Seq<BulletBundle>, i: int, n: int)
    requires
        0 <= i < s.len(),
        n <= s.len(),
    ensures
        first_match(s, i, n) is Some <==> exists|j: int|
            0 <= j < n && !s[j].bullet.ply && bullets_touch(s[i], s[j]),
        first_match(s, i, n) matches Some(j) ==> 0 <= j < n && !s[j].bullet.ply && bullets_touch(
            s[i],
            s[j],
        ),
    decreases n,
{
    if n > 0 {
        lemma_first_match(s, i, n - 1);
    }
}

/// The first hostile projectile that the one at `i` touches.
fn first_hostile_hit(s: &Vec<BulletBundle>, i: usize) -> (r: Option<usize>)
    requires
        i < s@.len(),
    ensures
        r == (match first_match(s@, i as int, s@.len() as int) {
            Some(j) => Some(j as usize),
            None => None::<usize>,
        }),
        r matches Some(j) ==> j < s@.len(),
{
    let mut j: usize = 0;
    while j < s.len()
        invariant
            i < s@.len(),
            0 <= j <= s@.len(),
            first_match(s@, i as int, j as int) is None,
        decreases s@.len() - j,
    {
        if !s[j].bullet.ply && intersects(s[i].x, s[i].y, BULLET_HALF, s[j].x, s[j].y, BULLET_HALF) {
            proof {
                lemma_first_match_stable(s@, i as int, j as int + 1, s@.len() as int);
            }
            return Some(j);
        }
        j += 1;
    }
    None
}

/// Once found among the first `n`, the first match stays the same for any
/// larger prefix.
proof fn lemma_first_match_stable(s: Seq<BulletBundle>, i: int, n: int, m: int)
    requires
        n <= m,
        first_match(s, i, n) is Some,
    ensures
        first_match(s, i, m) == first_match(s, i, n),
    decreases m - n,
{
    if m > n {
        lemma_first_match_stable(s, i, n, m - 1);
    }
}

/// Removes the elements whose mark is set, keeping the order of the rest.
pub fn retain_unmarked<T: Copy>(v: &mut Vec<T>, marks: &Vec<bool>)
    requires
        old(v)@.len() == marks@.len(),
    ensures
        final(v)@ == keep_unmarked(old(v)@, marks@),
{
    let ghost src = v@;
    let mut out: Vec<T> = Vec::new();
    let mut i: usize = 0;
    while i < v.len()
        invariant
            src == v@,
            src.len() == marks@.len(),
            0 <= i <= src.len(),
            out@ == keep_unmarked(src.take(i as int), marks@.take(i as int)),
        decreases src.len() - i,
    {
        if !marks[i] {
            out.push(v[i]);
        }
        proof {
            assert(src.take(i + 1).drop_last() =~= src.take(i as int));
            assert(marks@.take(i + 1).take(i as int) =~= marks@.take(i as int));
        }
        i += 1;
    }
    assert(src.take(i as int) =~= src);
    assert(marks@.take(i as int) =~= marks@);
    *v = out;
}

/// Removes every player's projectile that touches a hostile one, together
/// with the first hostile one it touches. No damage is dealt.
pub fn bullet_on_bullet_collision(bullets: &mut Vec<BulletBundle>)
    ensures
        final(bullets)@ == keep_unmarked(old(bullets)@, collision_marks(old(bullets)@)),
{
    let n = bullets.len();
    let ghost s = bullets@;
    let mut marks: Vec<bool> = Vec::new();
    let mut k: usize = 0;
    while k < n
        invariant
            s == bullets@,
            n == s.len(),
            0 <= k <= n,
            marks@ == Seq::new(k as nat, |q: int| doomed_upto(s, q, 0)),
        decreases n - k,
    {
        marks.push(false);
        proof {
            assert(!doomed_upto(s, k as int, 0));
            assert(marks@ =~= Seq::new((k + 1) as nat, |q: int| doomed_upto(s, q, 0)));
        }
        k += 1;
    }
    let mut i: usize = 0;
    while i < n
        invariant
            s == bullets@,
            n == s.len(),
            0 <= i <= n,
            marks@ == Seq::new(n as nat, |q: int| doomed_upto(s, q, i as int)),
        decreases n - i,
    {
        if bullets[i].bullet.ply {
            match first_hostile_hit(bullets, i) {
                Some(j) => {
                    marks.set(i, true);
                    marks.set(j, true);
                },
                None => {},
            }
        }
        proof {
            let ii = i as int;
            let fm = first_match(s, ii, n as int);
            lemma_first_match(s, ii, n as int);
            assert forall|q: int| 0 <= q < n implies #[trigger] marks@[q] == doomed_upto(s, q, ii + 1) by {
                if !s[q].bullet.ply {
                    if doomed_upto(s, q, ii + 1) && !(s[ii].bullet.ply && fm == Some(q)) {
                        let f = choose|f: int| 0 <= f < ii + 1 && s[f].bullet.ply && first_match(s, f, s.len() as int) == Some(q);
                        assert(f < ii);
                        assert(doomed_upto(s, q, ii));
                    }
                    if doomed_upto(s, q, ii) {
                        let f = choose|f: int| 0 <= f < ii && s[f].bullet.ply && first_match(s, f, s.len() as int) == Some(q);
                        assert(0 <= f < ii + 1 && s[f].bullet.ply && first_match(s, f, s.len() as int) == Some(q));
                    }
                    if s[ii].bullet.ply && fm == Some(q) {
                        assert(0 <= ii < ii + 1 && s[ii].bullet.ply && first_match(s, ii, s.len() as int) == Some(q));
                    }
                }
            }
            assert(marks@ =~= Seq::new(n as nat, |q: int| doomed_upto(s, q, i + 1)));
        }
        i += 1;
    }
    assert(marks@ =~= collision_marks(s));
    retain_unmarked(bullets, &marks);
}

/// Mutual annihilation: a player's projectile that touches any hostile one
/// is destroyed by the bullet-on-bullet pass, and so is the first hostile
/// projectile it touches.
pub proof fn lemma_annihilation(s: Seq<BulletBundle>, i: int, j: int)
    requires
        0 <= i < s.len(),
        0 <= j < s.len(),
        s[i].bullet.ply,
        !s[j].bullet.ply,
        bullets_touch(s[i], s[j]),
    ensures
        collision_marks(s)[i],
        first_match(s, i, s.len() as int) matches Some(k) && collision_marks(s)[k] && !s[k].bullet.ply
            && bullets_touch(s[i], s[k]),
{
    lemma_first_match(s, i, s.len() as int);
    let k = first_match(s, i, s.len() as int).unwrap();
    assert(0 <= i < s.len() && s[i].bullet.ply && first_match(s, i, s.len() as int) == Some(k));
    assert(doomed_upto(s, k, s.len() as int));
}

/// A projectile's step moves it by exactly its curves' values at the new
/// lifetime, times its direction, from its (wrapped) position: the
/// displacement depends on direction, curves, lifetime and step alone.
pub proof fn lemma_displacement(a: BulletBundle, b: BulletBundle, dt: u64)
    requires
        a.bullet == b.bullet,
        spec_advance(a, dt) is Some,
        spec_advance(b, dt) is Some,
        i64::MIN <= wrap_x(a.x, a.bullet.ply) + a.bullet.fx.at(sat_add_u64(a.bullet.tick, dt)) * a.bullet.dir <= i64::MAX,
        i64::MIN <= wrap_x(b.x, b.bullet.ply) + b.bullet.fx.at(sat_add_u64(b.bullet.tick, dt)) * b.bullet.dir <= i64::MAX,
        i64::MIN <= a.y + a.bullet.fy.at(sat_add_u64(a.bullet.tick, dt)) * a.bullet.dir <= i64::MAX,
        i64::MIN <= b.y + b.bullet.fy.at(sat_add_u64(b.bullet.tick, dt)) * b.bullet.dir <= i64::MAX,
    ensures
        spec_advance(a, dt).unwrap().x - wrap_x(a.x, a.bullet.ply) == a.bullet.fx.at(
            sat_add_u64(a.bullet.tick, dt),
        ) * a.bullet.dir,
        spec_advance(a, dt).unwrap().y - a.y == a.bullet.fy.at(sat_add_u64(a.bullet.tick, dt))
            * a.bullet.dir,
        spec_advance(a, dt).unwrap().x - wrap_x(a.x, a.bullet.ply) == spec_advance(b, dt).unwrap().x
            - wrap_x(b.x, b.bullet.ply),
        spec_advance(a, dt).unwrap().y - a.y == spec_advance(b, dt).unwrap().y - b.y,
        spec_advance(a, dt).unwrap().bullet == spec_advance(b, dt).unwrap().bullet,
{
}

} // verus!
