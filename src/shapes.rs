use vstd::prelude::*;
use crate::gun::BulletBlueprint;
use crate::motion::{Curve, tdiv, cos_milli, sin_milli, trunc_div, cos_milli_exec, sin_milli_exec};
use crate::timer::{Timer, TimerMode};

verus! {

/// Bound on the coordinates handed to the point generators.
pub const SPAN_MAX: i64 = 4_000_000_000_000_000_000;

/// Bound on coordinates, offsets and sizes of a shape gun.
pub const SHAPE_COORD_MAX: i64 = 1_000_000_000_000;

/// Bound on the scale factors of a shape (thousandths).
pub const SHAPE_SCALE_MAX: i64 = 1_000_000;

/// Smallest size of a shape gun: one pixel.
pub const MIN_SHAPE_SIZE: i64 = 1000;

/// The triangle's height factor, the square root of three, in thousandths.
pub const SQRT_3_MILLI: i64 = 1732;

/// Point `i` of `n` evenly spaced from `a` toward `b`, rounded toward `a`.
pub open spec fn lerp(a: int, b: int, i: int, n: int) -> int {
    a + tdiv(i * (b - a), n)
}

/// `n` points evenly spaced on the segment from `(x1, y1)` toward
/// `(x2, y2)`, the end point excluded.
pub open spec fn line_points(x1: i64, y1: i64, x2: i64, y2: i64, n: nat) -> Seq<(i64, i64)> {
    Seq::new(n, |i: int| (lerp(x1 as int, x2 as int, i, n as int) as i64, lerp(y1 as int, y2 as int, i, n as int) as i64))
}

/// `n` points evenly spaced around a circle, starting to the right of the
/// centre and turning counter-clockwise.
pub open spec fn circle_points(cx: i64, cy: i64, r: i64, n: nat) -> Seq<(i64, i64)> {
    Seq::new(
        n,
        |i: int|
            {
                let p = i * 1000 / (n as int);
                ((cx + tdiv(r * cos_milli(p), 1000)) as i64, (cy + tdiv(r * sin_milli(p), 1000)) as i64)
            },
    )
}

/// Spacing of the points on one side of a square.
pub open spec fn square_spacing(side: i64, n: nat) -> int {
    if n == 0 { 0 } else { tdiv(side as int, n as int) }
}

/// The points of the top and bottom sides of a square, in pairs.
pub open spec fn square_rows(cx: i64, cy: i64, side: i64, n: nat) -> Seq<(i64, i64)> {
    let half = tdiv(side as int, 2);
    Seq::new(
        2 * n,
        |k: int|
            {
                let x = cx - half + (k / 2) * square_spacing(side, n);
                if k % 2 == 0 { (x as i64, (cy + half) as i64) } else { (x as i64, (cy - half) as i64) }
            },
    )
}

/// The points of the right and left sides of a square, in pairs, the
/// bottom corners excluded.
pub open spec fn square_columns(cx: i64, cy: i64, side: i64, n: nat) -> Seq<(i64, i64)> {
    let half = tdiv(side as int, 2);
    Seq::new(
        if n == 0 { 0 } else { (2 * (n - 1)) as nat },
        |k: int|
            {
                let y = cy - half + (k / 2 + 1) * square_spacing(side, n);
                if k % 2 == 0 { ((cx + half) as i64, y as i64) } else { ((cx - half) as i64, y as i64) }
            },
    )
}

/// The points of a square's outline, `n` to a side.
pub open spec fn square_points(cx: i64, cy: i64, side: i64, n: nat) -> Seq<(i64, i64)> {
    square_rows(cx, cy, side, n) + square_columns(cx, cy, side, n)
}

/// The points of a triangle's outline: `n` from `a` toward `b`, `n` from
/// `a` toward `c`, and `n` from `c` toward `b`.
pub open spec fn triangle_points(a: (i64, i64), b: (i64, i64), c: (i64, i64), n: nat) -> Seq<(i64, i64)> {
    line_points(a.0, a.1, b.0, b.1, n) + line_points(a.0, a.1, c.0, c.1, n) + line_points(
        c.0,
        c.1,
        b.0,
        b.1,
        n,
    )
}

pub open spec fn in_span(v: int) -> bool {
    -SPAN_MAX <= v <= SPAN_MAX
}

/// A fraction `i / n` below one of `d` lies between zero and `d`.
proof fn lemma_tdiv_fraction(i: int, d: int, n: int)
    requires
        0 <= i < n,
    ensures
        d >= 0 ==> 0 <= tdiv(i * d, n) <= d,
        d < 0 ==> d <= tdiv(i * d, n) <= 0,
{
    if d >= 0 {
        assert(0 <= i * d <= n * d) by (nonlinear_arith)
            requires
                0 <= i < n,
                d >= 0,
        ;
        assert((i * d) / n <= d) by (nonlinear_arith)
            requires
                0 <= i * d <= n * d,
                n > 0,
        ;
        assert((i * d) / n >= 0) by (nonlinear_arith)
            requires
                0 <= i * d,
                n > 0,
        ;
    } else {
        let m = -d;
        assert(i * d == -(i * m)) by (nonlinear_arith)
            requires
                m == -d,
        ;
        assert(0 <= i * m <= n * m) by (nonlinear_arith)
            requires
                0 <= i < n,
                m > 0,
        ;
        assert((i * m) / n <= m) by (nonlinear_arith)
            requires
                0 <= i * m <= n * m,
                n > 0,
        ;
        assert((i * m) / n >= 0) by (nonlinear_arith)
            requires
                0 <= i * m,
                n > 0,
        ;
        if i * m == 0 {
            assert(i * d == 0);
        }
    }
}

/// Point `i` of `n` from `a` toward `b`, as `lerp`.
fn lerp_exec(a: i64, b: i64, i: usize, n: usize) -> (r: i64)
    requires
        i < n,
        in_span(a as int),
        in_span(b as int),
    ensures
        r == lerp(a as int, b as int, i as int, n as int),
        a <= b ==> a <= r <= b,
        b <= a ==> b <= r <= a,
{
    let d: i128 = b as i128 - a as i128;
    let ii: i128 = i as i128;
    let nn: i128 = n as i128;
    assert(-150_000_000_000_000_000_000_000_000_000_000_000_000 <= ii * d
        <= 150_000_000_000_000_000_000_000_000_000_000_000_000) by (nonlinear_arith)
        requires
            0 <= ii <= 18_446_744_073_709_551_615,
            -8_000_000_000_000_000_000 <= d <= 8_000_000_000_000_000_000,
    ;
    let q = trunc_div(ii * d, nn);
    proof {
        lemma_tdiv_fraction(i as int, d as int, n as int);
    }
    (a as i128 + q) as i64
}

/// `num_bullets` points evenly spaced on the segment from `(x1, y1)` toward
/// `(x2, y2)`.
pub fn generate_line(x1: i64, y1: i64, x2: i64, y2: i64, num_bullets: usize) -> (r: Vec<(i64, i64)>)
    requires
        in_span(x1 as int),
        in_span(y1 as int),
        in_span(x2 as int),
        in_span(y2 as int),
    ensures
        r@ == line_points(x1, y1, x2, y2, num_bullets as nat),
{
    let mut v: Vec<(i64, i64)> = Vec::new();
    let mut i: usize = 0;
    while i < num_bullets
        invariant
            0 <= i <= num_bullets,
            in_span(x1 as int),
            in_span(y1 as int),
            in_span(x2 as int),
            in_span(y2 as int),
            v@ == line_points(x1, y1, x2, y2, num_bullets as nat).take(i as int),
        decreases num_bullets - i,
    {
        let bx = lerp_exec(x1, x2, i, num_bullets);
        let by = lerp_exec(y1, y2, i, num_bullets);
        v.push((bx, by));
        i += 1;
        assert(v@ =~= line_points(x1, y1, x2, y2, num_bullets as nat).take(i as int));
    }
    assert(v@ =~= line_points(x1, y1, x2, y2, num_bullets as nat));
    v
}

/// `num_bullets` points around the circle of radius `radius`.
pub fn generate_circle(center_x: i64, center_y: i64, radius: i64, num_bullets: usize) -> (r: Vec<(i64, i64)>)
    requires
        -SHAPE_COORD_MAX * 4000 <= center_x <= SHAPE_COORD_MAX * 4000,
        -SHAPE_COORD_MAX * 4000 <= center_y <= SHAPE_COORD_MAX * 4000,
        -SHAPE_COORD_MAX * 4000 <= radius <= SHAPE_COORD_MAX * 4000,
    ensures
        r@ == circle_points(center_x, center_y, radius, num_bullets as nat),
{
    let mut v: Vec<(i64, i64)> = Vec::new();
    let mut i: usize = 0;
    while i < num_bullets
        invariant
            0 <= i <= num_bullets,
            -SHAPE_COORD_MAX * 4000 <= center_x <= SHAPE_COORD_MAX * 4000,
            -SHAPE_COORD_MAX * 4000 <= center_y <= SHAPE_COORD_MAX * 4000,
            -SHAPE_COORD_MAX * 4000 <= radius <= SHAPE_COORD_MAX * 4000,
            v@ == circle_points(center_x, center_y, radius, num_bullets as nat).take(i as int),
        decreases num_bullets - i,
    {
        assert(0 <= (i as int) * 1000 / (num_bullets as int) <= 1000) by (nonlinear_arith)
            requires
                0 <= i < num_bullets,
        ;
        let p: u64 = ((i as u128) * 1000 / (num_bullets as u128)) as u64;
        let c = cos_milli_exec(p);
        let s = sin_milli_exec(p);
        assert(-4_000_000_000_000_000_000 <= radius * c <= 4_000_000_000_000_000_000) by (nonlinear_arith)
            requires
                -4_000_000_000_000_000 <= radius <= 4_000_000_000_000_000,
                -1000 <= c <= 1000,
        ;
        assert(-4_000_000_000_000_000_000 <= radius * s <= 4_000_000_000_000_000_000) by (nonlinear_arith)
            requires
                -4_000_000_000_000_000 <= radius <= 4_000_000_000_000_000,
                -1000 <= s <= 1000,
        ;
        let dx = trunc_div(radius as i128 * c as i128, 1000);
        let dy = trunc_div(radius as i128 * s as i128, 1000);
        v.push(((center_x as i128 + dx) as i64, (center_y as i128 + dy) as i64));
        i += 1;
        assert(v@ =~= circle_points(center_x, center_y, radius, num_bullets as nat).take(i as int));
    }
    assert(v@ =~= circle_points(center_x, center_y, radius, num_bullets as nat));
    v
}

/// Bound on the centre and side handed to the square generator.
pub const SQUARE_MAX: i64 = 1_000_000_000_000_000_000;

/// `i` spacings of a side split in `n` stay within the side's length.
proof fn lemma_spacing_bound(side: int, i: int, n: int)
    requires
        0 <= i < n,
    ensures
        side >= 0 ==> 0 <= i * tdiv(side, n) <= side,
        side < 0 ==> side <= i * tdiv(side, n) <= 0,
{
    if side >= 0 {
        let q = side / n;
        assert(0 <= q && n * q <= side) by (nonlinear_arith)
            requires
                side >= 0,
                n > 0,
                q == side / n,
        ;
        assert(0 <= i * q <= n * q) by (nonlinear_arith)
            requires
                0 <= i < n,
                q >= 0,
        ;
    } else {
        let q = (-side) / n;
        assert(0 <= q && n * q <= -side) by (nonlinear_arith)
            requires
                -side > 0,
                n > 0,
                q == (-side) / n,
        ;
        assert(0 <= i * q <= n * q) by (nonlinear_arith)
            requires
                0 <= i < n,
                q >= 0,
        ;
        assert(i * (-q) == -(i * q)) by (nonlinear_arith);
    }
}

/// The outline of a square of side `side` centred on the given point,
/// `num_bullets_per_side` points to a side.
pub fn generate_square(center_x: i64, center_y: i64, side_length: i64, num_bullets_per_side: usize) -> (r: Vec<(i64, i64)>)
    requires
        -SQUARE_MAX <= center_x <= SQUARE_MAX,
        -SQUARE_MAX <= center_y <= SQUARE_MAX,
        -SQUARE_MAX <= side_length <= SQUARE_MAX,
    ensures
        r@ == square_points(center_x, center_y, side_length, num_bullets_per_side as nat),
{
    let n = num_bullets_per_side;
    let ghost nn = n as nat;
    let half: i128 = trunc_div(side_length as i128, 2);
    let spacing: i128 = if n == 0 { 0 } else { trunc_div(side_length as i128, n as i128) };
    assert(spacing == square_spacing(side_length, nn));
    let mut v: Vec<(i64, i64)> = Vec::new();
    let mut i: usize = 0;
    while i < n
        invariant
            0 <= i <= n,
            nn == n,
            -SQUARE_MAX <= center_x <= SQUARE_MAX,
            -SQUARE_MAX <= center_y <= SQUARE_MAX,
            -SQUARE_MAX <= side_length <= SQUARE_MAX,
            half == tdiv(side_length as int, 2),
            spacing == square_spacing(side_length, nn),
            v@ == square_rows(center_x, center_y, side_length, nn).take(2 * i),
        decreases n - i,
    {
        proof {
            lemma_spacing_bound(side_length as int, i as int, n as int);
        }
        let x = (center_x as i128 - half + i as i128 * spacing) as i64;
        v.push((x, (center_y as i128 + half) as i64));
        v.push((x, (center_y as i128 - half) as i64));
        proof {
            let rows = square_rows(center_x, center_y, side_length, nn);
            assert((2 * i as int) / 2 == i && (2 * i as int) % 2 == 0);
            assert((2 * i as int + 1) / 2 == i && (2 * i as int + 1) % 2 == 1);
            assert(v@ =~= rows.take(2 * i + 2));
        }
        i += 1;
    }
    assert(v@ =~= square_rows(center_x, center_y, side_length, nn));
    let ghost rows = v@;
    let mut j: usize = 1;
    while j < n
        invariant
            1 <= j,
            n == 0 ==> j == 1,
            n == 0 || j <= n,
            nn == n,
            -SQUARE_MAX <= center_x <= SQUARE_MAX,
            -SQUARE_MAX <= center_y <= SQUARE_MAX,
            -SQUARE_MAX <= side_length <= SQUARE_MAX,
            half == tdiv(side_length as int, 2),
            spacing == square_spacing(side_length, nn),
            rows == square_rows(center_x, center_y, side_length, nn),
            v@ == rows + square_columns(center_x, center_y, side_length, nn).take(2 * (j - 1)),
        decreases n - j,
    {
        proof {
            lemma_spacing_bound(side_length as int, j as int, n as int);
        }
        let y = (center_y as i128 - half + j as i128 * spacing) as i64;
        v.push(((center_x as i128 + half) as i64, y));
        v.push(((center_x as i128 - half) as i64, y));
        proof {
            let cols = square_columns(center_x, center_y, side_length, nn);
            let k = 2 * (j - 1);
            assert(k / 2 + 1 == j && k % 2 == 0);
            assert((k + 1) / 2 + 1 == j && (k + 1) % 2 == 1);
            assert(v@ =~= rows + cols.take(k + 2));
        }
        j += 1;
    }
    proof {
        let cols = square_columns(center_x, center_y, side_length, nn);
        if n == 0 {
            assert(cols.len() == 0);
        } else {
            assert(j == n);
        }
        assert(cols.take(2 * (j - 1)) =~= cols);
    }
    assert(v@ =~= square_points(center_x, center_y, side_length, nn));
    v
}

/// The outline of the triangle `a b c`, `num_bullets` points to a side.
pub fn generate_triangle(a: (i64, i64), b: (i64, i64), c: (i64, i64), num_bullets: usize) -> (r: Vec<(i64, i64)>)
    requires
        in_span(a.0 as int),
        in_span(a.1 as int),
        in_span(b.0 as int),
        in_span(b.1 as int),
        in_span(c.0 as int),
        in_span(c.1 as int),
    ensures
        r@ == triangle_points(a, b, c, num_bullets as nat),
{
    let mut v: Vec<(i64, i64)> = Vec::new();
    let mut line_0 = generate_line(a.0, a.1, b.0, b.1, num_bullets);
    let mut line_1 = generate_line(a.0, a.1, c.0, c.1, num_bullets);
    let mut line_2 = generate_line(c.0, c.1, b.0, b.1, num_bullets);
    v.append(&mut line_0);
    v.append(&mut line_1);
    v.append(&mut line_2);
    v
}

/// The kinds of outline a shape gun can fire.
#[derive(Clone, Copy, Debug, PartialEq, Eq, Structural)]
pub enum ShapeType {
    Triangle,
    Square,
    Circle,
    HorizontalLine,
    VerticalLine,
}

/// One outline of a shape gun's burst: its offset from the firing point,
/// its kind, and its scale on each axis (thousandths of the gun's size).
#[derive(Clone, Copy, Debug)]
pub struct ShapeBloop {
    pub offset: (i64, i64),
    pub num_bullets: usize,
    pub t: ShapeType,
    pub size_scale: (i64, i64),
}

impl ShapeBloop {
    pub open spec fn wf(self) -> bool {
        &&& -SHAPE_COORD_MAX <= self.offset.0 <= SHAPE_COORD_MAX
        &&& -SHAPE_COORD_MAX <= self.offset.1 <= SHAPE_COORD_MAX
        &&& 0 <= self.size_scale.0 <= SHAPE_SCALE_MAX
        &&& 0 <= self.size_scale.1 <= SHAPE_SCALE_MAX
    }
}

/// Points handed out per outline for each hundred pixels of size.
pub const SHAPE_BULLET_SIZE: usize = 25;

/// A weapon that fires outlines of projectiles around the firing point,
/// with a limited number of shots refilled by a one-shot timer.
#[derive(Clone, Debug)]
pub struct ShapeGun {
    pub max_shots: u64,
    pub shots: u64,
    pub size: i64,
    pub timer: Timer,
    pub reload_time: u64,
    pub bullet_size: usize,
    pub bloops: Vec<ShapeBloop>,
    pub bullet: BulletBlueprint,
}

/// What a shape gun holds, with its outlines as a sequence.
pub struct ShapeGunModel {
    pub max_shots: u64,
    pub shots: u64,
    pub size: i64,
    pub timer: Timer,
    pub reload_time: u64,
    pub bullet_size: usize,
    pub bloops: Seq<ShapeBloop>,
    pub bullet: BulletBlueprint,
}

impl View for ShapeGun {
    type V = ShapeGunModel;

    open spec fn view(&self) -> ShapeGunModel {
        ShapeGunModel {
            max_shots: self.max_shots,
            shots: self.shots,
            size: self.size,
            timer: self.timer,
            reload_time: self.reload_time,
            bullet_size: self.bullet_size,
            bloops: self.bloops@,
            bullet: self.bullet,
        }
    }
}

/// The size of a shape gun after a request for `size`: at least one pixel,
/// at most the coordinate bound.
pub open spec fn clamp_shape_size(size: i64) -> i64 {
    if size < MIN_SHAPE_SIZE {
        MIN_SHAPE_SIZE
    } else if size > SHAPE_COORD_MAX {
        SHAPE_COORD_MAX
    } else {
        size
    }
}

impl ShapeGun {
    pub open spec fn wf(self) -> bool {
        &&& MIN_SHAPE_SIZE <= self.size <= SHAPE_COORD_MAX
        &&& self.bullet_size <= 100
        &&& forall|i: int| 0 <= i < self.bloops@.len() ==> #[trigger] self.bloops@[i].wf()
    }

    /// Points per outline.
    pub open spec fn bullet_count(self) -> nat {
        ((self.size / 100_000) * self.bullet_size) as nat
    }

    /// The outline `b` fired from `(x, y)`.
    pub open spec fn bloop_points(self, b: ShapeBloop, x: i64, y: i64) -> Seq<(i64, i64)> {
        let n = self.bullet_count();
        let sx = tdiv(self.size * b.size_scale.0, 1000);
        let sy = tdiv(self.size * b.size_scale.1, 1000);
        let ox = x + b.offset.0;
        let oy = y + b.offset.1;
        match b.t {
            ShapeType::HorizontalLine => line_points(
                (ox - sx) as i64,
                oy as i64,
                (ox + sx) as i64,
                oy as i64,
                n,
            ),
            ShapeType::VerticalLine => line_points(
                ox as i64,
                (oy - sy) as i64,
                ox as i64,
                (oy + sy) as i64,
                n,
            ),
            ShapeType::Square => square_points(ox as i64, oy as i64, sx as i64, n / 2),
            ShapeType::Circle => circle_points(ox as i64, oy as i64, tdiv(sx, 2) as i64, n),
            ShapeType::Triangle => triangle_points(
                ((ox - tdiv(sx, 2)) as i64, oy as i64),
                ((ox + tdiv(sx, 2)) as i64, oy as i64),
                (ox as i64, (oy + tdiv(tdiv(sy, 2) * SQRT_3_MILLI, 1000)) as i64),
                n / 3,
            ),
        }
    }

    /// The outlines of `bloops` fired from `(x, y)`, in order.
    pub open spec fn burst_points(self, bloops: Seq<ShapeBloop>, x: i64, y: i64) -> Seq<(i64, i64)>
        decreases bloops.len(),
    {
        if bloops.len() == 0 {
            Seq::empty()
        } else {
            self.burst_points(bloops.drop_last(), x, y) + self.bloop_points(bloops.last(), x, y)
        }
    }

    pub fn new(max_shots: u64, size: i64, reload: u64, bloops: Vec<ShapeBloop>, bullet: BulletBlueprint) -> (r:
        ShapeGun)
        ensures
            r.max_shots == max_shots,
            r.shots == max_shots,
            r.size == clamp_shape_size(size),
            r.reload_time == reload,
            r.timer == (Timer { duration: reload, elapsed: 0, finished: false, mode: TimerMode::Once }),
            r.bloops@ == bloops@,
            r.bullet == bullet,
            r.bullet_size == SHAPE_BULLET_SIZE,
    {
        let mut g = ShapeGun {
            max_shots,
            shots: max_shots,
            size: MIN_SHAPE_SIZE,
            reload_time: reload,
            timer: Timer::new(reload, TimerMode::Once),
            bloops,
            bullet,
            bullet_size: SHAPE_BULLET_SIZE,
        };
        g.set_size(size);
        g
    }

    /// Ten shots of a 200 pixel burst, ten seconds to reload, no outlines,
    /// firing slow falling projectiles of the player's side.
    pub fn default_gun() -> (r: ShapeGun)
        ensures
            r.max_shots == 10,
            r.shots == 10,
            r.size == 200_000,
            r.reload_time == 10_000_000,
            r.timer == (Timer { duration: 10_000_000, elapsed: 0, finished: false, mode: TimerMode::Once }),
            r.bloops@.len() == 0,
            r.bullet_size == SHAPE_BULLET_SIZE,
            r.wf(),
    {
        ShapeGun::new(
            10,
            200_000,
            10_000_000,
            Vec::new(),
            BulletBlueprint {
                dir: 1,
                fy: Curve::Quadratic { k: 1000 },
                fx: Curve::Constant { v: 0 },
                tick: 0,
                ply: true,
                damage: 50,
            },
        )
    }

    /// The points of every outline fired from `(x, y)`.
    pub fn get_shapes(&self, x: i64, y: i64) -> (r: Vec<(i64, i64)>)
        requires
            self.wf(),
            -SHAPE_COORD_MAX <= x <= SHAPE_COORD_MAX,
            -SHAPE_COORD_MAX <= y <= SHAPE_COORD_MAX,
        ensures
            r@ == self.burst_points(self.bloops@, x, y),
    {
        let per: usize = (self.size / 100_000) as usize;
        assert(per * self.bullet_size <= 1_000_000_000) by (nonlinear_arith)
            requires
                0 <= per <= 10_000_000,
                self.bullet_size <= 100,
        ;
        let count: usize = per * self.bullet_size;
        let mut v: Vec<(i64, i64)> = Vec::new();
        let mut i: usize = 0;
        while i < self.bloops.len()
            invariant
                self.wf(),
                -SHAPE_COORD_MAX <= x <= SHAPE_COORD_MAX,
                -SHAPE_COORD_MAX <= y <= SHAPE_COORD_MAX,
                count == self.bullet_count(),
                0 <= i <= self.bloops@.len(),
                v@ == self.burst_points(self.bloops@.take(i as int), x, y),
            decreases self.bloops@.len() - i,
        {
            let b = self.bloops[i];
            assert(b.wf());
            let mut pts = self.outline(b, x, y, count);
            v.append(&mut pts);
            proof {
                assert(self.bloops@.take(i + 1).drop_last() =~= self.bloops@.take(i as int));
            }
            i += 1;
        }
        assert(self.bloops@.take(i as int) =~= self.bloops@);
        v
    }

    /// The points of one outline fired from `(x, y)`.
    fn outline(&self, b: ShapeBloop, x: i64, y: i64, count: usize) -> (r: Vec<(i64, i64)>)
        requires
            self.wf(),
            b.wf(),
            count == self.bullet_count(),
            -SHAPE_COORD_MAX <= x <= SHAPE_COORD_MAX,
            -SHAPE_COORD_MAX <= y <= SHAPE_COORD_MAX,
        ensures
            r@ == self.bloop_points(b, x, y),
    {
        assert(0 <= self.size * b.size_scale.0 <= 1_000_000_000_000_000_000) by (nonlinear_arith)
            requires
                0 <= self.size <= 1_000_000_000_000,
                0 <= b.size_scale.0 <= 1_000_000,
        ;
        assert(0 <= self.size * b.size_scale.1 <= 1_000_000_000_000_000_000) by (nonlinear_arith)
            requires
                0 <= self.size <= 1_000_000_000_000,
                0 <= b.size_scale.1 <= 1_000_000,
        ;
        let sx: i64 = (self.size * b.size_scale.0) / 1000;
        let sy: i64 = (self.size * b.size_scale.1) / 1000;
        let ox: i64 = x + b.offset.0;
        let oy: i64 = y + b.offset.1;
        match b.t {
            ShapeType::HorizontalLine => generate_line(ox - sx, oy, ox + sx, oy, count),
            ShapeType::VerticalLine => generate_line(ox, oy - sy, ox, oy + sy, count),
            ShapeType::Square => generate_square(ox, oy, sx, count / 2),
            ShapeType::Circle => generate_circle(ox, oy, sx / 2, count),
            ShapeType::Triangle => {
                let h: i64 = (sy / 2) * SQRT_3_MILLI / 1000;
                generate_triangle((ox - sx / 2, oy), (ox + sx / 2, oy), (ox, oy + h), count / 3)
            },
        }
    }

    /// Spends one shot; with none left it stays at none.
    pub fn shoot(&mut self)
        ensures
            final(self).shots == if old(self).shots > 0 { (old(self).shots - 1) as u64 } else { 0 },
            final(self).max_shots == old(self).max_shots,
            final(self).size == old(self).size,
            final(self).timer == old(self).timer,
            final(self).reload_time == old(self).reload_time,
            final(self).bullet_size == old(self).bullet_size,
            final(self).bloops@ == old(self).bloops@,
            final(self).bullet == old(self).bullet,
    {
        self.shots = if self.shots > 0 { self.shots - 1 } else { 0 };
    }

    /// Refills the shots and starts the reload timer over.
    pub fn reload(&mut self)
        ensures
            final(self).shots == old(self).max_shots,
            final(self).timer == old(self).timer.spec_reset(),
            final(self).max_shots == old(self).max_shots,
            final(self).size == old(self).size,
            final(self).reload_time == old(self).reload_time,
            final(self).bullet_size == old(self).bullet_size,
            final(self).bloops@ == old(self).bloops@,
            final(self).bullet == old(self).bullet,
    {
        self.shots = self.max_shots;
        self.timer.reset();
    }

    pub fn set_max_shots(&mut self, shots: u64)
        ensures
            final(self).max_shots == shots,
            final(self).shots == old(self).shots,
            final(self).size == old(self).size,
            final(self).timer == old(self).timer,
            final(self).reload_time == old(self).reload_time,
            final(self).bullet_size == old(self).bullet_size,
            final(self).bloops@ == old(self).bloops@,
            final(self).bullet == old(self).bullet,
    {
        self.max_shots = shots;
    }

    pub fn get_max_shots(&self) -> (r: u64)
        ensures
            r == self.max_shots,
    {
        self.max_shots
    }

    pub fn get_shots(&self) -> (r: u64)
        ensures
            r == self.shots,
    {
        self.shots
    }

    /// Sets the reload time, and the reload timer's duration with it.
    pub fn set_reload_time(&mut self, t: u64)
        ensures
            final(self).reload_time == t,
            final(self).timer == (Timer { duration: t, ..old(self).timer }),
            final(self).max_shots == old(self).max_shots,
            final(self).shots == old(self).shots,
            final(self).size == old(self).size,
            final(self).bullet_size == old(self).bullet_size,
            final(self).bloops@ == old(self).bloops@,
            final(self).bullet == old(self).bullet,
    {
        self.reload_time = t;
        self.timer.set_duration(t);
    }

    pub fn add_bloop(&mut self, bloop: ShapeBloop)
        ensures
            final(self).bloops@ == old(self).bloops@.push(bloop),
            final(self).max_shots == old(self).max_shots,
            final(self).shots == old(self).shots,
            final(self).size == old(self).size,
            final(self).timer == old(self).timer,
            final(self).reload_time == old(self).reload_time,
            final(self).bullet_size == old(self).bullet_size,
            final(self).bullet == old(self).bullet,
    {
        self.bloops.push(bloop);
    }

    /// Removes the outline at `index`, counted around the list.
    pub fn remove_bloop(&mut self, index: usize)
        requires
            old(self).bloops@.len() > 0,
        ensures
            final(self).bloops@ == old(self).bloops@.remove((index as int) % (old(self).bloops@.len() as int)),
            final(self).max_shots == old(self).max_shots,
            final(self).shots == old(self).shots,
            final(self).size == old(self).size,
            final(self).timer == old(self).timer,
            final(self).reload_time == old(self).reload_time,
            final(self).bullet_size == old(self).bullet_size,
            final(self).bullet == old(self).bullet,
    {
        let n = self.bloops.len();
        self.bloops.remove(index % n);
    }

    /// Sets the burst size, kept between one pixel and the coordinate bound.
    pub fn set_size(&mut self, size: i64)
        ensures
            final(self).size == clamp_shape_size(size),
            final(self).max_shots == old(self).max_shots,
            final(self).shots == old(self).shots,
            final(self).timer == old(self).timer,
            final(self).reload_time == old(self).reload_time,
            final(self).bullet_size == old(self).bullet_size,
            final(self).bloops@ == old(self).bloops@,
            final(self).bullet == old(self).bullet,
    {
        self.size = if size < MIN_SHAPE_SIZE {
            MIN_SHAPE_SIZE
        } else if size > SHAPE_COORD_MAX {
            SHAPE_COORD_MAX
        } else {
            size
        };
    }

    pub fn get_size(&self) -> (r: i64)
        ensures
            r == self.size,
    {
        self.size
    }
}

} // verus!
