use vstd::prelude::*;

verus! {

pub open spec fn abs(v: int) -> int {
    if v < 0 {
        -v
    } else {
        v
    }
}

/// Two axis-aligned squares, given by centre and half side, touch or
/// overlap (edges count).
pub open spec fn boxes_overlap(ax: int, ay: int, ah: int, bx: int, by: int, bh: int) -> bool {
    abs(ax - bx) <= ah + bh && abs(ay - by) <= ah + bh
}

/// How far `v` lies outside `[c - h, c + h]`, zero inside it.
pub open spec fn gap(v: int, c: int, h: int) -> int {
    if abs(v - c) > h {
        abs(v - c) - h
    } else {
        0
    }
}

/// A circle touches or overlaps an axis-aligned square: the point of the
/// square nearest the circle's centre lies within the radius.
pub open spec fn circle_meets_box(cx: int, cy: int, r: int, bx: int, by: int, bh: int) -> bool {
    let dx = gap(cx, bx, bh);
    let dy = gap(cy, by, bh);
    dx * dx + dy * dy <= r * r
}

fn abs_diff(a: i64, b: i64) -> (r: i128)
    ensures
        r == abs(a - b),
{
    let d: i128 = a as i128 - b as i128;
    if d < 0 {
        -d
    } else {
        d
    }
}

/// Whether the squares centred on `(ax, ay)` and `(bx, by)`, with half
/// sides `ah` and `bh`, touch or overlap.
pub fn intersects(ax: i64, ay: i64, ah: i64, bx: i64, by: i64, bh: i64) -> (r: bool)
    ensures
        r == boxes_overlap(ax as int, ay as int, ah as int, bx as int, by as int, bh as int),
{
    let lim: i128 = ah as i128 + bh as i128;
    abs_diff(ax, bx) <= lim && abs_diff(ay, by) <= lim
}

/// Whether the circle of radius `r` around `(cx, cy)` meets the square
/// centred on `(bx, by)` with half side `bh`.
pub fn circle_intersects(cx: i64, cy: i64, r: i64, bx: i64, by: i64, bh: i64) -> (res: bool)
    requires
        0 <= r <= 1_000_000_000_000_000,
        bh >= 0,
    ensures
        res == circle_meets_box(cx as int, cy as int, r as int, bx as int, by as int, bh as int),
{
    let ddx = abs_diff(cx, bx);
    let ddy = abs_diff(cy, by);
    let dx: i128 = if ddx > bh as i128 { ddx - bh as i128 } else { 0 };
    let dy: i128 = if ddy > bh as i128 { ddy - bh as i128 } else { 0 };
    let rr: i128 = r as i128;
    if dx > rr || dy > rr {
        proof {
            let (x, y) = (dx as int, dy as int);
            assert(x * x + y * y > rr * rr) by (nonlinear_arith)
                requires
                    x >= 0,
                    y >= 0,
                    rr >= 0,
                    x > rr || y > rr,
            ;
        }
        false
    } else {
        assert(dx * dx + dy * dy <= 2_000_000_000_000_000_000_000_000_000_000
            && rr * rr <= 1_000_000_000_000_000_000_000_000_000_000) by (nonlinear_arith)
            requires
                0 <= dx <= rr,
                0 <= dy <= rr,
                rr <= 1_000_000_000_000_000,
        ;
        dx * dx + dy * dy <= rr * rr
    }
}

} // verus!
