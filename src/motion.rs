use vstd::prelude::*;

verus! {

/// Lifetimes past this many microseconds are evaluated as this one.
pub const CURVE_T_MAX: u64 = 1_000_000_000;

/// Bound on the magnitude of every curve parameter.
pub const CURVE_PARAM_MAX: i64 = 100_000_000;

/// Bound on the phase rate of a cosine curve.
pub const CURVE_RATE_MAX: u64 = 1_000_000;

/// A per-tick offset as a function of elapsed lifetime.
///
/// Offsets are in thousandths of a pixel and lifetimes in microseconds.
#[derive(Clone, Copy, Debug, PartialEq, Eq, Structural)]
pub enum Curve {
    /// The same offset `v` on every tick.
    Constant { v: i64 },
    /// `k` times the lifetime in seconds.
    Linear { k: i64 },
    /// `k` times the square of the lifetime in seconds.
    Quadratic { k: i64 },
    /// `bias` plus `amp` times the cosine of the phase, where the phase
    /// advances by `rate` thousandths of a turn per second.
    Cosine { amp: i64, rate: u64, bias: i64 },
}

/// Division rounding toward zero, as Rust's `/` does.
pub open spec fn tdiv(a: int, b: int) -> int {
    if a >= 0 {
        a / b
    } else {
        -((-a) / b)
    }
}

/// Sine of a half turn `q` in [0, 500] thousandths of a turn, in
/// thousandths, by Bhaskara's rational approximation.
pub open spec fn half_sine(q: int) -> int {
    let x = q * (500 - q);
    (16000 * x) / (1_250_000 - 4 * x)
}

/// Sine of the phase `p` (thousandths of a turn), in thousandths.
pub open spec fn sin_milli(p: int) -> int {
    let q = p % 1000;
    if q < 500 {
        half_sine(q)
    } else {
        -half_sine(q - 500)
    }
}

/// Cosine of the phase `p` (thousandths of a turn), in thousandths.
pub open spec fn cos_milli(p: int) -> int {
    sin_milli(p + 250)
}

impl Curve {
    pub open spec fn wf(self) -> bool {
        match self {
            Curve::Constant { v } => -CURVE_PARAM_MAX <= v <= CURVE_PARAM_MAX,
            Curve::Linear { k } => -CURVE_PARAM_MAX <= k <= CURVE_PARAM_MAX,
            Curve::Quadratic { k } => -CURVE_PARAM_MAX <= k <= CURVE_PARAM_MAX,
            Curve::Cosine { amp, rate, bias } => -CURVE_PARAM_MAX <= amp <= CURVE_PARAM_MAX
                && rate <= CURVE_RATE_MAX && -CURVE_PARAM_MAX <= bias <= CURVE_PARAM_MAX,
        }
    }

    /// The offset at lifetime `t`.
    pub open spec fn at(self, t: u64) -> int {
        let s: int = if t > CURVE_T_MAX { CURVE_T_MAX as int } else { t as int };
        match self {
            Curve::Constant { v } => v as int,
            Curve::Linear { k } => tdiv(k * s, 1_000_000),
            Curve::Quadratic { k } => tdiv(k * s * s, 1_000_000_000_000),
            Curve::Cosine { amp, rate, bias } => bias + tdiv(
                amp * cos_milli(s * rate / 1_000_000),
                1000,
            ),
        }
    }

    /// Evaluates the curve at lifetime `t`.
    pub fn eval(&self, t: u64) -> (r: i64)
        requires
            self.wf(),
        ensures
            r == self.at(t),
            -100_000_000_000_000 <= r <= 100_000_000_000_000,
    {
        let s: u64 = if t > CURVE_T_MAX { CURVE_T_MAX } else { t };
        match *self {
            Curve::Constant { v } => v,
            Curve::Linear { k } => {
                assert(-100_000_000_000_000_000 <= k * s <= 100_000_000_000_000_000)
                    by (nonlinear_arith)
                    requires
                        -100_000_000 <= k <= 100_000_000,
                        0 <= s <= 1_000_000_000,
                ;
                let r = trunc_div(k as i128 * s as i128, 1_000_000);
                r as i64
            },
            Curve::Quadratic { k } => {
                assert(0 <= s * s <= 1_000_000_000_000_000_000) by (nonlinear_arith)
                    requires
                        0 <= s <= 1_000_000_000,
                ;
                assert(-100_000_000_000_000_000_000_000_000 <= k * (s * s)
                    <= 100_000_000_000_000_000_000_000_000) by (nonlinear_arith)
                    requires
                        -100_000_000 <= k <= 100_000_000,
                        0 <= s * s <= 1_000_000_000_000_000_000,
                ;
                assert(k * s * s == k * (s * s)) by (nonlinear_arith);
                let ss: i128 = s as i128 * s as i128;
                let r = trunc_div(k as i128 * ss, 1_000_000_000_000);
                r as i64
            },
            Curve::Cosine { amp, rate, bias } => {
                assert(0 <= s * rate <= 1_000_000_000_000_000) by (nonlinear_arith)
                    requires
                        0 <= s <= 1_000_000_000,
                        0 <= rate <= 1_000_000,
                ;
                let phase: u64 = (s as u128 * rate as u128 / 1_000_000) as u64;
                let c = cos_milli_exec(phase);
                assert(-100_000_000_000 <= amp * c <= 100_000_000_000) by (nonlinear_arith)
                    requires
                        -100_000_000 <= amp <= 100_000_000,
                        -1000 <= c <= 1000,
                ;
                let r = trunc_div(amp as i128 * c as i128, 1000);
                (bias as i128 + r) as i64
            },
        }
    }
}

/// `a / b` rounded toward zero.
pub fn trunc_div(a: i128, b: i128) -> (r: i128)
    requires
        b > 0,
        a > i128::MIN,
    ensures
        r == tdiv(a as int, b as int),
        0 <= a ==> 0 <= r <= a,
        a < 0 ==> a <= r <= 0,
{
    if a >= 0 {
        assert(a / b <= a) by (nonlinear_arith)
            requires
                a >= 0,
                b > 0,
        ;
        a / b
    } else {
        let m: i128 = -a;
        assert(m / b <= m) by (nonlinear_arith)
            requires
                m >= 0,
                b > 0,
        ;
        -(m / b)
    }
}

proof fn lemma_half_sine_bounds(q: int)
    requires
        0 <= q <= 500,
    ensures
        0 <= half_sine(q) <= 1000,
        0 <= q * (500 - q) <= 62500,
{
    assert(0 <= q * (500 - q) <= 62500) by (nonlinear_arith)
        requires
            0 <= q <= 500,
    ;
    let x = q * (500 - q);
    let den = 1_250_000 - 4 * x;
    assert((16000 * x) / den <= 1000) by (nonlinear_arith)
        requires
            16000 * x <= 1000 * den,
            den > 0,
    ;
    assert((16000 * x) / den >= 0) by (nonlinear_arith)
        requires
            16000 * x >= 0,
            den > 0,
    ;
}

/// Sine of a half turn, as `half_sine`.
fn half_sine_exec(q: i64) -> (r: i64)
    requires
        0 <= q <= 500,
    ensures
        r == half_sine(q as int),
        0 <= r <= 1000,
{
    proof {
        lemma_half_sine_bounds(q as int);
    }
    let x: i64 = q * (500 - q);
    (16000 * x) / (1_250_000 - 4 * x)
}

/// Sine of the phase `p`, as `sin_milli`.
pub fn sin_milli_exec(p: u64) -> (r: i64)
    ensures
        r == sin_milli(p as int),
        -1000 <= r <= 1000,
{
    let q: i64 = (p % 1000) as i64;
    if q < 500 {
        half_sine_exec(q)
    } else {
        -half_sine_exec(q - 500)
    }
}

/// Cosine of the phase `p`, as `cos_milli`.
pub fn cos_milli_exec(p: u64) -> (r: i64)
    requires
        p <= u64::MAX - 250,
    ensures
        r == cos_milli(p as int),
        -1000 <= r <= 1000,
{
    sin_milli_exec(p + 250)
}

} // verus!
