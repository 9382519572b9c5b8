use vstd::prelude::*;

verus! {

/// Highest value the kill multiplier can reach.
pub const MAX_MUL: u64 = 16;

/// Cumulative score and the current kill multiplier.
#[derive(Clone, Copy, Debug, PartialEq, Eq, Structural)]
pub struct ScoreBoard {
    pub score: u64,
    pub mul: u64,
}

/// Points and multiplier increase earned by one kill.
#[derive(Clone, Copy, Debug, PartialEq, Eq, Structural)]
pub struct ScoreEvent {
    pub base_score: u64,
    pub multiplier_increment: u64,
}

impl ScoreBoard {
    /// The board after `add_score(inc)`.
    pub open spec fn spec_add_score(self, inc: u64) -> ScoreBoard {
        let s = self.score + inc * self.mul;
        ScoreBoard { score: if s > u64::MAX { u64::MAX } else { s as u64 }, ..self }
    }

    /// The board after `add_mul(inc)`.
    pub open spec fn spec_add_mul(self, inc: u64) -> ScoreBoard {
        ScoreBoard {
            mul: if self.mul + inc < MAX_MUL + 1 { (self.mul + inc) as u64 } else { MAX_MUL },
            ..self
        }
    }

    /// The board after `add_mul` of each increment in turn.
    pub open spec fn spec_add_mul_all(self, incs: Seq<u64>) -> ScoreBoard
        decreases incs.len(),
    {
        if incs.len() == 0 {
            self
        } else {
            self.spec_add_mul(incs[0]).spec_add_mul_all(incs.drop_first())
        }
    }

    /// A fresh board: no score, multiplier one.
    pub fn new() -> (r: ScoreBoard)
        ensures
            r.score == 0,
            r.mul == 1,
    {
        ScoreBoard { score: 0, mul: 1 }
    }

    /// Adds `inc` times the multiplier to the score (saturating).
    pub fn add_score(&mut self, inc: u64)
        ensures
            *final(self) == old(self).spec_add_score(inc),
    {
        let gain = inc.checked_mul(self.mul);
        self.score = match gain {
            Some(g) => self.score.saturating_add(g),
            None => {
                assert(inc * self.mul > u64::MAX);
                assert(self.score + inc * self.mul > u64::MAX);
                u64::MAX
            },
        };
    }

    pub fn get_score(&self) -> (r: u64)
        ensures
            r == self.score,
    {
        self.score
    }

    /// Raises the multiplier by `inc`, to at most sixteen.
    pub fn add_mul(&mut self, inc: u64)
        ensures
            *final(self) == old(self).spec_add_mul(inc),
    {
        self.mul = if self.mul < MAX_MUL + 1 && inc < MAX_MUL + 1 - self.mul {
            self.mul + inc
        } else {
            MAX_MUL
        };
    }

    pub fn set_mul(&mut self, set: u64)
        ensures
            *final(self) == (ScoreBoard { mul: set, ..*old(self) }),
    {
        self.mul = set;
    }

    pub fn get_mul(&self) -> (r: u64)
        ensures
            r == self.mul,
    {
        self.mul
    }
}

/// After the multiplier is reset, no run of increments takes it past
/// sixteen.
pub proof fn lemma_mul_capped_after_reset(b: ScoreBoard, incs: Seq<u64>)
    ensures
        (ScoreBoard { mul: 0, ..b }).spec_add_mul_all(incs).mul <= MAX_MUL,
{
    lemma_mul_stays_capped(ScoreBoard { mul: 0, ..b }, incs);
}

proof fn lemma_mul_stays_capped(b: ScoreBoard, incs: Seq<u64>)
    requires
        b.mul <= MAX_MUL,
    ensures
        b.spec_add_mul_all(incs).mul <= MAX_MUL,
    decreases incs.len(),
{
    if incs.len() > 0 {
        lemma_mul_stays_capped(b.spec_add_mul(incs[0]), incs.drop_first());
    }
}

/// Sum of a run of increments.
pub open spec fn sum_incs(incs: Seq<u64>) -> int
    decreases incs.len(),
{
    if incs.len() == 0 {
        0
    } else {
        incs[0] + sum_incs(incs.drop_first())
    }
}

proof fn lemma_sum_incs_nonneg(incs: Seq<u64>)
    ensures
        sum_incs(incs) >= 0,
    decreases incs.len(),
{
    if incs.len() > 0 {
        lemma_sum_incs_nonneg(incs.drop_first());
    }
}

/// From a multiplier of at most sixteen, a run of increments leaves it at
/// the smaller of sixteen and its start plus their sum.
pub proof fn lemma_mul_is_capped_sum(b: ScoreBoard, incs: Seq<u64>)
    requires
        b.mul <= MAX_MUL,
    ensures
        b.spec_add_mul_all(incs).mul == if b.mul + sum_incs(incs) < MAX_MUL {
            b.mul + sum_incs(incs)
        } else {
            MAX_MUL as int
        },
        b.spec_add_mul_all(incs).score == b.score,
    decreases incs.len(),
{
    if incs.len() > 0 {
        lemma_sum_incs_nonneg(incs.drop_first());
        lemma_mul_is_capped_sum(b.spec_add_mul(incs[0]), incs.drop_first());
    }
}

/// After the multiplier is reset, every prefix of a run of increments
/// leaves it at the smaller of their sum and sixteen; the score is kept.
pub proof fn lemma_mul_after_reset(b: ScoreBoard, incs: Seq<u64>, j: int)
    requires
        0 <= j <= incs.len(),
    ensures
        (ScoreBoard { mul: 0, ..b }).spec_add_mul_all(incs.take(j)).mul == if sum_incs(incs.take(j))
            < MAX_MUL {
            sum_incs(incs.take(j))
        } else {
            MAX_MUL as int
        },
        (ScoreBoard { mul: 0, ..b }).spec_add_mul_all(incs.take(j)).score == b.score,
{
    lemma_mul_is_capped_sum(ScoreBoard { mul: 0, ..b }, incs.take(j));
}

/// A kill's points are the base score times the multiplier in force.
pub proof fn lemma_score_scales_with_mul(b: ScoreBoard, inc: u64)
    requires
        b.score + inc * b.mul <= u64::MAX,
    ensures
        b.spec_add_score(inc).score == b.score + inc * b.mul,
        b.spec_add_score(inc).mul == b.mul,
{
}

} // verus!
