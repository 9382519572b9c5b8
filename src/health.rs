use vstd::prelude::*;
use crate::timer::{Timer, TimerMode};

verus! {

/// Shield and health pools of one damageable actor.
///
/// Damage is taken from the shield while it is up, and from health only
/// once the shield is down. The shield recharges only after `timer` (reset
/// by every hit) has run out.
#[derive(Clone, Copy, Debug, PartialEq, Eq, Structural)]
pub struct Health {
    pub shield: i64,
    pub health: i64,
    pub is_alive: bool,
    pub timer: Timer,
    pub shield_recharge: i64,
    pub max_shield: i64,
    pub max_health: i64,
}

/// `v` clamped into the range of `i64`.
pub open spec fn sat_i64(v: int) -> int {
    if v < i64::MIN {
        i64::MIN as int
    } else if v > i64::MAX {
        i64::MAX as int
    } else {
        v
    }
}

/// A pool value kept within zero and `max` (zero when `max` is negative).
pub open spec fn clamp_pool(v: i64, max: i64) -> i64 {
    if v > max {
        if max < 0 {
            0
        } else {
            max
        }
    } else if v < 0 {
        0
    } else {
        v
    }
}

/// A pool value kept within zero and `max`, as `clamp_pool`.
pub fn clamp_pool_exec(v: i64, max: i64) -> (r: i64)
    ensures
        r == clamp_pool(v, max),
{
    if v > max {
        if max < 0 {
            0
        } else {
            max
        }
    } else if v < 0 {
        0
    } else {
        v
    }
}

/// `a - b`, clamped into the range of `i64`.
pub fn sub_sat(a: i64, b: i64) -> (r: i64)
    ensures
        r == sat_i64(a - b),
{
    let v: i128 = a as i128 - b as i128;
    if v < i64::MIN as i128 {
        i64::MIN
    } else if v > i64::MAX as i128 {
        i64::MAX
    } else {
        v as i64
    }
}

/// `a + b`, clamped into the range of `i64`.
pub fn add_sat(a: i64, b: i64) -> (r: i64)
    ensures
        r == sat_i64(a + b),
{
    let v: i128 = a as i128 + b as i128;
    if v < i64::MIN as i128 {
        i64::MIN
    } else if v > i64::MAX as i128 {
        i64::MAX
    } else {
        v as i64
    }
}

impl Health {
    /// The pools after a hit of `damage`.
    pub open spec fn spec_damage(self, damage: i64) -> Health {
        let shield = if self.shield > 0 { sat_i64(self.shield - damage) } else { self.shield as int };
        let health = if self.shield > 0 {
            self.health as int
        } else if self.health - damage < 0 {
            0
        } else {
            sat_i64(self.health - damage)
        };
        Health {
            shield: if shield < 0 { 0 } else { shield as i64 },
            health: health as i64,
            is_alive: health > 0,
            timer: self.timer.spec_reset(),
            ..self
        }
    }

    /// The shield after one recharge: raised by the recharge amount, at most
    /// to the maximum.
    pub open spec fn spec_recharge(self) -> Health {
        let s = sat_i64(self.shield + self.shield_recharge);
        Health { shield: if s <= self.max_shield { s as i64 } else { self.max_shield }, ..self }
    }

    /// One regeneration step of `dt` microseconds: the timer advances, and
    /// the shield recharges if the timer has run out.
    pub open spec fn spec_regen(self, dt: u64) -> Health {
        let ticked = Health { timer: self.timer.spec_tick(dt), ..self };
        if ticked.timer.finished {
            ticked.spec_recharge()
        } else {
            ticked
        }
    }

    /// Regeneration steps of the given lengths, in order.
    pub open spec fn spec_regen_all(self, dts: Seq<u64>) -> Health
        decreases dts.len(),
    {
        if dts.len() == 0 {
            self
        } else {
            self.spec_regen(dts[0]).spec_regen_all(dts.drop_first())
        }
    }

    /// Both pools full; the shield waits `shield_time` microseconds after a
    /// hit before it recharges by `shield_recharge` per step.
    pub fn new(shield_size: i64, health_size: i64, shield_time: u64, shield_recharge: i64) -> (r:
        Health)
        ensures
            r.shield == shield_size,
            r.max_shield == shield_size,
            r.health == health_size,
            r.max_health == health_size,
            r.is_alive,
            r.timer == (Timer { duration: shield_time, elapsed: 0, finished: false, mode: TimerMode::Once }),
            r.shield_recharge == shield_recharge,
    {
        Health {
            shield: shield_size,
            health: health_size,
            is_alive: true,
            timer: Timer::new(shield_time, TimerMode::Once),
            shield_recharge,
            max_shield: shield_size,
            max_health: health_size,
        }
    }

    /// Takes a hit: from the shield while it is up, else from health. What
    /// the shield cannot absorb is not carried over to health. Neither pool
    /// drops below zero.
    pub fn damage(&mut self, damage: i64)
        ensures
            *final(self) == old(self).spec_damage(damage),
            old(self).shield > 0 && 0 <= damage <= old(self).shield ==> final(self).shield
                == old(self).shield - damage,
            old(self).shield > 0 ==> final(self).health == old(self).health,
            old(self).shield > 0 && damage >= old(self).shield ==> final(self).shield == 0,
            final(self).is_alive == (final(self).health > 0),
            final(self).timer.elapsed == 0,
            !final(self).timer.finished,
    {
        self.timer.reset();
        if self.shield > 0 {
            self.shield = sub_sat(self.shield, damage);
        } else {
            let h = sub_sat(self.health, damage);
            self.health = if h < 0 { 0 } else { h };
        }
        self.shield = if self.shield < 0 { 0 } else { self.shield };
        self.is_alive = self.health > 0;
    }

    pub fn is_alive(&self) -> (r: bool)
        ensures
            r == self.is_alive,
    {
        self.is_alive
    }

    pub fn get_health(&self) -> (r: i64)
        ensures
            r == self.health,
    {
        self.health
    }

    pub fn get_max_health(&self) -> (r: i64)
        ensures
            r == self.max_health,
    {
        self.max_health
    }

    pub fn get_shield(&self) -> (r: i64)
        ensures
            r == self.shield,
    {
        self.shield
    }

    pub fn get_max_shield(&self) -> (r: i64)
        ensures
            r == self.max_shield,
    {
        self.max_shield
    }

    /// Raises the shield by the recharge amount, at most to its maximum.
    pub fn recharge_shield(&mut self)
        ensures
            *final(self) == old(self).spec_recharge(),
    {
        let s = add_sat(self.shield, self.shield_recharge);
        self.shield = if s <= self.max_shield { s } else { self.max_shield };
    }

    /// Advances the time since the last hit.
    pub fn shield_tick(&mut self, dt: u64)
        ensures
            *final(self) == (Health { timer: old(self).timer.spec_tick(dt), ..*old(self) }),
    {
        self.timer.tick(dt);
    }

    /// Whether the quiet time after the last hit has passed.
    pub fn can_shield_recharge(&self) -> (r: bool)
        ensures
            r == self.timer.finished,
    {
        self.timer.finished()
    }

    /// Sets the most health; a current health above it comes down to it
    /// (to zero if the new most is negative), and the alive flag follows.
    pub fn set_max_health(&mut self, health: i64)
        ensures
            *final(self) == (Health {
                max_health: health,
                health: clamp_pool(old(self).health, health),
                is_alive: clamp_pool(old(self).health, health) > 0,
                ..*old(self)
            }),
    {
        self.max_health = health;
        self.health = clamp_pool_exec(self.health, health);
        self.is_alive = self.health > 0;
    }

    /// Sets the current health, kept within zero and the most health; the
    /// alive flag follows.
    pub fn set_health(&mut self, health: i64)
        ensures
            *final(self) == (Health {
                health: clamp_pool(health, old(self).max_health),
                is_alive: clamp_pool(health, old(self).max_health) > 0,
                ..*old(self)
            }),
    {
        self.health = clamp_pool_exec(health, self.max_health);
        self.is_alive = self.health > 0;
    }

    /// Sets the most shield; a current shield above it comes down to it (to
    /// zero if the new most is negative).
    pub fn set_max_shield(&mut self, shield: i64)
        ensures
            *final(self) == (Health {
                max_shield: shield,
                shield: clamp_pool(old(self).shield, shield),
                ..*old(self)
            }),
    {
        self.max_shield = shield;
        self.shield = clamp_pool_exec(self.shield, shield);
    }

    pub fn set_recharge(&mut self, recharge: i64)
        ensures
            *final(self) == (Health { shield_recharge: recharge, ..*old(self) }),
    {
        self.shield_recharge = recharge;
    }

    /// The health after healing by `amount`: raised, but not past the
    /// maximum (a health already above it is kept).
    pub open spec fn spec_heal(self, amount: i64) -> Health {
        let raised = sat_i64(self.health + amount);
        Health {
            health: if self.health >= self.max_health {
                self.health
            } else if raised > self.max_health {
                self.max_health
            } else {
                raised as i64
            },
            ..self
        }
    }

    /// Raises the health by `amount` (not negative), at most to its maximum.
    pub fn heal(&mut self, amount: i64)
        requires
            amount >= 0,
        ensures
            *final(self) == old(self).spec_heal(amount),
    {
        if self.health < self.max_health {
            let raised = add_sat(self.health, amount);
            self.health = if raised > self.max_health { self.max_health } else { raised };
        }
    }

    pub fn get_recharge(&self) -> (r: i64)
        ensures
            r == self.shield_recharge,
    {
        self.shield_recharge
    }

    /// One regeneration step: advances the timer and recharges the shield
    /// once the timer has run out.
    pub fn regen_tick(&mut self, dt: u64)
        ensures
            *final(self) == old(self).spec_regen(dt),
    {
        self.shield_tick(dt);
        if self.can_shield_recharge() {
            self.recharge_shield();
        }
    }
}

/// Runs one regeneration step on every actor.
pub fn shield_tick(healths: &mut Vec<Health>, dt: u64)
    ensures
        final(healths)@.len() == old(healths)@.len(),
        forall|i: int|
            0 <= i < old(healths)@.len() ==> final(healths)@[i] == old(healths)@[i].spec_regen(dt),
{
    let n = healths.len();
    let mut i: usize = 0;
    while i < n
        invariant
            n == old(healths)@.len(),
            healths@.len() == n,
            0 <= i <= n,
            forall|j: int| 0 <= j < i ==> healths@[j] == old(healths)@[j].spec_regen(dt),
            forall|j: int| i <= j < n ==> healths@[j] == old(healths)@[j],
        decreases n - i,
    {
        let mut h = healths[i];
        h.regen_tick(dt);
        healths.set(i, h);
        i += 1;
    }
}

/// Sum of a sequence of step lengths.
pub open spec fn total_time(dts: Seq<u64>) -> int
    decreases dts.len(),
{
    if dts.len() == 0 {
        0
    } else {
        dts[0] + total_time(dts.drop_first())
    }
}

/// After a hit, the shield does not rise while less time than the
/// regeneration delay has passed, whatever the steps were.
pub proof fn lemma_no_regen_while_recent(h: Health, d: i64, dts: Seq<u64>)
    requires
        total_time(dts) < h.timer.duration,
        h.timer.mode == TimerMode::Once,
    ensures
        h.spec_damage(d).spec_regen_all(dts).shield == h.spec_damage(d).shield,
        h.spec_damage(d).spec_regen_all(dts).health == h.spec_damage(d).health,
{
    lemma_quiet_steps(h.spec_damage(d), dts);
}

/// While the timer has not run out and the steps sum to less than what is
/// left of it, regeneration changes nothing but the timer.
proof fn lemma_quiet_steps(h: Health, dts: Seq<u64>)
    requires
        !h.timer.finished,
        h.timer.mode == TimerMode::Once,
        h.timer.elapsed + total_time(dts) < h.timer.duration,
    ensures
        h.spec_regen_all(dts).shield == h.shield,
        h.spec_regen_all(dts).health == h.health,
        !h.spec_regen_all(dts).timer.finished,
    decreases dts.len(),
{
    if dts.len() > 0 {
        lemma_total_time_nonneg(dts.drop_first());
        let next = h.spec_regen(dts[0]);
        assert(next.shield == h.shield);
        assert(next.timer.elapsed == h.timer.elapsed + dts[0]);
        lemma_quiet_steps(next, dts.drop_first());
    }
}

proof fn lemma_total_time_nonneg(dts: Seq<u64>)
    ensures
        total_time(dts) >= 0,
    decreases dts.len(),
{
    if dts.len() > 0 {
        lemma_total_time_nonneg(dts.drop_first());
    }
}

/// Once the delay has passed, it stays passed over any later run of steps
/// without a hit, and health is not touched; each of those steps recharges
/// the shield as `lemma_regen_after_delay` states.
pub proof fn lemma_delay_stays_passed(h: Health, dts: Seq<u64>)
    requires
        h.timer.finished,
        h.timer.mode == TimerMode::Once,
    ensures
        h.spec_regen_all(dts).timer.finished,
        h.spec_regen_all(dts).timer.mode == TimerMode::Once,
        h.spec_regen_all(dts).health == h.health,
    decreases dts.len(),
{
    if dts.len() > 0 {
        lemma_delay_stays_passed(h.spec_regen(dts[0]), dts.drop_first());
    }
}

/// Once the delay has passed, each further step recharges the shield by the
/// recharge amount, at most to its maximum.
pub proof fn lemma_regen_after_delay(h: Health, dt: u64)
    requires
        h.timer.finished,
        h.timer.mode == TimerMode::Once,
        i64::MIN <= h.shield + h.shield_recharge <= i64::MAX,
    ensures
        h.spec_regen(dt).shield == (if h.shield + h.shield_recharge <= h.max_shield {
            h.shield + h.shield_recharge
        } else {
            h.max_shield as int
        }),
        h.spec_regen(dt).timer.finished,
{
}

} // verus!
