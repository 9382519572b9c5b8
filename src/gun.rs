use vstd::prelude::*;
use crate::motion::Curve;
use crate::timer::{Timer, TimerMode};

verus! {

/// Shortest interval between two shots, in microseconds.
pub const MIN_SHOOT_DELAY: u64 = 30_000;

/// Template of a projectile: instantiated when a gun fires.
///
/// `dir` scales both offsets (+1 moves up the field, -1 down), `tick` is the
/// lifetime the projectile starts with, `ply` is set for the player's side.
#[derive(Clone, Copy, Debug, PartialEq, Eq, Structural)]
pub struct BulletBlueprint {
    pub dir: i8,
    pub fy: Curve,
    pub fx: Curve,
    pub tick: u64,
    pub ply: bool,
    pub damage: i64,
}

impl BulletBlueprint {
    pub open spec fn wf(self) -> bool {
        self.fx.wf() && self.fy.wf()
    }
}

/// Settings of a gun: shot interval (µs), damage, most blueprints, ammo,
/// and reload delay (µs).
#[derive(Clone, Copy, Debug, PartialEq, Eq, Structural)]
pub struct GunBluePrint {
    pub shoot_delay: u64,
    pub damage: i64,
    pub max_bullets: u8,
    pub max_ammo: u64,
    pub reload_delay: u64,
}

/// A weapon: the blueprints it fires at once, a repeating shot timer, and
/// an ammo pool refilled by a one-shot reload timer.
#[derive(Clone, Debug)]
pub struct Gun {
    pub bullet_blueprints: Vec<BulletBlueprint>,
    pub damage: i64,
    pub shoot_delay: u64,
    pub max_bullets: u8,
    pub shot_timer: Timer,
    pub ammo: u64,
    pub max_ammo: u64,
    pub reload_stopwatch: Timer,
    pub reload_delay: u64,
}

/// What a gun holds, with its blueprints as a sequence.
pub struct GunModel {
    pub blueprints: Seq<BulletBlueprint>,
    pub damage: i64,
    pub shoot_delay: u64,
    pub max_bullets: u8,
    pub shot_timer: Timer,
    pub ammo: u64,
    pub max_ammo: u64,
    pub reload_stopwatch: Timer,
    pub reload_delay: u64,
}

impl View for Gun {
    type V = GunModel;

    open spec fn view(&self) -> GunModel {
        GunModel {
            blueprints: self.bullet_blueprints@,
            damage: self.damage,
            shoot_delay: self.shoot_delay,
            max_bullets: self.max_bullets,
            shot_timer: self.shot_timer,
            ammo: self.ammo,
            max_ammo: self.max_ammo,
            reload_stopwatch: self.reload_stopwatch,
            reload_delay: self.reload_delay,
        }
    }
}

/// The shot interval that a request for `v` sets: `v`, raised to the floor.
pub open spec fn floored_delay(v: i64) -> u64 {
    if v >= MIN_SHOOT_DELAY {
        v as u64
    } else {
        MIN_SHOOT_DELAY
    }
}

impl GunModel {
    /// After `add_bullet(bp)`: appended while under the most blueprints.
    pub open spec fn add_bullet(self, bp: BulletBlueprint) -> GunModel {
        if self.blueprints.len() < self.max_bullets {
            GunModel { blueprints: self.blueprints.push(bp), ..self }
        } else {
            self
        }
    }

    /// After `set_bullet_damage(d)`.
    pub open spec fn set_damage(self, d: i64) -> GunModel {
        GunModel { damage: d, ..self }
    }

    /// After `set_bullet_delay(v)`.
    pub open spec fn set_delay(self, v: i64) -> GunModel {
        GunModel {
            shoot_delay: floored_delay(v),
            shot_timer: Timer { duration: floored_delay(v), ..self.shot_timer },
            ..self
        }
    }
}

impl Gun {
    pub open spec fn wf(self) -> bool {
        forall|i: int|
            0 <= i < self.bullet_blueprints@.len() ==> #[trigger] self.bullet_blueprints@[i].wf()
    }

    /// The gun after a reload.
    pub open spec fn spec_reload(self) -> Gun {
        Gun { ammo: self.max_ammo, reload_stopwatch: self.reload_stopwatch.spec_reset(), ..self }
    }

    /// The gun after one step: the shot timer always advances, the reload
    /// timer only while the gun is empty.
    pub open spec fn spec_tick(self, dt: u64) -> Gun {
        Gun {
            shot_timer: self.shot_timer.spec_tick(dt),
            reload_stopwatch: if self.ammo == 0 {
                self.reload_stopwatch.spec_tick(dt)
            } else {
                self.reload_stopwatch
            },
            ..self
        }
    }

    pub fn new(
        starting_bullets: Vec<BulletBlueprint>,
        init_shoot_delay: u64,
        init_damage: i64,
        max_bullets: u8,
        ammo: u64,
        reload_delay: u64,
    ) -> (r: Gun)
        ensures
            r.bullet_blueprints@ == starting_bullets@,
            r.damage == init_damage,
            r.shoot_delay == init_shoot_delay,
            r.max_bullets == max_bullets,
            r.shot_timer == (Timer {
                duration: init_shoot_delay,
                elapsed: 0,
                finished: false,
                mode: TimerMode::Repeating,
            }),
            r.ammo == ammo,
            r.max_ammo == ammo,
            r.reload_stopwatch == (Timer {
                duration: reload_delay,
                elapsed: 0,
                finished: false,
                mode: TimerMode::Once,
            }),
            r.reload_delay == reload_delay,
    {
        Gun {
            bullet_blueprints: starting_bullets,
            damage: init_damage,
            shoot_delay: init_shoot_delay,
            max_bullets,
            shot_timer: Timer::new(init_shoot_delay, TimerMode::Repeating),
            ammo,
            max_ammo: ammo,
            reload_stopwatch: Timer::new(reload_delay, TimerMode::Once),
            reload_delay,
        }
    }

    pub fn new_from_blueprint(starting_bullets: Vec<BulletBlueprint>, gun_blueprint: GunBluePrint) -> (r:
        Gun)
        ensures
            r.bullet_blueprints@ == starting_bullets@,
            r.damage == gun_blueprint.damage,
            r.shoot_delay == gun_blueprint.shoot_delay,
            r.max_bullets == gun_blueprint.max_bullets,
            r.shot_timer == (Timer {
                duration: gun_blueprint.shoot_delay,
                elapsed: 0,
                finished: false,
                mode: TimerMode::Repeating,
            }),
            r.ammo == gun_blueprint.max_ammo,
            r.max_ammo == gun_blueprint.max_ammo,
            r.reload_stopwatch == (Timer {
                duration: gun_blueprint.reload_delay,
                elapsed: 0,
                finished: false,
                mode: TimerMode::Once,
            }),
            r.reload_delay == gun_blueprint.reload_delay,
    {
        Gun::new(
            starting_bullets,
            gun_blueprint.shoot_delay,
            gun_blueprint.damage,
            gun_blueprint.max_bullets,
            gun_blueprint.max_ammo,
            gun_blueprint.reload_delay,
        )
    }

    /// Adds a blueprint unless the gun already holds its most.
    pub fn add_bullet(&mut self, blueprint: BulletBlueprint)
        ensures
            final(self)@ == old(self)@.add_bullet(blueprint),
            final(self).bullet_blueprints@ == if old(self).bullet_blueprints@.len()
                < old(self).max_bullets {
                old(self).bullet_blueprints@.push(blueprint)
            } else {
                old(self).bullet_blueprints@
            },
            final(self).damage == old(self).damage,
            final(self).shoot_delay == old(self).shoot_delay,
            final(self).max_bullets == old(self).max_bullets,
            final(self).shot_timer == old(self).shot_timer,
            final(self).ammo == old(self).ammo,
            final(self).max_ammo == old(self).max_ammo,
            final(self).reload_stopwatch == old(self).reload_stopwatch,
            final(self).reload_delay == old(self).reload_delay,
    {
        if self.bullet_blueprints.len() < self.max_bullets as usize {
            self.bullet_blueprints.push(blueprint);
        }
    }

    pub fn get_bullets(&self) -> (r: &Vec<BulletBlueprint>)
        ensures
            r@ == self.bullet_blueprints@,
    {
        &self.bullet_blueprints
    }

    /// Sets the shot interval, raised to the floor if below it.
    pub fn set_bullet_delay(&mut self, new_delay: i64)
        ensures
            final(self)@ == old(self)@.set_delay(new_delay),
            final(self).shoot_delay == if new_delay >= MIN_SHOOT_DELAY {
                new_delay as u64
            } else {
                MIN_SHOOT_DELAY
            },
            final(self).shot_timer == (Timer {
                duration: final(self).shoot_delay,
                ..old(self).shot_timer
            }),
            *final(self) == (Gun {
                shoot_delay: final(self).shoot_delay,
                shot_timer: final(self).shot_timer,
                ..*old(self)
            }),
    {
        self.shoot_delay = if new_delay >= MIN_SHOOT_DELAY as i64 {
            new_delay as u64
        } else {
            MIN_SHOOT_DELAY
        };
        self.shot_timer.set_duration(self.shoot_delay);
    }

    pub fn get_bullet_delay(&self) -> (r: u64)
        ensures
            r == self.shoot_delay,
    {
        self.shoot_delay
    }

    pub fn set_bullet_damage(&mut self, new_damage: i64)
        ensures
            final(self)@ == old(self)@.set_damage(new_damage),
            *final(self) == (Gun { damage: new_damage, ..*old(self) }),
    {
        self.damage = new_damage;
    }

    pub fn get_bullet_damage(&self) -> (r: i64)
        ensures
            r == self.damage,
    {
        self.damage
    }

    /// Advances the shot timer.
    pub fn tick_time(&mut self, dt: u64)
        ensures
            *final(self) == (Gun { shot_timer: old(self).shot_timer.spec_tick(dt), ..*old(self) }),
    {
        self.shot_timer.tick(dt);
    }

    /// A shot is allowed once the shot timer has run out, with ammo left.
    pub fn can_shoot(&self) -> (r: bool)
        ensures
            r == (self.shot_timer.finished && self.ammo > 0),
            self.ammo == 0 ==> !r,
    {
        self.shot_timer.finished() && self.ammo > 0
    }

    pub fn reset_shot_timer(&mut self)
        ensures
            *final(self) == (Gun { shot_timer: old(self).shot_timer.spec_reset(), ..*old(self) }),
    {
        self.shot_timer.reset();
    }

    /// Advances the reload timer.
    pub fn tick_reload_time(&mut self, dt: u64)
        ensures
            *final(self) == (Gun {
                reload_stopwatch: old(self).reload_stopwatch.spec_tick(dt),
                ..*old(self)
            }),
    {
        self.reload_stopwatch.tick(dt);
    }

    /// One step of both timers: the reload timer runs only while the gun is
    /// empty.
    pub fn tick(&mut self, dt: u64)
        ensures
            *final(self) == old(self).spec_tick(dt),
    {
        self.tick_time(dt);
        if self.ammo == 0 {
            self.tick_reload_time(dt);
        }
    }

    pub fn can_reload(&self) -> (r: bool)
        ensures
            r == self.reload_stopwatch.finished,
    {
        self.reload_stopwatch.finished()
    }

    pub fn set_reload_delay(&mut self, time: u64)
        ensures
            *final(self) == (Gun {
                reload_stopwatch: Timer { duration: time, ..old(self).reload_stopwatch },
                ..*old(self)
            }),
    {
        self.reload_stopwatch.set_duration(time);
    }

    /// Refills the ammo and starts the reload timer over.
    pub fn reload(&mut self)
        ensures
            *final(self) == old(self).spec_reload(),
    {
        self.ammo = self.max_ammo;
        self.reload_stopwatch.reset();
    }

    pub fn set_max_ammo(&mut self, max_ammo: u64)
        ensures
            *final(self) == (Gun { max_ammo, ..*old(self) }),
    {
        self.max_ammo = max_ammo;
    }

    /// Spends one round; an empty gun stays empty.
    pub fn shoot_bullet(&mut self)
        ensures
            *final(self) == (Gun {
                ammo: if old(self).ammo > 0 { (old(self).ammo - 1) as u64 } else { 0 },
                ..*old(self)
            }),
    {
        self.ammo = if self.ammo > 0 { self.ammo - 1 } else { 0 };
    }

    pub fn get_ammo(&self) -> (r: u64)
        ensures
            r == self.ammo,
    {
        self.ammo
    }

    pub fn get_max_ammo(&self) -> (r: u64)
        ensures
            r == self.max_ammo,
    {
        self.max_ammo
    }

    pub fn set_ammo(&mut self, ammo: u64)
        ensures
            *final(self) == (Gun { ammo, ..*old(self) }),
    {
        self.ammo = ammo;
    }
}

/// An empty gun cannot fire, whatever its shot timer says.
pub proof fn lemma_empty_gun_cannot_shoot(g: Gun)
    requires
        g.ammo == 0,
    ensures
        !(g.shot_timer.finished && g.ammo > 0),
{
}

/// A reload fills the ammo to its maximum, and right after it the gun
/// cannot reload again.
pub proof fn lemma_reload_then_cannot_reload(g: Gun)
    ensures
        g.spec_reload().ammo == g.max_ammo,
        !g.spec_reload().reload_stopwatch.finished,
        g.spec_reload().reload_stopwatch.elapsed == 0,
{
}

} // verus!
