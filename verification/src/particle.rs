//! A single animated entity with physical state and a fixed decay schedule.
//!
//! Each tick a particle integrates semi-implicit Euler: an optional impulse
//! and the standing acceleration are added to the velocity, the velocity to
//! the position, and the life span falls by a fixed amount. Acceleration is
//! deliberately not reset after integration: a force applied once keeps
//! contributing every subsequent tick until counteracted. A one-shot effect
//! belongs in the impulse argument of [`Particle::update`] instead, which
//! feeds the velocity only once.

use crate::color_picker::Color;
use crate::fixed::{mul_div, tmuldiv, Vec2, PARAM_LIMIT, SCALE};
use vstd::math::abs;
use vstd::prelude::*;

verus! {

/// How much life span one tick costs: two whole units, independent of frame
/// duration.
pub const LIFE_DECREMENT: i64 = 2_000_000;

/// A particle: physical state, geometry, decay schedule and color.
#[derive(Clone, Copy, PartialEq, Eq, Structural, Debug)]
pub struct Particle {
    pub position: Vec2,
    pub velocity: Vec2,
    pub acceleration: Vec2,
    pub radius: i64,
    pub stroke_weight: i64,
    pub life_span: i64,
    pub init_life_span: i64,
    pub color: Color,
}

/// What a tick draws to: a circle that shrinks and fades with the life
/// ratio. The stroke is black at `stroke_alpha`.
#[derive(Clone, Copy, PartialEq, Eq, Structural, Debug)]
pub struct ParticleDraw {
    pub center: Vec2,
    pub diameter: i64,
    pub fill: Color,
    pub stroke_alpha: i64,
    pub stroke_weight: i64,
}

/// A directional arrow request, for velocity and flow-field visualization.
#[derive(Clone, Copy, PartialEq, Eq, Structural, Debug)]
pub struct Arrow {
    pub start: Vec2,
    pub end: Vec2,
    pub weight: i64,
}

/// A value representable by the machine integer the engine computes with.
pub open spec fn fits(v: int) -> bool {
    i64::MIN <= v <= i64::MAX
}

/// The impulse an update applies: the supplied vector, or none.
pub open spec fn impulse_of(dir: Option<Vec2>) -> Vec2 {
    match dir {
        Option::Some(d) => d,
        Option::None => Vec2 { x: 0, y: 0 },
    }
}

/// Whether one tick of `p` under impulse `dir` stays within machine range.
pub open spec fn step_fits(p: Particle, dir: Option<Vec2>) -> bool {
    let d = impulse_of(dir);
    &&& fits(p.velocity.x + d.x)
    &&& fits(p.velocity.y + d.y)
    &&& fits(p.velocity.x + d.x + p.acceleration.x)
    &&& fits(p.velocity.y + d.y + p.acceleration.y)
    &&& fits(p.position.x + p.velocity.x + d.x + p.acceleration.x)
    &&& fits(p.position.y + p.velocity.y + d.y + p.acceleration.y)
    &&& fits(p.life_span - LIFE_DECREMENT)
}

/// One physics tick of `p` under impulse `dir`, in the fixed order:
/// impulse into velocity, acceleration into velocity, velocity into
/// position, life span down by [`LIFE_DECREMENT`].
pub open spec fn stepped(p: Particle, dir: Option<Vec2>) -> Particle {
    let d = impulse_of(dir);
    let vx = p.velocity.x + d.x + p.acceleration.x;
    let vy = p.velocity.y + d.y + p.acceleration.y;
    Particle {
        velocity: Vec2 { x: vx as i64, y: vy as i64 },
        position: Vec2 { x: (p.position.x + vx) as i64, y: (p.position.y + vy) as i64 },
        life_span: (p.life_span - LIFE_DECREMENT) as i64,
        ..p
    }
}

/// The state after `k` ticks with no impulse.
pub open spec fn stepped_k(p: Particle, k: nat) -> Particle
    decreases k,
{
    if k == 0 {
        p
    } else {
        stepped(stepped_k(p, (k - 1) as nat), Option::None)
    }
}

/// The fade ratio `life_span / init_life_span`, scaled by [`SCALE`]; zero
/// when the initial life span is not positive. It transiently goes slightly
/// negative on a particle's final tick; consumers treat values at or below
/// zero as fully transparent and zero-sized.
pub open spec fn life_ratio(p: Particle) -> int {
    if p.init_life_span >= 1 {
        tmuldiv(p.life_span as int, SCALE as int, p.init_life_span as int)
    } else {
        0
    }
}

/// The draw request a particle yields: a circle of diameter
/// `radius * life_span / init_life_span` at its position, its color with
/// alpha overridden by the fade ratio, and a black outline of the
/// configured weight at the same ratio.
pub open spec fn draw_of(p: Particle) -> ParticleDraw {
    ParticleDraw {
        center: p.position,
        diameter: (if p.init_life_span >= 1 {
            tmuldiv(p.radius as int, p.life_span as int, p.init_life_span as int)
        } else {
            0
        }) as i64,
        fill: Color {
            hue: p.color.hue,
            sat: p.color.sat,
            light: p.color.light,
            alpha: life_ratio(p) as i64,
        },
        stroke_alpha: life_ratio(p) as i64,
        stroke_weight: p.stroke_weight,
    }
}

/// Whether the draw request's arithmetic stays within machine range.
pub open spec fn draw_fits(p: Particle) -> bool {
    p.init_life_span >= 1 ==> {
        &&& abs(p.radius as int * p.life_span as int) as int / (p.init_life_span as int)
            <= i64::MAX as int
        &&& abs(p.life_span as int * SCALE as int) as int / (p.init_life_span as int)
            <= i64::MAX as int
    }
}

impl Particle {
    /// Whether the particle has outlived its span: strictly negative life.
    /// A particle at exactly zero life is still alive.
    pub open spec fn dead(self) -> bool {
        self.life_span < 0
    }

    /// Creates a particle at `pos` with the given velocity, color and
    /// geometry, zero acceleration, and a full life span.
    pub fn new(
        pos: Vec2,
        velocity: Vec2,
        color: Color,
        radius: i64,
        stroke_weight: i64,
        life_span: i64,
    ) -> (p: Particle)
        ensures
            p == (Particle {
                position: pos,
                velocity,
                acceleration: Vec2 { x: 0, y: 0 },
                radius,
                stroke_weight,
                life_span,
                init_life_span: life_span,
                color,
            }),
    {
        Particle {
            position: pos,
            velocity,
            acceleration: Vec2 { x: 0, y: 0 },
            radius,
            stroke_weight,
            life_span,
            init_life_span: life_span,
            color,
        }
    }

    /// Adds `force` into the standing acceleration and does nothing else.
    /// The force keeps acting every subsequent tick.
    pub fn apply_force(&mut self, force: Vec2)
        requires
            fits(old(self).acceleration.x + force.x),
            fits(old(self).acceleration.y + force.y),
        ensures
            *final(self) == (Particle {
                acceleration: Vec2 {
                    x: (old(self).acceleration.x + force.x) as i64,
                    y: (old(self).acceleration.y + force.y) as i64,
                },
                ..*old(self)
            }),
    {
        self.acceleration.x = self.acceleration.x + force.x;
        self.acceleration.y = self.acceleration.y + force.y;
    }

    /// Advances one physics tick: exactly [`stepped`] of the prior state.
    pub fn update(&mut self, dir: Option<Vec2>)
        requires
            step_fits(*old(self), dir),
        ensures
            *final(self) == stepped(*old(self), dir),
    {
        match dir {
            Option::Some(d) => {
                self.velocity.x = self.velocity.x + d.x;
                self.velocity.y = self.velocity.y + d.y;
            },
            Option::None => {},
        }
        self.velocity.x = self.velocity.x + self.acceleration.x;
        self.velocity.y = self.velocity.y + self.acceleration.y;
        self.position.x = self.position.x + self.velocity.x;
        self.position.y = self.position.y + self.velocity.y;
        self.life_span = self.life_span - LIFE_DECREMENT;
    }

    /// True exactly when the life span has fallen below zero.
    pub fn is_dead(&self) -> (r: bool)
        ensures
            r == self.dead(),
    {
        self.life_span < 0
    }

    /// The draw request for this particle's current state.
    pub fn display(&self) -> (d: ParticleDraw)
        requires
            draw_fits(*self),
        ensures
            d == draw_of(*self),
    {
        if self.init_life_span >= 1 {
            let ratio = mul_div(self.life_span, SCALE, self.init_life_span);
            let diameter = mul_div(self.radius, self.life_span, self.init_life_span);
            ParticleDraw {
                center: self.position,
                diameter,
                fill: Color {
                    hue: self.color.hue,
                    sat: self.color.sat,
                    light: self.color.light,
                    alpha: ratio,
                },
                stroke_alpha: ratio,
                stroke_weight: self.stroke_weight,
            }
        } else {
            ParticleDraw {
                center: self.position,
                diameter: 0,
                fill: Color {
                    hue: self.color.hue,
                    sat: self.color.sat,
                    light: self.color.light,
                    alpha: 0,
                },
                stroke_alpha: 0,
                stroke_weight: self.stroke_weight,
            }
        }
    }

    /// An arrow from the particle's position along its velocity, of unit
    /// weight.
    pub fn draw_velocity(&self) -> (a: Arrow)
        requires
            fits(self.position.x + self.velocity.x),
            fits(self.position.y + self.velocity.y),
        ensures
            a == (Arrow {
                start: self.position,
                end: Vec2 {
                    x: (self.position.x + self.velocity.x) as i64,
                    y: (self.position.y + self.velocity.y) as i64,
                },
                weight: SCALE,
            }),
    {
        Arrow {
            start: self.position,
            end: Vec2 {
                x: self.position.x + self.velocity.x,
                y: self.position.y + self.velocity.y,
            },
            weight: SCALE,
        }
    }
}

/// Free fall of a coasting particle: with zero acceleration and no impulse,
/// `k` ticks move the position by exactly `k` times the velocity, leave the
/// velocity and acceleration untouched, and cost exactly `k` times
/// [`LIFE_DECREMENT`] of life span.
pub proof fn lemma_uniform_motion(p: Particle, k: nat)
    requires
        p.acceleration.x == 0,
        p.acceleration.y == 0,
        -PARAM_LIMIT <= p.position.x <= PARAM_LIMIT,
        -PARAM_LIMIT <= p.position.y <= PARAM_LIMIT,
        -PARAM_LIMIT <= p.velocity.x <= PARAM_LIMIT,
        -PARAM_LIMIT <= p.velocity.y <= PARAM_LIMIT,
        -PARAM_LIMIT <= p.life_span <= PARAM_LIMIT,
        k <= 1_000_000,
    ensures
        stepped_k(p, k).position.x == p.position.x + k * p.velocity.x,
        stepped_k(p, k).position.y == p.position.y + k * p.velocity.y,
        stepped_k(p, k).velocity == p.velocity,
        stepped_k(p, k).acceleration == p.acceleration,
        stepped_k(p, k).life_span == p.life_span - k * LIFE_DECREMENT,
        stepped_k(p, k).radius == p.radius,
        stepped_k(p, k).stroke_weight == p.stroke_weight,
        stepped_k(p, k).init_life_span == p.init_life_span,
        stepped_k(p, k).color == p.color,
    decreases k,
{
    if k == 0 {
    } else {
        let j = (k - 1) as nat;
        lemma_uniform_motion(p, j);
        assert(abs(j * p.velocity.x) <= 1_000_000 * PARAM_LIMIT && abs(j * p.velocity.y)
            <= 1_000_000 * PARAM_LIMIT && abs(j * LIFE_DECREMENT) <= 1_000_000 * PARAM_LIMIT
            && abs(k * p.velocity.x) <= 1_000_000 * PARAM_LIMIT && abs(k * p.velocity.y)
            <= 1_000_000 * PARAM_LIMIT && abs(k * LIFE_DECREMENT) <= 1_000_000 * PARAM_LIMIT)
            by (nonlinear_arith)
            requires
                -PARAM_LIMIT <= p.velocity.x <= PARAM_LIMIT,
                -PARAM_LIMIT <= p.velocity.y <= PARAM_LIMIT,
                j < k <= 1_000_000,
                LIFE_DECREMENT <= PARAM_LIMIT,
        ;
        assert(j * p.velocity.x + p.velocity.x == k * p.velocity.x) by (nonlinear_arith)
            requires
                j + 1 == k,
        ;
        assert(j * p.velocity.y + p.velocity.y == k * p.velocity.y) by (nonlinear_arith)
            requires
                j + 1 == k,
        ;
        assert(j * LIFE_DECREMENT + LIFE_DECREMENT == k * LIFE_DECREMENT) by (nonlinear_arith)
            requires
                j + 1 == k,
        ;
    }
}

/// The decay schedule pins death down exactly: after `k` no-impulse ticks a
/// coasting particle is dead precisely when `k` ticks cost more than its
/// whole initial span — and alive at exactly zero remaining life.
pub proof fn lemma_death_threshold(p: Particle, k: nat)
    requires
        p.acceleration.x == 0,
        p.acceleration.y == 0,
        -PARAM_LIMIT <= p.position.x <= PARAM_LIMIT,
        -PARAM_LIMIT <= p.position.y <= PARAM_LIMIT,
        -PARAM_LIMIT <= p.velocity.x <= PARAM_LIMIT,
        -PARAM_LIMIT <= p.velocity.y <= PARAM_LIMIT,
        -PARAM_LIMIT <= p.life_span <= PARAM_LIMIT,
        k <= 1_000_000,
    ensures
        stepped_k(p, k).dead() <==> p.life_span < k * LIFE_DECREMENT,
{
    lemma_uniform_motion(p, k);
}

} // verus!
