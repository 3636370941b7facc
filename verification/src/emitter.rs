//! The emitter: spawn cadence, particle pool management, per-tick physics
//! and optional turbulence.
//!
//! An emitter owns a color picker, optionally a mover, and a pool of
//! particles. Each tick the driver calls [`Emitter::update`], then
//! conditionally [`Emitter::emit`], and [`Emitter::display`] once per frame.
//! Turbulence samples a coherent noise field at each particle's position;
//! the engine cannot evaluate that field itself, so the caller samples it
//! (one scalar per particle, in micro-units of a full turn) and hands the
//! samples in. Everything the engine decides — the impulse derived from a
//! sample, the integration order, the eviction of expired particles — is
//! specified and checked here for every possible sample value.

use crate::color_picker::{color_picker_config_ok, ColorPicker, HALF_UNIT};
use crate::config::{lookup, lookup_spec, ColorPickerConfig, ConfigError, EmitterConfig, MoverConfig};
use crate::fixed::{
    floor_unit, lemma_product_quotient_bound, mul_div, tmuldiv, Interval, Vec2, PARAM_LIMIT, SCALE,
    TIME_LIMIT,
};
use crate::mover::{
    mover_config_ok, mover_position, resolved_mover_params, CurveKind, Mover, MOVER_LIMIT,
};
use crate::particle::{
    draw_fits, draw_of, fits, step_fits, stepped, Arrow, Particle, ParticleDraw,
};
use crate::prng::{Lcg, LCG_MOD};
use crate::trig::{cos_fx, cos_uturn, sin_fx, sin_uturn};
use vstd::prelude::*;
use vstd::seq_lib::group_filter_ensures;

verus! {

/// The spatial extents of the simulation viewport, centered on the origin.
#[derive(Clone, Copy, PartialEq, Eq, Structural, Debug)]
pub struct Bounds {
    pub top: i64,
    pub bottom: i64,
    pub left: i64,
    pub right: i64,
}

/// Extents are ordered and within the engine's parameter limit.
pub open spec fn bounds_ok(b: Bounds) -> bool {
    &&& -PARAM_LIMIT <= b.left <= b.right <= PARAM_LIMIT
    &&& -PARAM_LIMIT <= b.bottom <= b.top <= PARAM_LIMIT
}

/// An emitter: identity, viewport bounds, its color picker, spawn
/// parameters, optional mover and noise configuration, the pause flag, the
/// live pool, and its own randomness source.
#[derive(Clone, Debug)]
pub struct Emitter {
    pub name: String,
    pub bounds: Bounds,
    pub color_picker: ColorPicker,
    pub flight_size: usize,
    pub initial_velocity: Vec2,
    pub life_span: i64,
    pub mover: Option<Mover>,
    pub noise_field: bool,
    pub noise_scale: i64,
    pub noise_strength: i64,
    pub origin: Vec2,
    pub particles: Vec<Particle>,
    pub paused: bool,
    pub position: Vec2,
    pub radius: i64,
    pub randomize_position: bool,
    pub randomize_velocity: bool,
    pub stroke_weight: i64,
    pub visualize_noise_field: bool,
    pub rng: Lcg,
}

/// The velocity perturbation turbulence applies: the sampled scalar is an
/// angle in micro-units of a full turn; its unit vector is scaled by the
/// configured noise strength.
pub open spec fn impulse_of_sample(sample: int, strength: i64) -> Vec2 {
    Vec2 {
        x: tmuldiv(cos_uturn(sample), strength as int, SCALE as int) as i64,
        y: tmuldiv(sin_uturn(sample), strength as int, SCALE as int) as i64,
    }
}

/// Computes the turbulence impulse for one noise sample.
pub fn impulse_from_sample(sample: i64, strength: i64) -> (v: Vec2)
    requires
        -PARAM_LIMIT <= strength <= PARAM_LIMIT,
    ensures
        v == impulse_of_sample(sample as int, strength),
        -PARAM_LIMIT <= v.x <= PARAM_LIMIT,
        -PARAM_LIMIT <= v.y <= PARAM_LIMIT,
{
    let c = cos_fx(sample);
    let s = sin_fx(sample);
    proof {
        lemma_product_quotient_bound(
            c as int,
            strength as int,
            SCALE as int,
            PARAM_LIMIT as int,
            SCALE as int,
        );
        lemma_product_quotient_bound(
            s as int,
            strength as int,
            SCALE as int,
            PARAM_LIMIT as int,
            SCALE as int,
        );
    }
    Vec2 { x: mul_div(c, strength, SCALE), y: mul_div(s, strength, SCALE) }
}

/// The noise samples as a sequence; an absent argument is an empty one.
pub open spec fn samples_seq(samples: Option<&Vec<i64>>) -> Seq<i64> {
    match samples {
        Option::Some(v) => v@,
        Option::None => Seq::empty(),
    }
}

/// Default life span of a spawned particle: 512 whole units.
pub const DEFAULT_LIFE_SPAN: i64 = 512_000_000;

/// Default particle radius: 10 whole units.
pub const DEFAULT_RADIUS: i64 = 10_000_000;

/// Default stroke weight: 2 whole units.
pub const DEFAULT_STROKE_WEIGHT: i64 = 2_000_000;

/// The color-picker name an emitter configuration references (empty when
/// absent, which no named picker matches).
pub open spec fn picker_name_of(c: EmitterConfig) -> Seq<char> {
    match c.color_picker {
        Option::Some(s) => s@,
        Option::None => Seq::empty(),
    }
}

/// The mover name an emitter configuration references (empty when absent).
pub open spec fn mover_name_of(c: EmitterConfig) -> Seq<char> {
    match c.mover {
        Option::Some(s) => s@,
        Option::None => Seq::empty(),
    }
}

/// A freshly built picker carrying exactly the resolved configuration:
/// defaults hue 0, saturation and lightness one half, alpha one, one color.
pub open spec fn picker_matches(cp: ColorPicker, cfg: ColorPickerConfig) -> bool {
    &&& cp.wf()
    &&& cp.num_colors == cfg.num_colors.unwrap_or(1)
    &&& cp.hue == cfg.hue.unwrap_or(0)
    &&& cp.sat == cfg.saturation.unwrap_or(HALF_UNIT)
    &&& cp.light == cfg.lightness.unwrap_or(HALF_UNIT)
    &&& cp.alpha == cfg.alpha.unwrap_or(SCALE)
    &&& cp.range_hue == cfg.range_hue
    &&& cp.range_sat == cfg.range_saturation
    &&& cp.range_light == cfg.range_lightness
    &&& cp.range_alpha == cfg.range_alpha
    &&& !cp.materialized()
    &&& cp.cursor() == 0
}

/// The built-in fallback picker an unknown name resolves to: a single
/// color of hue one, half saturation, lightness and alpha, with the
/// saturation and lightness ranges `[0.3, 0.7]`.
pub open spec fn fallback_picker_matches(cp: ColorPicker) -> bool {
    &&& cp.wf()
    &&& cp.num_colors == 1
    &&& cp.hue == SCALE
    &&& cp.sat == HALF_UNIT
    &&& cp.light == HALF_UNIT
    &&& cp.alpha == HALF_UNIT
    &&& cp.range_hue is None
    &&& cp.range_sat == Option::Some(Interval { lo: 300_000, hi: 700_000 })
    &&& cp.range_light == Option::Some(Interval { lo: 300_000, hi: 700_000 })
    &&& cp.range_alpha is None
    &&& !cp.materialized()
    &&& cp.cursor() == 0
}

/// Every numeric field of an emitter configuration (present or defaulted)
/// is within the engine's parameter limit.
pub open spec fn emitter_config_ok(c: EmitterConfig) -> bool {
    &&& crate::mover::vec2_ok(c.initial_velocity.unwrap_or(Vec2 { x: 0, y: 0 }))
    &&& crate::mover::vec2_ok(c.position.unwrap_or(Vec2 { x: 0, y: 0 }))
    &&& -PARAM_LIMIT <= c.life_span.unwrap_or(DEFAULT_LIFE_SPAN) <= PARAM_LIMIT
    &&& -PARAM_LIMIT <= c.noise_scale.unwrap_or(0) <= PARAM_LIMIT
    &&& -PARAM_LIMIT <= c.noise_strength.unwrap_or(0) <= PARAM_LIMIT
    &&& -PARAM_LIMIT <= c.radius.unwrap_or(DEFAULT_RADIUS) <= PARAM_LIMIT
    &&& -PARAM_LIMIT <= c.stroke_weight.unwrap_or(DEFAULT_STROKE_WEIGHT) <= PARAM_LIMIT
}

/// The grid spacing of the flow-field visualization: ten whole units.
pub const FLOW_STEP: i64 = 10_000_000;

/// How many grid lines a span `[lo, hi)` holds at [`FLOW_STEP`] spacing:
/// one at `lo` and one per further step that still falls short of `hi`.
pub open spec fn grid_steps(lo: int, hi: int) -> int
    decreases vstd::math::max(hi - lo, 0),
{
    if hi <= lo {
        0
    } else {
        1 + grid_steps(lo + FLOW_STEP, hi)
    }
}

/// A step count is never negative.
pub proof fn lemma_grid_steps_nonneg(lo: int, hi: int)
    ensures
        grid_steps(lo, hi) >= 0,
    decreases vstd::math::max(hi - lo, 0),
{
    if hi > lo {
        lemma_grid_steps_nonneg(lo + FLOW_STEP, hi);
    }
}

/// Grid columns across the viewport.
pub open spec fn grid_cols(b: Bounds) -> int {
    grid_steps(b.left as int, b.right as int)
}

/// Grid rows up the viewport.
pub open spec fn grid_rows(b: Bounds) -> int {
    grid_steps(b.bottom as int, b.top as int)
}

/// How many sample points the flow-field grid holds.
pub open spec fn grid_count(b: Bounds) -> int {
    grid_cols(b) * grid_rows(b)
}

/// The `k`-th grid point, in column-major order: columns left to right,
/// each column bottom to top.
pub open spec fn grid_point(b: Bounds, k: int) -> Vec2 {
    Vec2 {
        x: (b.left + FLOW_STEP * (k / grid_rows(b))) as i64,
        y: (b.bottom + FLOW_STEP * (k % grid_rows(b))) as i64,
    }
}

/// The arrow drawn at a grid point for one noise sample: ten whole units
/// along the sampled direction, at unit weight.
pub open spec fn arrow_at(pt: Vec2, sample: int) -> Arrow {
    Arrow {
        start: pt,
        end: Vec2 {
            x: (pt.x + 10 * cos_uturn(sample)) as i64,
            y: (pt.y + 10 * sin_uturn(sample)) as i64,
        },
        weight: SCALE,
    }
}

/// Half the viewport's width, rounded down.
pub open spec fn half_width(b: Bounds) -> int {
    (b.right - b.left) / 2
}

/// Half the viewport's height, rounded down.
pub open spec fn half_height(b: Bounds) -> int {
    (b.top - b.bottom) / 2
}

/// What holds of the `j`-th particle a flight spawns (counted from zero):
/// geometry and life span copied from the emitter's current configuration,
/// zero acceleration, the position either the emitter's own or a
/// whole-unit-aligned point inside the centered viewport, the velocity
/// either the configured one or unit jitter per axis, and the color the
/// picker's `j + 1`-th of this flight.
pub open spec fn spawn_ok(em: Emitter, p: Particle, j: int) -> bool {
    &&& p.radius == em.radius
    &&& p.stroke_weight == em.stroke_weight
    &&& p.life_span == em.life_span
    &&& p.init_life_span == em.life_span
    &&& p.acceleration == (Vec2 { x: 0, y: 0 })
    &&& (!em.randomize_position ==> p.position == em.position)
    &&& (em.randomize_position ==> {
        &&& (p.position.x as int) % (SCALE as int) == 0
        &&& (p.position.y as int) % (SCALE as int) == 0
        &&& -half_width(em.bounds) - SCALE < p.position.x <= half_width(em.bounds)
        &&& -half_height(em.bounds) - SCALE < p.position.y <= half_height(em.bounds)
    })
    &&& (!em.randomize_velocity ==> p.velocity == em.initial_velocity)
    &&& (em.randomize_velocity ==> -SCALE <= p.velocity.x < SCALE && -SCALE <= p.velocity.y
        < SCALE)
    &&& p.color == em.color_picker.nth_call_color(j + 1)
}

impl Emitter {
    /// Well-formedness: bounds ordered, the picker and mover well-formed,
    /// every configured scalar within the engine's parameter limit, and the
    /// tracked position within what a mover can produce.
    pub open spec fn wf(self) -> bool {
        &&& bounds_ok(self.bounds)
        &&& self.color_picker.wf()
        &&& match self.mover {
            Option::Some(m) => m.wf(),
            Option::None => true,
        }
        &&& -PARAM_LIMIT <= self.initial_velocity.x <= PARAM_LIMIT
        &&& -PARAM_LIMIT <= self.initial_velocity.y <= PARAM_LIMIT
        &&& -PARAM_LIMIT <= self.life_span <= PARAM_LIMIT
        &&& -PARAM_LIMIT <= self.radius <= PARAM_LIMIT
        &&& -PARAM_LIMIT <= self.stroke_weight <= PARAM_LIMIT
        &&& -PARAM_LIMIT <= self.noise_scale <= PARAM_LIMIT
        &&& -PARAM_LIMIT <= self.noise_strength <= PARAM_LIMIT
        &&& -MOVER_LIMIT <= self.origin.x <= MOVER_LIMIT
        &&& -MOVER_LIMIT <= self.origin.y <= MOVER_LIMIT
        &&& -MOVER_LIMIT <= self.position.x <= MOVER_LIMIT
        &&& -MOVER_LIMIT <= self.position.y <= MOVER_LIMIT
        &&& self.rng.inv()
    }

    /// The impulse particle `i` receives this tick: the turbulence impulse
    /// for its sample when a noise field is configured, none otherwise.
    pub open spec fn tick_impulse(self, samples: Seq<i64>, i: int) -> Option<Vec2> {
        if self.noise_field {
            Option::Some(impulse_of_sample(samples[i] as int, self.noise_strength))
        } else {
            Option::None
        }
    }

    /// The whole pool after one tick of physics, before eviction.
    pub open spec fn stepped_pool(self, samples: Seq<i64>) -> Seq<Particle> {
        Seq::new(
            self.particles@.len(),
            |i: int| stepped(self.particles@[i], self.tick_impulse(samples, i)),
        )
    }

    /// Whether one tick of every particle stays within machine range.
    pub open spec fn update_fits(self, samples: Seq<i64>) -> bool {
        forall|i: int|
            0 <= i < self.particles@.len() ==> step_fits(
                #[trigger] self.particles@[i],
                self.tick_impulse(samples, i),
            )
    }

    /// Flips the pause flag and nothing else. Already-spawned particles
    /// keep updating and dying while paused; only emission is suppressed.
    pub fn toggle_pause(&mut self)
        ensures
            *final(self) == (Emitter { paused: !old(self).paused, ..*old(self) }),
    {
        self.paused = !self.paused;
    }

    /// Broadcasts `force` into every live particle's standing acceleration.
    pub fn apply_force(&mut self, force: Vec2)
        requires
            old(self).wf(),
            forall|i: int|
                0 <= i < old(self).particles@.len() ==> fits(
                    (#[trigger] old(self).particles@[i]).acceleration.x + force.x,
                ) && fits(old(self).particles@[i].acceleration.y + force.y),
        ensures
            final(self).wf(),
            final(self).particles@.len() == old(self).particles@.len(),
            forall|i: int|
                0 <= i < old(self).particles@.len() ==> final(self).particles@[i] == (Particle {
                    acceleration: Vec2 {
                        x: ((#[trigger] old(self).particles@[i]).acceleration.x + force.x) as i64,
                        y: (old(self).particles@[i].acceleration.y + force.y) as i64,
                    },
                    ..old(self).particles@[i]
                }),
            *final(self) == (Emitter { particles: final(self).particles, ..*old(self) }),
    {
        let n = self.particles.len();
        let mut i: usize = 0;
        while i < n
            invariant
                i <= n,
                n == self.particles@.len(),
                n == old(self).particles@.len(),
                *self == (Emitter { particles: self.particles, ..*old(self) }),
                forall|k: int|
                    i <= k < n ==> #[trigger] self.particles@[k] == old(self).particles@[k],
                forall|k: int|
                    0 <= k < i ==> #[trigger] self.particles@[k] == (Particle {
                        acceleration: Vec2 {
                            x: (old(self).particles@[k].acceleration.x + force.x) as i64,
                            y: (old(self).particles@[k].acceleration.y + force.y) as i64,
                        },
                        ..old(self).particles@[k]
                    }),
                forall|k: int|
                    0 <= k < n ==> fits(
                        (#[trigger] old(self).particles@[k]).acceleration.x + force.x,
                    ) && fits(old(self).particles@[k].acceleration.y + force.y),
            decreases n - i,
        {
            let mut p = self.particles[i];
            p.apply_force(force);
            self.particles.set(i, p);
            i = i + 1;
        }
    }

    /// One simulation tick: reposition by the mover when one is configured,
    /// step every particle (with its turbulence impulse when a noise field
    /// is configured), then evict the dead. The surviving particles are
    /// exactly the stepped pool with the dead filtered out, in their
    /// original order — no survivor is skipped or duplicated — and no
    /// particle with negative life span remains.
    pub fn update(&mut self, t: i64, samples: Option<&Vec<i64>>)
        requires
            old(self).wf(),
            0 <= t <= TIME_LIMIT,
            old(self).noise_field ==> (samples matches Option::Some(s) && s@.len() == old(
                self,
            ).particles@.len()),
            old(self).update_fits(samples_seq(samples)),
        ensures
            final(self).wf(),
            final(self).position == (match old(self).mover {
                Option::Some(m) => mover_position(m, t as int),
                Option::None => old(self).position,
            }),
            final(self).particles@ == old(self).stepped_pool(samples_seq(samples)).filter(
                |p: Particle| !p.dead(),
            ),
            forall|i: int|
                0 <= i < final(self).particles@.len() ==> !(#[trigger] final(self).particles@[i]).dead(),
            *final(self) == (Emitter {
                position: final(self).position,
                particles: final(self).particles,
                ..*old(self)
            }),
    {
        broadcast use group_filter_ensures;

        match &self.mover {
            Option::Some(m) => {
                self.position = m.get_postion(t);
            },
            Option::None => {},
        }
        let ghost sseq = samples_seq(samples);
        let ghost pool0 = old(self).particles@;
        let ghost target = old(self).stepped_pool(sseq);
        let ghost alive: spec_fn(Particle) -> bool = |p: Particle| !p.dead();
        let n = self.particles.len();
        let mut kept: Vec<Particle> = Vec::new();
        let mut i: usize = 0;
        proof {
            reveal(Seq::filter);
            assert(target.take(0) =~= Seq::<Particle>::empty());
        }
        while i < n
            invariant
                i <= n,
                n == pool0.len(),
                pool0 == old(self).particles@,
                self.particles@ == pool0,
                n == target.len(),
                old(self).wf(),
                target == old(self).stepped_pool(sseq),
                alive == (|p: Particle| !p.dead()),
                self.noise_field == old(self).noise_field,
                self.noise_strength == old(self).noise_strength,
                old(self).noise_field ==> (samples matches Option::Some(s) && s@.len() == n),
                sseq == samples_seq(samples),
                old(self).update_fits(sseq),
                kept@ == target.take(i as int).filter(alive),
            decreases n - i,
        {
            let imp: Option<Vec2> = if self.noise_field {
                let s = match samples {
                    Option::Some(s) => s,
                    Option::None => {
                        proof {
                            assert(false);
                        }
                        return ;
                    },
                };
                Option::Some(impulse_from_sample(s[i], self.noise_strength))
            } else {
                Option::None
            };
            proof {
                assert(imp == old(self).tick_impulse(sseq, i as int));
                assert(step_fits(old(self).particles@[i as int], old(self).tick_impulse(
                    sseq,
                    i as int,
                )));
                assert(step_fits(pool0[i as int], imp));
            }
            let mut p = self.particles[i];
            p.update(imp);
            proof {
                assert(p == target[i as int]);
                reveal(Seq::filter);
                assert(target.take(i + 1).drop_last() =~= target.take(i as int));
                assert(target.take(i + 1).last() == target[i as int]);
            }
            if !p.is_dead() {
                kept.push(p);
            }
            i = i + 1;
        }
        proof {
            assert(target.take(n as int) =~= target);
        }
        self.particles = kept;
        proof {
            assert forall|j: int| 0 <= j < self.particles@.len() implies !(#[trigger] self
                .particles@[j]).dead() by {
                target.lemma_filter_pred(alive, j);
            }
        }
    }

    /// Spawns one particle from the emitter's current parameters and its
    /// own randomness: the contract below holds for every draw the source
    /// can produce. The `j`-th particle of a flight gets the picker's
    /// `j + 1`-th color.
    pub fn initializer(&mut self, _bounds: Bounds) -> (p: Particle)
        requires
            old(self).wf(),
        ensures
            final(self).wf(),
            spawn_ok(*old(self), p, 0),
            final(self).color_picker.cycle() == old(self).color_picker.cycle(),
            final(self).color_picker.cursor() == (old(self).color_picker.cursor() + 1) % (old(
                self,
            ).color_picker.num_colors as int),
            final(self).color_picker.same_config(old(self).color_picker),
            *final(self) == (Emitter {
                color_picker: final(self).color_picker,
                rng: final(self).rng,
                ..*old(self)
            }),
    {
        let mut pos = self.position;
        if self.randomize_position {
            let w = self.bounds.right - self.bounds.left;
            let h = self.bounds.top - self.bounds.bottom;
            let hw = ((w as u64) / 2) as i64;
            let hh = ((h as u64) / 2) as i64;
            let rx = self.rng.next_unit();
            let ry = self.rng.next_unit();
            let ax = 2 * rx - SCALE;
            let ay = 2 * ry - SCALE;
            proof {
                lemma_product_quotient_bound(
                    ax as int,
                    hw as int,
                    SCALE as int,
                    hw as int,
                    SCALE as int,
                );
                lemma_product_quotient_bound(
                    ay as int,
                    hh as int,
                    SCALE as int,
                    hh as int,
                    SCALE as int,
                );
                vstd::arithmetic::div_mod::lemma_div_multiples_vanish(hw as int, SCALE as int);
                vstd::arithmetic::div_mod::lemma_div_multiples_vanish(hh as int, SCALE as int);
            }
            let jx = mul_div(ax, hw, SCALE);
            let jy = mul_div(ay, hh, SCALE);
            pos = Vec2 { x: floor_unit(jx), y: floor_unit(jy) };
        }
        let vel = if self.randomize_velocity {
            let rx = self.rng.next_unit();
            let ry = self.rng.next_unit();
            Vec2 { x: 2 * rx - SCALE, y: 2 * ry - SCALE }
        } else {
            self.initial_velocity
        };
        let color = self.color_picker.get_next_color();
        Particle::new(pos, vel, color, self.radius, self.stroke_weight, self.life_span)
    }

    /// Spawns one flight: exactly `flight_size` new particles appended to
    /// the pool, each spawned as [`spawn_ok`] describes, with colors taken
    /// from the picker's cycle in order. A paused emitter spawns nothing
    /// and stays exactly as it was, whatever the pool holds.
    pub fn emit(&mut self)
        requires
            old(self).wf(),
        ensures
            final(self).wf(),
            old(self).paused ==> *final(self) == *old(self),
            !old(self).paused ==> {
                &&& final(self).particles@.len() == old(self).particles@.len() + old(
                    self,
                ).flight_size
                &&& final(self).particles@.subrange(0, old(self).particles@.len() as int) == old(
                    self,
                ).particles@
                &&& forall|j: int|
                    0 <= j < old(self).flight_size ==> spawn_ok(
                        *old(self),
                        #[trigger] final(self).particles@[old(self).particles@.len() + j],
                        j,
                    )
                &&& final(self).color_picker.cycle() == old(self).color_picker.cycle()
                &&& final(self).color_picker.cursor() == (old(self).color_picker.cursor() + old(
                    self,
                ).flight_size) % (old(self).color_picker.num_colors as int)
                &&& final(self).color_picker.same_config(old(self).color_picker)
                &&& *final(self) == (Emitter {
                    color_picker: final(self).color_picker,
                    particles: final(self).particles,
                    rng: final(self).rng,
                    ..*old(self)
                })
            },
    {
        if self.paused {
            return ;
        }
        let ghost em0 = *old(self);
        let ghost len0 = old(self).particles@.len() as int;
        let ghost c0 = old(self).color_picker.cursor();
        let ghost ni = old(self).color_picker.num_colors as int;
        let fs = self.flight_size;
        let mut j: usize = 0;
        proof {
            vstd::arithmetic::div_mod::lemma_mod_bound(c0, ni);
            vstd::arithmetic::div_mod::lemma_small_mod(c0 as nat, ni as nat);
        }
        while j < fs
            invariant
                j <= fs,
                em0.wf(),
                self.wf(),
                fs == em0.flight_size,
                len0 == em0.particles@.len(),
                ni == em0.color_picker.num_colors as int,
                c0 == em0.color_picker.cursor(),
                self.particles@.len() == len0 + j,
                forall|k: int| 0 <= k < len0 ==> self.particles@[k] == em0.particles@[k],
                forall|jj: int|
                    0 <= jj < j ==> spawn_ok(em0, #[trigger] self.particles@[len0 + jj], jj),
                self.color_picker.cycle() == em0.color_picker.cycle(),
                self.color_picker.cursor() == (c0 + j) % ni,
                self.color_picker.same_config(em0.color_picker),
                *self == (Emitter {
                    color_picker: self.color_picker,
                    particles: self.particles,
                    rng: self.rng,
                    ..em0
                }),
            decreases fs - j,
        {
            let bounds = self.bounds;
            let p = self.initializer(bounds);
            self.particles.push(p);
            proof {
                if ni == 1 {
                    vstd::arithmetic::div_mod::lemma_mod_bound(c0 + j, 1);
                    vstd::arithmetic::div_mod::lemma_mod_bound(c0 + j + 1, 1);
                    vstd::arithmetic::div_mod::lemma_mod_bound((c0 + j) % 1 + 1, 1);
                } else {
                    vstd::arithmetic::div_mod::lemma_small_mod(1nat, ni as nat);
                    vstd::arithmetic::div_mod::lemma_add_mod_noop(c0 + j, 1, ni);
                    vstd::arithmetic::div_mod::lemma_mod_twice(c0 + j, ni);
                }
                assert(self.color_picker.cursor() == (c0 + (j + 1)) % ni);
                assert(spawn_ok(em0, p, j as int));
            }
            j = j + 1;
        }
        proof {
            assert(self.particles@.subrange(0, len0) =~= em0.particles@);
        }
    }

    /// Resolves the named color picker: the configuration registered under
    /// `picker_name` when there is one, else the built-in single-color
    /// default picker — a deliberate lenient fallback, not an error. Only a
    /// found configuration demanding zero colors is rejected.
    fn color_picker_from_config(
        picker_name: &String,
        color_pickers: &Vec<(String, ColorPickerConfig)>,
        seed: u64,
    ) -> (r: Result<ColorPicker, ConfigError>)
        requires
            forall|i: int|
                0 <= i < color_pickers@.len() ==> color_picker_config_ok(
                    (#[trigger] color_pickers@[i]).1,
                ),
        ensures
            match lookup_spec(color_pickers@, picker_name@) {
                Option::Some(cfg) => {
                    &&& (r is Ok <==> cfg.num_colors != Option::Some(0usize))
                    &&& (r matches Result::Ok(cp) ==> picker_matches(cp, cfg) && cp.rng_raw() == (
                    seed as int) % (LCG_MOD as int))
                    &&& (r matches Result::Err(e) ==> e == ConfigError::ZeroColors)
                },
                Option::None => r matches Result::Ok(cp) && fallback_picker_matches(cp)
                    && cp.rng_raw() == (seed as int) % (LCG_MOD as int),
            },
    {
        match lookup(color_pickers, picker_name) {
            Option::Some(cfg) => {
                proof {
                    crate::config::lemma_lookup_found(color_pickers@, picker_name@, *cfg);
                }
                ColorPicker::from_config(*cfg, seed)
            },
            Option::None => {
                let r = ColorPicker::new(
                    1,
                    SCALE,
                    HALF_UNIT,
                    HALF_UNIT,
                    HALF_UNIT,
                    Option::None,
                    Option::Some(Interval { lo: 300_000, hi: 700_000 }),
                    Option::Some(Interval { lo: 300_000, hi: 700_000 }),
                    Option::None,
                    seed,
                );
                match r {
                    Result::Ok(cp) => Result::Ok(cp),
                    Result::Err(e) => {
                        proof {
                            assert(false);
                        }
                        Result::Err(e)
                    },
                }
            },
        }
    }

    /// Resolves the named mover: one built from the configuration
    /// registered under `mover_name` when there is one, else none — the
    /// emitter then stays at its fixed origin.
    fn mover_from_config(mover_name: &String, movers: &Vec<(String, MoverConfig)>) -> (r: Option<
        Mover,
    >)
        requires
            forall|i: int|
                0 <= i < movers@.len() ==> mover_config_ok((#[trigger] movers@[i]).1),
        ensures
            match lookup_spec(movers@, mover_name@) {
                Option::Some(mc) => r matches Option::Some(m) && m.wf() && m.curve
                    == CurveKind::Ellipse && m.name == *mover_name && m.params
                    == resolved_mover_params(mc),
                Option::None => r is None,
            },
    {
        match lookup(movers, mover_name) {
            Option::Some(mc) => {
                proof {
                    crate::config::lemma_lookup_found(movers@, mover_name@, *mc);
                }
                Option::Some(Mover::from_config(mover_name.clone(), mc))
            },
            Option::None => Option::None,
        }
    }

    /// Builds an emitter from configuration: every absent field resolves to
    /// its documented default, the named color picker and mover resolve by
    /// the lenient-fallback policy, and the pool starts empty. The one
    /// rejection: a found picker configuration demanding zero colors.
    pub fn from_config(
        name: String,
        config: EmitterConfig,
        color_pickers_config: &Vec<(String, ColorPickerConfig)>,
        movers_config: &Vec<(String, MoverConfig)>,
        bounds: Bounds,
        seed: u64,
    ) -> (r: Result<Emitter, ConfigError>)
        requires
            bounds_ok(bounds),
            emitter_config_ok(config),
            forall|i: int|
                0 <= i < color_pickers_config@.len() ==> color_picker_config_ok(
                    (#[trigger] color_pickers_config@[i]).1,
                ),
            forall|i: int|
                0 <= i < movers_config@.len() ==> mover_config_ok(
                    (#[trigger] movers_config@[i]).1,
                ),
        ensures
            r is Err <==> (lookup_spec(color_pickers_config@, picker_name_of(config))
                matches Option::Some(cfg) && cfg.num_colors == Option::Some(0usize)),
            r matches Result::Err(e) ==> e == ConfigError::ZeroColors,
            r matches Result::Ok(em) ==> {
                &&& em.wf()
                &&& em.name == name
                &&& em.bounds == bounds
                &&& em.flight_size == config.flight_size.unwrap_or(10)
                &&& em.initial_velocity == config.initial_velocity.unwrap_or(Vec2 { x: 0, y: 0 })
                &&& em.life_span == config.life_span.unwrap_or(DEFAULT_LIFE_SPAN)
                &&& (match lookup_spec(movers_config@, mover_name_of(config)) {
                    Option::Some(mc) => em.mover matches Option::Some(m) && m.curve
                        == CurveKind::Ellipse && m.name@ == mover_name_of(config) && m.params
                        == resolved_mover_params(mc),
                    Option::None => em.mover is None,
                })
                &&& em.noise_field == config.noise_field.unwrap_or(false)
                &&& em.noise_scale == config.noise_scale.unwrap_or(0)
                &&& em.noise_strength == config.noise_strength.unwrap_or(0)
                &&& em.origin == config.position.unwrap_or(Vec2 { x: 0, y: 0 })
                &&& em.position == em.origin
                &&& em.particles@.len() == 0
                &&& em.paused == false
                &&& em.radius == config.radius.unwrap_or(DEFAULT_RADIUS)
                &&& em.randomize_position == config.randomize_position.unwrap_or(false)
                &&& em.randomize_velocity == config.randomize_velocity.unwrap_or(true)
                &&& em.stroke_weight == config.stroke_weight.unwrap_or(DEFAULT_STROKE_WEIGHT)
                &&& em.visualize_noise_field == config.visualize_noise_field.unwrap_or(false)
                &&& (match lookup_spec(color_pickers_config@, picker_name_of(config)) {
                    Option::Some(cfg) => picker_matches(em.color_picker, cfg),
                    Option::None => fallback_picker_matches(em.color_picker),
                })
            },
    {
        let mut seeder = Lcg::new(seed);
        let picker_seed = seeder.next_raw();
        let empty_name = String::new();
        let picker_name: &String = match &config.color_picker {
            Option::Some(s) => s,
            Option::None => &empty_name,
        };
        let color_picker = match Self::color_picker_from_config(
            picker_name,
            color_pickers_config,
            picker_seed,
        ) {
            Result::Ok(cp) => cp,
            Result::Err(e) => {
                return Result::Err(e);
            },
        };
        let mover_name: &String = match &config.mover {
            Option::Some(s) => s,
            Option::None => &empty_name,
        };
        let mover = Self::mover_from_config(mover_name, movers_config);
        let origin = config.position.unwrap_or(Vec2 { x: 0, y: 0 });
        Result::Ok(
            Emitter {
                name,
                bounds,
                color_picker,
                flight_size: config.flight_size.unwrap_or(10),
                initial_velocity: config.initial_velocity.unwrap_or(Vec2 { x: 0, y: 0 }),
                life_span: config.life_span.unwrap_or(DEFAULT_LIFE_SPAN),
                mover,
                noise_field: config.noise_field.unwrap_or(false),
                noise_scale: config.noise_scale.unwrap_or(0),
                noise_strength: config.noise_strength.unwrap_or(0),
                origin,
                particles: Vec::new(),
                paused: false,
                position: origin,
                radius: config.radius.unwrap_or(DEFAULT_RADIUS),
                randomize_position: config.randomize_position.unwrap_or(false),
                randomize_velocity: config.randomize_velocity.unwrap_or(true),
                stroke_weight: config.stroke_weight.unwrap_or(DEFAULT_STROKE_WEIGHT),
                visualize_noise_field: config.visualize_noise_field.unwrap_or(false),
                rng: seeder,
            },
        )
    }

    /// Builds the default emitter: the built-in parameters and a ten-color
    /// hue-117 picker, at the origin, active, with an empty pool.
    pub fn new(bounds: Bounds, seed: u64) -> (em: Emitter)
        requires
            bounds_ok(bounds),
        ensures
            em.wf(),
            em.name@ == "unnamed_emitter"@,
            em.bounds == bounds,
            em.flight_size == 10,
            em.initial_velocity == (Vec2 { x: 0, y: 0 }),
            em.life_span == DEFAULT_LIFE_SPAN,
            em.mover is None,
            em.noise_field == false,
            em.noise_scale == 0,
            em.noise_strength == 0,
            em.origin == (Vec2 { x: 0, y: 0 }),
            em.position == (Vec2 { x: 0, y: 0 }),
            em.particles@.len() == 0,
            em.paused == false,
            em.radius == DEFAULT_RADIUS,
            em.randomize_position == false,
            em.randomize_velocity == true,
            em.stroke_weight == DEFAULT_STROKE_WEIGHT,
            em.visualize_noise_field == true,
            em.color_picker.num_colors == 10,
            em.color_picker.hue == 117 * SCALE,
            em.color_picker.sat == HALF_UNIT,
            em.color_picker.light == HALF_UNIT,
            em.color_picker.alpha == HALF_UNIT,
            em.color_picker.range_hue is None,
            em.color_picker.range_sat == Option::Some(Interval { lo: 300_000, hi: 700_000 }),
            em.color_picker.range_light == Option::Some(Interval { lo: 300_000, hi: 700_000 }),
            em.color_picker.range_alpha is None,
            !em.color_picker.materialized(),
            em.color_picker.cursor() == 0,
    {
        let mut seeder = Lcg::new(seed);
        let picker_seed = seeder.next_raw();
        let color_picker = match ColorPicker::new(
            10,
            117 * SCALE,
            HALF_UNIT,
            HALF_UNIT,
            HALF_UNIT,
            Option::None,
            Option::Some(Interval { lo: 300_000, hi: 700_000 }),
            Option::Some(Interval { lo: 300_000, hi: 700_000 }),
            Option::None,
            picker_seed,
        ) {
            Result::Ok(cp) => cp,
            Result::Err(_) => {
                proof {
                    assert(false);
                }
                vstd::pervasive::unreached()
            },
        };
        Emitter {
            name: "unnamed_emitter".to_owned(),
            bounds,
            color_picker,
            flight_size: 10,
            initial_velocity: Vec2 { x: 0, y: 0 },
            life_span: DEFAULT_LIFE_SPAN,
            mover: Option::None,
            noise_field: false,
            noise_scale: 0,
            noise_strength: 0,
            origin: Vec2 { x: 0, y: 0 },
            particles: Vec::new(),
            paused: false,
            position: Vec2 { x: 0, y: 0 },
            radius: DEFAULT_RADIUS,
            randomize_position: false,
            randomize_velocity: true,
            stroke_weight: DEFAULT_STROKE_WEIGHT,
            visualize_noise_field: true,
            rng: seeder,
        }
    }

    /// The flow-field sample points: the grid across the viewport at
    /// [`FLOW_STEP`] spacing, column-major. The caller samples its noise
    /// field at these points and hands the samples to
    /// [`Emitter::draw_flow_field`].
    pub fn flow_field_points(&self) -> (pts: Vec<Vec2>)
        requires
            bounds_ok(self.bounds),
        ensures
            pts@.len() == grid_count(self.bounds),
            forall|k: int| 0 <= k < pts@.len() ==> pts@[k] == grid_point(self.bounds, k),
    {
        let b = self.bounds;
        let ghost cols = grid_cols(b);
        let ghost rows = grid_rows(b);
        let mut pts: Vec<Vec2> = Vec::new();
        let mut x = b.left;
        let ghost mut ix: int = 0;
        while x < b.right
            invariant
                bounds_ok(b),
                cols == grid_cols(b),
                rows == grid_rows(b),
                0 <= ix,
                x == b.left + FLOW_STEP * ix,
                x <= b.right + FLOW_STEP,
                grid_steps(x as int, b.right as int) == cols - ix,
                pts@.len() == ix * rows,
                forall|k: int| 0 <= k < pts@.len() ==> pts@[k] == grid_point(b, k),
            decreases b.right + FLOW_STEP - x,
        {
            let mut y = b.bottom;
            let ghost mut iy: int = 0;
            while y < b.top
                invariant
                    bounds_ok(b),
                    cols == grid_cols(b),
                    rows == grid_rows(b),
                    0 <= ix,
                    0 <= iy,
                    x == b.left + FLOW_STEP * ix,
                    x < b.right,
                    y == b.bottom + FLOW_STEP * iy,
                    y <= b.top + FLOW_STEP,
                    grid_steps(x as int, b.right as int) == cols - ix,
                    grid_steps(y as int, b.top as int) == rows - iy,
                    pts@.len() == ix * rows + iy,
                    forall|k: int| 0 <= k < pts@.len() ==> pts@[k] == grid_point(b, k),
                decreases b.top + FLOW_STEP - y,
            {
                proof {
                    lemma_grid_steps_nonneg(y as int + FLOW_STEP, b.top as int);
                    assert(iy < rows);
                    vstd::arithmetic::div_mod::lemma_fundamental_div_mod_converse(
                        ix * rows + iy,
                        rows,
                        ix,
                        iy,
                    );
                }
                pts.push(Vec2 { x, y });
                y = y + FLOW_STEP;
                proof {
                    iy = iy + 1;
                    assert(y == b.bottom + FLOW_STEP * iy) by (nonlinear_arith)
                        requires
                            y == b.bottom + FLOW_STEP * (iy - 1) + FLOW_STEP,
                    ;
                }
            }
            x = x + FLOW_STEP;
            proof {
                assert(iy == rows);
                ix = ix + 1;
                assert(x == b.left + FLOW_STEP * ix) by (nonlinear_arith)
                    requires
                        x == b.left + FLOW_STEP * (ix - 1) + FLOW_STEP,
                ;
                assert(ix * rows == (ix - 1) * rows + rows) by (nonlinear_arith);
            }
        }
        proof {
            assert(ix == cols);
        }
        pts
    }

    /// The flow-field visualization: one arrow per grid point, pointing
    /// along the direction the noise sample encodes (micro-units of a full
    /// turn), ten units long, unit weight. `samples` holds one sample per
    /// grid point, in the order of [`Emitter::flow_field_points`].
    pub fn draw_flow_field(&self, samples: &Vec<i64>) -> (arrows: Vec<Arrow>)
        requires
            bounds_ok(self.bounds),
            self.noise_field,
            samples@.len() == grid_count(self.bounds),
        ensures
            arrows@.len() == grid_count(self.bounds),
            forall|k: int|
                0 <= k < arrows@.len() ==> arrows@[k] == arrow_at(
                    grid_point(self.bounds, k),
                    samples@[k] as int,
                ),
    {
        let b = self.bounds;
        let total = samples.len();
        let ghost cols = grid_cols(b);
        let ghost rows = grid_rows(b);
        let mut arrows: Vec<Arrow> = Vec::new();
        let mut idx: usize = 0;
        let mut x = b.left;
        let ghost mut ix: int = 0;
        while x < b.right
            invariant
                bounds_ok(b),
                cols == grid_cols(b),
                rows == grid_rows(b),
                samples@.len() == cols * rows,
                total == samples@.len(),
                0 <= ix,
                x == b.left + FLOW_STEP * ix,
                x <= b.right + FLOW_STEP,
                grid_steps(x as int, b.right as int) == cols - ix,
                idx == ix * rows,
                arrows@.len() == idx,
                forall|k: int|
                    0 <= k < arrows@.len() ==> arrows@[k] == arrow_at(
                        grid_point(b, k),
                        samples@[k] as int,
                    ),
            decreases b.right + FLOW_STEP - x,
        {
            let mut y = b.bottom;
            let ghost mut iy: int = 0;
            while y < b.top
                invariant
                    bounds_ok(b),
                    cols == grid_cols(b),
                    rows == grid_rows(b),
                    samples@.len() == cols * rows,
                    total == samples@.len(),
                    0 <= ix,
                    0 <= iy,
                    x == b.left + FLOW_STEP * ix,
                    x < b.right,
                    y == b.bottom + FLOW_STEP * iy,
                    y <= b.top + FLOW_STEP,
                    grid_steps(x as int, b.right as int) == cols - ix,
                    grid_steps(y as int, b.top as int) == rows - iy,
                    idx == ix * rows + iy,
                    arrows@.len() == idx,
                    forall|k: int|
                        0 <= k < arrows@.len() ==> arrows@[k] == arrow_at(
                            grid_point(b, k),
                            samples@[k] as int,
                        ),
                decreases b.top + FLOW_STEP - y,
            {
                proof {
                    lemma_grid_steps_nonneg(y as int + FLOW_STEP, b.top as int);
                    lemma_grid_steps_nonneg(x as int + FLOW_STEP, b.right as int);
                    assert(iy < rows);
                    assert(ix < cols);
                    assert(ix * rows + iy < cols * rows) by (nonlinear_arith)
                        requires
                            0 <= iy < rows,
                            0 <= ix < cols,
                    ;
                    assert(idx < samples@.len());
                    vstd::arithmetic::div_mod::lemma_fundamental_div_mod_converse(
                        ix * rows + iy,
                        rows,
                        ix,
                        iy,
                    );
                }
                let c = cos_fx(samples[idx]);
                let s = sin_fx(samples[idx]);
                let arrow = Arrow {
                    start: Vec2 { x, y },
                    end: Vec2 { x: x + 10 * c, y: y + 10 * s },
                    weight: SCALE,
                };
                arrows.push(arrow);
                idx = idx + 1;
                y = y + FLOW_STEP;
                proof {
                    iy = iy + 1;
                    assert(y == b.bottom + FLOW_STEP * iy) by (nonlinear_arith)
                        requires
                            y == b.bottom + FLOW_STEP * (iy - 1) + FLOW_STEP,
                    ;
                }
            }
            x = x + FLOW_STEP;
            proof {
                assert(iy == rows);
                ix = ix + 1;
                assert(x == b.left + FLOW_STEP * ix) by (nonlinear_arith)
                    requires
                        x == b.left + FLOW_STEP * (ix - 1) + FLOW_STEP,
                ;
                assert(ix * rows == (ix - 1) * rows + rows) by (nonlinear_arith);
            }
        }
        proof {
            assert(ix == cols);
        }
        arrows
    }

    /// The draw requests for the whole pool, in pool order.
    pub fn display(&self) -> (draws: Vec<ParticleDraw>)
        requires
            forall|i: int| 0 <= i < self.particles@.len() ==> draw_fits(
                #[trigger] self.particles@[i],
            ),
        ensures
            draws@.len() == self.particles@.len(),
            forall|i: int|
                0 <= i < draws@.len() ==> draws@[i] == draw_of(#[trigger] self.particles@[i]),
    {
        let n = self.particles.len();
        let mut draws: Vec<ParticleDraw> = Vec::new();
        let mut i: usize = 0;
        while i < n
            invariant
                i <= n,
                n == self.particles@.len(),
                draws@.len() == i,
                forall|k: int|
                    0 <= k < n ==> draw_fits(#[trigger] self.particles@[k]),
                forall|k: int|
                    0 <= k < i ==> draws@[k] == draw_of(#[trigger] self.particles@[k]),
            decreases n - i,
        {
            let d = self.particles[i].display();
            draws.push(d);
            i = i + 1;
        }
        draws
    }
}

} // verus!
