//! A pure time-to-position function giving an emitter's trajectory.
//!
//! A mover is a curve selector and a fixed parameter bundle; its position is
//! a pure function of elapsed time. The curve set is a closed enumeration
//! dispatched in one place, so further named curves can be added behind the
//! same signature without touching call sites. The ellipse curve: cosine and
//! sine of the inner frequencies times `t`, scaled by the outer amplitudes,
//! remapped into a box of the configured scale centered at the origin; the
//! point is then rotated by `rotation_angle + t * rotation_speed` about the
//! origin and translated.

use crate::config::MoverConfig;
use crate::fixed::{
    lemma_product_quotient_bound, mul_div, tmuldiv, Vec2, PARAM_LIMIT, SCALE, TIME_LIMIT,
};
use crate::trig::{cos_fx, cos_uturn, sin_fx, sin_uturn};
use vstd::prelude::*;

verus! {

/// Largest coordinate magnitude a curve point can reach before rotation
/// and translation.
pub const CURVE_LIMIT: i64 = 500_000_000_000_000_000;

/// Largest coordinate magnitude a mover position can reach.
pub const MOVER_LIMIT: i64 = 2_000_000_000_000_000_000;

/// The parameter bundle of a mover: inner frequencies, outer amplitudes,
/// box scale, translation, and rotation (angle in micro-turns, speed in
/// micro-turns per unit time).
#[derive(Clone, Copy, PartialEq, Eq, Structural, Debug)]
pub struct MoverParams {
    pub inner: Vec2,
    pub outer: Vec2,
    pub scale: Vec2,
    pub translation: Vec2,
    pub rotation_angle: i64,
    pub rotation_speed: i64,
}

/// The closed set of named parametric curves.
#[derive(Clone, Copy, PartialEq, Eq, Structural, Debug)]
pub enum CurveKind {
    /// The default curve: an axis-aligned ellipse traced at the inner
    /// frequencies, remapped into the scale box.
    Ellipse,
}

/// A named mover: a curve selector and its fixed parameter bundle.
#[derive(Clone, Debug)]
pub struct Mover {
    pub name: String,
    pub params: MoverParams,
    pub curve: CurveKind,
}

/// Both components within the engine's parameter limit.
pub open spec fn vec2_ok(v: Vec2) -> bool {
    &&& -PARAM_LIMIT <= v.x <= PARAM_LIMIT
    &&& -PARAM_LIMIT <= v.y <= PARAM_LIMIT
}

/// The whole parameter bundle within the engine's parameter limit.
pub open spec fn mover_params_ok(p: MoverParams) -> bool {
    &&& vec2_ok(p.inner)
    &&& vec2_ok(p.outer)
    &&& vec2_ok(p.scale)
    &&& vec2_ok(p.translation)
    &&& -PARAM_LIMIT <= p.rotation_angle <= PARAM_LIMIT
    &&& -PARAM_LIMIT <= p.rotation_speed <= PARAM_LIMIT
}

/// The parameter bundle a mover configuration resolves to: absent
/// translation and rotation default to zero.
pub open spec fn resolved_mover_params(c: MoverConfig) -> MoverParams {
    MoverParams {
        inner: c.inner,
        outer: c.outer,
        scale: c.scale,
        translation: c.translation.unwrap_or(Vec2 { x: 0, y: 0 }),
        rotation_angle: c.rotation_angle.unwrap_or(0),
        rotation_speed: c.rotation_speed.unwrap_or(0),
    }
}

/// The ellipse curve point at time `t`: `cos(inner.x * t) * outer.x` mapped
/// linearly from `[-1, 1]` onto the horizontal extent of a box of size
/// `scale` centered at the origin, and likewise for the sine vertically.
/// The linear map sends a value `v` to `v * scale / 2`.
pub open spec fn ellipse_at(t: int, p: MoverParams) -> Vec2 {
    let cosv = cos_uturn(tmuldiv(p.inner.x as int, t, SCALE as int));
    let sinv = sin_uturn(tmuldiv(p.inner.y as int, t, SCALE as int));
    let cx = tmuldiv(cosv, p.outer.x as int, SCALE as int);
    let sy = tmuldiv(sinv, p.outer.y as int, SCALE as int);
    Vec2 {
        x: tmuldiv(cx, p.scale.x as int, 2 * SCALE as int) as i64,
        y: tmuldiv(sy, p.scale.y as int, 2 * SCALE as int) as i64,
    }
}

/// `v` rotated by `angle` micro-turns about the origin.
pub open spec fn rotated(v: Vec2, angle: int) -> Vec2 {
    let c = cos_uturn(angle);
    let s = sin_uturn(angle);
    Vec2 {
        x: (tmuldiv(v.x as int, c, SCALE as int) - tmuldiv(v.y as int, s, SCALE as int)) as i64,
        y: (tmuldiv(v.x as int, s, SCALE as int) + tmuldiv(v.y as int, c, SCALE as int)) as i64,
    }
}

/// Where a mover stands at time `t`: its curve point, rotated by the fixed
/// angle plus `t` times the rotation speed, then translated.
pub open spec fn mover_position(m: Mover, t: int) -> Vec2 {
    let base = match m.curve {
        CurveKind::Ellipse => ellipse_at(t, m.params),
    };
    let angle = m.params.rotation_angle + tmuldiv(t, m.params.rotation_speed as int, SCALE as int);
    let r = rotated(base, angle);
    Vec2 {
        x: (r.x + m.params.translation.x) as i64,
        y: (r.y + m.params.translation.y) as i64,
    }
}

/// The ellipse curve, executable. The bounded parameters and time keep
/// every intermediate product within machine range.
pub fn p_elipse(t: i64, params: MoverParams) -> (pt: Vec2)
    requires
        mover_params_ok(params),
        -TIME_LIMIT <= t <= TIME_LIMIT,
    ensures
        pt == ellipse_at(t as int, params),
        -CURVE_LIMIT <= pt.x <= CURVE_LIMIT,
        -CURVE_LIMIT <= pt.y <= CURVE_LIMIT,
{
    proof {
        lemma_product_quotient_bound(
            params.inner.x as int,
            t as int,
            PARAM_LIMIT as int,
            TIME_LIMIT as int,
            SCALE as int,
        );
        lemma_product_quotient_bound(
            params.inner.y as int,
            t as int,
            PARAM_LIMIT as int,
            TIME_LIMIT as int,
            SCALE as int,
        );
    }
    let angle_x = mul_div(params.inner.x, t, SCALE);
    let angle_y = mul_div(params.inner.y, t, SCALE);
    let cosv = cos_fx(angle_x);
    let sinv = sin_fx(angle_y);
    proof {
        lemma_product_quotient_bound(
            cosv as int,
            params.outer.x as int,
            SCALE as int,
            PARAM_LIMIT as int,
            SCALE as int,
        );
        lemma_product_quotient_bound(
            sinv as int,
            params.outer.y as int,
            SCALE as int,
            PARAM_LIMIT as int,
            SCALE as int,
        );
    }
    let cx = mul_div(cosv, params.outer.x, SCALE);
    let sy = mul_div(sinv, params.outer.y, SCALE);
    proof {
        lemma_product_quotient_bound(
            cx as int,
            params.scale.x as int,
            PARAM_LIMIT as int,
            PARAM_LIMIT as int,
            2 * SCALE as int,
        );
        lemma_product_quotient_bound(
            sy as int,
            params.scale.y as int,
            PARAM_LIMIT as int,
            PARAM_LIMIT as int,
            2 * SCALE as int,
        );
    }
    let x = mul_div(cx, params.scale.x, 2 * SCALE);
    let y = mul_div(sy, params.scale.y, 2 * SCALE);
    Vec2 { x, y }
}

impl Mover {
    /// The parameter bundle is within the engine's limits.
    pub open spec fn wf(self) -> bool {
        mover_params_ok(self.params)
    }

    /// Builds a mover from configuration: absent translation and rotation
    /// default to zero. Every selector currently names the ellipse curve;
    /// an unknown selector falls back to it.
    pub fn from_config(name: String, config: &MoverConfig) -> (m: Mover)
        requires
            mover_config_ok(*config),
        ensures
            m.wf(),
            m.name == name,
            m.curve == CurveKind::Ellipse,
            m.params == resolved_mover_params(*config),
    {
        let params = MoverParams {
            inner: config.inner,
            outer: config.outer,
            scale: config.scale,
            translation: config.translation.unwrap_or(Vec2 { x: 0, y: 0 }),
            rotation_angle: config.rotation_angle.unwrap_or(0),
            rotation_speed: config.rotation_speed.unwrap_or(0),
        };
        Mover { name, params, curve: CurveKind::Ellipse }
    }

    /// The mover's position at time `t`: pure, deterministic, total on the
    /// bounded time range.
    pub fn get_postion(&self, t: i64) -> (pos: Vec2)
        requires
            self.wf(),
            -TIME_LIMIT <= t <= TIME_LIMIT,
        ensures
            pos == mover_position(*self, t as int),
            -MOVER_LIMIT <= pos.x <= MOVER_LIMIT,
            -MOVER_LIMIT <= pos.y <= MOVER_LIMIT,
    {
        let base = match self.curve {
            CurveKind::Ellipse => p_elipse(t, self.params),
        };
        proof {
            lemma_product_quotient_bound(
                t as int,
                self.params.rotation_speed as int,
                TIME_LIMIT as int,
                PARAM_LIMIT as int,
                SCALE as int,
            );
        }
        let spin = mul_div(t, self.params.rotation_speed, SCALE);
        let angle = self.params.rotation_angle + spin;
        let c = cos_fx(angle);
        let s = sin_fx(angle);
        proof {
            lemma_product_quotient_bound(
                base.x as int,
                c as int,
                CURVE_LIMIT as int,
                SCALE as int,
                SCALE as int,
            );
            lemma_product_quotient_bound(
                base.x as int,
                s as int,
                CURVE_LIMIT as int,
                SCALE as int,
                SCALE as int,
            );
            lemma_product_quotient_bound(
                base.y as int,
                c as int,
                CURVE_LIMIT as int,
                SCALE as int,
                SCALE as int,
            );
            lemma_product_quotient_bound(
                base.y as int,
                s as int,
                CURVE_LIMIT as int,
                SCALE as int,
                SCALE as int,
            );
        }
        let rx = mul_div(base.x, c, SCALE) - mul_div(base.y, s, SCALE);
        let ry = mul_div(base.x, s, SCALE) + mul_div(base.y, c, SCALE);
        Vec2 { x: rx + self.params.translation.x, y: ry + self.params.translation.y }
    }
}

/// All numeric fields of a mover configuration are within the engine's
/// parameter limit.
pub open spec fn mover_config_ok(c: MoverConfig) -> bool {
    &&& vec2_ok(c.inner)
    &&& vec2_ok(c.outer)
    &&& vec2_ok(c.scale)
    &&& vec2_ok(c.translation.unwrap_or(Vec2 { x: 0, y: 0 }))
    &&& -PARAM_LIMIT <= c.rotation_angle.unwrap_or(0) <= PARAM_LIMIT
    &&& -PARAM_LIMIT <= c.rotation_speed.unwrap_or(0) <= PARAM_LIMIT
}

} // verus!
