//! A deterministic, well-distributed color sequence per emitter.
//!
//! Each of the four channels (hue, saturation, lightness, alpha) either
//! stays constant at its base value or walks a configured range by a
//! golden-ratio low-discrepancy recurrence: one uniform seed, then steps of
//! the golden-ratio conjugate modulo one, mapped linearly into the range.
//! The sequence is materialized lazily on the first request and never
//! regenerated; requests cycle through it.

use crate::config::{ColorPickerConfig, ConfigError};
use crate::fixed::{lemma_tmuldiv_bound, mul_div, tmuldiv, Interval, PARAM_LIMIT, SCALE};
use crate::prng::{lcg_next, lcg_unit, Lcg, LCG_MOD};
use vstd::arithmetic::div_mod::{
    lemma_add_mod_noop, lemma_div_is_ordered, lemma_div_multiples_vanish, lemma_div_pos_is_pos,
    lemma_mod_bound, lemma_mod_multiples_vanish, lemma_mod_self_0, lemma_mod_twice,
    lemma_small_mod,
};
use vstd::math::abs;
use vstd::prelude::*;

verus! {

/// The golden-ratio conjugate in micro-units: the step of the
/// low-discrepancy recurrence.
pub const GOLDEN: i64 = 618_034;

/// A color in hue / saturation / lightness / alpha form, each channel a
/// fixed-point scalar.
#[derive(Clone, Copy, PartialEq, Eq, Structural, Debug)]
pub struct Color {
    pub hue: i64,
    pub sat: i64,
    pub light: i64,
    pub alpha: i64,
}

/// The `i`-th low-discrepancy sample of the unit interval from seed `h0`:
/// `i + 1` golden-ratio steps, modulo one.
pub open spec fn ld_sample(h0: int, i: int) -> int {
    (h0 + (i + 1) * GOLDEN) % (SCALE as int)
}

/// The `i`-th generated value of a ranged channel: the sample mapped
/// linearly into `[lo, hi]`.
pub open spec fn gen_value(h0: int, lo: int, hi: int, i: int) -> int {
    tmuldiv(ld_sample(h0, i), hi - lo, SCALE as int) + lo
}

/// For a forward range, every generated value lies within it, inclusive.
pub proof fn lemma_gen_value_in_range(h0: int, lo: int, hi: int, i: int)
    requires
        0 <= h0 < SCALE,
        lo <= hi,
    ensures
        lo <= gen_value(h0, lo, hi, i) <= hi,
{
    let m = SCALE as int;
    let s = ld_sample(h0, i);
    lemma_mod_bound(h0 + (i + 1) * GOLDEN, m);
    let span = hi - lo;
    assert(0 <= s * span <= m * span) by (nonlinear_arith)
        requires
            0 <= s < m,
            span >= 0,
    ;
    lemma_div_pos_is_pos(s * span, m);
    lemma_div_is_ordered(s * span, m * span, m);
    lemma_div_multiples_vanish(span, m);
}

/// One channel's `n` generated values: constant at the base when no range
/// is configured, the low-discrepancy walk of the range otherwise.
pub open spec fn chan_seq(n: int, base: i64, range: Option<Interval>, h0: int) -> Seq<i64> {
    match range {
        Option::None => Seq::new(n as nat, |i: int| base),
        Option::Some(r) => Seq::new(
            n as nat,
            |i: int| gen_value(h0, r.lo as int, r.hi as int, i) as i64,
        ),
    }
}

/// The generator state left after serving one channel: ranged channels
/// consume one draw, constant channels none.
pub open spec fn rng_after(s: int, range: Option<Interval>) -> int {
    if range is Some {
        lcg_next(s)
    } else {
        s
    }
}

/// What a channel value must look like: the base when constant, inside a
/// forward range when ranged.
pub open spec fn chan_ok(base: i64, range: Option<Interval>, v: i64) -> bool {
    match range {
        Option::None => v == base,
        Option::Some(r) => r.lo <= r.hi ==> r.lo <= v <= r.hi,
    }
}

/// Generates `n` values of a ranged channel: one uniform seed from `rng`,
/// then the golden-ratio recurrence mapped into the range.
fn gen_values(n: usize, range: Interval, rng: &mut Lcg) -> (values: Vec<i64>)
    requires
        old(rng).inv(),
        -PARAM_LIMIT <= range.lo <= PARAM_LIMIT,
        -PARAM_LIMIT <= range.hi <= PARAM_LIMIT,
    ensures
        final(rng).inv(),
        final(rng).raw() == lcg_next(old(rng).raw()),
        values@ == chan_seq(n as int, 0, Option::Some(range), lcg_unit(old(rng).raw())),
{
    let lo = range.lo;
    let hi = range.hi;
    let h0 = rng.next_unit();
    let ghost h0i = h0 as int;
    let mut values: Vec<i64> = Vec::new();
    let mut h: i64 = h0;
    let mut i: usize = 0;
    while i < n
        invariant
            i <= n,
            values@.len() == i,
            0 <= h0i < SCALE,
            0 <= h < SCALE,
            h as int == if i == 0 {
                h0i
            } else {
                ld_sample(h0i, i - 1)
            },
            -PARAM_LIMIT <= lo <= PARAM_LIMIT,
            -PARAM_LIMIT <= hi <= PARAM_LIMIT,
            forall|k: int|
                0 <= k < i ==> values@[k] == gen_value(h0i, lo as int, hi as int, k) as i64,
        decreases n - i,
    {
        let hn = (((h + GOLDEN) as u64) % (SCALE as u64)) as i64;
        proof {
            let m = SCALE as int;
            if i == 0 {
                assert(hn as int == ld_sample(h0i, 0));
            } else {
                lemma_small_mod(GOLDEN as nat, SCALE as nat);
                lemma_add_mod_noop(h0i + (i as int) * GOLDEN, GOLDEN as int, m);
                assert(h0i + (i as int) * GOLDEN + GOLDEN == h0i + (i as int + 1) * GOLDEN)
                    by (nonlinear_arith);
                assert(hn as int == ld_sample(h0i, i as int));
            }
            lemma_mod_bound(h as int + GOLDEN, m);
            assert(abs(hn as int * (hi - lo as int)) <= 2_000_000_000_000_000_000)
                by (nonlinear_arith)
                requires
                    0 <= hn < SCALE,
                    -PARAM_LIMIT <= lo <= PARAM_LIMIT,
                    -PARAM_LIMIT <= hi <= PARAM_LIMIT,
            ;
            lemma_tmuldiv_bound(
                hn as int,
                hi - lo as int,
                SCALE as int,
                2_000_000_000_000_000_000,
            );
            lemma_div_is_ordered(
                abs(hn as int * (hi - lo as int)) as int,
                2_000_000_000_000_000_000,
                SCALE as int,
            );
        }
        let v = mul_div(hn, hi - lo, SCALE) + lo;
        values.push(v);
        h = hn;
        i = i + 1;
    }
    proof {
        assert(values@ =~= chan_seq(n as int, 0, Option::Some(range), h0i));
    }
    values
}

/// `n` copies of a constant channel value.
fn const_values(n: usize, base: i64) -> (values: Vec<i64>)
    ensures
        values@ == chan_seq(n as int, base, Option::<Interval>::None, 0),
{
    let mut values: Vec<i64> = Vec::new();
    let mut i: usize = 0;
    while i < n
        invariant
            i <= n,
            values@.len() == i,
            forall|k: int| 0 <= k < i ==> values@[k] == base,
        decreases n - i,
    {
        values.push(base);
        i = i + 1;
    }
    proof {
        assert(values@ =~= chan_seq(n as int, base, Option::<Interval>::None, 0));
    }
    values
}

/// The color picker: base values and optional ranges for four channels,
/// a target count, the lazily materialized sequence, and a cursor into it.
#[derive(Clone, Debug)]
pub struct ColorPicker {
    pub hue: i64,
    pub sat: i64,
    pub light: i64,
    pub alpha: i64,
    pub range_hue: Option<Interval>,
    pub range_sat: Option<Interval>,
    pub range_light: Option<Interval>,
    pub range_alpha: Option<Interval>,
    pub num_colors: usize,
    pub colors: Option<Vec<Color>>,
    pub current_color: usize,
    pub rng: Lcg,
}

impl ColorPicker {
    /// The cursor's position in the cycle.
    pub open spec fn cursor(self) -> int {
        self.current_color as int
    }

    /// Whether the sequence has been materialized yet.
    pub open spec fn materialized(self) -> bool {
        self.colors is Some
    }

    /// The generator state, for stating exactly what construction does.
    pub open spec fn rng_raw(self) -> int {
        self.rng.raw()
    }

    /// The sequence the picker would materialize from its current state.
    pub open spec fn generated_colors(self) -> Seq<Color> {
        let n = self.num_colors as int;
        let s0 = self.rng.raw();
        let s1 = rng_after(s0, self.range_hue);
        let s2 = rng_after(s1, self.range_sat);
        let s3 = rng_after(s2, self.range_light);
        let hues = chan_seq(n, self.hue, self.range_hue, lcg_unit(s0));
        let sats = chan_seq(n, self.sat, self.range_sat, lcg_unit(s1));
        let lights = chan_seq(n, self.light, self.range_light, lcg_unit(s2));
        let alphas = chan_seq(n, self.alpha, self.range_alpha, lcg_unit(s3));
        Seq::new(
            n as nat,
            |i: int| Color { hue: hues[i], sat: sats[i], light: lights[i], alpha: alphas[i] },
        )
    }

    /// The sequence this picker cycles through: the stored one once
    /// materialized, otherwise the one materialization would produce.
    pub open spec fn cycle(self) -> Seq<Color> {
        match self.colors {
            Option::Some(v) => v@,
            Option::None => self.generated_colors(),
        }
    }

    /// Every channel of `c` is as configured: constant channels at their
    /// base, ranged channels inside their (forward) range.
    pub open spec fn color_ok(self, c: Color) -> bool {
        &&& chan_ok(self.hue, self.range_hue, c.hue)
        &&& chan_ok(self.sat, self.range_sat, c.sat)
        &&& chan_ok(self.light, self.range_light, c.light)
        &&& chan_ok(self.alpha, self.range_alpha, c.alpha)
    }

    /// The configured channel parameters stay within the engine's
    /// fixed-point parameter limit.
    pub open spec fn params_ok(self) -> bool {
        &&& -PARAM_LIMIT <= self.hue <= PARAM_LIMIT
        &&& -PARAM_LIMIT <= self.sat <= PARAM_LIMIT
        &&& -PARAM_LIMIT <= self.light <= PARAM_LIMIT
        &&& -PARAM_LIMIT <= self.alpha <= PARAM_LIMIT
        &&& interval_ok(self.range_hue)
        &&& interval_ok(self.range_sat)
        &&& interval_ok(self.range_light)
        &&& interval_ok(self.range_alpha)
    }

    /// Well-formedness: at least one color, the cursor inside the cycle,
    /// parameters bounded, and a materialized sequence of the right length
    /// whose colors are all as configured.
    pub open spec fn wf(self) -> bool {
        &&& 1 <= self.num_colors
        &&& self.current_color < self.num_colors
        &&& self.params_ok()
        &&& self.rng.inv()
        &&& match self.colors {
            Option::Some(v) => {
                &&& v@.len() == self.num_colors
                &&& forall|i: int| 0 <= i < v@.len() ==> self.color_ok(#[trigger] v@[i])
            },
            Option::None => true,
        }
    }

    /// Builds a picker from explicit parameters. An empty sequence has no
    /// cycling contract, so a zero target count is rejected outright.
    pub fn new(
        num_colors: usize,
        hue: i64,
        sat: i64,
        light: i64,
        alpha: i64,
        range_hue: Option<Interval>,
        range_sat: Option<Interval>,
        range_light: Option<Interval>,
        range_alpha: Option<Interval>,
        seed: u64,
    ) -> (r: Result<ColorPicker, ConfigError>)
        requires
            -PARAM_LIMIT <= hue <= PARAM_LIMIT,
            -PARAM_LIMIT <= sat <= PARAM_LIMIT,
            -PARAM_LIMIT <= light <= PARAM_LIMIT,
            -PARAM_LIMIT <= alpha <= PARAM_LIMIT,
            interval_ok(range_hue),
            interval_ok(range_sat),
            interval_ok(range_light),
            interval_ok(range_alpha),
        ensures
            r is Ok <==> num_colors >= 1,
            match r {
                Result::Ok(cp) => {
                    &&& cp.wf()
                    &&& cp.num_colors == num_colors
                    &&& cp.hue == hue
                    &&& cp.sat == sat
                    &&& cp.light == light
                    &&& cp.alpha == alpha
                    &&& cp.range_hue == range_hue
                    &&& cp.range_sat == range_sat
                    &&& cp.range_light == range_light
                    &&& cp.range_alpha == range_alpha
                    &&& !cp.materialized()
                    &&& cp.cursor() == 0
                    &&& cp.rng_raw() == (seed as int) % (LCG_MOD as int)
                },
                Result::Err(e) => e == ConfigError::ZeroColors,
            },
    {
        if num_colors == 0 {
            return Result::Err(ConfigError::ZeroColors);
        }
        Result::Ok(
            ColorPicker {
                hue,
                sat,
                light,
                alpha,
                range_hue,
                range_sat,
                range_light,
                range_alpha,
                num_colors,
                colors: Option::None,
                current_color: 0,
                rng: Lcg::new(seed),
            },
        )
    }

    /// Builds a picker from configuration, resolving each absent field to
    /// its default: hue 0, saturation and lightness one half, alpha one,
    /// one color, no ranges.
    pub fn from_config(config: ColorPickerConfig, seed: u64) -> (r: Result<
        ColorPicker,
        ConfigError,
    >)
        requires
            color_picker_config_ok(config),
        ensures
            r is Ok <==> config.num_colors != Option::Some(0usize),
            match r {
                Result::Ok(cp) => {
                    &&& cp.wf()
                    &&& cp.num_colors == config.num_colors.unwrap_or(1)
                    &&& cp.hue == config.hue.unwrap_or(0)
                    &&& cp.sat == config.saturation.unwrap_or(HALF_UNIT)
                    &&& cp.light == config.lightness.unwrap_or(HALF_UNIT)
                    &&& cp.alpha == config.alpha.unwrap_or(SCALE)
                    &&& cp.range_hue == config.range_hue
                    &&& cp.range_sat == config.range_saturation
                    &&& cp.range_light == config.range_lightness
                    &&& cp.range_alpha == config.range_alpha
                    &&& !cp.materialized()
                    &&& cp.cursor() == 0
                    &&& cp.rng_raw() == (seed as int) % (LCG_MOD as int)
                },
                Result::Err(e) => e == ConfigError::ZeroColors,
            },
    {
        let hue = config.hue.unwrap_or(0);
        let sat = config.saturation.unwrap_or(HALF_UNIT);
        let light = config.lightness.unwrap_or(HALF_UNIT);
        let alpha = config.alpha.unwrap_or(SCALE);
        let num_colors = config.num_colors.unwrap_or(1);
        ColorPicker::new(
            num_colors,
            hue,
            sat,
            light,
            alpha,
            config.range_hue,
            config.range_saturation,
            config.range_lightness,
            config.range_alpha,
            seed,
        )
    }

    /// Materializes the whole sequence from the current generator state.
    fn get_colors(&mut self, n: usize) -> (colors: Vec<Color>)
        requires
            old(self).wf(),
            n == old(self).num_colors,
        ensures
            final(self).rng.inv(),
            colors@ == old(self).generated_colors(),
            *final(self) == (ColorPicker { rng: final(self).rng, ..*old(self) }),
    {
        let hues = match self.range_hue {
            Option::Some(r) => gen_values(n, r, &mut self.rng),
            Option::None => const_values(n, self.hue),
        };
        let sats = match self.range_sat {
            Option::Some(r) => gen_values(n, r, &mut self.rng),
            Option::None => const_values(n, self.sat),
        };
        let lights = match self.range_light {
            Option::Some(r) => gen_values(n, r, &mut self.rng),
            Option::None => const_values(n, self.light),
        };
        let alphas = match self.range_alpha {
            Option::Some(r) => gen_values(n, r, &mut self.rng),
            Option::None => const_values(n, self.alpha),
        };
        let mut colors: Vec<Color> = Vec::new();
        let ghost target = old(self).generated_colors();
        let mut i: usize = 0;
        while i < n
            invariant
                i <= n,
                n as int == target.len(),
                colors@.len() == i,
                hues@.len() == n,
                sats@.len() == n,
                lights@.len() == n,
                alphas@.len() == n,
                forall|k: int|
                    0 <= k < n ==> target[k] == (Color {
                        hue: hues@[k],
                        sat: sats@[k],
                        light: lights@[k],
                        alpha: alphas@[k],
                    }),
                forall|k: int| 0 <= k < i ==> colors@[k] == target[k],
            decreases n - i,
        {
            colors.push(
                Color { hue: hues[i], sat: sats[i], light: lights[i], alpha: alphas[i] },
            );
            i = i + 1;
        }
        proof {
            assert(colors@ =~= target);
        }
        colors
    }

    /// Materializes the sequence if this is the first request; otherwise
    /// leaves it untouched. The cycle is the same either way.
    fn initialize(&mut self)
        requires
            old(self).wf(),
        ensures
            final(self).wf(),
            final(self).materialized(),
            final(self).cycle() == old(self).cycle(),
            final(self).cycle().len() == final(self).num_colors,
            final(self).cursor() == old(self).cursor(),
            *final(self) == (ColorPicker {
                colors: final(self).colors,
                rng: final(self).rng,
                ..*old(self)
            }),
    {
        if self.colors.is_none() {
            let n = self.num_colors;
            proof {
                old(self).lemma_generated_colors_ok();
            }
            let generated = self.get_colors(n);
            self.colors = Option::Some(generated);
        }
    }

    /// Every color the picker would generate is as configured.
    proof fn lemma_generated_colors_ok(self)
        requires
            self.params_ok(),
        ensures
            self.generated_colors().len() == self.num_colors,
            forall|i: int|
                0 <= i < self.generated_colors().len() ==> self.color_ok(
                    #[trigger] self.generated_colors()[i],
                ),
    {
        let g = self.generated_colors();
        assert forall|i: int| 0 <= i < g.len() implies self.color_ok(#[trigger] g[i]) by {
            let n = self.num_colors as int;
            let s0 = self.rng.raw();
            let s1 = rng_after(s0, self.range_hue);
            let s2 = rng_after(s1, self.range_sat);
            let s3 = rng_after(s2, self.range_light);
            lemma_mod_bound(lcg_next(s0), SCALE as int);
            lemma_mod_bound(lcg_next(s1), SCALE as int);
            lemma_mod_bound(lcg_next(s2), SCALE as int);
            lemma_mod_bound(lcg_next(s3), SCALE as int);
            lemma_chan_value_ok(n, self.hue, self.range_hue, lcg_unit(s0), i);
            lemma_chan_value_ok(n, self.sat, self.range_sat, lcg_unit(s1), i);
            lemma_chan_value_ok(n, self.light, self.range_light, lcg_unit(s2), i);
            lemma_chan_value_ok(n, self.alpha, self.range_alpha, lcg_unit(s3), i);
        }
    }

    /// Returns one color from the cycle, advancing the cursor; the first
    /// request materializes the sequence. The cursor steps before reading,
    /// so the first color returned is index 1 of the sequence (index 0 for
    /// a single-color picker), and requests wrap around thereafter.
    pub fn get_next_color(&mut self) -> (c: Color)
        requires
            old(self).wf(),
        ensures
            final(self).wf(),
            final(self).materialized(),
            final(self).cycle() == old(self).cycle(),
            final(self).cycle().len() == final(self).num_colors,
            final(self).cursor() == (old(self).cursor() + 1) % (old(self).num_colors as int),
            c == final(self).cycle()[final(self).cursor()],
            c == old(self).nth_call_color(1),
            forall|k: int|
                #[trigger] final(self).nth_call_color(k) == old(self).nth_call_color(k + 1),
            final(self).num_colors == old(self).num_colors,
            final(self).hue == old(self).hue,
            final(self).sat == old(self).sat,
            final(self).light == old(self).light,
            final(self).alpha == old(self).alpha,
            final(self).range_hue == old(self).range_hue,
            final(self).range_sat == old(self).range_sat,
            final(self).range_light == old(self).range_light,
            final(self).range_alpha == old(self).range_alpha,
            final(self).color_ok(c),
    {
        self.initialize();
        let n = self.num_colors;
        self.current_color = self.current_color + 1;
        if self.current_color >= n {
            self.current_color = 0;
        }
        proof {
            let c0 = old(self).cursor();
            let ni = n as int;
            if c0 + 1 < ni {
                lemma_small_mod((c0 + 1) as nat, ni as nat);
            } else {
                lemma_mod_self_0(ni);
            }
        }
        let c = match &self.colors {
            Option::Some(v) => v[self.current_color],
            Option::None => {
                proof {
                    assert(false);
                }
                Color { hue: 0, sat: 0, light: 0, alpha: 0 }
            },
        };
        proof {
            lemma_cycle_colors_ok(*self, self.cursor());
            let ni = n as int;
            let c0 = old(self).cursor();
            assert forall|k: int| #[trigger] self.nth_call_color(k) == old(self).nth_call_color(
                k + 1,
            ) by {
                lemma_mod_twice(c0 + 1, ni);
                lemma_add_mod_noop(c0 + 1, k, ni);
                lemma_add_mod_noop((c0 + 1) % ni, k, ni);
                assert((self.cursor() + k) % ni == (c0 + (k + 1)) % ni);
            }
        }
        c
    }

    /// The color the `k`-th request from this state returns (requests are
    /// counted from one).
    pub open spec fn nth_call_color(self, k: int) -> Color {
        self.cycle()[(self.cursor() + k) % (self.num_colors as int)]
    }

    /// Both pickers carry the same configuration: count, bases and ranges.
    /// Requests change the cursor and materialize the sequence but never
    /// touch these.
    pub open spec fn same_config(self, other: ColorPicker) -> bool {
        &&& self.num_colors == other.num_colors
        &&& self.hue == other.hue
        &&& self.sat == other.sat
        &&& self.light == other.light
        &&& self.alpha == other.alpha
        &&& self.range_hue == other.range_hue
        &&& self.range_sat == other.range_sat
        &&& self.range_light == other.range_light
        &&& self.range_alpha == other.range_alpha
    }
}

/// The cycle is periodic: for every `k`, the `k`-th request and the
/// `k + num_colors`-th request from the same state return the same color.
pub proof fn lemma_color_cycle(cp: ColorPicker, k: int)
    requires
        cp.wf(),
        k >= 0,
    ensures
        cp.nth_call_color(k + cp.num_colors as int) == cp.nth_call_color(k),
{
    let n = cp.num_colors as int;
    lemma_mod_multiples_vanish(1, cp.cursor() + k, n);
    assert(n * 1 + (cp.cursor() + k) == cp.cursor() + (k + n));
}

/// Every color in a well-formed picker's cycle is as configured: constant
/// channels equal their base value, and each ranged channel with a forward
/// range lies within that range, inclusive.
pub proof fn lemma_cycle_colors_ok(cp: ColorPicker, i: int)
    requires
        cp.wf(),
        0 <= i < cp.cycle().len(),
    ensures
        cp.color_ok(cp.cycle()[i]),
{
    if !cp.materialized() {
        cp.lemma_generated_colors_ok();
    }
}

/// A configured interval stays within the engine's parameter limit.
pub open spec fn interval_ok(range: Option<Interval>) -> bool {
    match range {
        Option::None => true,
        Option::Some(r) => -PARAM_LIMIT <= r.lo <= PARAM_LIMIT && -PARAM_LIMIT <= r.hi
            <= PARAM_LIMIT,
    }
}

/// Half a unit: the default saturation and lightness.
pub const HALF_UNIT: i64 = 500_000;

/// All numeric fields of a color picker configuration are within the
/// engine's parameter limit.
pub open spec fn color_picker_config_ok(c: ColorPickerConfig) -> bool {
    &&& -PARAM_LIMIT <= c.hue.unwrap_or(0) <= PARAM_LIMIT
    &&& -PARAM_LIMIT <= c.saturation.unwrap_or(0) <= PARAM_LIMIT
    &&& -PARAM_LIMIT <= c.lightness.unwrap_or(0) <= PARAM_LIMIT
    &&& -PARAM_LIMIT <= c.alpha.unwrap_or(0) <= PARAM_LIMIT
    &&& interval_ok(c.range_hue)
    &&& interval_ok(c.range_saturation)
    &&& interval_ok(c.range_lightness)
    &&& interval_ok(c.range_alpha)
}

/// One position of one channel sequence is as configured.
proof fn lemma_chan_value_ok(n: int, base: i64, range: Option<Interval>, h0: int, i: int)
    requires
        0 <= i < n,
        0 <= h0 < SCALE,
    ensures
        chan_ok(base, range, chan_seq(n, base, range, h0)[i]),
{
    match range {
        Option::None => {},
        Option::Some(r) => {
            if r.lo <= r.hi {
                lemma_gen_value_in_range(h0, r.lo as int, r.hi as int, i);
            }
        },
    }
}

} // verus!
