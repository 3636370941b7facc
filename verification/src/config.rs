//! The configuration data the engine consumes.
//!
//! Parsing the configuration file's textual format is a collaborator's job;
//! the engine only ever receives the already-typed values below. Every
//! field is optional where the format allows omission; the component
//! constructors resolve each absent field to its documented default.
//!
//! Named sets (color pickers, movers, emitters) are association lists in
//! file order; a lookup takes the first entry whose name matches.

use crate::fixed::{Interval, Vec2};
use vstd::prelude::*;

verus! {

/// Configuration of one color picker: base values and optional ranges for
/// the four channels, and how many colors to generate.
#[derive(Clone, Copy, Debug)]
pub struct ColorPickerConfig {
    pub hue: Option<i64>,
    pub saturation: Option<i64>,
    pub lightness: Option<i64>,
    pub alpha: Option<i64>,
    pub range_hue: Option<Interval>,
    pub range_saturation: Option<Interval>,
    pub range_lightness: Option<Interval>,
    pub range_alpha: Option<Interval>,
    pub num_colors: Option<usize>,
}

/// Configuration of one emitter.
#[derive(Clone, Debug)]
pub struct EmitterConfig {
    pub color_picker: Option<String>,
    pub mover: Option<String>,
    pub flight_size: Option<usize>,
    pub initial_velocity: Option<Vec2>,
    pub life_span: Option<i64>,
    pub noise_field: Option<bool>,
    pub noise_scale: Option<i64>,
    pub noise_strength: Option<i64>,
    pub position: Option<Vec2>,
    pub radius: Option<i64>,
    pub randomize_position: Option<bool>,
    pub randomize_velocity: Option<bool>,
    pub stroke_weight: Option<i64>,
    pub visualize_noise_field: Option<bool>,
}

/// Configuration of one mover: the curve selector and its parameter bundle.
#[derive(Clone, Debug)]
pub struct MoverConfig {
    pub mover_type: String,
    pub inner: Vec2,
    pub outer: Vec2,
    pub scale: Vec2,
    pub translation: Option<Vec2>,
    pub rotation_angle: Option<i64>,
    pub rotation_speed: Option<i64>,
}

/// The whole configuration value handed to the engine at startup.
#[derive(Clone, Debug)]
pub struct Config {
    pub capture_prefix: Option<String>,
    pub use_emitters: Option<Vec<String>>,
    pub seed: Option<u64>,
    pub color_pickers: Option<Vec<(String, ColorPickerConfig)>>,
    pub emitters: Option<Vec<(String, EmitterConfig)>>,
    pub movers: Option<Vec<(String, MoverConfig)>>,
    pub window_height: Option<u64>,
    pub window_width: Option<u64>,
}

/// Why a construction was rejected. Invalid construction parameters fail
/// fast rather than silently changing the shape of the output contract.
#[derive(Clone, Copy, PartialEq, Eq, Structural, Debug)]
pub enum ConfigError {
    /// A color picker was asked for an empty color sequence, which leaves
    /// its cycling contract undefined; the minimum is one color.
    ZeroColors,
}

impl ConfigError {
    /// A human-readable description of the rejection.
    pub fn message(&self) -> (m: String)
        ensures
            m@ == "num_colors must be at least 1: a color picker cycles a non-empty sequence"@,
    {
        let m = "num_colors must be at least 1: a color picker cycles a non-empty sequence".to_owned();
        proof {
            reveal_strlit("num_colors must be at least 1: a color picker cycles a non-empty sequence");
        }
        m
    }
}

/// The first configuration registered under `name`, if any: the lookup rule
/// for every named set.
pub open spec fn lookup_spec<T>(entries: Seq<(String, T)>, name: Seq<char>) -> Option<T>
    decreases entries.len(),
{
    if entries.len() == 0 {
        Option::None
    } else if entries[0].0@ == name {
        Option::Some(entries[0].1)
    } else {
        lookup_spec(entries.drop_first(), name)
    }
}

/// A found entry is one of the list's values, so any property holding of
/// every value holds of it.
pub proof fn lemma_lookup_found<T>(entries: Seq<(String, T)>, name: Seq<char>, t: T)
    requires
        lookup_spec(entries, name) == Option::Some(t),
    ensures
        exists|i: int| 0 <= i < entries.len() && #[trigger] entries[i].1 == t,
    decreases entries.len(),
{
    if entries.len() == 0 {
    } else if entries[0].0@ == name {
        assert(entries[0].1 == t);
    } else {
        lemma_lookup_found(entries.drop_first(), name, t);
        let i = choose|i: int|
            0 <= i < entries.drop_first().len() && #[trigger] entries.drop_first()[i].1 == t;
        assert(entries[i + 1].1 == t);
    }
}

/// Finds the first entry named `name` in an association list.
pub fn lookup<'a, T>(entries: &'a Vec<(String, T)>, name: &String) -> (r: Option<&'a T>)
    ensures
        match r {
            Option::Some(t) => lookup_spec(entries@, name@) == Option::Some(*t),
            Option::None => lookup_spec(entries@, name@) is None,
        },
{
    let n = entries.len();
    let mut i: usize = 0;
    proof {
        assert(entries@.skip(0) =~= entries@);
    }
    while i < n
        invariant
            i <= n,
            n == entries@.len(),
            lookup_spec(entries@, name@) == lookup_spec(entries@.skip(i as int), name@),
        decreases n - i,
    {
        proof {
            assert(entries@.skip(i as int)[0] == entries@[i as int]);
        }
        if entries[i].0 == *name {
            proof {
                assert(lookup_spec(entries@.skip(i as int), name@) == Option::Some(
                    entries@[i as int].1,
                ));
            }
            return Option::Some(&entries[i].1);
        }
        proof {
            assert(entries@.skip(i as int).drop_first() =~= entries@.skip(i + 1));
        }
        i = i + 1;
    }
    proof {
        assert(entries@.skip(n as int) =~= Seq::<(String, T)>::empty());
    }
    Option::None
}

} // verus!
