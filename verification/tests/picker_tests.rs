use particle_lib::color_picker::{Color, ColorPicker};
use particle_lib::config::{ColorPickerConfig, ConfigError};
use particle_lib::fixed::{Interval, SCALE};

fn basic_picker(num_colors: usize, range_hue: Option<Interval>, seed: u64) -> ColorPicker {
    ColorPicker::new(
        num_colors,
        500_000,
        500_000,
        500_000,
        SCALE,
        range_hue,
        None,
        None,
        None,
        seed,
    )
    .unwrap()
}

#[test]
fn color_picker_test_basic() {
    let mut cp = basic_picker(10, None, 7);
    for _ in 0..10 {
        let color = cp.get_next_color();
        println!("{:?}", color);
    }
    assert_eq!(1, 1);
}

#[test]
fn test_randomized() {
    let mut cp = basic_picker(10, Some(Interval { lo: 0, hi: 1_000_000 }), 7);
    for _ in 0..10 {
        let mut color = cp.get_next_color();
        color.alpha = 500_000;
        println!("{:?}, {:?}", color.hue, color.alpha);
    }
    assert_eq!(1, 1);
}

#[test]
fn constant_channels_equal_bases() {
    let mut cp = basic_picker(5, None, 42);
    for _ in 0..5 {
        let c = cp.get_next_color();
        assert_eq!(c.hue, 500_000);
        assert_eq!(c.sat, 500_000);
        assert_eq!(c.light, 500_000);
        assert_eq!(c.alpha, SCALE);
    }
}

#[test]
fn ranged_channel_values_stay_in_range() {
    // Whatever the seed, every generated hue lies within the configured
    // range, inclusive.
    for seed in 0..20u64 {
        let mut cp = basic_picker(16, Some(Interval { lo: 200_000, hi: 800_000 }), seed);
        for _ in 0..16 {
            let c = cp.get_next_color();
            assert!(200_000 <= c.hue && c.hue <= 800_000);
        }
    }
}

#[test]
fn color_cycle_repeats_with_period_n() {
    let n = 7usize;
    let mut cp = basic_picker(n, Some(Interval { lo: 0, hi: SCALE }), 99);
    let mut first: Vec<Color> = Vec::new();
    for _ in 0..n {
        first.push(cp.get_next_color());
    }
    for i in 0..n {
        let again = cp.get_next_color();
        assert_eq!(again, first[i]);
    }
}

#[test]
fn single_color_picker_always_returns_the_same_color() {
    let mut cp = basic_picker(1, Some(Interval { lo: 100_000, hi: 900_000 }), 5);
    let c0 = cp.get_next_color();
    for _ in 0..5 {
        assert_eq!(cp.get_next_color(), c0);
    }
}

#[test]
fn zero_colors_is_rejected() {
    let r = ColorPicker::new(0, 0, 0, 0, SCALE, None, None, None, None, 1);
    match r {
        Ok(_) => panic!("a zero-color picker must be rejected"),
        Err(e) => {
            assert_eq!(e, ConfigError::ZeroColors);
            assert!(!e.message().is_empty());
        }
    }
}

#[test]
fn from_config_applies_defaults() {
    let cfg = ColorPickerConfig {
        hue: None,
        saturation: None,
        lightness: None,
        alpha: None,
        range_hue: None,
        range_saturation: None,
        range_lightness: None,
        range_alpha: None,
        num_colors: None,
    };
    let mut cp = ColorPicker::from_config(cfg, 3).unwrap();
    assert_eq!(cp.num_colors, 1);
    let c = cp.get_next_color();
    assert_eq!(c.hue, 0);
    assert_eq!(c.sat, 500_000);
    assert_eq!(c.light, 500_000);
    assert_eq!(c.alpha, SCALE);
}

#[test]
fn from_config_rejects_zero_colors() {
    let cfg = ColorPickerConfig {
        hue: Some(120_000_000),
        saturation: None,
        lightness: None,
        alpha: None,
        range_hue: None,
        range_saturation: None,
        range_lightness: None,
        range_alpha: None,
        num_colors: Some(0),
    };
    assert!(ColorPicker::from_config(cfg, 3).is_err());
}
