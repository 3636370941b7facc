use particle_lib::config::MoverConfig;
use particle_lib::fixed::Vec2;
use particle_lib::mover::{p_elipse, CurveKind, Mover, MoverParams};

#[test]
fn test_p_elipse() {
    let p = p_elipse(
        0,
        MoverParams {
            inner: Vec2 { x: 1_000_000, y: 1_000_000 },
            outer: Vec2 { x: 1_000_000, y: 1_000_000 },
            scale: Vec2 { x: 50_000_000, y: 100_000_000 },
            translation: Vec2 { x: 0, y: 0 },
            rotation_angle: 0,
            rotation_speed: 0,
        },
    );
    assert_eq!(p, Vec2 { x: 25_000_000, y: 0 });
}

#[test]
fn get_postion_translates() {
    let mover = Mover {
        name: "t".to_string(),
        params: MoverParams {
            inner: Vec2 { x: 1_000_000, y: 1_000_000 },
            outer: Vec2 { x: 1_000_000, y: 1_000_000 },
            scale: Vec2 { x: 50_000_000, y: 100_000_000 },
            translation: Vec2 { x: 2_000_000, y: 3_000_000 },
            rotation_angle: 0,
            rotation_speed: 0,
        },
        curve: CurveKind::Ellipse,
    };
    let p = mover.get_postion(0);
    assert_eq!(p, Vec2 { x: 27_000_000, y: 3_000_000 });
}

#[test]
fn get_postion_rotates_by_half_turn() {
    // A half-turn rotation negates both coordinates of the curve point.
    let mover = Mover {
        name: "r".to_string(),
        params: MoverParams {
            inner: Vec2 { x: 1_000_000, y: 1_000_000 },
            outer: Vec2 { x: 1_000_000, y: 1_000_000 },
            scale: Vec2 { x: 50_000_000, y: 100_000_000 },
            translation: Vec2 { x: 0, y: 0 },
            rotation_angle: 500_000,
            rotation_speed: 0,
        },
        curve: CurveKind::Ellipse,
    };
    let p = mover.get_postion(0);
    assert_eq!(p, Vec2 { x: -25_000_000, y: 0 });
}

#[test]
fn quarter_period_swaps_axes() {
    // At a quarter of the inner period the cosine is zero and the sine is
    // one: the point sits at the top of the box.
    let p = p_elipse(
        250_000,
        MoverParams {
            inner: Vec2 { x: 1_000_000, y: 1_000_000 },
            outer: Vec2 { x: 1_000_000, y: 1_000_000 },
            scale: Vec2 { x: 50_000_000, y: 100_000_000 },
            translation: Vec2 { x: 0, y: 0 },
            rotation_angle: 0,
            rotation_speed: 0,
        },
    );
    assert_eq!(p, Vec2 { x: 0, y: 50_000_000 });
}

#[test]
fn from_config_defaults_are_zero() {
    let m = Mover::from_config(
        "orbit".to_string(),
        &MoverConfig {
            mover_type: "p_elipse".to_string(),
            inner: Vec2 { x: 1_000_000, y: 3_000_000 },
            outer: Vec2 { x: 300_000, y: 400_000 },
            scale: Vec2 { x: 1_600_000_000, y: 1_600_000_000 },
            translation: None,
            rotation_angle: None,
            rotation_speed: None,
        },
    );
    assert_eq!(m.name, "orbit".to_string());
    assert_eq!(m.params.translation, Vec2 { x: 0, y: 0 });
    assert_eq!(m.params.rotation_angle, 0);
    assert_eq!(m.params.rotation_speed, 0);
    assert_eq!(m.curve, CurveKind::Ellipse);
}
