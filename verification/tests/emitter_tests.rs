use particle_lib::color_picker::Color;
use particle_lib::config::{ColorPickerConfig, EmitterConfig, MoverConfig};
use particle_lib::emitter::{impulse_from_sample, Bounds, Emitter};
use particle_lib::fixed::Vec2;
use particle_lib::particle::Particle;

fn test_bounds() -> Bounds {
    Bounds {
        top: 300_000_000,
        bottom: -300_000_000,
        left: -400_000_000,
        right: 400_000_000,
    }
}

fn plain_emitter_config() -> EmitterConfig {
    EmitterConfig {
        color_picker: None,
        mover: None,
        flight_size: None,
        initial_velocity: Some(Vec2 { x: 100_000, y: 200_000 }),
        life_span: None,
        noise_field: None,
        noise_scale: None,
        noise_strength: None,
        position: Some(Vec2 { x: 5_000_000, y: 6_000_000 }),
        radius: None,
        randomize_position: Some(false),
        randomize_velocity: Some(false),
        stroke_weight: None,
        visualize_noise_field: None,
    }
}

fn plain_emitter() -> Emitter {
    Emitter::from_config(
        "e".to_string(),
        plain_emitter_config(),
        &Vec::new(),
        &Vec::new(),
        test_bounds(),
        11,
    )
    .unwrap()
}

#[test]
fn active_emitter_gains_flight_size_particles() {
    let mut em = plain_emitter();
    assert_eq!(em.particles.len(), 0);
    em.emit();
    assert_eq!(em.particles.len(), 10);
    em.emit();
    assert_eq!(em.particles.len(), 20);
}

#[test]
fn paused_emitter_gains_nothing() {
    let mut em = plain_emitter();
    em.emit();
    assert_eq!(em.particles.len(), 10);
    em.toggle_pause();
    em.emit();
    assert_eq!(em.particles.len(), 10);
    em.toggle_pause();
    em.emit();
    assert_eq!(em.particles.len(), 20);
}

#[test]
fn spawned_particles_copy_the_configuration() {
    let mut em = plain_emitter();
    em.emit();
    for p in em.particles.iter() {
        assert_eq!(p.position, Vec2 { x: 5_000_000, y: 6_000_000 });
        assert_eq!(p.velocity, Vec2 { x: 100_000, y: 200_000 });
        assert_eq!(p.acceleration, Vec2 { x: 0, y: 0 });
        assert_eq!(p.radius, 10_000_000);
        assert_eq!(p.stroke_weight, 2_000_000);
        assert_eq!(p.life_span, 512_000_000);
        assert_eq!(p.init_life_span, 512_000_000);
    }
}

#[test]
fn update_advances_and_keeps_order() {
    let mut em = plain_emitter();
    em.emit();
    let before: Vec<Particle> = em.particles.clone();
    em.update(0, None);
    assert_eq!(em.particles.len(), before.len());
    for (p, q) in em.particles.iter().zip(before.iter()) {
        assert_eq!(p.position.x, q.position.x + q.velocity.x);
        assert_eq!(p.position.y, q.position.y + q.velocity.y);
        assert_eq!(p.life_span, q.life_span - 2_000_000);
    }
}

#[test]
fn update_evicts_dead_without_skipping_survivors() {
    // A pool with interleaved dead and live entries: the pass removes
    // exactly the dead ones and keeps the survivors in order.
    let mut em = plain_emitter();
    let gray = Color { hue: 0, sat: 0, light: 0, alpha: 1_000_000 };
    let mk = |x: i64, life: i64| {
        Particle::new(
            Vec2 { x, y: 0 },
            Vec2 { x: 0, y: 0 },
            gray,
            1_000_000,
            1_000_000,
            life,
        )
    };
    // lives after one update: 0 (alive), -3 (dead), 2 (alive), -1 (dead), 4 (alive)
    em.particles.push(mk(1, 2_000_000));
    em.particles.push(mk(2, -1_000_000));
    em.particles.push(mk(3, 4_000_000));
    em.particles.push(mk(4, 1_000_000));
    em.particles.push(mk(5, 6_000_000));
    em.update(0, None);
    let xs: Vec<i64> = em.particles.iter().map(|p| p.position.x).collect();
    assert_eq!(xs, vec![1, 3, 5]);
    for p in em.particles.iter() {
        assert!(p.life_span >= 0);
        assert!(!p.is_dead());
    }
}

#[test]
fn update_follows_the_mover() {
    let movers = vec![(
        "orbit".to_string(),
        MoverConfig {
            mover_type: "p_elipse".to_string(),
            inner: Vec2 { x: 1_000_000, y: 1_000_000 },
            outer: Vec2 { x: 1_000_000, y: 1_000_000 },
            scale: Vec2 { x: 50_000_000, y: 100_000_000 },
            translation: None,
            rotation_angle: None,
            rotation_speed: None,
        },
    )];
    let mut cfg = plain_emitter_config();
    cfg.mover = Some("orbit".to_string());
    let mut em = Emitter::from_config(
        "e".to_string(),
        cfg,
        &Vec::new(),
        &movers,
        test_bounds(),
        11,
    )
    .unwrap();
    em.update(0, None);
    assert_eq!(em.position, Vec2 { x: 25_000_000, y: 0 });
    em.emit();
    assert_eq!(em.particles[0].position, Vec2 { x: 25_000_000, y: 0 });
}

#[test]
fn missing_mover_name_means_no_mover() {
    let mut cfg = plain_emitter_config();
    cfg.mover = Some("nonexistent".to_string());
    let mut em = Emitter::from_config(
        "e".to_string(),
        cfg,
        &Vec::new(),
        &Vec::new(),
        test_bounds(),
        11,
    )
    .unwrap();
    em.update(5_000_000, None);
    // no mover: the position stays at the configured origin
    assert_eq!(em.position, Vec2 { x: 5_000_000, y: 6_000_000 });
}

#[test]
fn missing_picker_name_falls_back_to_default() {
    let mut cfg = plain_emitter_config();
    cfg.color_picker = Some("nonexistent".to_string());
    let mut em = Emitter::from_config(
        "e".to_string(),
        cfg,
        &Vec::new(),
        &Vec::new(),
        test_bounds(),
        11,
    )
    .unwrap();
    em.emit();
    // the fallback picker is single-color: hue 1.0, alpha 0.5, with
    // saturation and lightness drawn from [0.3, 0.7]
    let c0 = em.particles[0].color;
    assert_eq!(c0.hue, 1_000_000);
    assert_eq!(c0.alpha, 500_000);
    assert!(300_000 <= c0.sat && c0.sat <= 700_000);
    assert!(300_000 <= c0.light && c0.light <= 700_000);
    for p in em.particles.iter() {
        assert_eq!(p.color, c0);
    }
}

#[test]
fn named_picker_zero_colors_fails_fast() {
    let pickers = vec![(
        "bad".to_string(),
        ColorPickerConfig {
            hue: None,
            saturation: None,
            lightness: None,
            alpha: None,
            range_hue: None,
            range_saturation: None,
            range_lightness: None,
            range_alpha: None,
            num_colors: Some(0),
        },
    )];
    let mut cfg = plain_emitter_config();
    cfg.color_picker = Some("bad".to_string());
    let r = Emitter::from_config(
        "e".to_string(),
        cfg,
        &pickers,
        &Vec::new(),
        test_bounds(),
        11,
    );
    assert!(r.is_err());
}

#[test]
fn apply_force_reaches_every_particle() {
    let mut em = plain_emitter();
    em.emit();
    em.apply_force(Vec2 { x: 4_000, y: -2_000 });
    for p in em.particles.iter() {
        assert_eq!(p.acceleration, Vec2 { x: 4_000, y: -2_000 });
    }
}

#[test]
fn impulse_points_along_the_sampled_angle() {
    // Sample 0 is angle 0: the unit vector (1, 0) scaled by the strength.
    assert_eq!(
        impulse_from_sample(0, 30_000),
        Vec2 { x: 30_000, y: 0 }
    );
    // A quarter turn points straight up.
    assert_eq!(
        impulse_from_sample(250_000, 30_000),
        Vec2 { x: 0, y: 30_000 }
    );
    // A half turn points left.
    assert_eq!(
        impulse_from_sample(500_000, 30_000),
        Vec2 { x: -30_000, y: 0 }
    );
}

#[test]
fn turbulence_update_applies_the_impulse() {
    let mut cfg = plain_emitter_config();
    cfg.noise_field = Some(true);
    cfg.noise_strength = Some(40_000);
    let mut em = Emitter::from_config(
        "e".to_string(),
        cfg,
        &Vec::new(),
        &Vec::new(),
        test_bounds(),
        11,
    )
    .unwrap();
    em.emit();
    let v_before = em.particles[0].velocity;
    // every particle sampled at angle zero: impulse (strength, 0)
    let samples: Vec<i64> = vec![0; em.particles.len()];
    em.update(0, Some(&samples));
    assert_eq!(em.particles[0].velocity.x, v_before.x + 40_000);
    assert_eq!(em.particles[0].velocity.y, v_before.y);
}

#[test]
fn randomized_spawns_stay_inside_the_viewport() {
    let mut cfg = plain_emitter_config();
    cfg.randomize_position = Some(true);
    cfg.randomize_velocity = Some(true);
    let mut em = Emitter::from_config(
        "e".to_string(),
        cfg,
        &Vec::new(),
        &Vec::new(),
        test_bounds(),
        77,
    )
    .unwrap();
    em.emit();
    for p in em.particles.iter() {
        assert!(p.position.x % 1_000_000 == 0);
        assert!(p.position.y % 1_000_000 == 0);
        assert!(-401_000_000 < p.position.x && p.position.x <= 400_000_000);
        assert!(-301_000_000 < p.position.y && p.position.y <= 300_000_000);
        assert!(-1_000_000 <= p.velocity.x && p.velocity.x < 1_000_000);
        assert!(-1_000_000 <= p.velocity.y && p.velocity.y < 1_000_000);
    }
}

#[test]
fn display_reports_every_particle() {
    let mut em = plain_emitter();
    em.emit();
    let draws = em.display();
    assert_eq!(draws.len(), em.particles.len());
    for (d, p) in draws.iter().zip(em.particles.iter()) {
        assert_eq!(d.center, p.position);
        assert_eq!(d.stroke_weight, p.stroke_weight);
    }
}

#[test]
fn flow_field_covers_the_grid() {
    let mut cfg = plain_emitter_config();
    cfg.noise_field = Some(true);
    let em = Emitter::from_config(
        "e".to_string(),
        cfg,
        &Vec::new(),
        &Vec::new(),
        Bounds { top: 30_000_000, bottom: 0, left: 0, right: 20_000_000 },
        11,
    )
    .unwrap();
    let pts = em.flow_field_points();
    // two columns (x = 0, 10) by three rows (y = 0, 10, 20)
    assert_eq!(pts.len(), 6);
    assert_eq!(pts[0], Vec2 { x: 0, y: 0 });
    assert_eq!(pts[1], Vec2 { x: 0, y: 10_000_000 });
    assert_eq!(pts[2], Vec2 { x: 0, y: 20_000_000 });
    assert_eq!(pts[3], Vec2 { x: 10_000_000, y: 0 });
    let samples: Vec<i64> = vec![0; pts.len()];
    let arrows = em.draw_flow_field(&samples);
    assert_eq!(arrows.len(), 6);
    // angle zero: each arrow points ten units to the right
    for (a, pt) in arrows.iter().zip(pts.iter()) {
        assert_eq!(a.start, *pt);
        assert_eq!(a.end.x, pt.x + 10_000_000);
        assert_eq!(a.end.y, pt.y);
    }
}

#[test]
fn default_emitter_matches_the_builtin_parameters() {
    let mut em = Emitter::new(test_bounds(), 1);
    assert_eq!(em.flight_size, 10);
    assert_eq!(em.life_span, 512_000_000);
    assert_eq!(em.radius, 10_000_000);
    assert_eq!(em.stroke_weight, 2_000_000);
    assert_eq!(em.position, Vec2 { x: 0, y: 0 });
    em.emit();
    assert_eq!(em.particles.len(), 10);
    for p in em.particles.iter() {
        // the built-in picker: hue 117, alpha one half
        assert_eq!(p.color.hue, 117_000_000);
        assert_eq!(p.color.alpha, 500_000);
        assert!(300_000 <= p.color.sat && p.color.sat <= 700_000);
    }
}
