use particle_lib::color_picker::Color;
use particle_lib::fixed::Vec2;
use particle_lib::particle::Particle;

fn gray() -> Color {
    Color { hue: 500_000, sat: 500_000, light: 500_000, alpha: 1_000_000 }
}

fn unit_particle() -> Particle {
    Particle::new(
        Vec2 { x: 0, y: 0 },
        Vec2 { x: 1_000_000, y: 1_000_000 },
        gray(),
        4_000_000,
        2_000_000,
        255_000_000,
    )
}

#[test]
fn test_new() {
    let p = unit_particle();
    assert_eq!(p.position, Vec2 { x: 0, y: 0 });
    assert_eq!(p.velocity, Vec2 { x: 1_000_000, y: 1_000_000 });
    assert_eq!(p.acceleration, Vec2 { x: 0, y: 0 });
    assert_eq!(p.radius, 4_000_000);
    assert_eq!(p.life_span, 255_000_000);
    assert_eq!(p.init_life_span, 255_000_000);
}

#[test]
fn test_update() {
    let mut p = unit_particle();
    p.update(None);
    assert_eq!(p.position, Vec2 { x: 1_000_000, y: 1_000_000 });
}

#[test]
fn test_apply_force() {
    let mut p = unit_particle();
    p.apply_force(Vec2 { x: 1_000_000, y: 1_000_000 });
    p.update(None);
    assert_eq!(p.acceleration, Vec2 { x: 1_000_000, y: 1_000_000 });
    assert_eq!(p.velocity, Vec2 { x: 2_000_000, y: 2_000_000 });
}

#[test]
fn test_update_with_direction() {
    let mut p = unit_particle();
    p.update(Some(Vec2 { x: 1_000_000, y: 1_000_000 }));
    assert_eq!(p.acceleration, Vec2 { x: 0, y: 0 });
    assert_eq!(p.velocity, Vec2 { x: 2_000_000, y: 2_000_000 });
}

#[test]
fn coasting_particle_moves_linearly() {
    // Zero acceleration, no impulse: after k ticks the position is
    // p0 + k * v and the life span has fallen by 2 units per tick.
    let mut p = Particle::new(
        Vec2 { x: 3_000_000, y: -2_000_000 },
        Vec2 { x: 500_000, y: 250_000 },
        gray(),
        4_000_000,
        2_000_000,
        100_000_000,
    );
    for _ in 0..10 {
        p.update(None);
    }
    assert_eq!(p.position, Vec2 { x: 3_000_000 + 10 * 500_000, y: -2_000_000 + 10 * 250_000 });
    assert_eq!(p.velocity, Vec2 { x: 500_000, y: 250_000 });
    assert_eq!(p.life_span, 100_000_000 - 10 * 2_000_000);
}

#[test]
fn applied_force_keeps_acting() {
    // A force applied once keeps contributing every tick: velocity grows
    // linearly, position quadratically.
    let mut p = Particle::new(
        Vec2 { x: 0, y: 0 },
        Vec2 { x: 0, y: 0 },
        gray(),
        4_000_000,
        2_000_000,
        100_000_000,
    );
    p.apply_force(Vec2 { x: 1_000_000, y: 0 });
    p.update(None);
    p.update(None);
    p.update(None);
    // velocities 1, 2, 3 after each tick; positions 1, 3, 6
    assert_eq!(p.velocity.x, 3_000_000);
    assert_eq!(p.position.x, 6_000_000);
}

#[test]
fn death_at_strictly_negative_life() {
    // Life 4.0 costs exactly two ticks to reach zero: still alive there,
    // dead one tick later.
    let mut p = Particle::new(
        Vec2 { x: 0, y: 0 },
        Vec2 { x: 0, y: 0 },
        gray(),
        4_000_000,
        2_000_000,
        4_000_000,
    );
    assert!(!p.is_dead());
    p.update(None);
    assert_eq!(p.life_span, 2_000_000);
    assert!(!p.is_dead());
    p.update(None);
    assert_eq!(p.life_span, 0);
    assert!(!p.is_dead());
    p.update(None);
    assert_eq!(p.life_span, -2_000_000);
    assert!(p.is_dead());
}

#[test]
fn display_shrinks_and_fades_with_life() {
    // radius 4.0, life 50 of 100: the circle has diameter 2.0 and alpha 0.5.
    let mut p = Particle::new(
        Vec2 { x: 7_000_000, y: 8_000_000 },
        Vec2 { x: 0, y: 0 },
        gray(),
        4_000_000,
        2_000_000,
        100_000_000,
    );
    p.life_span = 50_000_000;
    let d = p.display();
    assert_eq!(d.center, Vec2 { x: 7_000_000, y: 8_000_000 });
    assert_eq!(d.diameter, 2_000_000);
    assert_eq!(d.fill.hue, 500_000);
    assert_eq!(d.fill.alpha, 500_000);
    assert_eq!(d.stroke_alpha, 500_000);
    assert_eq!(d.stroke_weight, 2_000_000);
}

#[test]
fn draw_velocity_spans_position_to_position_plus_velocity() {
    let p = Particle::new(
        Vec2 { x: 1_000_000, y: 2_000_000 },
        Vec2 { x: 300_000, y: -400_000 },
        gray(),
        4_000_000,
        2_000_000,
        10_000_000,
    );
    let a = p.draw_velocity();
    assert_eq!(a.start, Vec2 { x: 1_000_000, y: 2_000_000 });
    assert_eq!(a.end, Vec2 { x: 1_300_000, y: 1_600_000 });
}
