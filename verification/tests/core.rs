//! End-to-end tests of the starfield core: configuration, placement,
//! simulation, projection, and the frame driver.

use starfield::conf::standard_config;
use starfield::conf::COORD;
use starfield::conf::FP;
use starfield::driver::new_scratch;
use starfield::driver::step_frame;
use starfield::events::process_events;
use starfield::events::DriverState;
use starfield::events::Key;
use starfield::events::WindowEvent;
use starfield::place::create_stars;
use starfield::project::update_geometry;
use starfield::star::Star;
use starfield::star::StarVertex;
use starfield::star::Vec2;
use starfield::store::StarField;

fn vertex_for(star: &Star, center: Vec2) -> StarVertex {
    let cfg = standard_config();
    let mut v = StarVertex::default();
    update_geometry(star, &cfg, center, &mut v);
    v
}

#[test]
fn standard_config_values() {
    let cfg = standard_config();
    assert_eq!(cfg.near, FP / 10); // 0.1 world units
    assert_eq!(cfg.far, 10 * FP); // 10.0 world units
    assert_eq!(cfg.step, FP / 144); // 1.0 world units per second at 144 fps
    assert_eq!(cfg.radius, 40 * COORD); // 40 pixels
}

#[test]
fn star_new_fields() {
    let s = Star::new(7, -9, 100_000);
    assert_eq!(s.position.x, 7);
    assert_eq!(s.position.y, -9);
    assert_eq!(s.z, 100_000);
}

// Scale formula exactness: depth 2.0 projects at scale 1/2.
#[test]
fn scale_exact_at_depth_two() {
    let star = Star::new(0, 0, 2 * FP);
    let v = vertex_for(&star, Vec2 { x: 0, y: 0 });
    assert_eq!(v.scale, FP / 2);
}

// Color formula exactness: brightest at the near plane, half bright at the
// middle of the depth range, dimmest just before the far plane.
#[test]
fn channel_at_near_is_brightest() {
    let cfg = standard_config();
    let star = Star::new(0, 0, cfg.near);
    let v = vertex_for(&star, Vec2 { x: 0, y: 0 });
    assert_eq!(v.channel, 255);
}

#[test]
fn channel_at_midpoint() {
    let cfg = standard_config();
    let mid = cfg.near + (cfg.far - cfg.near) / 2; // depth 5.05
    let v = vertex_for(&Star::new(0, 0, mid), Vec2 { x: 0, y: 0 });
    assert_eq!(v.channel, 128); // 127.5 rounded half up
}

#[test]
fn channel_just_before_far_is_dimmest() {
    let cfg = standard_config();
    let v = vertex_for(&Star::new(0, 0, cfg.far - 1), Vec2 { x: 0, y: 0 });
    assert_eq!(v.channel, 0);
}

// Projection monotonicity on a sample pair: nearer means strictly larger
// scale and at least as bright a channel.
#[test]
fn nearer_star_projects_larger_and_brighter() {
    let near_star = Star::new(0, 0, FP / 5); // depth 0.2
    let far_star = Star::new(0, 0, FP); // depth 1.0
    let nv = vertex_for(&near_star, Vec2 { x: 0, y: 0 });
    let fv = vertex_for(&far_star, Vec2 { x: 0, y: 0 });
    assert!(nv.scale > fv.scale);
    assert!(nv.channel >= fv.channel);
    assert_eq!(nv.scale, 5 * FP);
    assert_eq!(fv.scale, FP);
}

// Screen placement: at scale 1.0 the sprite corner sits radius left and up
// of the centered position.
#[test]
fn corner_at_unit_scale() {
    let cfg = standard_config();
    let star = Star::new(0, 0, FP); // scale exactly 1.0
    let center = Vec2 { x: 500_000, y: 400_000 };
    let v = vertex_for(&star, center);
    assert_eq!(v.position.x, center.x - cfg.radius);
    assert_eq!(v.position.y, center.y - cfg.radius);
}

#[test]
fn corner_scales_toward_center() {
    let star = Star::new(720_000, -360_000, 2 * FP); // scale 0.5
    let center = Vec2 { x: 500_000, y: 400_000 };
    let v = vertex_for(&star, center);
    // (720000 - 40000) * 0.5 + 500000, (-360000 - 40000) * 0.5 + 400000
    assert_eq!(v.position.x, 340_000 + 500_000);
    assert_eq!(v.position.y, -200_000 + 400_000);
}

// End-to-end stepping scenario: a star at depth 0.12 approaches the near
// plane, recycles exactly once, and the recycled depth carries the
// overshoot back in from the far plane instead of snapping to a plane.
#[test]
fn single_star_steps_and_recycles_once() {
    let cfg = standard_config();
    let star = Star::new(0, 0, 86_400); // depth 0.12
    let mut field = StarField::new(&cfg, vec![star]);
    assert_eq!(field.first, 0);

    field.advance(&cfg);
    assert_eq!(field.stars[0].z, 81_400); // 0.12 - 1/144, about 0.1131
    assert!(field.stars[0].z >= cfg.near);

    field.advance(&cfg);
    assert_eq!(field.stars[0].z, 76_400);

    // The next step would reach 71,400, below the near plane: one recycle.
    field.advance(&cfg);
    assert_eq!(field.stars[0].z, cfg.far - (cfg.near - 71_400));
    assert_eq!(field.stars[0].z, 7_199_400);
    assert_ne!(field.stars[0].z, cfg.far);

    // No further recycle for a long while.
    field.advance(&cfg);
    assert_eq!(field.stars[0].z, 7_194_400);
}

// Recycling preserves sub-frame precision for any overshoot.
#[test]
fn recycle_wraps_overshoot() {
    let cfg = standard_config();
    let mut field = StarField::new(&cfg, vec![Star::new(10, 20, 76_000)]);
    field.advance(&cfg);
    // 76000 - 5000 = 71000, an overshoot of 1000 below the near plane.
    assert_eq!(field.stars[0].z, cfg.far - (cfg.near - 71_000));
    assert_eq!(field.stars[0].z, 7_199_000);
    // Positions are never touched by the simulation step.
    assert_eq!(field.stars[0].position.x, 10);
    assert_eq!(field.stars[0].position.y, 20);
}

// The store sorts once, descending by depth, keeping every star.
#[test]
fn new_field_sorts_descending() {
    let cfg = standard_config();
    let stars = vec![
        Star::new(1, 0, 100_000),
        Star::new(2, 0, 5_000_000),
        Star::new(3, 0, 300_000),
    ];
    let field = StarField::new(&cfg, stars);
    assert_eq!(field.stars.len(), 3);
    assert_eq!(field.first, 0);
    let depths: Vec<i64> = field.stars.iter().map(|s| s.z).collect();
    assert_eq!(depths, vec![5_000_000, 300_000, 100_000]);
    let xs: Vec<i64> = field.stars.iter().map(|s| s.position.x).collect();
    assert_eq!(xs, vec![2, 3, 1]);
}

// When several stars recycle in one frame, `first` ends at the lowest
// recycled physical slot: the farthest of them after recycling.
#[test]
fn first_index_tracks_lowest_recycled_slot() {
    let cfg = standard_config();
    let stars = vec![
        Star::new(0, 0, 7_000_000),
        Star::new(1, 0, 74_000),
        Star::new(2, 0, 73_000),
    ];
    let mut field = StarField::new(&cfg, stars);
    field.advance(&cfg);
    assert_eq!(field.stars[0].z, 6_995_000);
    assert_eq!(field.stars[1].z, 7_197_000); // recycled
    assert_eq!(field.stars[2].z, 7_196_000); // recycled
    assert_eq!(field.first, 1);
    // Logical traversal from `first` visits depths in descending order.
    assert_eq!(field.logical_index(0), 1);
    assert_eq!(field.logical_index(1), 2);
    assert_eq!(field.logical_index(2), 0);
}

#[test]
fn first_index_unchanged_without_recycle() {
    let cfg = standard_config();
    let mut field = StarField::new(
        &cfg,
        vec![Star::new(0, 0, 5_000_000), Star::new(0, 0, 90_000)],
    );
    field.advance(&cfg);
    assert_eq!(field.first, 0);
}

// Long-horizon invariant: depths stay inside [near, far) across tens of
// thousands of simulated frames, recycles included.
#[test]
fn depth_invariant_long_horizon() {
    let cfg = standard_config();
    let mut stars = Vec::new();
    for k in 0..50i64 {
        stars.push(Star::new(k, -k, cfg.near + k * 140_000));
    }
    let mut field = StarField::new(&cfg, stars);
    for _ in 0..30_000 {
        field.advance(&cfg);
        for s in field.stars.iter() {
            assert!(cfg.near <= s.z && s.z < cfg.far);
        }
        // Depths spaced wider than one step recycle one at a time, so the
        // rotated traversal stays sorted farthest to nearest, frame after
        // frame, without ever re-sorting.
        for i in 0..field.stars.len() - 1 {
            let farther = field.stars[field.logical_index(i)].z;
            let nearer = field.stars[field.logical_index(i + 1)].z;
            assert!(farther >= nearer);
        }
    }
}

// Placement: every generated star has an in-range depth, lies outside the
// dead zone, and stays inside the sampling rectangle; generation for a
// realistic viewport terminates promptly (rejection sampling converges).
#[test]
fn created_stars_avoid_dead_zone() {
    let cfg = standard_config();
    let w = 1_920_000; // 1920 pixels
    let h = 1_080_000; // 1080 pixels
    let spread = 10 * FP;
    let stars = create_stars(&cfg, w, h, 2000, spread);
    assert_eq!(stars.len(), 2000);
    let half_x = w * spread / (2 * FP); // 9_600_000
    let half_y = h * spread / (2 * FP); // 5_400_000
    let dead_x = w * cfg.near / (2 * FP); // 96_000 = 96 pixels
    let dead_y = h * cfg.near / (2 * FP); // 54_000 = 54 pixels
    for s in stars.iter() {
        assert!(cfg.near <= s.z && s.z < cfg.far);
        assert!(-half_x <= s.position.x && s.position.x <= half_x);
        assert!(-half_y <= s.position.y && s.position.y <= half_y);
        let inside_x = -dead_x <= s.position.x && s.position.x < dead_x;
        let inside_y = -dead_y <= s.position.y && s.position.y < dead_y;
        assert!(!(inside_x && inside_y));
    }
    // The draws really vary: 2000 uniform depths over [0.1, 10.0) cannot
    // all coincide.
    let first_z = stars[0].z;
    assert!(stars.iter().any(|s| s.z != first_z));
}

// Quit handling: Stopped is reached exactly on a close or quit-key event,
// and is terminal.
#[test]
fn process_events_quit_signals() {
    let cfg_events = vec![
        (vec![], false),
        (vec![WindowEvent::Other], false),
        (vec![WindowEvent::KeyPressed(Key::Other)], false),
        (vec![WindowEvent::Closed], true),
        (vec![WindowEvent::KeyPressed(Key::Q)], true),
        (vec![WindowEvent::KeyPressed(Key::Escape)], true),
        (
            vec![WindowEvent::Other, WindowEvent::KeyPressed(Key::Escape)],
            true,
        ),
    ];
    for (events, quits) in cfg_events {
        let mut state = DriverState::Running;
        process_events(&mut state, &events);
        assert_eq!(state == DriverState::Stopped, quits);
    }
}

#[test]
fn stopped_is_terminal() {
    let mut state = DriverState::Stopped;
    process_events(&mut state, &vec![]);
    assert_eq!(state, DriverState::Stopped);
    process_events(&mut state, &vec![WindowEvent::Other]);
    assert_eq!(state, DriverState::Stopped);
}

#[test]
fn new_scratch_is_zeroed() {
    let scratch = new_scratch(3);
    assert_eq!(scratch.len(), 3);
    for v in scratch.iter() {
        assert_eq!(v.scale, 0);
        assert_eq!(v.channel, 0);
        assert_eq!(v.position.x, 0);
        assert_eq!(v.position.y, 0);
    }
}

// A frame with a quit event stops the driver and leaves the world alone.
#[test]
fn step_frame_stops_on_quit() {
    let cfg = standard_config();
    let mut field = StarField::new(
        &cfg,
        vec![Star::new(0, 0, 5_000_000), Star::new(0, 0, 90_000)],
    );
    let mut scratch = new_scratch(2);
    let mut state = DriverState::Running;
    let events = vec![WindowEvent::Closed];
    let center = Vec2 { x: 960_000, y: 540_000 };
    let running = step_frame(&mut state, &mut field, &cfg, &events, center, &mut scratch);
    assert!(!running);
    assert_eq!(state, DriverState::Stopped);
    assert_eq!(field.stars[0].z, 5_000_000);
    assert_eq!(field.stars[1].z, 90_000);
    assert_eq!(scratch[0], StarVertex::default());
}

// A quiet frame advances the simulation and fills the scratch buffer with
// the projection of the stars in farthest-to-nearest logical order.
#[test]
fn step_frame_projects_in_logical_order() {
    let cfg = standard_config();
    let stars = vec![
        Star::new(100_000, -50_000, 7_000_000),
        Star::new(-30_000, 40_000, 3_600_000),
        Star::new(0, 0, 100_000),
    ];
    let mut field = StarField::new(&cfg, stars);
    let mut scratch = new_scratch(3);
    let mut state = DriverState::Running;
    let center = Vec2 { x: 960_000, y: 540_000 };
    let running = step_frame(&mut state, &mut field, &cfg, &vec![], center, &mut scratch);
    assert!(running);
    assert_eq!(state, DriverState::Running);
    assert_eq!(field.stars[0].z, 6_995_000);
    assert_eq!(field.stars[1].z, 3_595_000);
    assert_eq!(field.stars[2].z, 95_000);
    assert_eq!(field.first, 0);
    for i in 0..3usize {
        let idx = field.logical_index(i);
        let expected = vertex_for(&field.stars[idx], center);
        assert_eq!(scratch[i], expected);
    }
    // Spot check one scale by hand: depth 3.595 at fixed point.
    assert_eq!(scratch[1].scale, (FP * FP) / 3_595_000);
}
