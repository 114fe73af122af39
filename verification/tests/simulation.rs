use orbit_grid::attractor::Point;
use orbit_grid::grid::{build_grid, create_nodes, grid_centers, GridError};
use orbit_grid::math::{isqrt, map_range};
use orbit_grid::node::{Color, Dir, Node};
use orbit_grid::rect::Rect;
use orbit_grid::rng::ColorRng;
use orbit_grid::sim::step_nodes;

fn unit_dir() -> Dir {
    Dir { sin: 0, cos: 1000 }
}

#[test]
fn map_range_endpoints() {
    assert_eq!(map_range(-1000, -100_000, 100_000), -100_000);
    assert_eq!(map_range(1000, -100_000, 100_000), 100_000);
    assert_eq!(map_range(0, -100_000, 100_000), 0);
    assert_eq!(map_range(0, 0, 1000), 500);
}

#[test]
fn isqrt_exact_values() {
    assert_eq!(isqrt(0), 0);
    assert_eq!(isqrt(3), 1);
    assert_eq!(isqrt(4), 2);
    assert_eq!(isqrt(4_900_000_000), 70_000);
    assert_eq!(isqrt(u64::MAX), 4_294_967_295);
}

#[test]
fn attractor_hits_corners_at_extreme_sines() {
    // bounding box (-100, 100) x (-100, 100) units; sin(t/1.4) = 1 and
    // sin(t/2.0) = -1 drive the attractor exactly to (100, -100).
    let boundary = Rect::new(-100_000, 100_000, -100_000, 100_000);
    let mut p = Point::new(0, 0, boundary);
    p.update(1000, -1000);
    assert_eq!(p.x, 100_000);
    assert_eq!(p.y, -100_000);
}

#[test]
fn attractor_stays_in_box() {
    let boundary = Rect::new(-300_000, 300_000, -250_000, 250_000);
    let mut p = Point::new(0, 0, boundary);
    let samples: [(i64, i64); 5] = [(-1000, 1000), (-333, 721), (0, 0), (999, -999), (500, -1)];
    for (s1, s2) in samples {
        p.update(s1, s2);
        assert!(p.min_x <= p.x && p.x <= p.max_x);
        assert!(p.min_y <= p.y && p.y <= p.max_y);
    }
}

#[test]
fn attractor_update_is_deterministic() {
    let boundary = Rect::new(-300_000, 300_000, -250_000, 250_000);
    let mut a = Point::new(-50_000, 0, boundary);
    let mut b = Point::new(120_000, -7_000, boundary);
    a.update(417, -833);
    b.update(417, -833);
    assert_eq!(a.x, b.x);
    assert_eq!(a.y, b.y);
}

#[test]
fn node_update_close_to_attractor() {
    // Resting center (0, 0), attractor straight up at (0, 100): bearing 0,
    // new position (0, 30), distance 70, radius 2 + 1000/70.
    let mut n = Node::new(0, 0, 0, 0, 20_000);
    let mut rng = ColorRng::new(1);
    n.update(0, 100_000, unit_dir(), &mut rng);
    assert_eq!(n.x, 0);
    assert_eq!(n.y, 30_000);
    assert_eq!(n.radius, 16_285);
    // distance 70 is inside the flash threshold of 100: random color with
    // full opacity, channels in range.
    assert_eq!(n.color.a, 1000);
    for c in [n.color.r, n.color.g, n.color.b] {
        assert!((0..=1000).contains(&c));
    }
}

#[test]
fn node_update_far_from_attractor_is_white() {
    let mut n = Node::new(0, 0, 0, 0, 20_000);
    let mut rng = ColorRng::new(1);
    let before = rng;
    n.update(0, 200_000, unit_dir(), &mut rng);
    // distance 170 >= 100: solid white, and the generator is untouched.
    assert_eq!(n.color, Color { r: 1000, g: 1000, b: 1000, a: 1000 });
    assert_eq!(n.radius, 2_000 + 1_000_000_000 / 170_000);
    assert_eq!(rng, before);
}

#[test]
fn node_update_zero_distance_takes_radius_cap() {
    let mut n = Node::new(0, 0, 0, 0, 20_000);
    let mut rng = ColorRng::new(9);
    // attractor exactly on the displaced position
    n.update(0, 30_000, unit_dir(), &mut rng);
    assert_eq!(n.radius, 52_000);
    assert_eq!(n.color.a, 1000);
}

#[test]
fn node_radius_always_in_range() {
    let targets: [(i64, i64); 6] =
        [(0, 30_000), (0, 100_000), (5, 29_999), (800_000, -600_000), (0, 0), (-50_000, 12_345)];
    for (tx, ty) in targets {
        let mut n = Node::new(0, 0, 0, 0, 20_000);
        let mut rng = ColorRng::new(7);
        n.update(tx, ty, unit_dir(), &mut rng);
        assert!((2_000..=52_000).contains(&n.radius));
    }
}

#[test]
fn node_orbit_distance_is_exactly_thirty() {
    // (600, 800) scaled is an exact unit vector: the displacement from the
    // resting center has squared length (30 * 1000)^2 exactly.
    let mut n = Node::new(1_000, -2_000, 0, 0, 20_000);
    let mut rng = ColorRng::new(3);
    let dir = Dir { sin: 600, cos: 800 };
    n.update(500_000, 500_000, dir, &mut rng);
    let dx = n.x - 1_000;
    let dy = n.y - (-2_000);
    assert_eq!(dx, 18_000);
    assert_eq!(dy, 24_000);
    assert_eq!(dx * dx + dy * dy, 30_000 * 30_000);
}

#[test]
fn rng_is_seedable_and_in_range() {
    let mut a = ColorRng::new(42);
    let mut b = ColorRng::new(42);
    for _ in 0..10 {
        let x = a.next_channel();
        let y = b.next_channel();
        assert_eq!(x, y);
        assert!((0..=1000).contains(&x));
    }
    let mut c = ColorRng::new(42);
    // 42 * 48271 = 2027382; 2027382 mod 1001 = 357
    assert_eq!(c.next_channel(), 357);
}

#[test]
fn rng_zero_seed_is_not_absorbing() {
    // seeds landing on state 0 are moved to state 1, so the sequence is
    // live: 1 * 48271 = 48271; 48271 mod 1001 = 223
    let mut a = ColorRng::new(0);
    let mut b = ColorRng::new(2_147_483_647);
    assert_eq!(a.next_channel(), 223);
    assert_eq!(b.next_channel(), 223);
    let later: Vec<i64> = (0..5).map(|_| a.next_channel()).collect();
    assert!(later.iter().any(|&c| c != 0));
}

#[test]
fn node_displacement_stays_within_orbit_band_for_rounded_bearings() {
    // (710, 705) is a rounded bearing, not an exact unit vector: its
    // squared length 1_001_125 sits inside the admitted band, and the
    // squared displacement lands within 0.2% of the squared orbit radius
    let mut n = Node::new(0, 0, 0, 0, 20_000);
    let mut rng = ColorRng::new(5);
    let dir = Dir { sin: 710, cos: 705 };
    assert_eq!(dir.sin * dir.sin + dir.cos * dir.cos, 1_001_125);
    n.update(500_000, 500_000, dir, &mut rng);
    let dx = n.x - n.center_x;
    let dy = n.y - n.center_y;
    let sq = dx * dx + dy * dy;
    assert!((898_200_000..=901_800_000).contains(&sq));
    assert_eq!(sq, 900 * 1_001_125);
}

#[test]
fn grid_has_exactly_rows_times_cols_nodes_in_row_major_order() {
    let win = Rect::new(-600_000, 600_000, -600_000, 600_000);
    let centers = grid_centers(30, 30, win);
    assert_eq!(centers.len(), 900);
    // padded window is (-400, 400) on both axes; 29 gaps of 800/29 units
    let gap: i64 = 800_000 / 29;
    // row-major: index row * 30 + col; x follows the row index, y the
    // column index (the deliberate cross-use of the layout)
    assert_eq!(centers[0], (-400_000, -400_000));
    assert_eq!(centers[1], (-400_000, -400_000 + gap));
    assert_eq!(centers[30], (-400_000 + gap, -400_000));
    assert_eq!(centers[900 - 1], (-400_000 + 29 * gap, -400_000 + 29 * gap));

    let dirs: Vec<Dir> = vec![unit_dir(); 900];
    let nodes = create_nodes(30, 30, win, &dirs, 20_000);
    assert_eq!(nodes.len(), 900);
    for (i, n) in nodes.iter().enumerate() {
        assert_eq!((n.center_x, n.center_y), centers[i]);
        assert_eq!(n.x, n.center_x);
        assert_eq!(n.y, n.center_y + 30_000);
        assert_eq!(n.radius, 20_000);
        assert_eq!(n.color, Color { r: 1000, g: 1000, b: 1000, a: 1000 });
    }
}

#[test]
fn grid_rejects_degenerate_configurations() {
    let win = Rect::new(-600_000, 600_000, -600_000, 600_000);
    let dirs_row: Vec<Dir> = vec![unit_dir(); 30];
    assert_eq!(build_grid(1, 30, win, &dirs_row, 20_000), Err(GridError::TooFewRows));
    assert_eq!(build_grid(30, 1, win, &dirs_row, 20_000), Err(GridError::TooFewCols));
    let dirs: Vec<Dir> = vec![unit_dir(); 4];
    let ok = build_grid(2, 2, win, &dirs, 20_000);
    assert!(ok.is_ok());
    assert_eq!(ok.unwrap().len(), 4);
}

#[test]
fn step_advances_every_node_against_the_same_attractor() {
    let win = Rect::new(-600_000, 600_000, -600_000, 600_000);
    // exactly-unit scaled bearings (Pythagorean triples), cycled
    let units: [(i64, i64); 6] =
        [(0, 1000), (600, 800), (-800, 600), (280, -960), (-352, -936), (1000, 0)];
    let dirs: Vec<Dir> = (0..900)
        .map(|i: usize| {
            let (sin, cos) = units[i % units.len()];
            Dir { sin, cos }
        })
        .collect();
    let mut nodes = create_nodes(30, 30, win, &dirs, 20_000);
    let snapshot = nodes.clone();
    let mut rng = ColorRng::new(2024);
    let mut rng_replay = rng;
    step_nodes(&mut nodes, 10_000, -20_000, &dirs, &mut rng);
    assert_eq!(nodes.len(), snapshot.len());
    // replaying each node singly, in order, with the same generator gives
    // exactly the stepped grid: every node saw the same attractor position
    for i in 0..snapshot.len() {
        let mut n = snapshot[i];
        n.update(10_000, -20_000, dirs[i], &mut rng_replay);
        assert_eq!(nodes[i], n);
    }
    assert_eq!(rng, rng_replay);
}
