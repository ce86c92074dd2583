use platformer_core::geometry::{
    find_points_with_neighbors, find_rectangles, is_point_in_rectangle, remove_interior_points,
    wall_collider, Point, Rectangle,
};
use platformer_core::math::Vec2Fx;
use platformer_core::probes::{side_probe, swept_sensor_probe, CastFilter};
use platformer_core::state::Velocity;

fn p(x: i32, y: i32) -> Point {
    Point { x, y }
}

#[test]
fn surrounded_points_are_found() {
    // A plus shape: only its center has all four neighbors.
    let points = vec![p(1, 1), p(0, 1), p(2, 1), p(1, 0), p(1, 2)];
    let surrounded = find_points_with_neighbors(&points);
    assert_eq!(surrounded, vec![p(1, 1)]);
}

#[test]
fn sparse_points_have_no_surrounded_ones() {
    let points = vec![p(0, 0), p(2, 0), p(4, 0)];
    assert!(find_points_with_neighbors(&points).is_empty());
}

#[test]
fn interior_of_a_block_is_pruned() {
    // A 3x3 block: the center cell never touches anything.
    let mut points = Vec::new();
    for y in 0..3 {
        for x in 0..3 {
            points.push(p(x, y));
        }
    }
    let hull = remove_interior_points(&points);
    assert_eq!(hull.len(), 8);
    assert!(!hull.contains(&p(1, 1)));
    assert!(hull.contains(&p(0, 0)));
}

#[test]
fn rows_merge_into_maximal_runs() {
    // Given out of order; the merge sweeps row-major.
    let points = vec![p(2, 0), p(0, 1), p(0, 0), p(1, 0)];
    let rects = find_rectangles(&points);
    assert_eq!(
        rects,
        vec![
            Rectangle { top_left: p(0, 0), width: 3, height: 1 },
            Rectangle { top_left: p(0, 1), width: 1, height: 1 },
        ]
    );
}

#[test]
fn gaps_split_runs() {
    let points = vec![p(0, 0), p(1, 0), p(3, 0), p(4, 0), p(5, 0)];
    let rects = find_rectangles(&points);
    assert_eq!(
        rects,
        vec![
            Rectangle { top_left: p(0, 0), width: 2, height: 1 },
            Rectangle { top_left: p(3, 0), width: 3, height: 1 },
        ]
    );
}

#[test]
fn every_point_is_covered() {
    let points = vec![p(5, 2), p(-3, 2), p(-2, 2), p(5, 3), p(7, 1)];
    let rects = find_rectangles(&points);
    for point in &points {
        assert!(rects.iter().any(|r| is_point_in_rectangle(r, point)));
    }
}

#[test]
fn rectangles_never_overlap() {
    let points = vec![p(5, 2), p(-3, 2), p(-2, 2), p(5, 3), p(7, 1), p(6, 2)];
    let rects = find_rectangles(&points);
    for (k1, a) in rects.iter().enumerate() {
        for b in rects.iter().skip(k1 + 1) {
            let separated = a.top_left.x + a.width as i32 <= b.top_left.x
                || b.top_left.x + b.width as i32 <= a.top_left.x
                || a.top_left.y + a.height as i32 <= b.top_left.y
                || b.top_left.y + b.height as i32 <= a.top_left.y;
            assert!(separated);
        }
    }
}

#[test]
fn duplicate_points_still_yield_disjoint_covering_runs() {
    let points = vec![p(0, 0), p(0, 0), p(1, 0)];
    let rects = find_rectangles(&points);
    for point in &points {
        assert!(rects.iter().any(|r| is_point_in_rectangle(r, point)));
    }
    for (k1, a) in rects.iter().enumerate() {
        for b in rects.iter().skip(k1 + 1) {
            assert!(a.top_left.x + a.width as i32 <= b.top_left.x
                || b.top_left.x + b.width as i32 <= a.top_left.x);
        }
    }
}

#[test]
fn point_in_rectangle_checks_both_axes() {
    let rect = Rectangle { top_left: p(2, 3), width: 4, height: 1 };
    assert!(is_point_in_rectangle(&rect, &p(2, 3)));
    assert!(is_point_in_rectangle(&rect, &p(5, 3)));
    assert!(!is_point_in_rectangle(&rect, &p(6, 3)));
    assert!(!is_point_in_rectangle(&rect, &p(1, 3)));
    assert!(!is_point_in_rectangle(&rect, &p(3, 4)));
    assert!(!is_point_in_rectangle(&rect, &p(3, 2)));
}

#[test]
fn wall_collider_centers_the_run() {
    let rect = Rectangle { top_left: p(2, 1), width: 3, height: 1 };
    let c = wall_collider(&rect);
    assert_eq!(c.center, Vec2Fx { x: 84_000, y: 36_000 });
    assert_eq!(c.half_extents, Vec2Fx { x: 36_000, y: 12_000 });
}

#[test]
fn side_probe_grows_with_stretch() {
    let probe = side_probe(Vec2Fx { x: 10_000, y: 4_000 }, 6_000, true);
    assert_eq!(probe.origin, Vec2Fx { x: 9_800, y: 7_100 });
    assert_eq!(probe.half_extents, Vec2Fx { x: 6_000, y: 12_000 });
    assert_eq!(probe.cast_velocity, Vec2Fx { x: -1_000, y: 0 });
    assert!(matches!(probe.filter, CastFilter::FixedSolids));
}

#[test]
fn swept_probe_follows_the_tick_displacement() {
    let mut velocity = Velocity::default();
    velocity.current = Vec2Fx { x: 60_000, y: -120_000 };
    let probe = swept_sensor_probe(Vec2Fx { x: 0, y: 0 }, &velocity);
    assert_eq!(probe.cast_velocity, Vec2Fx { x: 1_000, y: -2_000 });
    assert!(matches!(probe.filter, CastFilter::SensorsOnly));
}
