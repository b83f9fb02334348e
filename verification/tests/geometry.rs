//! Line geometry, shading and projection math.

use raymarcher::graphics::renderer::{compute_column_geometry, compute_shaded_color};
use raymarcher::math::{distance, Vec2};
use raymarcher::model::linemap::{contains_in_range, is_parallel_y, Line};
use raymarcher::model::object_color::Color;

#[test]
fn distance_is_euclidean_rounded_down() {
    let a = Vec2 { x: 0, y: 0 };
    let b = Vec2 { x: 3000, y: 4000 };
    assert_eq!(distance(a, b), 5000);
    let c = Vec2 { x: 1000, y: 1000 };
    // sqrt(2) * 1000, rounded down.
    assert_eq!(distance(a, c), 1414);
    assert_eq!(distance(a, a), 0);
}

#[test]
fn line_precomputes_slope_and_intercept() {
    // From (0, 1) to (2, 5) in world units: k = 2, b = 1.
    let l = Line::new(
        Color::rgb(1, 2, 3),
        Vec2 { x: 0, y: 1000 },
        Vec2 { x: 2000, y: 5000 },
    );
    assert_eq!(l.k(), 2000);
    assert_eq!(l.b(), 1000);
    assert_eq!(l.compute_at_x(1000), 3000);
    assert!(!is_parallel_y(&l));
}

#[test]
fn vertical_line_keeps_fallback_intercept() {
    let l = Line::new(
        Color::rgb(0, 0, 0),
        Vec2 { x: 4000, y: 2000 },
        Vec2 { x: 4000, y: 9000 },
    );
    assert_eq!(l.k(), 0);
    assert_eq!(l.b(), 2000);
    assert!(is_parallel_y(&l));
}

#[test]
fn containment_is_inflated_by_epsilon() {
    assert!(contains_in_range(1000, 3000, 1000));
    assert!(contains_in_range(3000, 1000, 2999));
    assert!(contains_in_range(1000, 3000, 3005));
    assert!(contains_in_range(1000, 3000, 995));
    assert!(!contains_in_range(1000, 3000, 3006));
    assert!(!contains_in_range(1000, 3000, 994));
}

#[test]
fn intersection_of_crossing_segments() {
    // A horizontal segment at y = 5 and a vertical one at x = 5.
    let horizontal = Line::new(
        Color::rgb(0, 0, 0),
        Vec2 { x: 0, y: 5000 },
        Vec2 { x: 10000, y: 5000 },
    );
    let vertical = Line::new(
        Color::rgb(0, 0, 0),
        Vec2 { x: 5000, y: 0 },
        Vec2 { x: 5000, y: 10000 },
    );
    let p = Line::find_intersection(&vertical, &horizontal).unwrap();
    assert_eq!(p, Vec2 { x: 5000, y: 5000 });
    let q = Line::find_intersection(&horizontal, &vertical).unwrap();
    assert_eq!(q, Vec2 { x: 5000, y: 5000 });
}

#[test]
fn intersection_lies_in_both_inflated_boxes() {
    let first = Line::new(
        Color::rgb(0, 0, 0),
        Vec2 { x: 0, y: 0 },
        Vec2 { x: 8000, y: 8000 },
    );
    let second = Line::new(
        Color::rgb(0, 0, 0),
        Vec2 { x: 0, y: 8000 },
        Vec2 { x: 8000, y: 0 },
    );
    let p = Line::find_intersection(&first, &second).unwrap();
    assert_eq!(p, Vec2 { x: 4000, y: 4000 });
    for l in [&first, &second] {
        let (fx, tx) = (l.from().x.min(l.to().x), l.from().x.max(l.to().x));
        let (fy, ty) = (l.from().y.min(l.to().y), l.from().y.max(l.to().y));
        assert!(fx - 5 <= p.x && p.x <= tx + 5);
        assert!(fy - 5 <= p.y && p.y <= ty + 5);
    }
}

#[test]
fn intersection_outside_segments_is_rejected() {
    // The extended lines meet at (5, 5), but the second segment stops at x = 2.
    let first = Line::new(
        Color::rgb(0, 0, 0),
        Vec2 { x: 0, y: 5000 },
        Vec2 { x: 10000, y: 5000 },
    );
    let second = Line::new(
        Color::rgb(0, 0, 0),
        Vec2 { x: 0, y: 0 },
        Vec2 { x: 2000, y: 2000 },
    );
    assert!(Line::find_intersection(&first, &second).is_none());
}

#[test]
fn parallel_segments_never_intersect() {
    let first = Line::new(
        Color::rgb(0, 0, 0),
        Vec2 { x: 0, y: 0 },
        Vec2 { x: 10000, y: 10000 },
    );
    let second = Line::new(
        Color::rgb(0, 0, 0),
        Vec2 { x: 0, y: 1000 },
        Vec2 { x: 10000, y: 11000 },
    );
    assert!(Line::find_intersection(&first, &second).is_none());
}

#[test]
fn two_near_vertical_lines_intersect_finitely() {
    // Both segments have an x-extent under the tolerance, so the vertical
    // branch answers: x is pinned to the first segment's start.
    let first = Line::new(
        Color::rgb(0, 0, 0),
        Vec2 { x: 1000, y: 0 },
        Vec2 { x: 1002, y: 5000 },
    );
    let second = Line::new(
        Color::rgb(0, 0, 0),
        Vec2 { x: 999, y: 2000 },
        Vec2 { x: 1001, y: 3000 },
    );
    let p = Line::find_intersection(&first, &second).unwrap();
    assert_eq!(p.x, 1000);
    assert_eq!(p.y, 2500);
}

#[test]
fn shading_keeps_color_inside_activation_border() {
    // covered = 0.2: color unchanged.
    let ray = raymarcher::graphics::ray_caster::cast_ray_linemap(
        &empty_linemap(),
        Vec2 { x: 0, y: 0 },
        0,
        Vec2 { x: 1000, y: 0 },
        10000,
    )
    .0;
    // An empty linemap cast travels the full distance: covered = 1.
    assert_eq!(ray.distance(), 10000);
    let c = Color::rgb(100, 201, 43);
    let shaded = compute_shaded_color(&c, &ray);
    // covered = 1: every channel is multiplied by exactly 0.25.
    assert_eq!(shaded, Color::rgb(25, 50, 10));
}

#[test]
fn shading_is_identity_at_quarter_distance() {
    // A wall 2 units away with a 10-unit maximum: covered = 0.2 < 0.25.
    let mut linemap = raymarcher::model::linemap::Linemap::new(7);
    linemap.add_line(
        Color::rgb(0, 0, 0),
        Vec2 { x: 2000, y: -1000 },
        Vec2 { x: 2000, y: 1000 },
    );
    let ray = raymarcher::graphics::ray_caster::cast_ray_linemap(
        &linemap,
        Vec2 { x: 0, y: 0 },
        0,
        Vec2 { x: 1000, y: 0 },
        10000,
    )
    .0;
    assert_eq!(ray.distance(), 2000);
    let c = Color::rgb(100, 201, 43);
    assert_eq!(compute_shaded_color(&c, &ray), c);
}

fn empty_linemap() -> raymarcher::model::linemap::Linemap {
    raymarcher::model::linemap::Linemap::new(9)
}

#[test]
fn shading_is_identity_exactly_at_the_border() {
    // A wall 2.5 units away with a 10-unit maximum: covered is exactly 0.25
    // and the color must still come back unchanged.
    let mut linemap = raymarcher::model::linemap::Linemap::new(8);
    linemap.add_line(
        Color::rgb(0, 0, 0),
        Vec2 { x: 2500, y: -1000 },
        Vec2 { x: 2500, y: 1000 },
    );
    let ray = raymarcher::graphics::ray_caster::cast_ray_linemap(
        &linemap,
        Vec2 { x: 0, y: 0 },
        0,
        Vec2 { x: 1000, y: 0 },
        10000,
    )
    .0;
    assert_eq!(ray.distance(), 2500);
    let c = Color::rgb(255, 77, 1);
    assert_eq!(compute_shaded_color(&c, &ray), c);
}

#[test]
fn column_geometry_tiles_the_screen() {
    // distance 2 units, height 600: wall band is 300 pixels, centered.
    let g = compute_column_geometry(800, 600, 10, 120, 2000);
    assert_eq!(g.width, 800 / 120 + 1);
    assert_eq!(g.x, g.width * 10);
    assert_eq!(g.wall_top, 150);
    assert_eq!(g.wall_bottom, 450);
    assert_eq!(g.wall_top + (g.wall_bottom - g.wall_top) + (600 - g.wall_bottom), 600);
    assert_eq!(g.wall_top, 600 - g.wall_bottom);
}

#[test]
fn column_geometry_clamps_close_walls() {
    // Distances below one world unit fill the whole column.
    let g = compute_column_geometry(800, 600, 0, 120, 500);
    assert_eq!(g.wall_top, 0);
    assert_eq!(g.wall_bottom, 600);
    let g0 = compute_column_geometry(800, 600, 0, 120, 0);
    assert_eq!(g0.wall_top, 0);
    assert_eq!(g0.wall_bottom, 600);
}

#[test]
fn column_geometry_odd_remainder_floors_get_extra_pixel() {
    // height 601, wall band 300: the halves cannot match exactly; the three
    // bands still tile the screen.
    let g = compute_column_geometry(800, 601, 0, 120, 2000);
    assert_eq!(g.wall_bottom - g.wall_top, 300);
    assert_eq!(g.wall_top + (g.wall_bottom - g.wall_top) + (601 - g.wall_bottom), 601);
    assert_eq!(g.wall_top, 150);
    assert_eq!(601 - g.wall_bottom, 151);
}
