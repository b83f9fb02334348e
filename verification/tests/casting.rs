//! Ray casting scenarios against both world representations.

use raymarcher::graphics::ray_caster::{
    cast_ray_linemap, cast_ray_tilemap, cast_rays_linemap, cast_rays_tilemap, relative_ray_angle,
    Hit,
};
use raymarcher::graphics::RenderingState;
use raymarcher::math::Vec2;
use raymarcher::model::linemap::Linemap;
use raymarcher::model::object_color::{Color, ObjectColor};
use raymarcher::model::tile::Tile;
use raymarcher::model::tilemap::Tilemap;

/// A 3x3 grid: solid border (id 1, collision on), empty center (id 0).
fn bordered_3x3() -> Tilemap {
    let air = Tile::new(0, ObjectColor::Colored { color: Color::white() }, false);
    let wall = Tile::new(1, ObjectColor::Colored { color: Color::green() }, true);
    let raw = vec![
        vec![wall, wall, wall],
        vec![wall, air, wall],
        vec![wall, wall, wall],
    ];
    Tilemap::from_raw_tilemap(1, &raw)
}

#[test]
fn ray_straight_along_x_hits_border_at_half_cell() {
    // Camera at (1.5, 1.5), heading 0, max distance 5: the wall cell starts
    // at x = 2.0, so the hit lands half a cell away, within one 0.05 step.
    let tilemap = bordered_3x3();
    let (ray, hit) = cast_ray_tilemap(
        &tilemap,
        Vec2 { x: 1500, y: 1500 },
        0,
        Vec2 { x: 1000, y: 0 },
        5000,
    );
    match hit {
        Hit::Wall { is_collision_enabled, .. } => assert!(is_collision_enabled),
        Hit::Nothing => panic!("expected a wall hit"),
    }
    // 450 = 9 free steps of 50; |0.45 - 0.5| <= 0.05.
    assert_eq!(ray.distance(), 450);
    assert!((ray.distance() - 500).abs() <= 50);
    assert_eq!(ray.end_position(), Vec2 { x: 2000, y: 1500 });
    assert_eq!(ray.maximal_distance(), 5000);
    assert_eq!(ray.start_position(), Vec2 { x: 1500, y: 1500 });
}

#[test]
fn ray_in_open_grid_runs_out_of_distance() {
    let air = Tile::new(0, ObjectColor::Colored { color: Color::white() }, false);
    let raw = vec![vec![air; 20], vec![air; 20], vec![air; 20]];
    let tilemap = Tilemap::from_raw_tilemap(2, &raw);
    let (ray, hit) = cast_ray_tilemap(
        &tilemap,
        Vec2 { x: 1500, y: 1500 },
        0,
        Vec2 { x: 1000, y: 0 },
        5000,
    );
    assert!(matches!(hit, Hit::Nothing));
    assert_eq!(ray.distance(), 5000);
    // Distance accumulates by the fixed step and stays bounded.
    assert_eq!(ray.distance() % 50, 0);
    assert!(ray.distance() <= 5000 + 50);
}

#[test]
fn ray_leaving_the_grid_reports_no_hit() {
    let air = Tile::new(0, ObjectColor::Colored { color: Color::white() }, false);
    let raw = vec![vec![air, air], vec![air, air]];
    let tilemap = Tilemap::from_raw_tilemap(3, &raw);
    let (ray, hit) = cast_ray_tilemap(
        &tilemap,
        Vec2 { x: 500, y: 500 },
        0,
        Vec2 { x: 1000, y: 0 },
        100_000,
    );
    assert!(matches!(hit, Hit::Nothing));
    // The edge lies at x = 2.0, a travel of 1.5: the ray stops on the first
    // probe at it (30 steps), with only the 29 free steps counted.
    assert!(ray.distance() < 100_000);
    assert_eq!(ray.distance(), 1450);
    assert_eq!(ray.end_position().x, 2000);
}

#[test]
fn downward_ray_intersects_horizontal_segment() {
    // One horizontal segment from (0, 5) to (10, 5); a ray straight down
    // from (5, 0) with max distance 10 hits (5, 5) at distance 5.
    let mut linemap = Linemap::new(1);
    linemap.add_line(
        Color::rgb(200, 0, 0),
        Vec2 { x: 0, y: 5000 },
        Vec2 { x: 10000, y: 5000 },
    );
    let (ray, hit) = cast_ray_linemap(
        &linemap,
        Vec2 { x: 5000, y: 0 },
        0,
        Vec2 { x: 0, y: 1000 },
        10000,
    );
    match hit {
        Hit::Wall { is_collision_enabled, .. } => assert!(is_collision_enabled),
        Hit::Nothing => panic!("expected a wall hit"),
    }
    assert_eq!(ray.end_position(), Vec2 { x: 5000, y: 5000 });
    assert_eq!(ray.distance(), 5000);
}

#[test]
fn nearest_of_several_segments_wins() {
    let mut linemap = Linemap::new(2);
    // Farther wall first in iteration order; the nearer one must win.
    linemap.add_line(
        Color::rgb(0, 0, 0),
        Vec2 { x: 8000, y: -1000 },
        Vec2 { x: 8000, y: 1000 },
    );
    linemap.add_line(
        Color::rgb(0, 0, 0),
        Vec2 { x: 3000, y: -1000 },
        Vec2 { x: 3000, y: 1000 },
    );
    let (ray, hit) = cast_ray_linemap(
        &linemap,
        Vec2 { x: 0, y: 0 },
        0,
        Vec2 { x: 1000, y: 0 },
        10000,
    );
    assert!(matches!(hit, Hit::Wall { .. }));
    assert_eq!(ray.distance(), 3000);
    assert_eq!(ray.end_position().x, 3000);
}

#[test]
fn empty_linemap_keeps_full_ray() {
    let linemap = Linemap::new(3);
    let (ray, hit) = cast_ray_linemap(
        &linemap,
        Vec2 { x: 1000, y: 2000 },
        0,
        Vec2 { x: 1000, y: 0 },
        8000,
    );
    assert!(matches!(hit, Hit::Nothing));
    assert_eq!(ray.distance(), 8000);
    assert_eq!(ray.end_position(), Vec2 { x: 9000, y: 2000 });
}

#[test]
fn relative_ray_angle_spans_the_fan() {
    assert_eq!(relative_ray_angle(0, 120), -500);
    assert_eq!(relative_ray_angle(60, 120), 0);
    assert_eq!(relative_ray_angle(119, 120), 491);
    assert_eq!(relative_ray_angle(0, 2), -500);
    assert_eq!(relative_ray_angle(1, 2), 0);
}

/// Unit direction vectors for every column of `state`, from the camera
/// heading and each column's fan offset.
fn fan_directions(state: &RenderingState) -> Vec<Vec2> {
    let total = state.total_columns();
    let mut directions = Vec::new();
    for column in 0..total {
        let angle_fp = state.camera().direction() + relative_ray_angle(column, total);
        let angle = angle_fp as f64 / 1000.0;
        directions.push(Vec2 {
            x: (angle.cos() * 1000.0) as i64,
            y: (angle.sin() * 1000.0) as i64,
        });
    }
    directions
}

#[test]
fn frame_cast_emits_columns_in_ascending_order() {
    let tilemap = bordered_3x3();
    let state = RenderingState::new();
    let directions = fan_directions(&state);
    let hits = cast_rays_tilemap(&tilemap, &state, &directions);
    assert_eq!(hits.len(), 120);
    for (i, details) in hits.iter().enumerate() {
        assert_eq!(details.column(), i as u32);
        assert_eq!(details.total_columns(), 120);
        assert_eq!(details.ray().maximal_distance(), 10_000);
    }
}

#[test]
fn frame_cast_against_linemap_emits_all_columns() {
    let mut linemap = Linemap::new(4);
    linemap.add_rect(
        Color::rgb(250, 0, 0),
        raymarcher::model::linemap::Rect::new(0, 0, 10, 10),
    );
    let state = RenderingState::new();
    let directions = fan_directions(&state);
    let hits = cast_rays_linemap(&linemap, &state, &directions);
    assert_eq!(hits.len(), 120);
    for (i, details) in hits.iter().enumerate() {
        assert_eq!(details.column(), i as u32);
        // The camera sits inside the rectangle, so every ray hits a border.
        assert!(matches!(details.hit(), Hit::Wall { .. }));
        assert!(details.ray().distance() < 10_000);
    }
}

#[test]
fn tilemap_cell_lookup_during_march_saturates_at_zero() {
    // A ray heading into negative x: the saturating cell lookup keeps the
    // march inside column 0 until the border tile there stops it.
    let tilemap = bordered_3x3();
    let (_ray, hit) = cast_ray_tilemap(
        &tilemap,
        Vec2 { x: 1500, y: 1500 },
        0,
        Vec2 { x: -1000, y: 0 },
        5000,
    );
    assert!(matches!(hit, Hit::Wall { .. }));
}
