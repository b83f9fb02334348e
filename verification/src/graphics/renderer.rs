//! The computational half of rendering: distance shading, the vertical
//! ceiling / wall / floor split of a screen column, and the scaling of world
//! geometry onto the 2D debug view. The embedding program forwards these
//! numbers to its drawing surface.

use crate::graphics::ray_caster::Ray;
use crate::math::{tdiv, UVec2, Vec2, COORD_LIMIT, SCALE};
use crate::model::object_color::Color;
use vstd::prelude::*;

verus! {

/// Pixels per world unit in the top-down 2D debug view.
pub const TILE_SIZE: i64 = 32;

/// Fraction of the rendering distance below which a hit keeps its unshaded
/// color, expressed as its inverse (one quarter).
pub const SHADOW_DENOMINATOR: i64 = 4;

/// A rectangle in screen pixels.
#[derive(Clone, Copy, Debug, PartialEq, Eq, Structural)]
pub struct ScreenRect {
    pub x: i32,
    pub y: i32,
    pub width: u32,
    pub height: u32,
}

/// One channel after distance shading: unchanged while the covered fraction
/// of the rendering distance is at most one quarter, then scaled by
/// `maximal / (4 * distance)` with truncation.
pub open spec fn shaded_channel(channel: u8, distance: int, maximal: int) -> int {
    if 4 * distance < maximal {
        channel as int
    } else {
        (channel * maximal) / (4 * distance)
    }
}

/// The color of a hit after distance shading.
pub open spec fn shaded_color(color: Color, distance: int, maximal: int) -> Color {
    Color {
        r: shaded_channel(color.r, distance, maximal) as u8,
        g: shaded_channel(color.g, distance, maximal) as u8,
        b: shaded_channel(color.b, distance, maximal) as u8,
    }
}

/// Each shaded channel keeps its value while the ray has covered at most a
/// quarter of its allowed distance, and never grows.
pub proof fn lemma_shaded_channel_bounds(channel: u8, distance: int, maximal: int)
    by (nonlinear_arith)
    requires
        0 < maximal,
        0 <= distance <= maximal,
    ensures
        0 <= shaded_channel(channel, distance, maximal) <= channel,
{
}

/// Applies distance shading to a hit's surface color: inside the activation
/// border (a quarter of the allowed distance) the color is returned
/// unchanged; past it every channel falls off as `maximal / (4 * distance)`.
pub fn compute_shaded_color(color: &Color, ray: &Ray) -> (c: Color)
    requires
        0 < ray.spec_maximal_distance() <= COORD_LIMIT,
        0 <= ray.spec_distance() <= ray.spec_maximal_distance(),
    ensures
        c == shaded_color(
            *color,
            ray.spec_distance() as int,
            ray.spec_maximal_distance() as int,
        ),
{
    let distance: i64 = ray.distance();
    let maximal: i64 = ray.maximal_distance();
    proof {
        lemma_shaded_channel_bounds(color.r, distance as int, maximal as int);
        lemma_shaded_channel_bounds(color.g, distance as int, maximal as int);
        lemma_shaded_channel_bounds(color.b, distance as int, maximal as int);
    }
    if 4 * distance < maximal {
        *color
    } else {
        proof {
            crate::math::lemma_mul_bounds(color.r as int, maximal as int, 255, COORD_LIMIT as int);
            crate::math::lemma_mul_bounds(color.g as int, maximal as int, 255, COORD_LIMIT as int);
            crate::math::lemma_mul_bounds(color.b as int, maximal as int, 255, COORD_LIMIT as int);
        }
        let r: i64 = (color.r as i64 * maximal) / (4 * distance);
        let g: i64 = (color.g as i64 * maximal) / (4 * distance);
        let b: i64 = (color.b as i64 * maximal) / (4 * distance);
        Color { r: r as u8, g: g as u8, b: b as u8 }
    }
}

/// At or inside the activation border (`4 * distance <= maximal`) shading
/// returns the input color unchanged; at full covered distance
/// (`distance == maximal`) every channel is scaled by exactly one quarter,
/// with truncation.
pub proof fn lemma_shading_clamp(color: Color, distance: int, maximal: int)
    by (nonlinear_arith)
    requires
        0 < maximal,
        0 <= distance <= maximal,
    ensures
        4 * distance <= maximal ==> shaded_color(color, distance, maximal) == color,
        distance == maximal ==> shaded_channel(color.r, distance, maximal) == color.r as int / 4
            && shaded_channel(color.g, distance, maximal) == color.g as int / 4 && shaded_channel(
            color.b,
            distance,
            maximal,
        ) == color.b as int / 4,
{
    if 4 * distance == maximal {
        assert((color.r * maximal) / (4 * distance) == color.r);
        assert((color.g * maximal) / (4 * distance) == color.g);
        assert((color.b * maximal) / (4 * distance) == color.b);
    }
}

/// The vertical split of one screen column into ceiling, wall band and
/// floor.
#[derive(Clone, Copy, Debug, PartialEq, Eq, Structural)]
pub struct ColumnGeometry {
    /// Leftmost pixel of the column.
    pub x: u32,
    /// Width of the column in pixels.
    pub width: u32,
    /// First row of the wall band; the ceiling fills the rows above it.
    pub wall_top: u32,
    /// First row below the wall band; the floor fills it and the rows below.
    pub wall_bottom: u32,
}

/// The on-screen wall height of a hit at `distance`: the full screen height
/// within one world unit, falling off as `SCALE / distance` beyond it.
pub open spec fn view_wall_height(screen_height: int, distance: int) -> int {
    if distance <= SCALE {
        screen_height
    } else {
        (screen_height * SCALE) / distance
    }
}

/// Computes the vertically centered ceiling / wall / floor split of one
/// screen column from the hit distance of its ray.
pub fn compute_column_geometry(
    screen_width: u32,
    screen_height: u32,
    column: u32,
    total_columns: u32,
    distance: i64,
) -> (g: ColumnGeometry)
    requires
        0 < total_columns <= 16384,
        column < total_columns,
        screen_width <= 16384,
        screen_height <= 16384,
        0 <= distance <= COORD_LIMIT,
    ensures
        g.width == screen_width as int / total_columns as int + 1,
        g.x == g.width * column,
        g.wall_top == (screen_height - view_wall_height(
            screen_height as int,
            distance as int,
        )) as int / 2,
        g.wall_bottom == g.wall_top + view_wall_height(screen_height as int, distance as int),
        g.wall_top <= g.wall_bottom <= screen_height,
        g.wall_top + (g.wall_bottom - g.wall_top) + (screen_height - g.wall_bottom)
            == screen_height,
{
    let column_width: u32 = screen_width / total_columns + 1;
    let view_height: i64 = if distance <= SCALE {
        screen_height as i64
    } else {
        proof {
            vstd::arithmetic::div_mod::lemma_div_pos_is_pos(
                screen_height as int * SCALE as int,
                distance as int,
            );
            vstd::arithmetic::div_mod::lemma_div_is_ordered_by_denominator(
                screen_height as int * SCALE as int,
                SCALE as int,
                distance as int,
            );
            vstd::arithmetic::div_mod::lemma_div_multiples_vanish(
                screen_height as int,
                SCALE as int,
            );
        }
        (screen_height as i64 * SCALE) / distance
    };
    let wall_top: u32 = (screen_height - view_height as u32) / 2;
    let wall_bottom: u32 = wall_top + view_height as u32;
    proof {
        crate::math::lemma_mul_bounds(column_width as int, column as int, 16385, 16384);
    }
    ColumnGeometry { x: column_width * column, width: column_width, wall_top, wall_bottom }
}

/// Every column's three bands tile the screen height exactly, and the wall
/// band is vertically centered: the ceiling above it and the floor below it
/// have the same extent whenever their combined extent is even (integer
/// halving makes the floor one pixel taller otherwise).
pub proof fn lemma_column_projection_symmetry(g: ColumnGeometry, screen_height: int)
    requires
        g.wall_top == (screen_height - (g.wall_bottom - g.wall_top)) / 2,
        g.wall_top <= g.wall_bottom <= screen_height,
    ensures
        g.wall_top + (g.wall_bottom - g.wall_top) + (screen_height - g.wall_bottom)
            == screen_height,
        (screen_height - (g.wall_bottom - g.wall_top)) % 2 == 0 ==> g.wall_top == screen_height
            - g.wall_bottom,
{
}

/// The 2D debug rectangle of the grid cell at `tile_position`: a
/// `TILE_SIZE`-pixel square at the cell's scaled coordinates.
pub fn tile_rect_2d(tile_position: UVec2) -> (r: ScreenRect)
    requires
        tile_position.x <= 1_000_000,
        tile_position.y <= 1_000_000,
    ensures
        r.x == tile_position.x * TILE_SIZE,
        r.y == tile_position.y * TILE_SIZE,
        r.width == TILE_SIZE,
        r.height == TILE_SIZE,
{
    ScreenRect {
        x: (tile_position.x * TILE_SIZE as u32) as i32,
        y: (tile_position.y * TILE_SIZE as u32) as i32,
        width: TILE_SIZE as u32,
        height: TILE_SIZE as u32,
    }
}

/// The pixel the world point `p` lands on in the 2D debug view.
pub fn point_to_screen_2d(p: Vec2) -> (r: (i32, i32))
    requires
        -COORD_LIMIT <= p.x <= COORD_LIMIT,
        -COORD_LIMIT <= p.y <= COORD_LIMIT,
    ensures
        r.0 == tdiv(p.x * TILE_SIZE, SCALE as int),
        r.1 == tdiv(p.y * TILE_SIZE, SCALE as int),
{
    let x: i64 = crate::math::div_trunc(p.x * TILE_SIZE, SCALE);
    let y: i64 = crate::math::div_trunc(p.y * TILE_SIZE, SCALE);
    (x as i32, y as i32)
}

/// The square marker of `point_size` pixels centered on the world point
/// `point_center` in the 2D debug view.
pub fn point_rect_2d(point_center: Vec2, point_size: u32) -> (r: ScreenRect)
    requires
        -COORD_LIMIT <= point_center.x <= COORD_LIMIT,
        -COORD_LIMIT <= point_center.y <= COORD_LIMIT,
        point_size <= 1024,
    ensures
        r.x == tdiv(point_center.x * TILE_SIZE, SCALE as int) - point_size as int / 2,
        r.y == tdiv(point_center.y * TILE_SIZE, SCALE as int) - point_size as int / 2,
        r.width == point_size,
        r.height == point_size,
{
    let (cx, cy) = point_to_screen_2d(point_center);
    ScreenRect {
        x: cx - (point_size / 2) as i32,
        y: cy - (point_size / 2) as i32,
        width: point_size,
        height: point_size,
    }
}

} // verus!
