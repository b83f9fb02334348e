//! Ray casting: one classified hit per screen column, against either world
//! representation.
//!
//! A caller supplies, besides the camera pose, one unit direction vector per
//! column (the cosine and sine of that column's ray angle, in fixed-point
//! units); the angle arithmetic itself is exact and computed here.

use crate::graphics::RenderingState;
use crate::math::{distance, dist_fp, div_trunc, tdiv, Vec2, COORD_LIMIT, SCALE};
use crate::model::linemap::{find_intersection_spec, spec_line, Line, Linemap};
use crate::model::object_color::Color;
use crate::model::tilemap::Tilemap;
use vstd::prelude::*;

verus! {

/// Distance (0.05 world units) a tilemap ray advances per marching step.
pub const STEP_SIZE: i64 = 50;

/// A classified ray hit: nothing (the ray ran out or left the world), or a
/// wall with its surface color and collision behaviour.
#[derive(Clone, Copy, Debug, PartialEq, Eq, Structural)]
pub enum Hit {
    Nothing,
    Wall { color: Color, is_collision_enabled: bool },
}

/// A cast ray: where it started, where it stopped, its angle, the distance
/// it accumulated and the distance it was allowed.
#[derive(Clone, Copy, Debug, PartialEq, Eq, Structural)]
pub struct Ray {
    start_position: Vec2,
    end_position: Vec2,
    direction_angle: i64,
    distance: i64,
    maximal_distance: i64,
}

impl Ray {
    pub fn new(start_position: Vec2, end_position: Vec2, direction_angle: i64, maximal_distance: i64) -> (r: Ray)
        ensures
            r.spec_start_position() == start_position,
            r.spec_end_position() == end_position,
            r.spec_direction_angle() == direction_angle,
            r.spec_distance() == 0,
            r.spec_maximal_distance() == maximal_distance,
    {
        Ray { start_position, end_position, direction_angle, distance: 0, maximal_distance }
    }

    pub closed spec fn spec_start_position(&self) -> Vec2 {
        self.start_position
    }

    pub closed spec fn spec_end_position(&self) -> Vec2 {
        self.end_position
    }

    pub closed spec fn spec_direction_angle(&self) -> i64 {
        self.direction_angle
    }

    pub closed spec fn spec_distance(&self) -> i64 {
        self.distance
    }

    pub closed spec fn spec_maximal_distance(&self) -> i64 {
        self.maximal_distance
    }

    pub fn start_position(&self) -> (v: Vec2)
        ensures
            v == self.spec_start_position(),
    {
        self.start_position
    }

    pub fn end_position(&self) -> (v: Vec2)
        ensures
            v == self.spec_end_position(),
    {
        self.end_position
    }

    pub fn direction_angle(&self) -> (a: i64)
        ensures
            a == self.spec_direction_angle(),
    {
        self.direction_angle
    }

    pub fn distance(&self) -> (d: i64)
        ensures
            d == self.spec_distance(),
    {
        self.distance
    }

    pub fn maximal_distance(&self) -> (d: i64)
        ensures
            d == self.spec_maximal_distance(),
    {
        self.maximal_distance
    }
}

/// The hit computed for one screen column, in the left-to-right order the
/// renderer consumes.
pub struct HitDetails {
    column: u32,
    total_columns: u32,
    ray: Ray,
    hit: Hit,
}

impl HitDetails {
    pub fn new(column: u32, total_columns: u32, ray: Ray, hit: Hit) -> (h: HitDetails)
        ensures
            h.spec_column() == column,
            h.spec_total_columns() == total_columns,
            h.spec_ray() == ray,
            h.spec_hit() == hit,
    {
        HitDetails { column, total_columns, ray, hit }
    }

    pub closed spec fn spec_column(&self) -> u32 {
        self.column
    }

    pub closed spec fn spec_total_columns(&self) -> u32 {
        self.total_columns
    }

    pub closed spec fn spec_ray(&self) -> Ray {
        self.ray
    }

    pub closed spec fn spec_hit(&self) -> Hit {
        self.hit
    }

    pub fn column(&self) -> (c: u32)
        ensures
            c == self.spec_column(),
    {
        self.column
    }

    pub fn total_columns(&self) -> (c: u32)
        ensures
            c == self.spec_total_columns(),
    {
        self.total_columns
    }

    pub fn ray(&self) -> (r: &Ray)
        ensures
            *r == self.spec_ray(),
    {
        &self.ray
    }

    pub fn hit(&self) -> (h: &Hit)
        ensures
            *h == self.spec_hit(),
    {
        &self.hit
    }
}

/// How far one marching step moves along axis component `d` of a unit
/// direction: `STEP_SIZE * d`, rescaled to fixed-point units.
pub open spec fn step_inc(d: int) -> int {
    tdiv(STEP_SIZE * d, SCALE as int)
}

/// The x coordinate of the marching ray after `n` steps.
pub open spec fn march_x(start: Vec2, dir: Vec2, n: int) -> int {
    start.x + n * step_inc(dir.x as int)
}

/// The y coordinate of the marching ray after `n` steps.
pub open spec fn march_y(start: Vec2, dir: Vec2, n: int) -> int {
    start.y + n * step_inc(dir.y as int)
}

/// The grid cell occupied by fixed-point coordinate `c`: truncation to whole
/// world units, saturating at zero for negative coordinates.
pub open spec fn cell_of(c: int) -> int {
    if c < 0 {
        0
    } else {
        c / (SCALE as int)
    }
}

/// After `n` steps the marching ray occupies a cell outside the grid.
pub open spec fn probe_out_of_bounds(tilemap: &Tilemap, start: Vec2, dir: Vec2, n: int) -> bool {
    cell_of(march_x(start, dir, n)) >= tilemap.spec_width()
        || cell_of(march_y(start, dir, n)) >= tilemap.spec_height()
}

/// After `n` steps the marching ray occupies an in-bounds cell whose tile has
/// collision enabled.
pub open spec fn probe_solid(tilemap: &Tilemap, start: Vec2, dir: Vec2, n: int) -> bool {
    !probe_out_of_bounds(tilemap, start, dir, n) && tilemap.grid()[cell_of(
        march_y(start, dir, n),
    )][cell_of(march_x(start, dir, n))].spec_tile().spec_collision_enabled()
}

/// Every probe from step 1 up to step `n` found an in-bounds, non-colliding
/// cell: the march was free to accumulate `n * STEP_SIZE` of distance.
pub open spec fn march_free(tilemap: &Tilemap, start: Vec2, dir: Vec2, n: int) -> bool {
    forall|i: int|
        1 <= i <= n ==> !probe_out_of_bounds(tilemap, start, dir, i) && !probe_solid(
            tilemap,
            start,
            dir,
            i,
        )
}

/// The inputs every single-ray cast accepts: a well-placed start, a unit-size
/// direction and a bounded maximal distance.
pub open spec fn cast_input_ok(start: Vec2, dir: Vec2, maximal_distance: i64) -> bool {
    &&& -COORD_LIMIT / 2 <= start.x <= COORD_LIMIT / 2
    &&& -COORD_LIMIT / 2 <= start.y <= COORD_LIMIT / 2
    &&& -SCALE <= dir.x <= SCALE
    &&& -SCALE <= dir.y <= SCALE
    &&& 0 <= maximal_distance <= COORD_LIMIT / 4
}

/// What a tilemap cast reports. With `n` the number of free steps the ray
/// accumulated (`ray.distance == n * STEP_SIZE`):
/// - a `Wall` hit means probe `n + 1` found a solid cell, the ray stopped on
///   it, and the accumulated distance is still below the maximum;
/// - no hit means the ray either ran out of distance on a free probe, or
///   probe `n + 1` left the grid.
pub open spec fn tilemap_cast_ok(
    tilemap: &Tilemap,
    start: Vec2,
    dir: Vec2,
    maximal_distance: i64,
    ray: Ray,
    hit: Hit,
) -> bool {
    let n = ray.spec_distance() as int / (STEP_SIZE as int);
    &&& ray.spec_start_position() == start
    &&& ray.spec_maximal_distance() == maximal_distance
    &&& 0 <= ray.spec_distance() < maximal_distance + STEP_SIZE
    &&& ray.spec_distance() % STEP_SIZE == 0
    &&& march_free(tilemap, start, dir, n)
    &&& match hit {
        Hit::Nothing => {
            ||| (ray.spec_distance() >= maximal_distance && ray.spec_end_position().x == march_x(
                start,
                dir,
                n,
            ) && ray.spec_end_position().y == march_y(start, dir, n))
            ||| (ray.spec_distance() < maximal_distance && probe_out_of_bounds(
                tilemap,
                start,
                dir,
                n + 1,
            ) && ray.spec_end_position().x == march_x(start, dir, n + 1)
                && ray.spec_end_position().y == march_y(start, dir, n + 1))
        },
        Hit::Wall { color, is_collision_enabled } => {
            &&& ray.spec_distance() < maximal_distance
            &&& probe_solid(tilemap, start, dir, n + 1)
            &&& ray.spec_end_position().x == march_x(start, dir, n + 1)
            &&& ray.spec_end_position().y == march_y(start, dir, n + 1)
            &&& color == (Color { r: 0, g: 0, b: 0 })
            &&& is_collision_enabled
        },
    }
}

/// Marches a ray through the grid in fixed `STEP_SIZE` increments from
/// `start_position` along `direction`, stopping at the first solid cell, at
/// the grid's edge, or once the accumulated distance reaches
/// `maximal_distance`. Distance accumulates by the fixed step, counting only
/// the steps that found free cells.
pub fn cast_ray_tilemap(
    tilemap: &Tilemap,
    start_position: Vec2,
    direction_angle: i64,
    direction: Vec2,
    maximal_distance: i64,
) -> (r: (Ray, Hit))
    requires
        tilemap.wf(),
        cast_input_ok(start_position, direction, maximal_distance),
    ensures
        tilemap_cast_ok(tilemap, start_position, direction, maximal_distance, r.0, r.1),
        r.0.spec_direction_angle() == direction_angle,
{
    let inc_x: i64 = div_trunc(STEP_SIZE * direction.x, SCALE);
    let inc_y: i64 = div_trunc(STEP_SIZE * direction.y, SCALE);
    proof {
        crate::math::lemma_tdiv_bound(
            (STEP_SIZE * direction.x) as int,
            SCALE as int,
            STEP_SIZE as int,
        );
        crate::math::lemma_tdiv_bound(
            (STEP_SIZE * direction.y) as int,
            SCALE as int,
            STEP_SIZE as int,
        );
    }
    assert(-STEP_SIZE <= inc_x <= STEP_SIZE);
    assert(-STEP_SIZE <= inc_y <= STEP_SIZE);
    let width: u32 = tilemap.sizes().x;
    let height: u32 = tilemap.sizes().y;
    let mut end_x: i64 = start_position.x;
    let mut end_y: i64 = start_position.y;
    let mut dist: i64 = 0;
    while dist < maximal_distance
        invariant
            tilemap.wf(),
            cast_input_ok(start_position, direction, maximal_distance),
            width == tilemap.spec_width(),
            height == tilemap.spec_height(),
            inc_x == step_inc(direction.x as int),
            inc_y == step_inc(direction.y as int),
            -STEP_SIZE <= inc_x <= STEP_SIZE,
            -STEP_SIZE <= inc_y <= STEP_SIZE,
            0 <= dist < maximal_distance + STEP_SIZE,
            dist % STEP_SIZE == 0,
            end_x == march_x(start_position, direction, dist as int / (STEP_SIZE as int)),
            end_y == march_y(start_position, direction, dist as int / (STEP_SIZE as int)),
            -COORD_LIMIT <= end_x <= COORD_LIMIT,
            -COORD_LIMIT <= end_y <= COORD_LIMIT,
            march_free(tilemap, start_position, direction, dist as int / (STEP_SIZE as int)),
        decreases maximal_distance + STEP_SIZE - dist,
    {
        let ghost n: int = dist as int / (STEP_SIZE as int);
        proof {
            assert((n + 1) * step_inc(direction.x as int) == n * step_inc(direction.x as int)
                + step_inc(direction.x as int)) by (nonlinear_arith);
            assert((n + 1) * step_inc(direction.y as int) == n * step_inc(direction.y as int)
                + step_inc(direction.y as int)) by (nonlinear_arith);
            assert(n * (STEP_SIZE as int) == dist) by {
                vstd::arithmetic::div_mod::lemma_fundamental_div_mod(
                    dist as int,
                    STEP_SIZE as int,
                );
            }
            assert(-(n * (STEP_SIZE as int)) <= n * step_inc(direction.x as int) <= n * (
            STEP_SIZE as int)) by (nonlinear_arith)
                requires
                    n >= 0,
                    -STEP_SIZE <= step_inc(direction.x as int) <= STEP_SIZE,
            ;
            assert(-(n * (STEP_SIZE as int)) <= n * step_inc(direction.y as int) <= n * (
            STEP_SIZE as int)) by (nonlinear_arith)
                requires
                    n >= 0,
                    -STEP_SIZE <= step_inc(direction.y as int) <= STEP_SIZE,
            ;
        }
        end_x = end_x + inc_x;
        end_y = end_y + inc_y;
        let cell_x: i64 = if end_x < 0 {
            0
        } else {
            end_x / SCALE
        };
        let cell_y: i64 = if end_y < 0 {
            0
        } else {
            end_y / SCALE
        };
        assert(cell_x == cell_of(march_x(start_position, direction, n + 1)));
        assert(cell_y == cell_of(march_y(start_position, direction, n + 1)));
        if cell_x >= width as i64 || cell_y >= height as i64 {
            let ray = Ray {
                start_position,
                end_position: Vec2 { x: end_x, y: end_y },
                direction_angle,
                distance: dist,
                maximal_distance,
            };
            return (ray, Hit::Nothing);
        }
        let placed_tile = tilemap.get_tile(crate::math::UVec2 { x: cell_x as u32, y: cell_y as u32 });
        let is_solid: bool = match placed_tile {
            Some(tile) => tile.tile().is_collision_enabled(),
            None => false,
        };
        if is_solid {
            let ray = Ray {
                start_position,
                end_position: Vec2 { x: end_x, y: end_y },
                direction_angle,
                distance: dist,
                maximal_distance,
            };
            return (
                ray,
                Hit::Wall { color: Color { r: 0, g: 0, b: 0 }, is_collision_enabled: true },
            );
        }
        proof {
            assert(!probe_out_of_bounds(tilemap, start_position, direction, n + 1));
            assert(!probe_solid(tilemap, start_position, direction, n + 1));
            assert(march_free(tilemap, start_position, direction, n + 1));
            assert(((dist + STEP_SIZE) as int) % (STEP_SIZE as int) == 0 && ((dist
                + STEP_SIZE) as int) / (STEP_SIZE as int) == n + 1) by {
                vstd::arithmetic::div_mod::lemma_fundamental_div_mod(dist as int, STEP_SIZE as int);
            }
        }
        dist = dist + STEP_SIZE;
    }
    let ray = Ray {
        start_position,
        end_position: Vec2 { x: end_x, y: end_y },
        direction_angle,
        distance: dist,
        maximal_distance,
    };
    (ray, Hit::Nothing)
}

/// Where a full-length ray ends: the start moved by the whole maximal
/// distance along the unit direction, component-wise.
pub open spec fn full_ray_end(start: Vec2, dir: Vec2, maximal_distance: i64) -> Vec2 {
    Vec2 {
        x: (start.x + tdiv(maximal_distance * dir.x, SCALE as int)) as i64,
        y: (start.y + tdiv(maximal_distance * dir.y, SCALE as int)) as i64,
    }
}

/// The cast ray, taken as a world line segment from its start to its
/// full-length end, painted white.
pub open spec fn ray_line_of(start: Vec2, dir: Vec2, maximal_distance: i64) -> Line {
    spec_line(
        Color { r: 255, g: 255, b: 255 },
        start,
        full_ray_end(start, dir, maximal_distance),
    )
}

/// Line `j` is the hit a linemap cast reports: it intersects the ray line
/// `rl` exactly at `end`, which lies `distance` from `start`, and every
/// earlier line's intersection (if any) is strictly farther — ties go to the
/// line seen first.
pub open spec fn winning_line(
    linemap: &Linemap,
    start: Vec2,
    rl: Line,
    j: int,
    end: Vec2,
    distance: i64,
) -> bool {
    &&& 0 <= j < linemap.spec_lines().len()
    &&& find_intersection_spec(linemap.spec_lines()[j], rl) == Some(end)
    &&& dist_fp(start, end) == distance
    &&& forall|l: int|
        0 <= l < j ==> match #[trigger] find_intersection_spec(linemap.spec_lines()[l], rl) {
            Some(p) => dist_fp(start, p) > distance,
            None => true,
        }
}

/// What a linemap cast reports: the nearest valid intersection wins.
/// - a `Wall` hit means some segment intersects the ray segment exactly at
///   the reported end position, at the reported distance, below the maximal
///   distance; no segment intersects strictly closer, and among the nearest
///   the first in map order is the one reported;
/// - no hit means every intersection (if any) lies at or beyond the maximal
///   distance, and the ray keeps its full length.
pub open spec fn linemap_cast_ok(
    linemap: &Linemap,
    start: Vec2,
    dir: Vec2,
    maximal_distance: i64,
    ray: Ray,
    hit: Hit,
) -> bool {
    let rl = ray_line_of(start, dir, maximal_distance);
    &&& ray.spec_start_position() == start
    &&& ray.spec_maximal_distance() == maximal_distance
    &&& forall|i: int|
        0 <= i < linemap.spec_lines().len() ==> match #[trigger] find_intersection_spec(
            linemap.spec_lines()[i],
            rl,
        ) {
            Some(p) => dist_fp(start, p) >= ray.spec_distance(),
            None => true,
        }
    &&& match hit {
        Hit::Nothing => {
            &&& ray.spec_distance() == maximal_distance
            &&& ray.spec_end_position() == full_ray_end(start, dir, maximal_distance)
        },
        Hit::Wall { color, is_collision_enabled } => {
            &&& color == (Color { r: 0, g: 0, b: 0 })
            &&& is_collision_enabled
            &&& 0 <= ray.spec_distance() < maximal_distance
            &&& exists|j: int|
                #[trigger] winning_line(
                    linemap,
                    start,
                    rl,
                    j,
                    ray.spec_end_position(),
                    ray.spec_distance(),
                )
        },
    }
}

/// Casts a full-length ray segment against every line of the map and keeps
/// the valid intersection closest to the ray origin; with none closer than
/// the maximal distance the ray keeps its full length and reports no hit.
pub fn cast_ray_linemap(
    linemap: &Linemap,
    start_position: Vec2,
    direction_angle: i64,
    direction: Vec2,
    maximal_distance: i64,
) -> (r: (Ray, Hit))
    requires
        linemap.wf(),
        cast_input_ok(start_position, direction, maximal_distance),
    ensures
        linemap_cast_ok(linemap, start_position, direction, maximal_distance, r.0, r.1),
        r.0.spec_direction_angle() == direction_angle,
{
    proof {
        assert(-((SCALE as int) * (COORD_LIMIT as int / 4)) <= maximal_distance * direction.x <= (
        SCALE as int) * (COORD_LIMIT as int / 4)) by (nonlinear_arith)
            requires
                0 <= maximal_distance <= COORD_LIMIT as int / 4,
                -SCALE <= direction.x <= SCALE,
        ;
        assert(-((SCALE as int) * (COORD_LIMIT as int / 4)) <= maximal_distance * direction.y <= (
        SCALE as int) * (COORD_LIMIT as int / 4)) by (nonlinear_arith)
            requires
                0 <= maximal_distance <= COORD_LIMIT as int / 4,
                -SCALE <= direction.y <= SCALE,
        ;
        crate::math::lemma_tdiv_bound(
            (maximal_distance * direction.x) as int,
            SCALE as int,
            COORD_LIMIT as int / 4,
        );
        crate::math::lemma_tdiv_bound(
            (maximal_distance * direction.y) as int,
            SCALE as int,
            COORD_LIMIT as int / 4,
        );
    }
    let end_x: i64 = start_position.x + div_trunc(maximal_distance * direction.x, SCALE);
    let end_y: i64 = start_position.y + div_trunc(maximal_distance * direction.y, SCALE);
    let full_end = Vec2 { x: end_x, y: end_y };
    assert(full_end == full_ray_end(start_position, direction, maximal_distance));
    let ray_line = Line::new(Color { r: 255, g: 255, b: 255 }, start_position, full_end);
    let lines = linemap.lines();
    let mut best_end: Vec2 = full_end;
    let mut best_dist: i64 = maximal_distance;
    let mut has_hit: bool = false;
    let ghost mut best_j: int = 0;
    let mut i: usize = 0;
    while i < lines.len()
        invariant
            linemap.wf(),
            cast_input_ok(start_position, direction, maximal_distance),
            lines@ == linemap.spec_lines(),
            ray_line == ray_line_of(start_position, direction, maximal_distance),
            ray_line.wf(),
            i <= lines@.len(),
            0 <= best_dist <= maximal_distance,
            -2 * COORD_LIMIT <= best_end.x <= 2 * COORD_LIMIT,
            -2 * COORD_LIMIT <= best_end.y <= 2 * COORD_LIMIT,
            !has_hit ==> best_dist == maximal_distance && best_end == full_ray_end(
                start_position,
                direction,
                maximal_distance,
            ),
            has_hit ==> best_dist < maximal_distance && best_j < i && winning_line(
                linemap,
                start_position,
                ray_line_of(start_position, direction, maximal_distance),
                best_j,
                best_end,
                best_dist,
            ),
            forall|j: int|
                0 <= j < i ==> match #[trigger] find_intersection_spec(
                    linemap.spec_lines()[j],
                    ray_line_of(start_position, direction, maximal_distance),
                ) {
                    Some(p) => dist_fp(start_position, p) >= best_dist,
                    None => true,
                },
        decreases lines@.len() - i,
    {
        let line = &lines[i];
        assert(line.wf());
        match Line::find_intersection(line, &ray_line) {
            Option::None => {},
            Option::Some(intersection) => {
                let intersection_distance: i64 = distance(start_position, intersection);
                if intersection_distance < best_dist {
                    best_end = intersection;
                    best_dist = intersection_distance;
                    has_hit = true;
                    proof {
                        best_j = i as int;
                    }
                }
            },
        }
        i = i + 1;
    }
    let ray = Ray {
        start_position,
        end_position: best_end,
        direction_angle,
        distance: best_dist,
        maximal_distance,
    };
    proof {
        if has_hit {
            assert(winning_line(
                linemap,
                start_position,
                ray_line_of(start_position, direction, maximal_distance),
                best_j,
                ray.spec_end_position(),
                ray.spec_distance(),
            ));
        }
    }
    if has_hit {
        (ray, Hit::Wall { color: Color { r: 0, g: 0, b: 0 }, is_collision_enabled: true })
    } else {
        (ray, Hit::Nothing)
    }
}

/// Distance bookkeeping of the tilemap march. The distance a cast ray
/// reports is `n * STEP_SIZE` for the `n` free steps it took, so along the
/// march it never decreases; it stays below the maximal distance plus one
/// step; and the march makes at most `maximal_distance / STEP_SIZE + 1`
/// probes before it must stop.
pub proof fn lemma_march_distance_monotonic(
    tilemap: &Tilemap,
    start: Vec2,
    dir: Vec2,
    maximal_distance: i64,
    ray: Ray,
    hit: Hit,
)
    requires
        tilemap_cast_ok(tilemap, start, dir, maximal_distance, ray, hit),
    ensures
        ({
            let n = ray.spec_distance() as int / (STEP_SIZE as int);
            &&& n * (STEP_SIZE as int) == ray.spec_distance()
            &&& forall|m1: int, m2: int|
                0 <= m1 <= m2 <= n ==> #[trigger] (m1 * (STEP_SIZE as int)) <= #[trigger] (m2 * (
                STEP_SIZE as int))
            &&& 0 <= ray.spec_distance() < maximal_distance + STEP_SIZE
            &&& maximal_distance % STEP_SIZE == 0 ==> ray.spec_distance() <= maximal_distance
            &&& n <= maximal_distance as int / (STEP_SIZE as int) + 1
        }),
{
    let n = ray.spec_distance() as int / (STEP_SIZE as int);
    vstd::arithmetic::div_mod::lemma_fundamental_div_mod(
        ray.spec_distance() as int,
        STEP_SIZE as int,
    );
    assert forall|m1: int, m2: int| 0 <= m1 <= m2 <= n implies #[trigger] (m1 * (
    STEP_SIZE as int)) <= #[trigger] (m2 * (STEP_SIZE as int)) by {
        vstd::arithmetic::mul::lemma_mul_inequality(m1, m2, STEP_SIZE as int);
    }
    vstd::arithmetic::div_mod::lemma_fundamental_div_mod(maximal_distance as int, STEP_SIZE as int);
    vstd::arithmetic::div_mod::lemma_mod_division_less_than_divisor(
        maximal_distance as int,
        STEP_SIZE as int,
    );
    assert(ray.spec_distance() < (STEP_SIZE as int) * (maximal_distance as int / (STEP_SIZE as int)
        + 2));
    vstd::arithmetic::div_mod::lemma_multiply_divide_lt(
        ray.spec_distance() as int,
        STEP_SIZE as int,
        maximal_distance as int / (STEP_SIZE as int) + 2,
    );
}

/// A column's angular offset within the fan, in thousandths of a turn:
/// `column / total_columns - 1/2`, covering `[-1/2, 1/2)`.
pub open spec fn relative_ray_angle_spec(column: int, total_columns: int) -> int {
    (column * SCALE) / total_columns - SCALE as int / 2
}

/// Maps a column index to its angular offset in the fan.
pub fn relative_ray_angle(column: u32, total_columns: u32) -> (r: i64)
    requires
        0 < total_columns,
    ensures
        r == relative_ray_angle_spec(column as int, total_columns as int),
        -SCALE / 2 <= r,
        column <= total_columns ==> r <= SCALE / 2,
{
    proof {
        vstd::arithmetic::div_mod::lemma_div_pos_is_pos(
            column as int * SCALE as int,
            total_columns as int,
        );
        if column <= total_columns {
            vstd::arithmetic::div_mod::lemma_multiply_divide_le(
                column as int * SCALE as int,
                total_columns as int,
                SCALE as int,
            );
            assert(column as int * SCALE as int <= total_columns as int * SCALE as int)
                by (nonlinear_arith)
                requires
                    0 <= column <= total_columns,
            ;
        }
    }
    ((column as i64) * SCALE) / (total_columns as i64) - SCALE / 2
}

/// The pose and fan parameters a whole-frame cast reads from the rendering
/// state, together with one unit direction vector per column.
pub open spec fn frame_cast_ok(rendering_state: &RenderingState, directions: Seq<Vec2>) -> bool {
    &&& directions.len() == rendering_state.spec_total_columns()
    &&& forall|i: int|
        0 <= i < directions.len() ==> -SCALE <= (#[trigger] directions[i]).x <= SCALE && -SCALE
            <= directions[i].y <= SCALE
    &&& -COORD_LIMIT / 2 <= rendering_state.spec_camera().spec_position().x <= COORD_LIMIT / 2
    &&& -COORD_LIMIT / 2 <= rendering_state.spec_camera().spec_position().y <= COORD_LIMIT / 2
    &&& 0 <= rendering_state.spec_rendering_distance() <= COORD_LIMIT / 4
    &&& -1_000_000_000 <= rendering_state.spec_camera().spec_direction() <= 1_000_000_000
}

/// The ray angle cast for one column: the camera heading plus the column's
/// angular offset in the fan.
pub open spec fn column_ray_angle(rendering_state: &RenderingState, column: int) -> int {
    rendering_state.spec_camera().spec_direction() + relative_ray_angle_spec(
        column,
        rendering_state.spec_total_columns() as int,
    )
}

/// Casts one marching ray per screen column against the tile grid, in
/// ascending column order. `directions[i]` must hold the unit vector of
/// column `i`'s ray angle.
pub fn cast_rays_tilemap(
    tilemap: &Tilemap,
    rendering_state: &RenderingState,
    directions: &Vec<Vec2>,
) -> (r: Vec<HitDetails>)
    requires
        tilemap.wf(),
        frame_cast_ok(rendering_state, directions@),
    ensures
        r@.len() == rendering_state.spec_total_columns(),
        forall|i: int|
            0 <= i < r@.len() ==> {
                &&& (#[trigger] r@[i]).spec_column() == i
                &&& r@[i].spec_total_columns() == rendering_state.spec_total_columns()
                &&& r@[i].spec_ray().spec_direction_angle() == column_ray_angle(
                    rendering_state,
                    i,
                )
                &&& tilemap_cast_ok(
                    tilemap,
                    rendering_state.spec_camera().spec_position(),
                    directions@[i],
                    rendering_state.spec_rendering_distance(),
                    r@[i].spec_ray(),
                    r@[i].spec_hit(),
                )
            },
{
    let camera_direction: i64 = rendering_state.camera().direction();
    let camera_position: Vec2 = rendering_state.camera().position();
    let rendering_distance: i64 = rendering_state.rendering_distance();
    let total_columns: u32 = rendering_state.total_columns();
    let mut hits_buffer: Vec<HitDetails> = Vec::with_capacity(total_columns as usize);
    let mut column: u32 = 0;
    while column < total_columns
        invariant
            tilemap.wf(),
            frame_cast_ok(rendering_state, directions@),
            camera_direction == rendering_state.spec_camera().spec_direction(),
            camera_position == rendering_state.spec_camera().spec_position(),
            rendering_distance == rendering_state.spec_rendering_distance(),
            total_columns == rendering_state.spec_total_columns(),
            column <= total_columns,
            hits_buffer@.len() == column,
            forall|i: int|
                0 <= i < column ==> {
                    &&& (#[trigger] hits_buffer@[i]).spec_column() == i
                    &&& hits_buffer@[i].spec_total_columns() == total_columns
                    &&& hits_buffer@[i].spec_ray().spec_direction_angle() == column_ray_angle(
                        rendering_state,
                        i,
                    )
                    &&& tilemap_cast_ok(
                        tilemap,
                        camera_position,
                        directions@[i],
                        rendering_distance,
                        hits_buffer@[i].spec_ray(),
                        hits_buffer@[i].spec_hit(),
                    )
                },
        decreases total_columns - column,
    {
        let ray_angle: i64 = camera_direction + relative_ray_angle(column, total_columns);
        let (ray, hit) = cast_ray_tilemap(
            tilemap,
            camera_position,
            ray_angle,
            directions[column as usize],
            rendering_distance,
        );
        hits_buffer.push(HitDetails::new(column, total_columns, ray, hit));
        column = column + 1;
    }
    hits_buffer
}

/// Casts one full-length ray per screen column against the line map, in
/// ascending column order. `directions[i]` must hold the unit vector of
/// column `i`'s ray angle.
pub fn cast_rays_linemap(
    linemap: &Linemap,
    rendering_state: &RenderingState,
    directions: &Vec<Vec2>,
) -> (r: Vec<HitDetails>)
    requires
        linemap.wf(),
        frame_cast_ok(rendering_state, directions@),
    ensures
        r@.len() == rendering_state.spec_total_columns(),
        forall|i: int|
            0 <= i < r@.len() ==> {
                &&& (#[trigger] r@[i]).spec_column() == i
                &&& r@[i].spec_total_columns() == rendering_state.spec_total_columns()
                &&& r@[i].spec_ray().spec_direction_angle() == column_ray_angle(
                    rendering_state,
                    i,
                )
                &&& linemap_cast_ok(
                    linemap,
                    rendering_state.spec_camera().spec_position(),
                    directions@[i],
                    rendering_state.spec_rendering_distance(),
                    r@[i].spec_ray(),
                    r@[i].spec_hit(),
                )
            },
{
    let camera_direction: i64 = rendering_state.camera().direction();
    let camera_position: Vec2 = rendering_state.camera().position();
    let rendering_distance: i64 = rendering_state.rendering_distance();
    let total_columns: u32 = rendering_state.total_columns();
    let mut hits_buffer: Vec<HitDetails> = Vec::with_capacity(total_columns as usize);
    let mut column: u32 = 0;
    while column < total_columns
        invariant
            linemap.wf(),
            frame_cast_ok(rendering_state, directions@),
            camera_direction == rendering_state.spec_camera().spec_direction(),
            camera_position == rendering_state.spec_camera().spec_position(),
            rendering_distance == rendering_state.spec_rendering_distance(),
            total_columns == rendering_state.spec_total_columns(),
            column <= total_columns,
            hits_buffer@.len() == column,
            forall|i: int|
                0 <= i < column ==> {
                    &&& (#[trigger] hits_buffer@[i]).spec_column() == i
                    &&& hits_buffer@[i].spec_total_columns() == total_columns
                    &&& hits_buffer@[i].spec_ray().spec_direction_angle() == column_ray_angle(
                        rendering_state,
                        i,
                    )
                    &&& linemap_cast_ok(
                        linemap,
                        camera_position,
                        directions@[i],
                        rendering_distance,
                        hits_buffer@[i].spec_ray(),
                        hits_buffer@[i].spec_hit(),
                    )
                },
        decreases total_columns - column,
    {
        let ray_angle: i64 = camera_direction + relative_ray_angle(column, total_columns);
        let (ray, hit) = cast_ray_linemap(
            linemap,
            camera_position,
            ray_angle,
            directions[column as usize],
            rendering_distance,
        );
        hits_buffer.push(HitDetails::new(column, total_columns, ray, hit));
        column = column + 1;
    }
    hits_buffer
}

} // verus!
