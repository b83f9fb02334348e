//! Penetration-resolving collision: while the tile under a position is
//! solid, the position backs off along the inverse of its heading in fixed
//! small steps.

use crate::graphics::ray_caster::cell_of;
use crate::math::{div_trunc, tdiv, Vec2, COORD_LIMIT, SCALE};
use crate::model::tilemap::Tilemap;
use vstd::prelude::*;

verus! {

/// Distance (0.01 world units) a position backs off per resolution step.
pub const COLLISION_RESOLUTION_STEP: i64 = 10;

/// How far one backoff step moves along axis component `d` of a unit
/// heading.
pub open spec fn backoff_inc(d: int) -> int {
    tdiv(COLLISION_RESOLUTION_STEP * d, SCALE as int)
}

/// The position after `n` backoff steps against heading `dir`.
pub open spec fn backoff_x(start: Vec2, dir: Vec2, n: int) -> int {
    start.x - n * backoff_inc(dir.x as int)
}

/// The position after `n` backoff steps against heading `dir`.
pub open spec fn backoff_y(start: Vec2, dir: Vec2, n: int) -> int {
    start.y - n * backoff_inc(dir.y as int)
}

/// The resolver keeps stepping while this holds: the position is strictly
/// inside the positive quadrant and the grid cell under it exists and has
/// collision enabled.
pub open spec fn position_blocked(tilemap: &Tilemap, px: int, py: int) -> bool {
    &&& px > 0
    &&& py > 0
    &&& cell_of(px) < tilemap.spec_width()
    &&& cell_of(py) < tilemap.spec_height()
    &&& tilemap.grid()[cell_of(py)][cell_of(px)].spec_tile().spec_collision_enabled()
}

/// The inputs the resolver accepts: a bounded starting position, a unit-size
/// heading and a bounded step budget.
pub open spec fn resolve_input_ok(position: Vec2, direction: Vec2, max_steps: u32) -> bool {
    &&& -COORD_LIMIT / 2 <= position.x <= COORD_LIMIT / 2
    &&& -COORD_LIMIT / 2 <= position.y <= COORD_LIMIT / 2
    &&& -SCALE <= direction.x <= SCALE
    &&& -SCALE <= direction.y <= SCALE
    &&& max_steps <= 10_000
}

/// Pushes `position` out of solid tile geometry: while the tile under it is
/// solid (and the position stays in the positive quadrant), the position
/// moves backward along the heading by `COLLISION_RESOLUTION_STEP`, at most
/// `max_steps` times. The naive heading-inverse backoff cannot escape every
/// configuration (a position deep inside a solid region, or a heading whose
/// backoff rounds to a standstill), so the explicit step budget bounds the
/// loop; a position that cannot escape within it is left where the budget
/// ran out. Returns the number of steps taken.
pub fn resolve_collision(
    tilemap: &Tilemap,
    position: &mut Vec2,
    direction: Vec2,
    max_steps: u32,
) -> (steps: u32)
    requires
        tilemap.wf(),
        resolve_input_ok(*old(position), direction, max_steps),
    ensures
        steps <= max_steps,
        final(position).x == backoff_x(*old(position), direction, steps as int),
        final(position).y == backoff_y(*old(position), direction, steps as int),
        forall|n: int|
            0 <= n < steps ==> position_blocked(
                tilemap,
                backoff_x(*old(position), direction, n),
                backoff_y(*old(position), direction, n),
            ),
        steps < max_steps ==> !position_blocked(
            tilemap,
            final(position).x as int,
            final(position).y as int,
        ),
{
    let inc_x: i64 = div_trunc(COLLISION_RESOLUTION_STEP * direction.x, SCALE);
    let inc_y: i64 = div_trunc(COLLISION_RESOLUTION_STEP * direction.y, SCALE);
    proof {
        crate::math::lemma_tdiv_bound(
            (COLLISION_RESOLUTION_STEP * direction.x) as int,
            SCALE as int,
            COLLISION_RESOLUTION_STEP as int,
        );
        crate::math::lemma_tdiv_bound(
            (COLLISION_RESOLUTION_STEP * direction.y) as int,
            SCALE as int,
            COLLISION_RESOLUTION_STEP as int,
        );
    }
    let ghost start: Vec2 = *position;
    let mut steps: u32 = 0;
    loop
        invariant
            tilemap.wf(),
            resolve_input_ok(start, direction, max_steps),
            -COLLISION_RESOLUTION_STEP <= inc_x <= COLLISION_RESOLUTION_STEP,
            -COLLISION_RESOLUTION_STEP <= inc_y <= COLLISION_RESOLUTION_STEP,
            inc_x == backoff_inc(direction.x as int),
            inc_y == backoff_inc(direction.y as int),
            steps <= max_steps,
            position.x == backoff_x(start, direction, steps as int),
            position.y == backoff_y(start, direction, steps as int),
            -COORD_LIMIT <= position.x <= COORD_LIMIT,
            -COORD_LIMIT <= position.y <= COORD_LIMIT,
            forall|n: int|
                0 <= n < steps ==> position_blocked(
                    tilemap,
                    backoff_x(start, direction, n),
                    backoff_y(start, direction, n),
                ),
        ensures
            steps <= max_steps,
            position.x == backoff_x(start, direction, steps as int),
            position.y == backoff_y(start, direction, steps as int),
            forall|n: int|
                0 <= n < steps ==> position_blocked(
                    tilemap,
                    backoff_x(start, direction, n),
                    backoff_y(start, direction, n),
                ),
            steps < max_steps ==> !position_blocked(
                tilemap,
                position.x as int,
                position.y as int,
            ),
        decreases max_steps - steps,
    {
        if steps >= max_steps {
            break ;
        }
        let blocked: bool = if position.x > 0 && position.y > 0 {
            let cell_x: i64 = position.x / SCALE;
            let cell_y: i64 = position.y / SCALE;
            if cell_x < tilemap.sizes().x as i64 && cell_y < tilemap.sizes().y as i64 {
                match tilemap.get_tile(
                    crate::math::UVec2 { x: cell_x as u32, y: cell_y as u32 },
                ) {
                    Some(placed_tile) => placed_tile.tile().is_collision_enabled(),
                    None => false,
                }
            } else {
                false
            }
        } else {
            false
        };
        if !blocked {
            break ;
        }
        proof {
            let n = steps as int;
            assert((n + 1) * backoff_inc(direction.x as int) == n * backoff_inc(direction.x as int)
                + backoff_inc(direction.x as int)) by (nonlinear_arith);
            assert((n + 1) * backoff_inc(direction.y as int) == n * backoff_inc(direction.y as int)
                + backoff_inc(direction.y as int)) by (nonlinear_arith);
            assert(-(n * (COLLISION_RESOLUTION_STEP as int)) <= n * backoff_inc(direction.x as int)
                <= n * (COLLISION_RESOLUTION_STEP as int)) by (nonlinear_arith)
                requires
                    n >= 0,
                    -COLLISION_RESOLUTION_STEP <= backoff_inc(direction.x as int)
                        <= COLLISION_RESOLUTION_STEP,
            ;
            assert(-(n * (COLLISION_RESOLUTION_STEP as int)) <= n * backoff_inc(direction.y as int)
                <= n * (COLLISION_RESOLUTION_STEP as int)) by (nonlinear_arith)
                requires
                    n >= 0,
                    -COLLISION_RESOLUTION_STEP <= backoff_inc(direction.y as int)
                        <= COLLISION_RESOLUTION_STEP,
            ;
            assert(n * (COLLISION_RESOLUTION_STEP as int) <= 10_000 * (
            COLLISION_RESOLUTION_STEP as int)) by (nonlinear_arith)
                requires
                    0 <= n <= 10_000,
            ;
            assert((n + 1) * (COLLISION_RESOLUTION_STEP as int) <= 10_001 * (
            COLLISION_RESOLUTION_STEP as int)) by (nonlinear_arith)
                requires
                    0 <= n <= 10_000,
            ;
            assert(-((n + 1) * (COLLISION_RESOLUTION_STEP as int)) <= (n + 1) * backoff_inc(
                direction.x as int,
            ) <= (n + 1) * (COLLISION_RESOLUTION_STEP as int)) by (nonlinear_arith)
                requires
                    n >= 0,
                    -COLLISION_RESOLUTION_STEP <= backoff_inc(direction.x as int)
                        <= COLLISION_RESOLUTION_STEP,
            ;
            assert(-((n + 1) * (COLLISION_RESOLUTION_STEP as int)) <= (n + 1) * backoff_inc(
                direction.y as int,
            ) <= (n + 1) * (COLLISION_RESOLUTION_STEP as int)) by (nonlinear_arith)
                requires
                    n >= 0,
                    -COLLISION_RESOLUTION_STEP <= backoff_inc(direction.y as int)
                        <= COLLISION_RESOLUTION_STEP,
            ;
        }
        position.x = position.x - inc_x;
        position.y = position.y - inc_y;
        steps = steps + 1;
    }
    steps
}

} // verus!
