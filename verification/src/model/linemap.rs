//! The vector world representation: line segments in slope-intercept form,
//! and the segment-against-segment intersection test that ray casting uses.

use crate::math::{abs_int, coord_ok, div_trunc, lemma_mul_bounds, tdiv, vec2_ok, Vec2, COORD_LIMIT,
    SCALE};
use crate::model::object_color::Color;
use crate::model::repository::Resource;
use crate::model::ResourceId;
use vstd::prelude::*;

verus! {

/// Inclusive tolerance (0.005 world units) that segment containment tests
/// allow on both axes, absorbing rounding at shared endpoints.
pub const EPSILON: i64 = 5;

/// Largest slope magnitude a well-formed line can carry.
pub const K_MAX: i64 = 2_000_000_000;

/// Largest intercept magnitude a well-formed line can carry.
pub const B_MAX: i64 = 3_000_000_000_000;

/// The precomputed slope of the segment `from`-`to`, in fixed-point units of
/// y per world unit of x; zero for a fully vertical segment.
pub open spec fn slope_of(from: Vec2, to: Vec2) -> int {
    if from.x == to.x {
        0
    } else {
        tdiv((from.y - to.y) * SCALE, from.x - to.x)
    }
}

/// The precomputed intercept of the segment `from`-`to`; for a fully vertical
/// segment it falls back to the starting y.
pub open spec fn intercept_of(from: Vec2, to: Vec2) -> int {
    if from.x == to.x {
        from.y as int
    } else {
        from.y - tdiv(slope_of(from, to) * from.x, SCALE as int)
    }
}

/// `v` lies between `from` and `to` (in either order), inflated by `EPSILON`
/// on both sides.
pub open spec fn in_range(from: int, to: int, v: int) -> bool {
    let lo = if from < to {
        from
    } else {
        to
    };
    let hi = if from < to {
        to
    } else {
        from
    };
    lo - EPSILON <= v <= hi + EPSILON
}

/// A colored world line segment, with its slope-intercept form and its
/// verticality flag precomputed at construction.
#[derive(Clone, Copy, Debug, PartialEq, Eq, Structural)]
pub struct Line {
    color: Color,
    from: Vec2,
    to: Vec2,
    k: i64,
    b: i64,
    is_vertical: bool,
}

/// A segment from `from` to `to` runs (near-)vertically: its x-extent is
/// under `EPSILON`.
pub open spec fn vertical_extent(from: Vec2, to: Vec2) -> bool {
    abs_int(from.x - to.x) < EPSILON
}

/// The line value that `Line::new` builds from a color and two endpoints.
pub closed spec fn spec_line(color: Color, from: Vec2, to: Vec2) -> Line {
    Line {
        color,
        from,
        to,
        k: slope_of(from, to) as i64,
        b: intercept_of(from, to) as i64,
        is_vertical: vertical_extent(from, to),
    }
}

/// The y-value of the (extended) line at `x`, by its slope-intercept form.
pub open spec fn line_value_at(l: Line, x: int) -> int {
    tdiv(l.spec_k() * x, SCALE as int) + l.spec_b()
}

/// The segment carries the vertical flag: its x-extent is under `EPSILON`,
/// so intersection math substitutes its x instead of dividing by slopes.
pub open spec fn parallel_y(l: Line) -> bool {
    vertical_extent(l.spec_from(), l.spec_to())
}

impl Line {
    pub closed spec fn spec_color(&self) -> Color {
        self.color
    }

    pub closed spec fn spec_from(&self) -> Vec2 {
        self.from
    }

    pub closed spec fn spec_to(&self) -> Vec2 {
        self.to
    }

    pub closed spec fn spec_k(&self) -> i64 {
        self.k
    }

    pub closed spec fn spec_b(&self) -> i64 {
        self.b
    }

    /// Endpoints are in world bounds and the slope-intercept fields hold the
    /// values derived from them. Constructed lines always satisfy this.
    pub open spec fn wf(&self) -> bool {
        &&& vec2_ok(self.spec_from())
        &&& vec2_ok(self.spec_to())
        &&& self.spec_k() == slope_of(self.spec_from(), self.spec_to())
        &&& self.spec_b() == intercept_of(self.spec_from(), self.spec_to())
        &&& -K_MAX <= self.spec_k() <= K_MAX
        &&& -B_MAX <= self.spec_b() <= B_MAX
        &&& self.spec_is_vertical() == vertical_extent(self.spec_from(), self.spec_to())
    }

    pub closed spec fn spec_is_vertical(&self) -> bool {
        self.is_vertical
    }

    pub fn new(color: Color, from: Vec2, to: Vec2) -> (l: Line)
        requires
            vec2_ok(from),
            vec2_ok(to),
        ensures
            l.wf(),
            l == spec_line(color, from, to),
            l.spec_color() == color,
            l.spec_from() == from,
            l.spec_to() == to,
    {
        let x_diff: i64 = from.x - to.x;
        let is_vertical: bool = -EPSILON < x_diff && x_diff < EPSILON;
        let mut k: i64 = 0;
        let mut b: i64 = from.y;
        if x_diff != 0 {
            k = div_trunc((from.y - to.y) * SCALE, x_diff);
            proof {
                lemma_mul_bounds(k as int, from.x as int, K_MAX as int, COORD_LIMIT as int);
                vstd::arithmetic::div_mod::lemma_div_is_ordered(
                    abs_int(k * from.x),
                    K_MAX as int * COORD_LIMIT as int,
                    SCALE as int,
                );
            }
            b = from.y - div_trunc(k * from.x, SCALE);
        }
        Line { color, from, to, k, b, is_vertical }
    }

    pub fn color(&self) -> (c: &Color)
        ensures
            *c == self.spec_color(),
    {
        &self.color
    }

    pub fn from(&self) -> (v: &Vec2)
        ensures
            *v == self.spec_from(),
    {
        &self.from
    }

    pub fn to(&self) -> (v: &Vec2)
        ensures
            *v == self.spec_to(),
    {
        &self.to
    }

    pub fn b(&self) -> (r: i64)
        ensures
            r == self.spec_b(),
    {
        self.b
    }

    pub fn k(&self) -> (r: i64)
        ensures
            r == self.spec_k(),
    {
        self.k
    }

    /// Evaluates the line's slope-intercept form at `x`.
    pub fn compute_at_x(&self, x: i64) -> (y: i64)
        requires
            self.wf(),
            -(COORD_LIMIT + EPSILON) <= x <= COORD_LIMIT + EPSILON,
        ensures
            y == line_value_at(*self, x as int),
            -(2 * B_MAX) <= y <= 2 * B_MAX,
    {
        proof {
            lemma_mul_bounds(
                self.k as int,
                x as int,
                K_MAX as int,
                COORD_LIMIT as int + EPSILON as int,
            );
            vstd::arithmetic::div_mod::lemma_div_is_ordered(
                abs_int(self.k * x),
                K_MAX as int * (COORD_LIMIT as int + EPSILON as int),
                SCALE as int,
            );
        }
        div_trunc(self.k * x, SCALE) + self.b
    }

    /// Whether `x` lies within the segment's x-extent, inflated by `EPSILON`.
    pub fn contains_x(&self, x: i64) -> (r: bool)
        requires
            self.wf(),
            x != i64::MIN,
        ensures
            r == in_range(self.spec_from().x as int, self.spec_to().x as int, x as int),
    {
        contains_in_range(self.from.x, self.to.x, x)
    }

    /// Whether `y` lies within the segment's y-extent, inflated by `EPSILON`.
    pub fn contains_y(&self, y: i64) -> (r: bool)
        requires
            self.wf(),
            y != i64::MIN,
        ensures
            r == in_range(self.spec_from().y as int, self.spec_to().y as int, y as int),
    {
        contains_in_range(self.from.y, self.to.y, y)
    }
}

/// Whether `value` lies in the closed interval spanned by `from` and `to`,
/// inflated by `EPSILON` on both sides.
pub fn contains_in_range(from: i64, to: i64, value: i64) -> (r: bool)
    requires
        -COORD_LIMIT <= from <= COORD_LIMIT,
        -COORD_LIMIT <= to <= COORD_LIMIT,
        value != i64::MIN,
    ensures
        r == in_range(from as int, to as int, value as int),
{
    let (min_val, max_val) = if from < to {
        (from, to)
    } else {
        (to, from)
    };
    min_val - EPSILON <= value && value <= max_val + EPSILON
}

/// Whether the segment runs (near-)vertically: x-extent under `EPSILON`.
pub fn is_parallel_y(line: &Line) -> (r: bool)
    requires
        line.wf(),
    ensures
        r == parallel_y(*line),
{
    line.is_vertical
}

/// The x at which the extended lines `first` and `second` meet: a vertical
/// line pins x to its own start; otherwise the two slope-intercept forms are
/// equated.
pub open spec fn intersection_x(first: Line, second: Line) -> int {
    if parallel_y(first) {
        first.spec_from().x as int
    } else if parallel_y(second) {
        second.spec_from().x as int
    } else {
        tdiv((second.spec_b() - first.spec_b()) * SCALE, first.spec_k() - second.spec_k())
    }
}

/// The y paired with `intersection_x`: evaluated on `second` when `first` is
/// vertical, else on `first`.
pub open spec fn intersection_y(first: Line, second: Line, x: int) -> int {
    if parallel_y(first) {
        line_value_at(second, x)
    } else {
        line_value_at(first, x)
    }
}

/// The intersection the library reports for two segments: the meeting point
/// of their extended lines, kept only when it lies within both segments'
/// x- and y-extents (each inflated by `EPSILON`); two non-vertical parallel
/// lines never intersect.
pub open spec fn find_intersection_spec(first: Line, second: Line) -> Option<Vec2> {
    if !parallel_y(first) && !parallel_y(second) && first.spec_k() == second.spec_k() {
        None
    } else {
        let x = intersection_x(first, second);
        let y = intersection_y(first, second, x);
        if in_range(first.spec_from().x as int, first.spec_to().x as int, x) && in_range(
            second.spec_from().x as int,
            second.spec_to().x as int,
            x,
        ) && in_range(first.spec_from().y as int, first.spec_to().y as int, y) && in_range(
            second.spec_from().y as int,
            second.spec_to().y as int,
            y,
        ) {
            Some(Vec2 { x: x as i64, y: y as i64 })
        } else {
            None
        }
    }
}

impl Line {
    /// Intersects two segments. The result, when present, lies within both
    /// segments' x- and y-extents inflated by `EPSILON`; vertical segments
    /// are handled by substitution, never by dividing by their slope.
    pub fn find_intersection(first: &Line, second: &Line) -> (r: Option<Vec2>)
        requires
            first.wf(),
            second.wf(),
        ensures
            r == find_intersection_spec(*first, *second),
            match r {
                Some(p) => {
                    &&& in_range(first.spec_from().x as int, first.spec_to().x as int, p.x as int)
                    &&& in_range(second.spec_from().x as int, second.spec_to().x as int, p.x as int)
                    &&& in_range(first.spec_from().y as int, first.spec_to().y as int, p.y as int)
                    &&& in_range(second.spec_from().y as int, second.spec_to().y as int, p.y as int)
                    &&& -(COORD_LIMIT + EPSILON) <= p.x <= COORD_LIMIT + EPSILON
                    &&& -(COORD_LIMIT + EPSILON) <= p.y <= COORD_LIMIT + EPSILON
                },
                None => true,
            },
    {
        let first_vertical = is_parallel_y(first);
        let second_vertical = is_parallel_y(second);
        let intersection_x: i64 = if first_vertical {
            first.from.x
        } else if second_vertical {
            second.from.x
        } else {
            if first.k == second.k {
                return None;
            }
            proof {
                lemma_mul_bounds(
                    second.b - first.b,
                    SCALE as int,
                    2 * B_MAX as int,
                    SCALE as int,
                );
            }
            div_trunc((second.b - first.b) * SCALE, first.k - second.k)
        };
        if !first.contains_x(intersection_x) || !second.contains_x(intersection_x) {
            return None;
        }
        let intersection_y: i64 = if first_vertical {
            second.compute_at_x(intersection_x)
        } else {
            first.compute_at_x(intersection_x)
        };
        if !first.contains_y(intersection_y) || !second.contains_y(intersection_y) {
            return None;
        }
        Some(Vec2 { x: intersection_x, y: intersection_y })
    }
}

/// Vertical-line safety: intersecting two (near-)vertical segments never
/// touches a slope difference. The vertical branch pins the meeting point to
/// the first segment's own x and evaluates the second segment there, and
/// whenever a point comes back it is finite: both coordinates stay within
/// the world bounds inflated by `EPSILON`. (The slope-difference division
/// exists only on the branch where neither segment is near-vertical and the
/// slopes differ, so its divisor is never zero.)
pub proof fn lemma_vertical_line_safety(first: Line, second: Line)
    requires
        first.wf(),
        second.wf(),
        parallel_y(first),
        parallel_y(second),
    ensures
        match find_intersection_spec(first, second) {
            Some(p) => {
                &&& p.x == first.spec_from().x
                &&& p.y == line_value_at(second, p.x as int)
                &&& -(COORD_LIMIT + EPSILON) <= p.x <= COORD_LIMIT + EPSILON
                &&& -(COORD_LIMIT + EPSILON) <= p.y <= COORD_LIMIT + EPSILON
            },
            None => true,
        },
{
}

/// An axis-aligned rectangle in whole world units, used to add four border
/// segments to a `Linemap` at once.
#[derive(Clone, Copy, Debug, PartialEq, Eq, Structural)]
pub struct Rect {
    pub x: i32,
    pub y: i32,
    pub width: u32,
    pub height: u32,
}

impl Rect {
    pub fn new(x: i32, y: i32, width: u32, height: u32) -> (r: Rect)
        ensures
            r.x == x,
            r.y == y,
            r.width == width,
            r.height == height,
    {
        Rect { x, y, width, height }
    }
}

/// The larger of three values.
pub open spec fn max3(a: int, b: int, c: int) -> int {
    let ab = if a < b {
        b
    } else {
        a
    };
    if ab < c {
        c
    } else {
        ab
    }
}

/// A world described as an ordered list of line segments, with a running
/// maximum of all endpoint coordinates seen so far.
pub struct Linemap {
    id: ResourceId,
    lines: Vec<Line>,
    sizes: Vec2,
}

impl Linemap {
    /// Every line is well formed and the recorded bounds are in world range.
    pub open spec fn wf(&self) -> bool {
        &&& forall|i: int| 0 <= i < self.spec_lines().len() ==> (#[trigger] self.spec_lines()[i]).wf()
        &&& 0 <= self.spec_sizes().x <= COORD_LIMIT
        &&& 0 <= self.spec_sizes().y <= COORD_LIMIT
    }

    pub closed spec fn spec_lines(&self) -> Seq<Line> {
        self.lines@
    }

    pub closed spec fn spec_sizes(&self) -> Vec2 {
        self.sizes
    }

    pub fn new(id: ResourceId) -> (m: Linemap)
        ensures
            m.wf(),
            m.spec_id() == id,
            m.spec_lines() == Seq::<Line>::empty(),
            m.spec_sizes() == (Vec2 { x: 0, y: 0 }),
    {
        let m = Linemap { id, lines: Vec::new(), sizes: Vec2 { x: 0, y: 0 } };
        proof {
            assert(m.spec_lines() =~= Seq::<Line>::empty());
        }
        m
    }

    pub fn lines(&self) -> (r: &Vec<Line>)
        ensures
            r@ == self.spec_lines(),
    {
        &self.lines
    }

    pub fn sizes(&self) -> (s: &Vec2)
        ensures
            *s == self.spec_sizes(),
    {
        &self.sizes
    }

    /// Appends the segment `from`-`to` and grows the recorded bounds to the
    /// running maximum of the endpoint coordinates; the bounds never shrink.
    pub fn add_line(&mut self, color: Color, from: Vec2, to: Vec2)
        requires
            old(self).wf(),
            vec2_ok(from),
            vec2_ok(to),
        ensures
            final(self).wf(),
            final(self).spec_id() == old(self).spec_id(),
            final(self).spec_lines().len() == old(self).spec_lines().len() + 1,
            final(self).spec_lines() =~= old(self).spec_lines().push(
                final(self).spec_lines().last(),
            ),
            final(self).spec_lines().last().wf(),
            final(self).spec_lines().last().spec_color() == color,
            final(self).spec_lines().last().spec_from() == from,
            final(self).spec_lines().last().spec_to() == to,
            final(self).spec_sizes().x == max3(old(self).spec_sizes().x as int, from.x as int, to.x as int),
            final(self).spec_sizes().y == max3(old(self).spec_sizes().y as int, from.y as int, to.y as int),
            final(self).spec_sizes().x >= old(self).spec_sizes().x,
            final(self).spec_sizes().y >= old(self).spec_sizes().y,
    {
        let line = Line::new(color, from, to);
        let mut sx: i64 = self.sizes.x;
        if sx < from.x {
            sx = from.x;
        }
        if sx < to.x {
            sx = to.x;
        }
        let mut sy: i64 = self.sizes.y;
        if sy < from.y {
            sy = from.y;
        }
        if sy < to.y {
            sy = to.y;
        }
        self.sizes = Vec2 { x: sx, y: sy };
        self.lines.push(line);
        proof {
            assert forall|i: int| 0 <= i < self.lines@.len() implies (
            #[trigger] self.lines@[i]).wf() by {
                if i < old(self).lines@.len() {
                    assert(old(self).spec_lines()[i].wf());
                }
            }
            assert(self.spec_lines() =~= old(self).spec_lines().push(self.spec_lines().last()));
        }
    }

    /// Adds the four border segments of `rect`, clockwise from its top-left
    /// corner.
    pub fn add_rect(&mut self, color: Color, rect: Rect)
        requires
            old(self).wf(),
            -1000 <= rect.x,
            rect.x + rect.width <= 1000,
            -1000 <= rect.y,
            rect.y + rect.height <= 1000,
        ensures
            final(self).wf(),
            final(self).spec_id() == old(self).spec_id(),
            final(self).spec_lines().len() == old(self).spec_lines().len() + 4,
            forall|i: int|
                0 <= i < old(self).spec_lines().len() ==> final(self).spec_lines()[i] == old(
                    self,
                ).spec_lines()[i],
            final(self).spec_sizes().x >= old(self).spec_sizes().x,
            final(self).spec_sizes().y >= old(self).spec_sizes().y,
    {
        let top_left = point_to_vec2(rect.x, rect.y);
        let top_right = point_to_vec2(rect.x + (rect.width as i32), rect.y);
        let bottom_right = point_to_vec2(rect.x + (rect.width as i32), rect.y + (rect.height as i32));
        let bottom_left = point_to_vec2(rect.x, rect.y + (rect.height as i32));
        self.add_line(color, top_left, top_right);
        self.add_line(color, top_right, bottom_right);
        self.add_line(color, bottom_right, bottom_left);
        self.add_line(color, bottom_left, top_left);
    }
}

impl Resource for Linemap {
    closed spec fn spec_id(&self) -> u32 {
        self.id
    }

    fn id(&self) -> (r: u32) {
        self.id
    }
}

/// Converts a point in whole world units to fixed-point world coordinates.
fn point_to_vec2(x: i32, y: i32) -> (v: Vec2)
    requires
        -1000 <= x <= 1000,
        -1000 <= y <= 1000,
    ensures
        v.x == x as int * SCALE,
        v.y == y as int * SCALE,
        vec2_ok(v),
{
    Vec2 { x: (x as i64) * SCALE, y: (y as i64) * SCALE }
}

} // verus!
