//! Points of the drawing surface and the pick test on them.

use vstd::prelude::*;

verus! {

/// A position on the drawing surface, in whole units.
#[derive(Clone, Copy, Debug, PartialEq, Eq, Structural)]
pub struct Point {
    pub x: i32,
    pub y: i32,
}

/// The square of the Euclidean distance between two points.
pub open spec fn distance_squared(a: Point, b: Point) -> int {
    (a.x - b.x) * (a.x - b.x) + (a.y - b.y) * (a.y - b.y)
}

/// Whether `click` lies within `radius` of `node`, the border included.
pub open spec fn within_radius(node: Point, click: Point, radius: u32) -> bool {
    distance_squared(node, click) <= radius * radius
}

proof fn lemma_square_bound(d: int)
    requires
        -0x1_0000_0000 < d < 0x1_0000_0000,
    ensures
        0 <= d * d <= 0x1_0000_0000 * 0x1_0000_0000,
{
    assert(0 <= d * d <= 0x1_0000_0000 * 0x1_0000_0000) by (nonlinear_arith)
        requires
            -0x1_0000_0000 < d < 0x1_0000_0000,
    ;
}

/// Tells whether a click at `click_position` picks a node at `node_position`.
///
/// The distances are compared by their squares, so no root is taken and the
/// answer is exact.
pub fn is_node_clicked(node_position: &Point, click_position: &Point, radius: u32) -> (hit: bool)
    ensures
        hit == within_radius(*node_position, *click_position, radius),
{
    let dx: i128 = node_position.x as i128 - click_position.x as i128;
    let dy: i128 = node_position.y as i128 - click_position.y as i128;
    let r: i128 = radius as i128;
    proof {
        lemma_square_bound(dx as int);
        lemma_square_bound(dy as int);
        lemma_square_bound(r as int);
    }
    dx * dx + dy * dy <= r * r
}

/// A click on the very position of a node picks it, whatever the radius.
pub proof fn lemma_click_on_node_hits(node: Point, radius: u32)
    ensures
        within_radius(node, node, radius),
{
    assert(0 <= radius * radius) by (nonlinear_arith);
}

/// A click that is within a radius of a node is within every wider radius of
/// it.
pub proof fn lemma_within_wider_radius(node: Point, click: Point, radius: u32, wider: u32)
    requires
        within_radius(node, click, radius),
        radius <= wider,
    ensures
        within_radius(node, click, wider),
{
    assert(radius * radius <= wider * wider) by (nonlinear_arith)
        requires
            0 <= radius <= wider,
    ;
}

/// A click farther than `radius` from a node, by however little, does not pick
/// it: once the distance `d` from the click to the node exceeds the radius,
/// the pick test fails.
pub proof fn lemma_click_beyond_radius_misses(node: Point, click: Point, radius: u32, d: int)
    requires
        d > radius,
        d * d <= distance_squared(node, click),
    ensures
        !within_radius(node, click, radius),
{
    assert(radius * radius < d * d) by (nonlinear_arith)
        requires
            0 <= radius < d,
    ;
}

} // verus!
