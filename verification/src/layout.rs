//! Radial layout: the directions in which the children of one parent lie,
//! evenly spaced round a full turn.
//!
//! A direction is kept as an exact fraction of a turn, so that spacing and
//! distinctness are matters of whole numbers. Turning a direction into a
//! point on the circle takes a sine and a cosine and is left to the caller.

use crate::graph::is_first_with_title;
use crate::graph::title_absent_before;
use crate::graph::GraphModel;
use vstd::prelude::*;

verus! {

/// The largest numerator and denominator of a start direction.
pub const MAX_START: u128 = 0xFFFF_FFFF;

/// A direction: `num / den` of a full turn, counted from the positive x axis.
#[derive(Clone, Copy, Debug, PartialEq, Eq, Structural)]
pub struct Angle {
    pub num: u128,
    pub den: u128,
}

impl Angle {
    /// A direction has a denominator.
    pub open spec fn wf(&self) -> bool {
        self.den > 0
    }

    /// Whether this direction can start a layout.
    pub open spec fn starts(&self) -> bool {
        self.den > 0 && self.num <= MAX_START && self.den <= MAX_START
    }
}

/// The direction of the child `i` of `count`, the first of which lies at
/// `start`: `i / count` of a turn further on.
pub open spec fn child_angle(start: Angle, count: usize, i: int) -> Angle {
    Angle { num: (start.num * count + i * start.den) as u128, den: (start.den * count) as u128 }
}

/// Whether `b` lies exactly `1 / count` of a turn after `a`.
pub open spec fn one_step_apart(a: Angle, b: Angle, count: usize) -> bool {
    a.den * b.den == count * (b.num * a.den - a.num * b.den)
}

/// Whether `a` and `b` point the same way: they differ by a whole number of
/// turns.
pub open spec fn same_direction(a: Angle, b: Angle) -> bool {
    (a.num * b.den - b.num * a.den) % (a.den * b.den) == 0
}

proof fn lemma_fits(start: Angle, count: usize, i: int)
    requires
        start.starts(),
        0 <= i < count,
    ensures
        0 <= start.num * count + i * start.den < 0x1_0000_0000_0000_0000_0000_0000_0000,
        0 < start.den * count < 0x1_0000_0000_0000_0000_0000_0000,
{
    assert(0 <= start.num * count <= 0xFFFF_FFFF * 0xFFFF_FFFF_FFFF_FFFF) by (nonlinear_arith)
        requires
            0 <= start.num <= 0xFFFF_FFFF,
            0 <= count <= 0xFFFF_FFFF_FFFF_FFFF,
    ;
    assert(0 <= i * start.den <= 0xFFFF_FFFF_FFFF_FFFF * 0xFFFF_FFFF) by (nonlinear_arith)
        requires
            0 <= start.den <= 0xFFFF_FFFF,
            0 <= i <= 0xFFFF_FFFF_FFFF_FFFF,
    ;
    assert(0 < start.den * count <= 0xFFFF_FFFF * 0xFFFF_FFFF_FFFF_FFFF) by (nonlinear_arith)
        requires
            0 < start.den <= 0xFFFF_FFFF,
            0 < count <= 0xFFFF_FFFF_FFFF_FFFF,
    ;
}

/// The directions of `count` children round one parent: the first at `start`,
/// each next one `1 / count` of a turn further on. No children, no
/// directions: nothing is divided by `count` then.
pub fn place_children(start: Angle, count: usize) -> (angles: Vec<Angle>)
    requires
        start.starts(),
    ensures
        angles@.len() == count,
        forall|i: int| 0 <= i < count ==> #[trigger] angles@[i] == child_angle(start, count, i),
        forall|i: int| 0 <= i < count ==> (#[trigger] angles@[i]).wf(),
{
    let mut angles: Vec<Angle> = Vec::new();
    let mut i: usize = 0;
    while i < count
        invariant
            start.starts(),
            i <= count,
            angles@.len() == i,
            forall|k: int| 0 <= k < i ==> #[trigger] angles@[k] == child_angle(start, count, k),
            forall|k: int| 0 <= k < i ==> (#[trigger] angles@[k]).wf(),
        decreases count - i,
    {
        proof {
            lemma_fits(start, count, i as int);
        }
        let num: u128 = start.num * (count as u128) + (i as u128) * start.den;
        let den: u128 = start.den * (count as u128);
        angles.push(Angle { num, den });
        i = i + 1;
    }
    angles
}

/// The direction of the first child of every view: along the positive x
/// axis.
pub open spec fn view_start() -> Angle {
    Angle { num: 0, den: 1 }
}

/// The directions of the children in the view of `graph` that is centred on
/// the first node with the title `node`: one for each edge that leaves that
/// node, evenly spaced from `view_start()` on. Where no node has the title
/// there are none.
pub fn view_directions(graph: &GraphModel, node: &str) -> (angles: Vec<Angle>)
    requires
        graph.wf(),
    ensures
        title_absent_before(graph.nodes(), node@, graph.nodes().len() as int) ==> angles@.len() == 0,
        forall|id: usize|
            is_first_with_title(graph.nodes(), node@, id as int) ==> {
                &&& angles@.len() == (#[trigger] graph.children(id)).len()
                &&& forall|i: int|
                    0 <= i < angles@.len() ==> #[trigger] angles@[i] == child_angle(
                        view_start(),
                        graph.children(id).len() as usize,
                        i,
                    )
            },
{
    match graph.node_by_title(node) {
        Ok(root) => {
            let count = graph.out_degree(root.id);
            let angles = place_children(Angle { num: 0, den: 1 }, count);
            proof {
                assert forall|id: usize| is_first_with_title(graph.nodes(), node@, id as int) implies id
                    == root.id by {
                    if id < root.id {
                        assert(graph.nodes()[id as int].0 != node@);
                    } else if root.id < id {
                        assert(graph.nodes()[root.id as int].0 != node@);
                    }
                }
            }
            angles
        },
        Err(_) => Vec::new(),
    }
}

/// Each child lies exactly `1 / count` of a turn after the one before it.
pub proof fn lemma_evenly_spaced(start: Angle, count: usize, i: int)
    requires
        start.starts(),
        0 <= i,
        i + 1 < count,
    ensures
        one_step_apart(child_angle(start, count, i), child_angle(start, count, i + 1), count),
{
    lemma_fits(start, count, i);
    lemma_fits(start, count, i + 1);
    let a = child_angle(start, count, i);
    let b = child_angle(start, count, i + 1);
    let d = start.den * count;
    assert(a.den == d && b.den == d);
    assert(b.num - a.num == start.den) by (nonlinear_arith)
        requires
            b.num == start.num * count + (i + 1) * start.den,
            a.num == start.num * count + i * start.den,
    ;
    assert(b.num * d - a.num * d == start.den * d) by (nonlinear_arith)
        requires
            b.num - a.num == start.den,
    ;
    assert(d * d == count * (start.den * d)) by (nonlinear_arith)
        requires
            d == start.den * count,
    ;
}

/// No two children of one parent point the same way: their directions are
/// less than a full turn apart and not equal.
pub proof fn lemma_children_distinct(start: Angle, count: usize, i: int, j: int)
    requires
        start.starts(),
        0 <= i < j < count,
    ensures
        child_angle(start, count, i) != child_angle(start, count, j),
        !same_direction(child_angle(start, count, j), child_angle(start, count, i)),
{
    lemma_fits(start, count, i);
    lemma_fits(start, count, j);
    let a = child_angle(start, count, i);
    let b = child_angle(start, count, j);
    let d = start.den * count;
    let gap = (j - i) * start.den;
    assert(0 < gap < d) by (nonlinear_arith)
        requires
            gap == (j - i) * start.den,
            d == start.den * count,
            0 < j - i < count,
            0 < start.den,
    ;
    assert(b.num - a.num == gap) by (nonlinear_arith)
        requires
            b.num == start.num * count + j * start.den,
            a.num == start.num * count + i * start.den,
            gap == (j - i) * start.den,
    ;
    assert(b.num * d - a.num * d == gap * d) by (nonlinear_arith)
        requires
            b.num - a.num == gap,
    ;
    assert((gap * d) % (d * d) != 0) by (nonlinear_arith)
        requires
            0 < gap < d,
    {
        assert(0 < gap * d < d * d);
    }
}

} // verus!
