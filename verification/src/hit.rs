//! Which node a click picks.

use crate::geometry::distance_squared;
use crate::geometry::is_node_clicked;
use crate::geometry::lemma_click_on_node_hits;
use crate::geometry::within_radius;
use crate::geometry::Point;
use crate::graph::position;
use crate::graph::GraphModel;
use vstd::prelude::*;

verus! {

/// Whether a click at `point` picks the node `id`.
pub open spec fn picks(model: &GraphModel, id: int, point: Point, pick_radius: u32) -> bool {
    0 <= id < model.nodes().len() && within_radius(position(model.nodes()[id]), point, pick_radius)
}

/// Whether `hit` is the answer to a click at `point`: the first node, by id,
/// that the click picks, or `None` where it picks none.
pub open spec fn is_first_pick(model: &GraphModel, point: Point, pick_radius: u32, hit: Option<usize>) -> bool {
    match hit {
        Some(id) => picks(model, id as int, point, pick_radius) && forall|j: int|
            0 <= j < id ==> !picks(model, j, point, pick_radius),
        None => forall|j: int| 0 <= j < model.nodes().len() ==> !picks(model, j, point, pick_radius),
    }
}

/// The node that a click at `point` picks: the first one, by id, that lies
/// within `pick_radius` of the click, the border included. Where the circles
/// of two nodes overlap, the one with the lower id wins.
///
/// A click on the very position of a node always picks a node, that one or
/// one before it; a click that is farther than the radius from every node
/// picks none.
pub fn hit_test(model: &GraphModel, point: Point, pick_radius: u32) -> (hit: Option<usize>)
    requires
        model.wf(),
    ensures
        is_first_pick(model, point, pick_radius, hit),
        forall|k: int|
            0 <= k < model.nodes().len() && position(#[trigger] model.nodes()[k]) == point ==> hit.is_some()
                && hit.unwrap() <= k,
        (forall|j: int|
            0 <= j < model.nodes().len() ==> distance_squared(position(#[trigger] model.nodes()[j]), point)
                > pick_radius * pick_radius) ==> hit.is_none(),
{
    let n = model.node_count();
    let mut i: usize = 0;
    while i < n
        invariant
            model.wf(),
            n == model.nodes().len(),
            i <= n,
            forall|j: int| 0 <= j < i ==> !picks(model, j, point, pick_radius),
        decreases n - i,
    {
        match model.position_of(i) {
            Some(at) => {
                if is_node_clicked(&at, &point, pick_radius) {
                    proof {
                        lemma_on_node_hits(model, point, pick_radius);
                    }
                    return Some(i);
                }
            },
            None => {},
        }
        i = i + 1;
    }
    proof {
        lemma_on_node_hits(model, point, pick_radius);
    }
    None
}

/// A click on the very position of a node picks that node, whatever the
/// radius.
pub proof fn lemma_on_node_hits(model: &GraphModel, point: Point, pick_radius: u32)
    ensures
        forall|k: int|
            0 <= k < model.nodes().len() && position(#[trigger] model.nodes()[k]) == point ==> picks(
                model,
                k,
                point,
                pick_radius,
            ),
{
    assert forall|k: int|
        0 <= k < model.nodes().len() && position(#[trigger] model.nodes()[k]) == point implies picks(
        model,
        k,
        point,
        pick_radius,
    ) by {
        lemma_click_on_node_hits(point, pick_radius);
    }
}

} // verus!
