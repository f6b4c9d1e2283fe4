//! Drilling down: from a node of a graph to the view that is centred on it.

use crate::geometry::Point;
use crate::graph::lemma_out_edges_len;
use crate::graph::lemma_out_edges_members;
use crate::graph::out_edges;
use crate::graph::placed;
use crate::graph::spokes;
use crate::graph::title_views;
use crate::graph::GraphError;
use crate::graph::GraphModel;
use crate::graph::NodeData;
use crate::store::MAX_ITEMS;
use vstd::prelude::*;

verus! {

/// What the router is told after a drill-down: the title of the node that is
/// now at the centre.
#[derive(Debug)]
pub struct NavigationEvent {
    pub title: String,
}

/// What is on show: the graph as it was first shown, or the view centred on
/// a node that was picked.
#[derive(Clone, Copy, Debug, PartialEq, Eq, Structural)]
pub enum DrillState {
    Overview,
    Focused(usize),
}

/// The state after a click: a click that picked a node leads to the view of
/// that node, from either state; a click that picked none changes nothing.
pub fn next_state(state: DrillState, hit: Option<usize>) -> (next: DrillState)
    ensures
        next == match hit {
            Some(id) => DrillState::Focused(id),
            None => state,
        },
{
    match hit {
        Some(id) => DrillState::Focused(id),
        None => state,
    }
}

/// The titles of the nodes that the edges leaving `id` lead to, in the order
/// of those edges.
pub open spec fn child_titles(source: &GraphModel, id: usize) -> Seq<Seq<char>> {
    Seq::new(
        source.children(id).len(),
        |j: int| source.nodes()[source.children(id)[j].1 as int].0,
    )
}

/// The nodes of the view centred on `id`: the node itself at `center`, then
/// its children, each at its slot of `ring`.
pub open spec fn focused_nodes(source: &GraphModel, id: usize, center: Point, ring: Seq<Point>) -> Seq<
    (Seq<char>, i32, i32),
> {
    seq![(source.nodes()[id as int].0, center.x, center.y)] + placed(child_titles(source, id), ring)
}

/// The edges of the view centred on `id`: one from the centre to each child.
pub open spec fn focused_edges(source: &GraphModel, id: usize) -> Seq<(usize, usize, usize)> {
    spokes(0, 1, source.children(id).len())
}

/// Builds the view centred on the node `id` of `source`, which must have
/// fewer than `MAX_ITEMS` children for the view to have room: a graph whose node 0
/// has the title of that node and lies at `center`, with one child for each
/// edge that leaves the node in `source`, in the order of those edges, and an
/// edge from node 0 to each child. The child `j` keeps the title it has in
/// `source` and lies at the position `j` of `ring`, or at the origin where
/// the ring is shorter. Nothing beyond one hop is taken over.
pub fn focus(source: &GraphModel, id: usize, center: Point, ring: &Vec<Point>) -> (view: Result<
    GraphModel,
    GraphError,
>)
    requires
        source.wf(),
        source.children(id).len() < MAX_ITEMS,
    ensures
        match view {
            Ok(model) => {
                &&& id < source.nodes().len()
                &&& model.wf()
                &&& model.nodes() == focused_nodes(source, id, center, ring@)
                &&& model.edges() == focused_edges(source, id)
                &&& model.nodes()[0].0 == source.nodes()[id as int].0
                &&& model.nodes().len() == 1 + source.children(id).len()
                &&& model.edges().len() == source.children(id).len()
            },
            Err(e) => e == GraphError::NotFound && id >= source.nodes().len(),
        },
{
    let root = match source.node_by_id(id) {
        Ok(node) => node,
        Err(e) => {
            return Err(e);
        },
    };
    let listed = source.children_of(id);
    let mut titles: Vec<String> = Vec::new();
    let mut j: usize = 0;
    while j < listed.len()
        invariant
            j <= listed@.len(),
            source.lists_children(id, listed@),
            titles@.len() == j,
            forall|k: int| 0 <= k < j ==> (#[trigger] titles@[k])@ == child_titles(source, id)[k],
        decreases listed@.len() - j,
    {
        titles.push(listed[j].1.data.title());
        j = j + 1;
    }
    proof {
        lemma_out_edges_len(source.edges(), id);
        assert(title_views(titles@) =~= child_titles(source, id));
    }
    let mut model = GraphModel::new();
    let center_id = model.add_node(root.data.title(), center.x, center.y);
    model.attach_children(center_id, &titles, ring);
    proof {
        assert(model.nodes() =~= focused_nodes(source, id, center, ring@));
        assert(model.edges() =~= focused_edges(source, id));
    }
    Ok(model)
}

/// Drills into the node `id` of `source`: the view centred on it, and the
/// event that carries its title to the router. The view's root has the title
/// of the node, and the view has as many edges as leave the node in `source`.
pub fn drill(source: &GraphModel, id: usize, center: Point, ring: &Vec<Point>) -> (drilled: Result<
    (GraphModel, NavigationEvent),
    GraphError,
>)
    requires
        source.wf(),
        source.children(id).len() < MAX_ITEMS,
    ensures
        match drilled {
            Ok((model, event)) => {
                &&& id < source.nodes().len()
                &&& model.wf()
                &&& model.nodes() == focused_nodes(source, id, center, ring@)
                &&& model.edges() == focused_edges(source, id)
                &&& model.nodes()[0].0 == source.nodes()[id as int].0
                &&& model.edges().len() == source.children(id).len()
                &&& event.title@ == source.nodes()[id as int].0
            },
            Err(e) => e == GraphError::NotFound && id >= source.nodes().len(),
        },
{
    match focus(source, id, center, ring) {
        Ok(model) => {
            match model.node_by_id(0) {
                Ok(root) => Ok((model, NavigationEvent { title: root.data.title() })),
                Err(e) => Err(e),
            }
        },
        Err(e) => Err(e),
    }
}

/// A child of a view has no children of its own in that view: drilling into
/// it within the view gives a lone root. Each drill keeps one hop and no
/// more.
pub proof fn lemma_view_is_one_hop(source: &GraphModel, id: usize, child: usize)
    requires
        source.wf(),
        id < source.nodes().len(),
        child != 0,
    ensures
        out_edges(focused_edges(source, id), child).len() == 0,
{
    let edges = focused_edges(source, id);
    if out_edges(edges, child).len() > 0 {
        lemma_out_edges_members(edges, child, 0);
        let e = out_edges(edges, child)[0];
        let k = choose|k: int| 0 <= k < edges.len() && edges[k] == e;
        assert(edges[k].0 == 0);
    }
}

} // verus!
