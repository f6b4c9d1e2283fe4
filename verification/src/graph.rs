//! The graph model: nodes with a title and a position, directed edges between
//! them, and the look-ups that views and clicks need.

use crate::geometry::Point;
use crate::store::graph_add_edge;
use crate::store::graph_add_node;
use crate::store::graph_edge_count;
use crate::store::graph_edge_endpoints;
use crate::store::graph_edge_weight;
use crate::store::graph_edges;
use crate::store::graph_new;
use crate::store::graph_node_count;
use crate::store::graph_node_weight;
use crate::store::graph_nodes;
use crate::store::NetworkGraph;
use crate::store::MAX_ITEMS;
use crate::titles::lemma_sample_titles_unique;
use crate::titles::unique_titles;
use vstd::prelude::*;

verus! {

/// Why a call on a graph, or a frame, was refused.
#[derive(Clone, Copy, Debug, PartialEq, Eq, Structural)]
pub enum GraphError {
    /// An edge names a node that the graph does not hold.
    InvalidReference,
    /// No node has the title, or the id, that was asked for.
    NotFound,
    /// No drawing surface of the size asked for can be had.
    SurfaceUnavailable,
}

/// What a node carries: its title and its position.
#[derive(Debug)]
pub struct CompanyData {
    title: String,
    x: i32,
    y: i32,
}

impl View for CompanyData {
    type V = (Seq<char>, i32, i32);

    closed spec fn view(&self) -> (Seq<char>, i32, i32) {
        (self.title@, self.x, self.y)
    }
}

impl CompanyData {
    /// The data of a node with the given title at the given position.
    pub fn new(title: String, x: i32, y: i32) -> (data: Self)
        ensures
            data@ == (title@, x, y),
    {
        Self { title, x, y }
    }
}

impl Clone for CompanyData {
    fn clone(&self) -> (copy: Self)
        ensures
            copy@ == self@,
    {
        Self { title: self.title.clone(), x: self.x, y: self.y }
    }
}

/// What can be read of a node's data.
pub trait NodeData {
    spec fn title_spec(&self) -> Seq<char>;

    spec fn x_spec(&self) -> i32;

    spec fn y_spec(&self) -> i32;

    fn title(&self) -> (title: String)
        ensures
            title@ == self.title_spec(),
    ;

    fn x(&self) -> (x: i32)
        ensures
            x == self.x_spec(),
    ;

    fn y(&self) -> (y: i32)
        ensures
            y == self.y_spec(),
    ;
}

impl NodeData for CompanyData {
    open spec fn title_spec(&self) -> Seq<char> {
        self@.0
    }

    open spec fn x_spec(&self) -> i32 {
        self@.1
    }

    open spec fn y_spec(&self) -> i32 {
        self@.2
    }

    fn title(&self) -> (title: String) {
        self.title.clone()
    }

    fn x(&self) -> (x: i32) {
        self.x
    }

    fn y(&self) -> (y: i32) {
        self.y
    }
}

/// A node as a graph hands it out: its id in that graph and its data.
#[derive(Debug)]
pub struct Node {
    pub id: usize,
    pub data: CompanyData,
}

/// A directed edge between two nodes of one graph.
#[derive(Clone, Copy, Debug, PartialEq, Eq, Structural)]
pub struct Edge {
    pub source: usize,
    pub target: usize,
    pub weight: usize,
}

/// The edges among `edges` that leave the node `id`, in the order of `edges`.
pub open spec fn out_edges(edges: Seq<(usize, usize, usize)>, id: usize) -> Seq<(usize, usize, usize)> {
    edges.filter(|e: (usize, usize, usize)| e.0 == id)
}

/// Where a node is.
pub open spec fn position(node: (Seq<char>, i32, i32)) -> Point {
    Point { x: node.1, y: node.2 }
}

/// Whether no node before `limit` has the title.
pub open spec fn title_absent_before(nodes: Seq<(Seq<char>, i32, i32)>, title: Seq<char>, limit: int) -> bool {
    forall|j: int| 0 <= j < limit && j < nodes.len() ==> (#[trigger] nodes[j]).0 != title
}

/// Whether the node `id` is the first, by id, that has the title.
pub open spec fn is_first_with_title(nodes: Seq<(Seq<char>, i32, i32)>, title: Seq<char>, id: int) -> bool {
    &&& 0 <= id < nodes.len()
    &&& nodes[id].0 == title
    &&& title_absent_before(nodes, title, id)
}

/// The edges that leave a node among the first `i + 1` edges: those among
/// the first `i`, and the edge `i` where it leaves the node too.
pub proof fn lemma_out_edges_step(edges: Seq<(usize, usize, usize)>, id: usize, i: int)
    requires
        0 <= i < edges.len(),
    ensures
        out_edges(edges.take(i + 1), id) == if edges[i].0 == id {
            out_edges(edges.take(i), id).push(edges[i])
        } else {
            out_edges(edges.take(i), id)
        },
{
    reveal(Seq::filter);
    assert(edges.take(i + 1).drop_last() =~= edges.take(i));
}

/// Where the child `j` of a group goes: to the position `j` of `ring` where
/// the ring reaches that far, else to the origin, which stands for "not yet
/// placed".
pub open spec fn slot(ring: Seq<Point>, j: int) -> Point {
    if 0 <= j < ring.len() {
        ring[j]
    } else {
        Point { x: 0, y: 0 }
    }
}

/// The titles as a sequence of character sequences.
pub open spec fn title_views(titles: Seq<String>) -> Seq<Seq<char>> {
    Seq::new(titles.len(), |j: int| titles[j]@)
}

/// One node for each title, in order, each at its slot of `ring`.
pub open spec fn placed(titles: Seq<Seq<char>>, ring: Seq<Point>) -> Seq<(Seq<char>, i32, i32)> {
    Seq::new(titles.len(), |j: int| (titles[j], slot(ring, j).x, slot(ring, j).y))
}

/// `count` edges of weight 1 from `parent` to the nodes `first`, `first + 1`
/// and so on.
pub open spec fn spokes(parent: usize, first: int, count: nat) -> Seq<(usize, usize, usize)> {
    Seq::new(count, |j: int| (parent, (first + j) as usize, 1usize))
}

/// No more edges leave a node than there are edges.
pub proof fn lemma_out_edges_len(edges: Seq<(usize, usize, usize)>, id: usize)
    ensures
        out_edges(edges, id).len() <= edges.len(),
    decreases edges.len(),
{
    reveal(Seq::filter);
    if edges.len() > 0 {
        lemma_out_edges_len(edges.drop_last(), id);
    }
}

/// Every edge that leaves a node is an edge of the graph and has that node as
/// its source.
pub proof fn lemma_out_edges_members(edges: Seq<(usize, usize, usize)>, id: usize, j: int)
    requires
        0 <= j < out_edges(edges, id).len(),
    ensures
        out_edges(edges, id)[j].0 == id,
        edges.contains(out_edges(edges, id)[j]),
    decreases edges.len(),
{
    reveal(Seq::filter);
    if edges.len() > 0 {
        let rest = out_edges(edges.drop_last(), id);
        if j < rest.len() {
            lemma_out_edges_members(edges.drop_last(), id, j);
            let k = choose|k: int| 0 <= k < edges.drop_last().len() && edges.drop_last()[k] == rest[j];
            assert(edges[k] == rest[j]);
        } else {
            assert(edges[edges.len() - 1] == edges.last());
        }
    }
}

/// A graph of titled, placed nodes and weighted directed edges. Ids are given
/// in the order in which nodes are added, from 0 on, and nothing is ever
/// removed.
pub struct GraphModel {
    graph: NetworkGraph,
}

impl GraphModel {
    /// The nodes by id: title, x, y.
    pub closed spec fn nodes(&self) -> Seq<(Seq<char>, i32, i32)> {
        graph_nodes(self.graph)
    }

    /// The edges in the order in which they were added: source, target,
    /// weight.
    pub closed spec fn edges(&self) -> Seq<(usize, usize, usize)> {
        graph_edges(self.graph)
    }

    /// Both ends of every edge are nodes of the graph, and the counts are
    /// within what the container takes.
    pub open spec fn wf(&self) -> bool {
        &&& self.nodes().len() <= MAX_ITEMS
        &&& self.edges().len() <= MAX_ITEMS
        &&& forall|i: int|
            0 <= i < self.edges().len() ==> (#[trigger] self.edges()[i]).0 < self.nodes().len()
                && self.edges()[i].1 < self.nodes().len()
    }

    /// The edges that leave the node `id`, in the order in which they were
    /// added.
    pub open spec fn children(&self, id: usize) -> Seq<(usize, usize, usize)> {
        out_edges(self.edges(), id)
    }

    /// Whether the view centred on the first node with the title has room in
    /// a graph: the node has fewer than `MAX_ITEMS` children, so that they
    /// and the node itself are at most `MAX_ITEMS` nodes. It has, unless the
    /// graph holds `MAX_ITEMS` edges and all of them leave that node.
    pub open spec fn view_fits(&self, title: Seq<char>) -> bool {
        forall|id: usize|
            is_first_with_title(self.nodes(), title, id as int) ==> (#[trigger] self.children(id)).len()
                < MAX_ITEMS
    }

    /// Whether `node` is the node `id` of this graph.
    pub open spec fn holds_node(&self, node: Node, id: int) -> bool {
        &&& 0 <= id < self.nodes().len()
        &&& node.id == id
        &&& node.data@ == self.nodes()[id]
    }

    /// Whether `listed` is what leaves the node `id`: one pair for each such
    /// edge, in the order of the edges, each with the node it leads to.
    pub open spec fn lists_children(&self, id: usize, listed: Seq<(Edge, Node)>) -> bool {
        &&& listed.len() == self.children(id).len()
        &&& forall|j: int|
            0 <= j < listed.len() ==> {
                &&& (#[trigger] listed[j]).0.source == self.children(id)[j].0
                &&& listed[j].0.target == self.children(id)[j].1
                &&& listed[j].0.weight == self.children(id)[j].2
                &&& self.holds_node(listed[j].1, self.children(id)[j].1 as int)
            }
    }

    /// A graph without nodes or edges.
    pub fn new() -> (model: Self)
        ensures
            model.wf(),
            model.nodes() == Seq::<(Seq<char>, i32, i32)>::empty(),
            model.edges() == Seq::<(usize, usize, usize)>::empty(),
    {
        GraphModel { graph: graph_new() }
    }

    /// The number of nodes.
    pub fn node_count(&self) -> (n: usize)
        ensures
            n == self.nodes().len(),
    {
        graph_node_count(&self.graph)
    }

    /// The number of edges.
    pub fn edge_count(&self) -> (n: usize)
        ensures
            n == self.edges().len(),
    {
        graph_edge_count(&self.graph)
    }

    /// Tells whether the graph is well formed. Every graph that this library
    /// hands out is.
    pub fn is_well_formed(&self) -> (ok: bool)
        ensures
            ok == self.wf(),
    {
        let n = graph_node_count(&self.graph);
        let m = graph_edge_count(&self.graph);
        if n > MAX_ITEMS || m > MAX_ITEMS {
            return false;
        }
        let mut i: usize = 0;
        while i < m
            invariant
                n == self.nodes().len(),
                m == self.edges().len(),
                m <= MAX_ITEMS,
                i <= m,
                forall|k: int|
                    0 <= k < i ==> (#[trigger] self.edges()[k]).0 < self.nodes().len() && self.edges()[k].1
                        < self.nodes().len(),
            decreases m - i,
        {
            match graph_edge_endpoints(&self.graph, i) {
                Some(ends) => {
                    if ends.0 >= n || ends.1 >= n {
                        return false;
                    }
                },
                None => {},
            }
            i = i + 1;
        }
        true
    }

    /// Adds a node and returns its id: the number of nodes before the call.
    pub fn add_node(&mut self, title: String, x: i32, y: i32) -> (id: usize)
        requires
            old(self).wf(),
            old(self).nodes().len() < MAX_ITEMS,
        ensures
            final(self).wf(),
            final(self).nodes() == old(self).nodes().push((title@, x, y)),
            final(self).edges() == old(self).edges(),
            id == old(self).nodes().len(),
    {
        graph_add_node(&mut self.graph, title, x, y)
    }

    /// Adds an edge from `source` to `target`. Where one of them is no node of
    /// the graph the edge is refused and the graph stays as it was.
    pub fn add_edge(&mut self, source: usize, target: usize, weight: usize) -> (added: Result<(), GraphError>)
        requires
            old(self).wf(),
            old(self).edges().len() < MAX_ITEMS,
        ensures
            final(self).wf(),
            final(self).nodes() == old(self).nodes(),
            added.is_ok() <==> source < old(self).nodes().len() && target < old(self).nodes().len(),
            added.is_ok() ==> final(self).edges() == old(self).edges().push((source, target, weight)),
            added.is_err() ==> added == Err::<(), GraphError>(GraphError::InvalidReference) && final(self).edges()
                == old(self).edges(),
    {
        let n = graph_node_count(&self.graph);
        if source >= n || target >= n {
            return Err(GraphError::InvalidReference);
        }
        let _ = graph_add_edge(&mut self.graph, source, target, weight);
        Ok(())
    }

    /// Adds one node for each title, in order, and an edge of weight 1 from
    /// `parent` to each. The node `j` of the group is put at the position `j`
    /// of `ring`; where the ring is shorter, at the origin.
    pub fn attach_children(&mut self, parent: usize, titles: &Vec<String>, ring: &Vec<Point>)
        requires
            old(self).wf(),
            parent < old(self).nodes().len(),
            old(self).nodes().len() + titles@.len() <= MAX_ITEMS,
            old(self).edges().len() + titles@.len() <= MAX_ITEMS,
        ensures
            final(self).wf(),
            final(self).nodes() == old(self).nodes() + placed(title_views(titles@), ring@),
            final(self).edges() == old(self).edges() + spokes(
                parent,
                old(self).nodes().len() as int,
                titles@.len(),
            ),
    {
        let ghost nodes0 = self.nodes();
        let ghost edges0 = self.edges();
        let mut j: usize = 0;
        while j < titles.len()
            invariant
                self.wf(),
                j <= titles@.len(),
                parent < nodes0.len(),
                nodes0.len() + titles@.len() <= MAX_ITEMS,
                edges0.len() + titles@.len() <= MAX_ITEMS,
                self.nodes() == nodes0 + placed(title_views(titles@), ring@).take(j as int),
                self.edges() == edges0 + spokes(parent, nodes0.len() as int, titles@.len()).take(j as int),
            decreases titles@.len() - j,
        {
            let at = if j < ring.len() {
                ring[j]
            } else {
                Point { x: 0, y: 0 }
            };
            let id = self.add_node(titles[j].clone(), at.x, at.y);
            let _ = self.add_edge(parent, id, 1);
            proof {
                let all = placed(title_views(titles@), ring@);
                let links = spokes(parent, nodes0.len() as int, titles@.len());
                assert(all.take(j + 1) =~= all.take(j as int).push(all[j as int]));
                assert(links.take(j + 1) =~= links.take(j as int).push(links[j as int]));
                assert(self.nodes() =~= nodes0 + all.take(j + 1));
                assert(self.edges() =~= edges0 + links.take(j + 1));
            }
            j = j + 1;
        }
        proof {
            let all = placed(title_views(titles@), ring@);
            let links = spokes(parent, nodes0.len() as int, titles@.len());
            assert(all.take(j as int) =~= all);
            assert(links.take(j as int) =~= links);
        }
    }

    /// The node with the given id.
    pub fn node_by_id(&self, id: usize) -> (found: Result<Node, GraphError>)
        requires
            self.wf(),
        ensures
            found.is_ok() <==> id < self.nodes().len(),
            match found {
                Ok(node) => node.id == id && self.holds_node(node, id as int),
                Err(e) => e == GraphError::NotFound,
            },
    {
        if id > MAX_ITEMS {
            return Err(GraphError::NotFound);
        }
        match graph_node_weight(&self.graph, id) {
            Some(w) => Ok(Node { id, data: CompanyData::new(w.0.clone(), w.1, w.2) }),
            None => Err(GraphError::NotFound),
        }
    }

    /// Where the node with the given id is, or `None` where there is no such
    /// node.
    pub fn position_of(&self, id: usize) -> (at: Option<Point>)
        requires
            self.wf(),
        ensures
            at == if id < self.nodes().len() {
                Some(position(self.nodes()[id as int]))
            } else {
                None
            },
    {
        if id > MAX_ITEMS {
            return None;
        }
        match graph_node_weight(&self.graph, id) {
            Some(w) => Some(Point { x: w.1, y: w.2 }),
            None => None,
        }
    }

    /// The edge that was added as the `index`-th, counted from 0, or `None`
    /// where there are not that many.
    pub fn edge_by_index(&self, index: usize) -> (edge: Option<Edge>)
        requires
            self.wf(),
        ensures
            edge == if index < self.edges().len() {
                Some(
                    Edge {
                        source: self.edges()[index as int].0,
                        target: self.edges()[index as int].1,
                        weight: self.edges()[index as int].2,
                    },
                )
            } else {
                None
            },
    {
        if index > MAX_ITEMS {
            return None;
        }
        let ends = graph_edge_endpoints(&self.graph, index);
        let weight = graph_edge_weight(&self.graph, index);
        match (ends, weight) {
            (Some(pair), Some(w)) => Some(Edge { source: pair.0, target: pair.1, weight: w }),
            _ => None,
        }
    }

    /// The first node, by id, that has the given title.
    pub fn node_by_title(&self, title: &str) -> (found: Result<Node, GraphError>)
        requires
            self.wf(),
        ensures
            match found {
                Ok(node) => {
                    &&& self.holds_node(node, node.id as int)
                    &&& is_first_with_title(self.nodes(), title@, node.id as int)
                },
                Err(e) => e == GraphError::NotFound && title_absent_before(
                    self.nodes(),
                    title@,
                    self.nodes().len() as int,
                ),
            },
    {
        let wanted = title.to_owned();
        let n = graph_node_count(&self.graph);
        let mut i: usize = 0;
        while i < n
            invariant
                self.wf(),
                n == self.nodes().len(),
                i <= n,
                wanted@ == title@,
                title_absent_before(self.nodes(), title@, i as int),
            decreases n - i,
        {
            match graph_node_weight(&self.graph, i) {
                Some(w) => {
                    if w.0 == wanted {
                        return Ok(Node { id: i, data: CompanyData::new(w.0.clone(), w.1, w.2) });
                    }
                },
                None => {},
            }
            i = i + 1;
        }
        Err(GraphError::NotFound)
    }

    /// The number of edges that leave the node `id`.
    pub fn out_degree(&self, id: usize) -> (n: usize)
        requires
            self.wf(),
        ensures
            n == self.children(id).len(),
    {
        let m = graph_edge_count(&self.graph);
        let mut n: usize = 0;
        let mut i: usize = 0;
        proof {
            assert(self.edges().take(0) =~= Seq::<(usize, usize, usize)>::empty());
            reveal(Seq::filter);
        }
        while i < m
            invariant
                self.wf(),
                m == self.edges().len(),
                i <= m,
                n <= i,
                n == out_edges(self.edges().take(i as int), id).len(),
            decreases m - i,
        {
            proof {
                lemma_out_edges_step(self.edges(), id, i as int);
            }
            match graph_edge_endpoints(&self.graph, i) {
                Some(ends) => {
                    if ends.0 == id {
                        n = n + 1;
                    }
                },
                None => {},
            }
            i = i + 1;
        }
        proof {
            assert(self.edges().take(m as int) =~= self.edges());
        }
        n
    }

    /// What leaves the node `id`: each edge with the node it leads to, in the
    /// order in which the edges were added. The graph is only read, so a
    /// second call lists the same.
    pub fn children_of(&self, id: usize) -> (listed: Vec<(Edge, Node)>)
        requires
            self.wf(),
        ensures
            self.lists_children(id, listed@),
    {
        let m = graph_edge_count(&self.graph);
        let mut listed: Vec<(Edge, Node)> = Vec::new();
        let mut i: usize = 0;
        proof {
            assert(self.edges().take(0) =~= Seq::<(usize, usize, usize)>::empty());
            reveal(Seq::filter);
        }
        while i < m
            invariant
                self.wf(),
                m == self.edges().len(),
                i <= m,
                listed@.len() == out_edges(self.edges().take(i as int), id).len(),
                forall|j: int|
                    0 <= j < listed@.len() ==> {
                        &&& (#[trigger] listed@[j]).0.source == out_edges(self.edges().take(i as int), id)[j].0
                        &&& listed@[j].0.target == out_edges(self.edges().take(i as int), id)[j].1
                        &&& listed@[j].0.weight == out_edges(self.edges().take(i as int), id)[j].2
                        &&& self.holds_node(listed@[j].1, out_edges(self.edges().take(i as int), id)[j].1 as int)
                    },
            decreases m - i,
        {
            proof {
                lemma_out_edges_step(self.edges(), id, i as int);
            }
            let ends = graph_edge_endpoints(&self.graph, i);
            let weight = graph_edge_weight(&self.graph, i);
            match (ends, weight) {
                (Some(pair), Some(w)) => {
                    if pair.0 == id {
                        match graph_node_weight(&self.graph, pair.1) {
                            Some(t) => {
                                let node = Node { id: pair.1, data: CompanyData::new(t.0.clone(), t.1, t.2) };
                                let edge = Edge { source: pair.0, target: pair.1, weight: w };
                                listed.push((edge, node));
                            },
                            None => {},
                        }
                    }
                },
                _ => {},
            }
            i = i + 1;
        }
        proof {
            assert(self.edges().take(m as int) =~= self.edges());
        }
        listed
    }
}

/// Listing what leaves a node is repeatable: two listings of the same node of
/// the same graph agree pair by pair.
pub proof fn lemma_children_restartable(model: GraphModel, id: usize, first: Seq<(Edge, Node)>, second: Seq<(Edge, Node)>)
    requires
        model.lists_children(id, first),
        model.lists_children(id, second),
    ensures
        first.len() == second.len(),
        forall|j: int|
            0 <= j < first.len() ==> (#[trigger] first[j]).0 == second[j].0 && first[j].1.id == second[j].1.id
                && first[j].1.data@ == second[j].1.data@,
{
    assert forall|j: int| 0 <= j < first.len() implies (#[trigger] first[j]).0 == second[j].0 && first[j].1.id
        == second[j].1.id && first[j].1.data@ == second[j].1.data@ by {
        let a = first[j];
        let b = second[j];
        assert(a.0.source == b.0.source);
    }
}

/// The titles of the areas of the sample company, the children of its root.
pub open spec fn sample_areas() -> Seq<Seq<char>> {
    seq!["Recruiters"@, "Data Annotation"@, "Customers"@, "ERP"@, "AV Testing"@]
}

/// The members of each area of the sample company.
pub open spec fn sample_recruiters() -> Seq<Seq<char>> {
    seq!["Recruiter 1"@, "Recruiter 2"@, "Recruiter 3"@, "Recruiter 4"@, "Recruiter 5"@]
}

pub open spec fn sample_data_annotation() -> Seq<Seq<char>> {
    seq![
        "Data Annotation 1"@,
        "Data Annotation 2"@,
        "Data Annotation 3"@,
        "Data Annotation 4"@,
        "Data Annotation 5"@,
        "Data Annotation 6"@,
    ]
}

pub open spec fn sample_customers() -> Seq<Seq<char>> {
    seq![
        "Customer 1"@,
        "Customer 2"@,
        "Customer 3"@,
        "Customer 4"@,
        "Customer 5"@,
        "Customer 6"@,
        "Customer 7"@,
        "Customer 8"@,
        "Customer 9"@,
        "Customer 10"@,
    ]
}

pub open spec fn sample_erp() -> Seq<Seq<char>> {
    seq!["ERP 1"@, "ERP 2"@, "ERP 3"@, "ERP 4"@]
}

pub open spec fn sample_av_testing() -> Seq<Seq<char>> {
    seq!["AV Testing 1"@, "AV Testing 2"@, "AV Testing 3"@]
}

/// The ring `j` of `rings`, or no ring where there are not that many.
pub open spec fn ring_of(rings: Seq<Vec<Point>>, j: int) -> Seq<Point> {
    if 0 <= j < rings.len() {
        rings[j]@
    } else {
        Seq::empty()
    }
}

/// The nodes of the sample company: the root at the centre of a surface of
/// 1800 by 900, then the five areas on `area_ring`, then the members of each
/// area, area by area, those of the area `j` on the ring `j` of
/// `member_rings`. Whoever has no place on a ring is at the origin.
pub open spec fn sample_nodes_on(area_ring: Seq<Point>, member_rings: Seq<Vec<Point>>) -> Seq<
    (Seq<char>, i32, i32),
> {
    seq![("Security Union"@, 900i32, 450i32)] + placed(sample_areas(), area_ring) + placed(
        sample_recruiters(),
        ring_of(member_rings, 0),
    ) + placed(sample_data_annotation(), ring_of(member_rings, 1)) + placed(
        sample_customers(),
        ring_of(member_rings, 2),
    ) + placed(sample_erp(), ring_of(member_rings, 3)) + placed(sample_av_testing(), ring_of(member_rings, 4))
}

/// The nodes of the sample company with only the root placed.
pub open spec fn sample_nodes() -> Seq<(Seq<char>, i32, i32)> {
    sample_nodes_on(Seq::empty(), Seq::empty())
}

/// The edges of the sample company: from the root to each area, then from
/// each area to its members.
pub open spec fn sample_edges() -> Seq<(usize, usize, usize)> {
    spokes(0, 1, 5) + spokes(1, 6, 5) + spokes(2, 11, 6) + spokes(3, 17, 10) + spokes(4, 27, 4) + spokes(5, 31, 3)
}

/// The sample company is a tree with node 0 as its root: it has one edge
/// for each node but the root, and the edge `i` leads to the node `i + 1`
/// from a node before it. So every node can be reached from the root, and no
/// edge leads from a node to itself.
pub proof fn lemma_sample_is_a_tree(area_ring: Seq<Point>, member_rings: Seq<Vec<Point>>)
    ensures
        sample_nodes_on(area_ring, member_rings).len() == 34,
        sample_edges().len() == 33,
        forall|i: int|
            0 <= i < 33 ==> (#[trigger] sample_edges()[i]).1 == i + 1 && sample_edges()[i].0 <= i
                && sample_edges()[i].2 == 1,
{
    let edges = sample_edges();
    assert forall|i: int| 0 <= i < 33 implies (#[trigger] edges[i]).1 == i + 1 && edges[i].0 <= i && edges[i].2
        == 1 by {
        if i < 5 {
            assert(edges[i] == spokes(0, 1, 5)[i]);
        } else if i < 10 {
            assert(edges[i] == spokes(1, 6, 5)[i - 5]);
        } else if i < 16 {
            assert(edges[i] == spokes(2, 11, 6)[i - 10]);
        } else if i < 26 {
            assert(edges[i] == spokes(3, 17, 10)[i - 16]);
        } else if i < 30 {
            assert(edges[i] == spokes(4, 27, 4)[i - 26]);
        } else {
            assert(edges[i] == spokes(5, 31, 3)[i - 30]);
        }
    }
}

/// The titles as owned strings.
fn owned_titles(names: &Vec<&'static str>) -> (titles: Vec<String>)
    ensures
        titles@.len() == names@.len(),
        forall|j: int| 0 <= j < names@.len() ==> (#[trigger] titles@[j])@ == names@[j]@,
{
    let mut titles: Vec<String> = Vec::new();
    let mut j: usize = 0;
    while j < names.len()
        invariant
            j <= names@.len(),
            titles@.len() == j,
            forall|k: int| 0 <= k < j ==> (#[trigger] titles@[k])@ == names@[k]@,
        decreases names@.len() - j,
    {
        titles.push(names[j].to_owned());
        j = j + 1;
    }
    titles
}

/// The ring `j` of `rings`, or `none` where there are not that many.
fn ring_at<'a>(rings: &'a Vec<Vec<Point>>, j: usize, none: &'a Vec<Point>) -> (ring: &'a Vec<Point>)
    requires
        none@.len() == 0,
    ensures
        ring@ == ring_of(rings@, j as int),
{
    if j < rings.len() {
        &rings[j]
    } else {
        none
    }
}

/// Builds the sample company with its places: a root, its five areas on
/// `area_ring`, and the members of each area, those of the area `j` on the
/// ring `j` of `member_rings`. An area or a member for which a ring has no
/// place, or for which there is no ring, stays at the origin.
pub fn generate_graph_placed(area_ring: &Vec<Point>, member_rings: &Vec<Vec<Point>>) -> (model: GraphModel)
    ensures
        model.wf(),
        model.nodes() == sample_nodes_on(area_ring@, member_rings@),
        model.edges() == sample_edges(),
        unique_titles(model.nodes()),
{
    let width: i32 = 1800;
    let height: i32 = 900;
    let none: Vec<Point> = Vec::new();
    let areas = owned_titles(&vec!["Recruiters", "Data Annotation", "Customers", "ERP", "AV Testing"]);
    let recruiters = owned_titles(
        &vec!["Recruiter 1", "Recruiter 2", "Recruiter 3", "Recruiter 4", "Recruiter 5"],
    );
    let data_annotation = owned_titles(
        &vec![
            "Data Annotation 1",
            "Data Annotation 2",
            "Data Annotation 3",
            "Data Annotation 4",
            "Data Annotation 5",
            "Data Annotation 6",
        ],
    );
    let customers = owned_titles(
        &vec![
            "Customer 1",
            "Customer 2",
            "Customer 3",
            "Customer 4",
            "Customer 5",
            "Customer 6",
            "Customer 7",
            "Customer 8",
            "Customer 9",
            "Customer 10",
        ],
    );
    let erp = owned_titles(&vec!["ERP 1", "ERP 2", "ERP 3", "ERP 4"]);
    let av_testing = owned_titles(&vec!["AV Testing 1", "AV Testing 2", "AV Testing 3"]);
    proof {
        assert(title_views(areas@) =~= sample_areas());
        assert(title_views(recruiters@) =~= sample_recruiters());
        assert(title_views(data_annotation@) =~= sample_data_annotation());
        assert(title_views(customers@) =~= sample_customers());
        assert(title_views(erp@) =~= sample_erp());
        assert(title_views(av_testing@) =~= sample_av_testing());
    }

    let mut model = GraphModel::new();
    let root = model.add_node("Security Union".to_owned(), width / 2, height / 2);
    model.attach_children(root, &areas, area_ring);
    model.attach_children(1, &recruiters, ring_at(member_rings, 0, &none));
    model.attach_children(2, &data_annotation, ring_at(member_rings, 1, &none));
    model.attach_children(3, &customers, ring_at(member_rings, 2, &none));
    model.attach_children(4, &erp, ring_at(member_rings, 3, &none));
    model.attach_children(5, &av_testing, ring_at(member_rings, 4, &none));
    proof {
        assert(model.nodes() =~= sample_nodes_on(area_ring@, member_rings@));
        assert(model.edges() =~= sample_edges());
        lemma_sample_titles_unique(area_ring@, member_rings@);
    }
    model
}

/// Builds the sample company: a root, its five areas and the members of each
/// area. Only the root is placed; a view places the others when it centres
/// on their parent.
pub fn generate_graph() -> (model: GraphModel)
    ensures
        model.wf(),
        model.nodes() == sample_nodes(),
        model.edges() == sample_edges(),
        unique_titles(model.nodes()),
{
    let area_ring: Vec<Point> = Vec::new();
    let member_rings: Vec<Vec<Point>> = Vec::new();
    generate_graph_placed(&area_ring, &member_rings)
}

} // verus!
