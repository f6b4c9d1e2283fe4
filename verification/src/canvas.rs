//! What is to be painted for a graph, and the canvas that remembers the view
//! it painted last.
//!
//! A frame is built here, as plain values; whoever owns the drawing surface
//! paints it: the background first, then each shape in order (the line, the
//! disc on top of the line's end, the label inside the disc), and at the end
//! the buffer is copied to the visible surface at its origin.

use crate::drill::focus;
use crate::drill::focused_edges;
use crate::drill::focused_nodes;
use crate::geometry::Point;
use crate::graph::position;
use crate::graph::is_first_with_title;
use crate::graph::title_absent_before;
use crate::graph::GraphError;
use crate::graph::GraphModel;
use crate::graph::NodeData;
use vstd::prelude::*;

verus! {

/// The buffer is this many times as wide and as high as the surface.
pub const SUPERSAMPLING: u32 = 2;

/// The radius of the disc that stands for a node.
pub const NODE_RADIUS: u32 = 40;

/// The width of the line that stands for an edge.
pub const EDGE_WIDTH: u32 = 6;

/// The height of a label's text.
pub const TEXT_HEIGHT: u32 = 20;

/// The distance from the centre of a view to each of its children.
pub const LAYOUT_RADIUS: u32 = 300;

/// How near to the centre of a node a click must be to pick it. It is more
/// than the radius of the disc, so that a click anywhere on a disc picks a
/// node, and so does a click just beside it.
pub const PICK_RADIUS: u32 = 50;

/// The colour of the background.
pub fn background_color() -> (color: &'static str)
    ensures
        color@ == "#354343"@,
{
    "#354343"
}

/// The font of the labels.
pub fn label_font() -> (font: &'static str)
    ensures
        font@ == "bold 20px sans-serif"@,
{
    "bold 20px sans-serif"
}

/// What is painted for one edge: a line between its ends, a disc at its
/// target, and the target's title inside the disc.
#[derive(Debug)]
pub struct EdgeShape {
    pub from: Point,
    pub to: Point,
    pub title: String,
}

/// Everything that one rendering paints.
#[derive(Debug)]
pub struct Frame {
    /// The width and the height of the visible surface.
    pub width: u32,
    pub height: u32,
    /// The width and the height of the buffer that is painted first.
    pub buffer_width: u32,
    pub buffer_height: u32,
    /// One shape for each edge, in the order of the edges.
    pub shapes: Vec<EdgeShape>,
}

/// Whether `shape` is what is painted for the edge `index` of `model`.
pub open spec fn paints_edge(model: &GraphModel, index: int, shape: EdgeShape) -> bool {
    &&& shape.from == position(model.nodes()[model.edges()[index].0 as int])
    &&& shape.to == position(model.nodes()[model.edges()[index].1 as int])
    &&& shape.title@ == model.nodes()[model.edges()[index].1 as int].0
}

/// Whether `frame` is the rendering of `model` on a surface of `width` by
/// `height`.
pub open spec fn paints(model: &GraphModel, width: u32, height: u32, frame: Frame) -> bool {
    &&& frame.width == width
    &&& frame.height == height
    &&& frame.buffer_width == SUPERSAMPLING * width
    &&& frame.buffer_height == SUPERSAMPLING * height
    &&& frame.shapes@.len() == model.edges().len()
    &&& forall|j: int| 0 <= j < model.edges().len() ==> paints_edge(model, j, #[trigger] frame.shapes@[j])
}

/// Whether a buffer for a surface of `width` by `height` can be asked for:
/// its own width and height must be numbers of 32 bits.
pub open spec fn buffer_fits(width: u32, height: u32) -> bool {
    SUPERSAMPLING * width <= u32::MAX && SUPERSAMPLING * height <= u32::MAX
}

/// Renders `model` for a surface of `width` by `height`: the size of the
/// buffer, and one shape for every edge of the model, in the order in which
/// the edges were added. No edge is left out, whether or not it can be
/// reached from node 0, and a node that no edge leads to gets no disc.
pub fn render(model: &GraphModel, width: u32, height: u32) -> (rendered: Result<Frame, GraphError>)
    requires
        model.wf(),
    ensures
        match rendered {
            Ok(frame) => buffer_fits(width, height) && paints(model, width, height, frame),
            Err(e) => e == GraphError::SurfaceUnavailable && !buffer_fits(width, height),
        },
{
    if width > u32::MAX / SUPERSAMPLING || height > u32::MAX / SUPERSAMPLING {
        return Err(GraphError::SurfaceUnavailable);
    }
    let m = model.edge_count();
    let mut shapes: Vec<EdgeShape> = Vec::new();
    let mut i: usize = 0;
    while i < m
        invariant
            model.wf(),
            m == model.edges().len(),
            i <= m,
            shapes@.len() == i,
            forall|j: int| 0 <= j < i ==> paints_edge(model, j, #[trigger] shapes@[j]),
        decreases m - i,
    {
        let edge = model.edge_by_index(i).unwrap();
        let from = model.position_of(edge.source).unwrap();
        let target = model.node_by_id(edge.target).unwrap();
        let to = Point { x: target.data.x(), y: target.data.y() };
        shapes.push(EdgeShape { from, to, title: target.data.title() });
        i = i + 1;
    }
    Ok(
        Frame {
            width,
            height,
            buffer_width: SUPERSAMPLING * width,
            buffer_height: SUPERSAMPLING * height,
            shapes,
        },
    )
}

/// Where the text of a label starts, for a disc at `center` and a text that
/// was measured as `text_width` wide: half the width to the left of the
/// centre, and half the text's height below it.
pub fn label_origin(center: Point, text_width: u32) -> (origin: (i64, i64))
    ensures
        origin.0 == center.x - text_width / 2,
        origin.1 == center.y + TEXT_HEIGHT / 2,
{
    (center.x as i64 - (text_width / 2) as i64, center.y as i64 + (TEXT_HEIGHT / 2) as i64)
}

/// The centre of a surface of `width` by `height`.
pub open spec fn center_of(width: u32, height: u32) -> Point {
    Point { x: (width / 2) as i32, y: (height / 2) as i32 }
}

/// Why a view of `graph` centred on the title `node` cannot be drawn on a
/// surface of `width` by `height`, if it cannot: no node has the title, or no
/// buffer for a surface of that size can be asked for.
pub open spec fn draw_refusal(graph: &GraphModel, node: Seq<char>, width: u32, height: u32) -> Option<GraphError> {
    if title_absent_before(graph.nodes(), node, graph.nodes().len() as int) {
        Some(GraphError::NotFound)
    } else if !buffer_fits(width, height) {
        Some(GraphError::SurfaceUnavailable)
    } else {
        None
    }
}

/// A drawing surface as far as the views depend on it: its size, and the
/// view that was painted on it last, against which clicks are tested.
pub struct CanvasApp {
    width: u32,
    height: u32,
    graph: Option<GraphModel>,
}

impl CanvasApp {
    /// The width of the canvas.
    pub closed spec fn width_spec(&self) -> u32 {
        self.width
    }

    /// The height of the canvas.
    pub closed spec fn height_spec(&self) -> u32 {
        self.height
    }

    /// The view that was painted last, if any.
    pub closed spec fn shown(&self) -> Option<GraphModel> {
        self.graph
    }

    /// The view has both ends of each of its edges.
    pub open spec fn wf(&self) -> bool {
        self.shown().is_some() ==> self.shown().unwrap().wf()
    }

    /// Whether this canvas has the given size and shows the view of `graph`
    /// that is centred on the first node with the title `node`, around the
    /// centre of the canvas, with the children on `ring`.
    pub open spec fn shows(&self, graph: &GraphModel, node: Seq<char>, ring: Seq<Point>, width: u32, height: u32) -> bool {
        &&& self.wf()
        &&& self.width_spec() == width
        &&& self.height_spec() == height
        &&& self.shown().is_some()
        &&& exists|id: usize|
            {
                &&& is_first_with_title(graph.nodes(), node, id as int)
                &&& #[trigger] focused_nodes(graph, id, center_of(width, height), ring) == self.shown().unwrap().nodes()
                &&& self.shown().unwrap().edges() == focused_edges(graph, id)
            }
    }

    /// A canvas of the given size on which nothing was painted yet.
    pub fn new(width: u32, height: u32) -> (canvas: Self)
        ensures
            canvas.wf(),
            canvas.width_spec() == width,
            canvas.height_spec() == height,
            canvas.shown().is_none(),
    {
        CanvasApp { width, height, graph: None }
    }

    /// The width of the canvas.
    pub fn width(&self) -> (width: u32)
        ensures
            width == self.width_spec(),
    {
        self.width
    }

    /// The height of the canvas.
    pub fn height(&self) -> (height: u32)
        ensures
            height == self.height_spec(),
    {
        self.height
    }

    /// The centre of the canvas.
    pub fn center(&self) -> (center: Point)
        ensures
            center == center_of(self.width_spec(), self.height_spec()),
    {
        Point { x: (self.width / 2) as i32, y: (self.height / 2) as i32 }
    }

    /// The view that was painted last, if any.
    pub fn graph(&self) -> (view: Option<&GraphModel>)
        ensures
            match view {
                Some(model) => self.shown() == Some(*model),
                None => self.shown().is_none(),
            },
    {
        self.graph.as_ref()
    }

    /// Draws the view of `graph` that is centred on the first node with the
    /// title `node`: builds that view around the centre of the canvas, with
    /// the children on `ring`, renders it, and keeps it for the clicks to
    /// come. Where no node has the title, or no buffer of twice the size can
    /// be had, nothing is drawn. The view must have room in a graph: see
    /// `GraphModel::view_fits`.
    pub fn draw(self, graph: &GraphModel, node: &str, ring: &Vec<Point>) -> (drawn: Result<
        (CanvasApp, Frame),
        GraphError,
    >)
        requires
            graph.wf(),
            graph.view_fits(node@),
        ensures
            match drawn {
                Ok((canvas, frame)) => {
                    &&& draw_refusal(graph, node@, self.width_spec(), self.height_spec()).is_none()
                    &&& canvas.shows(graph, node@, ring@, self.width_spec(), self.height_spec())
                    &&& paints(&canvas.shown().unwrap(), self.width_spec(), self.height_spec(), frame)
                },
                Err(e) => draw_refusal(graph, node@, self.width_spec(), self.height_spec()) == Some(e),
            },
    {
        let root = match graph.node_by_title(node) {
            Ok(found) => found,
            Err(e) => {
                return Err(e);
            },
        };
        let center = self.center();
        let view = match focus(graph, root.id, center, ring) {
            Ok(model) => model,
            Err(e) => {
                return Err(e);
            },
        };
        let frame = match render(&view, self.width, self.height) {
            Ok(frame) => frame,
            Err(e) => {
                return Err(e);
            },
        };
        Ok((CanvasApp { width: self.width, height: self.height, graph: Some(view) }, frame))
    }
}

} // verus!
