//! The interactive part: what each message does to the component, as a step
//! from a state and a message to a new state and an effect. Whoever owns the
//! drawing surface and the router carries the effects out.

use crate::canvas::draw_refusal;
use crate::canvas::paints;
use crate::canvas::CanvasApp;
use crate::canvas::Frame;
use crate::canvas::NODE_RADIUS;
use crate::canvas::PICK_RADIUS;
use crate::geometry::lemma_within_wider_radius;
use crate::geometry::within_radius;
use crate::geometry::Point;
use crate::graph::CompanyData;
use crate::graph::GraphError;
use crate::graph::GraphModel;
use crate::graph::position;
use crate::graph::NodeData;
use crate::hit::hit_test;
use crate::hit::is_first_pick;
use crate::route::Route;
use vstd::prelude::*;

verus! {

/// What the component is asked to show.
#[derive(Debug)]
pub struct GraphComponentProps {
    /// The title of the node at the centre.
    pub node: String,
}

/// A message to the component.
#[derive(Debug)]
pub enum Msg {
    /// Draw the view that the properties ask for.
    Draw,
    /// The node with this data was picked.
    NodeClicked(CompanyData),
    /// The surface was clicked at this position.
    OnCanvasClick(Point),
}

/// What is to be done after a message was handled.
#[derive(Debug)]
pub enum Effect {
    /// Nothing.
    Nothing,
    /// Paint this frame.
    Paint(Frame),
    /// Tell the router to go to this route.
    Navigate(Route),
    /// Hand this message to the component next.
    Send(Msg),
    /// No view could be drawn, for this reason.
    Failed(GraphError),
}

/// The component's state: the canvas with the view that was drawn last, once
/// one was drawn.
pub struct GraphComponent {
    canvas_app: Option<CanvasApp>,
}

/// Whether `msg` is the answer to a click at `click` on `canvas`: the message
/// that the first node picked in the view on show was clicked, with that
/// node's data, or none where the click picks no node or nothing is on show.
pub open spec fn answers_click(canvas: &CanvasApp, click: Point, msg: Option<Msg>) -> bool {
    match canvas.shown() {
        Some(view) => match msg {
            Some(m) => m matches Msg::NodeClicked(data) && exists|id: usize|
                #[trigger] is_first_pick(&view, click, PICK_RADIUS, Some(id)) && data@ == view.nodes()[id as int],
            None => is_first_pick(&view, click, PICK_RADIUS, None),
        },
        None => msg.is_none(),
    }
}

/// Whether a click at `click` lies on the disc that is painted for a node of
/// the view on show.
pub open spec fn on_a_disc(canvas: &CanvasApp, click: Point) -> bool {
    canvas.shown().is_some() && exists|k: int|
        0 <= k < canvas.shown().unwrap().nodes().len() && within_radius(
            position(#[trigger] canvas.shown().unwrap().nodes()[k]),
            click,
            NODE_RADIUS,
        )
}

/// A click on a disc picks a node: the pick radius is not less than the
/// radius of the discs.
pub proof fn lemma_click_on_disc_is_answered(canvas: &CanvasApp, click: Point, msg: Option<Msg>)
    requires
        answers_click(canvas, click, msg),
        on_a_disc(canvas, click),
    ensures
        msg.is_some(),
{
    let view = canvas.shown().unwrap();
    let k = choose|k: int|
        0 <= k < view.nodes().len() && within_radius(position(#[trigger] view.nodes()[k]), click, NODE_RADIUS);
    lemma_within_wider_radius(position(view.nodes()[k]), click, NODE_RADIUS, PICK_RADIUS);
    assert(crate::hit::picks(&view, k, click, PICK_RADIUS));
}

impl GraphComponent {
    /// The canvas with the view that was drawn last, if any.
    pub closed spec fn canvas(&self) -> Option<CanvasApp> {
        self.canvas_app
    }

    /// The canvas, if there is one, is well formed.
    pub open spec fn wf(&self) -> bool {
        self.canvas().is_some() ==> self.canvas().unwrap().wf()
    }

    /// A component that has drawn nothing yet.
    pub fn create() -> (component: Self)
        ensures
            component.wf(),
            component.canvas().is_none(),
    {
        GraphComponent { canvas_app: None }
    }

    /// The canvas with the view that was drawn last, if any.
    pub fn canvas_app(&self) -> (canvas: Option<&CanvasApp>)
        ensures
            match canvas {
                Some(c) => self.canvas() == Some(*c),
                None => self.canvas().is_none(),
            },
    {
        self.canvas_app.as_ref()
    }

    /// What a click at `click` on `canvas` leads to: the message that a node
    /// was clicked, for the first node of the view on show that lies within
    /// `PICK_RADIUS` of the click, or nothing where there is no such node. A
    /// click on the disc of a node is always answered.
    pub fn on_canvas_click(&self, click: Point, canvas: &CanvasApp) -> (msg: Option<Msg>)
        requires
            canvas.wf(),
        ensures
            answers_click(canvas, click, msg),
            on_a_disc(canvas, click) ==> msg.is_some(),
            canvas.shown().is_some() ==> forall|k: int|
                0 <= k < canvas.shown().unwrap().nodes().len() && within_radius(
                    position(#[trigger] canvas.shown().unwrap().nodes()[k]),
                    click,
                    NODE_RADIUS,
                ) ==> msg.is_some(),
    {
        let msg = self.answer_click(click, canvas);
        proof {
            if on_a_disc(canvas, click) {
                lemma_click_on_disc_is_answered(canvas, click, msg);
            }
        }
        msg
    }

    fn answer_click(&self, click: Point, canvas: &CanvasApp) -> (msg: Option<Msg>)
        requires
            canvas.wf(),
        ensures
            answers_click(canvas, click, msg),
    {
        match canvas.graph() {
            Some(view) => {
                match hit_test(view, click, PICK_RADIUS) {
                    Some(id) => {
                        match view.node_by_id(id) {
                            Ok(node) => {
                                assert(is_first_pick(&canvas.shown().unwrap(), click, PICK_RADIUS, Some(id)));
                                Some(Msg::NodeClicked(node.data))
                            },
                            Err(_) => None,
                        }
                    },
                    None => None,
                }
            },
            None => None,
        }
    }

    /// Handles one message.
    ///
    /// `Draw`: where a surface of `surface` width and height is at hand, the
    /// view of `graph` centred on the node that `props` names is drawn on a
    /// fresh canvas of that size, with the children on `ring`; the canvas is
    /// kept and the frame is to be painted. Where the view cannot be drawn
    /// the state stays and the reason is handed out. Without a surface
    /// nothing happens.
    ///
    /// `NodeClicked`: the router is to go to the route of the node's title.
    ///
    /// `OnCanvasClick`: the click is tested against the view on show, and the
    /// message that a node was clicked, if one was, is to be sent. For a
    /// click on the disc of a node there always is one.
    ///
    /// Only `Draw` builds a view, so only `Draw` asks that the view has room.
    pub fn update(
        &mut self,
        props: &GraphComponentProps,
        graph: &GraphModel,
        surface: Option<(u32, u32)>,
        ring: &Vec<Point>,
        msg: Msg,
    ) -> (effect: Effect)
        requires
            old(self).wf(),
            graph.wf(),
            msg is Draw ==> graph.view_fits(props.node@),
        ensures
            final(self).wf(),
            match msg {
                Msg::Draw => match surface {
                    Some((width, height)) => match draw_refusal(graph, props.node@, width, height) {
                        Some(e) => effect matches Effect::Failed(reason) && reason == e && final(self).canvas()
                            == old(self).canvas(),
                        None => {
                            &&& final(self).canvas().is_some()
                            &&& final(self).canvas().unwrap().shows(graph, props.node@, ring@, width, height)
                            &&& effect matches Effect::Paint(frame) && paints(
                                &final(self).canvas().unwrap().shown().unwrap(),
                                width,
                                height,
                                frame,
                            )
                        },
                    },
                    None => effect matches Effect::Nothing && final(self).canvas() == old(self).canvas(),
                },
                Msg::NodeClicked(data) => {
                    &&& final(self).canvas() == old(self).canvas()
                    &&& effect matches Effect::Navigate(Route::ShowNode { title }) && title@ == data@.0
                },
                Msg::OnCanvasClick(click) => {
                    &&& final(self).canvas() == old(self).canvas()
                    &&& match old(self).canvas() {
                        Some(canvas) => match effect {
                            Effect::Send(m) => answers_click(&canvas, click, Some(m)),
                            Effect::Nothing => answers_click(&canvas, click, None) && !on_a_disc(&canvas, click),
                            _ => false,
                        },
                        None => effect matches Effect::Nothing,
                    }
                },
            },
    {
        match msg {
            Msg::Draw => {
                match surface {
                    Some((width, height)) => {
                        match CanvasApp::new(width, height).draw(graph, props.node.as_str(), ring) {
                            Ok((canvas, frame)) => {
                                self.canvas_app = Some(canvas);
                                Effect::Paint(frame)
                            },
                            Err(e) => Effect::Failed(e),
                        }
                    },
                    None => Effect::Nothing,
                }
            },
            Msg::NodeClicked(data) => Effect::Navigate(Route::ShowNode { title: data.title() }),
            Msg::OnCanvasClick(click) => {
                let sent = match &self.canvas_app {
                    Some(canvas) => self.on_canvas_click(click, canvas),
                    None => None,
                };
                match sent {
                    Some(m) => Effect::Send(m),
                    None => Effect::Nothing,
                }
            },
        }
    }
}

} // verus!
