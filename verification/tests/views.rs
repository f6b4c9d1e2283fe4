use network_graph::canvas::background_color;
use network_graph::canvas::label_font;
use network_graph::canvas::label_origin;
use network_graph::canvas::render;
use network_graph::canvas::CanvasApp;
use network_graph::canvas::EDGE_WIDTH;
use network_graph::canvas::LAYOUT_RADIUS;
use network_graph::canvas::NODE_RADIUS;
use network_graph::canvas::PICK_RADIUS;
use network_graph::canvas::SUPERSAMPLING;
use network_graph::canvas::TEXT_HEIGHT;
use network_graph::component::Effect;
use network_graph::component::GraphComponent;
use network_graph::component::GraphComponentProps;
use network_graph::component::Msg;
use network_graph::drill::drill;
use network_graph::drill::focus;
use network_graph::drill::next_state;
use network_graph::drill::DrillState;
use network_graph::drill::NavigationEvent;
use network_graph::geometry::Point;
use network_graph::graph::generate_graph;
use network_graph::graph::CompanyData;
use network_graph::graph::GraphError;
use network_graph::graph::GraphModel;
use network_graph::graph::NodeData;
use network_graph::hit::hit_test;
use network_graph::layout::place_children;
use network_graph::layout::view_directions;
use network_graph::layout::Angle;
use network_graph::route::page_for;
use network_graph::route::root_title;
use network_graph::route::route_of;
use network_graph::route::switch;
use network_graph::route::Page;
use network_graph::route::Route;

fn p(x: i32, y: i32) -> Point {
    Point { x, y }
}

/// Points on the circle of the layout radius round `center`, one for each
/// direction.
fn ring_round(center: Point, count: usize) -> Vec<Point> {
    place_children(Angle { num: 0, den: 1 }, count)
        .iter()
        .map(|a| {
            let theta = 2.0 * std::f64::consts::PI * (a.num as f64) / (a.den as f64);
            Point {
                x: center.x + (LAYOUT_RADIUS as f64 * theta.cos()).round() as i32,
                y: center.y + (LAYOUT_RADIUS as f64 * theta.sin()).round() as i32,
            }
        })
        .collect()
}

fn props(node: &str) -> GraphComponentProps {
    GraphComponentProps { node: node.to_string() }
}

#[test]
fn constants_of_the_rendering() {
    assert_eq!(SUPERSAMPLING, 2);
    assert_eq!(NODE_RADIUS, 40);
    assert!(NODE_RADIUS < PICK_RADIUS);
    assert_eq!(EDGE_WIDTH, 6);
    assert_eq!(TEXT_HEIGHT, 20);
    assert_eq!(LAYOUT_RADIUS, 300);
    assert_eq!(PICK_RADIUS, 50);
    assert_eq!(background_color(), "#354343");
    assert_eq!(label_font(), "bold 20px sans-serif");
    assert_eq!(root_title(), "Security Union");
}

#[test]
fn focus_keeps_one_hop() {
    let source = generate_graph();
    let customers = source.node_by_title("Customers").unwrap();
    let ring = ring_round(p(900, 450), 10);
    let view = focus(&source, customers.id, p(900, 450), &ring).unwrap();
    assert_eq!(view.node_count(), 11);
    assert_eq!(view.edge_count(), 10);
    let root = view.node_by_id(0).unwrap();
    assert_eq!(root.data.title(), "Customers");
    assert_eq!((root.data.x(), root.data.y()), (900, 450));
    for j in 0..10 {
        let child = view.node_by_id(j + 1).unwrap();
        assert_eq!(child.data.title(), format!("Customer {}", j + 1));
        assert_eq!(p(child.data.x(), child.data.y()), ring[j]);
        let edge = view.edge_by_index(j).unwrap();
        assert_eq!((edge.source, edge.target, edge.weight), (0, j + 1, 1));
        assert_eq!(view.out_degree(j + 1), 0);
    }
    assert_eq!(view.position_of(1), Some(p(1200, 450)));
}

#[test]
fn focus_on_a_leaf_gives_a_lone_root() {
    let source = generate_graph();
    let leaf = source.node_by_title("ERP 2").unwrap();
    let view = focus(&source, leaf.id, p(1, 2), &Vec::new()).unwrap();
    assert_eq!(view.node_count(), 1);
    assert_eq!(view.edge_count(), 0);
    assert_eq!(view.node_by_id(0).unwrap().data.title(), "ERP 2");
    assert_eq!(view.position_of(0), Some(p(1, 2)));
}

#[test]
fn focus_without_a_ring_leaves_the_children_unplaced() {
    let source = generate_graph();
    let view = focus(&source, 0, p(900, 450), &vec![p(10, 20)]).unwrap();
    assert_eq!(view.position_of(1), Some(p(10, 20)));
    for j in 2..6 {
        assert_eq!(view.position_of(j), Some(p(0, 0)));
    }
}

#[test]
fn focus_on_a_missing_node_is_not_found() {
    let source = generate_graph();
    assert!(matches!(focus(&source, 34, p(0, 0), &Vec::new()), Err(GraphError::NotFound)));
    assert!(matches!(drill(&source, usize::MAX, p(0, 0), &Vec::new()), Err(GraphError::NotFound)));
}

#[test]
fn drill_gives_the_title_and_the_out_degree() {
    let source = generate_graph();
    for id in 0..source.node_count() {
        let degree = source.out_degree(id);
        let ring = ring_round(p(900, 450), degree);
        let (view, event) = drill(&source, id, p(900, 450), &ring).unwrap();
        let title = source.node_by_id(id).unwrap().data.title();
        assert_eq!(view.node_by_id(0).unwrap().data.title(), title);
        assert_eq!(event.title, title);
        assert_eq!(view.edge_count(), degree);
        assert_eq!(view.node_count(), degree + 1);
    }
}

#[test]
fn repeated_drills_keep_only_the_last_hop() {
    let source = generate_graph();
    let (first, _) = drill(&source, 0, p(900, 450), &ring_round(p(900, 450), 5)).unwrap();
    let area = first.node_by_title("ERP").unwrap();
    let (within, _) = drill(&first, area.id, p(900, 450), &Vec::new()).unwrap();
    assert_eq!(within.node_count(), 1);
    assert_eq!(within.edge_count(), 0);
    let erp = source.node_by_title("ERP").unwrap();
    let (second, event) = drill(&source, erp.id, p(900, 450), &ring_round(p(900, 450), 4)).unwrap();
    assert_eq!(event.title, "ERP");
    assert_eq!(second.node_count(), 5);
    assert!(matches!(second.node_by_title("Security Union"), Err(GraphError::NotFound)));
}

#[test]
fn states_follow_the_hits() {
    assert_eq!(next_state(DrillState::Overview, None), DrillState::Overview);
    assert_eq!(next_state(DrillState::Overview, Some(3)), DrillState::Focused(3));
    assert_eq!(next_state(DrillState::Focused(3), None), DrillState::Focused(3));
    assert_eq!(next_state(DrillState::Focused(3), Some(1)), DrillState::Focused(1));
}

#[test]
fn render_gives_one_shape_for_each_edge() {
    let mut model = GraphModel::new();
    model.add_node("hub".to_string(), 10, 20);
    model.add_node("left".to_string(), -30, 40);
    model.add_node("right".to_string(), 50, 60);
    model.add_edge(0, 2, 1).unwrap();
    model.add_edge(2, 1, 1).unwrap();
    let frame = render(&model, 640, 480).unwrap();
    assert_eq!((frame.width, frame.height), (640, 480));
    assert_eq!((frame.buffer_width, frame.buffer_height), (1280, 960));
    assert_eq!(frame.shapes.len(), 2);
    assert_eq!(frame.shapes[0].from, p(10, 20));
    assert_eq!(frame.shapes[0].to, p(50, 60));
    assert_eq!(frame.shapes[0].title, "right");
    assert_eq!(frame.shapes[1].from, p(50, 60));
    assert_eq!(frame.shapes[1].to, p(-30, 40));
    assert_eq!(frame.shapes[1].title, "left");
}

#[test]
fn render_of_an_edgeless_root_paints_no_node() {
    let mut model = GraphModel::new();
    model.add_node("alone".to_string(), 1, 1);
    let frame = render(&model, 10, 10).unwrap();
    assert!(frame.shapes.is_empty());
    assert_eq!((frame.buffer_width, frame.buffer_height), (20, 20));
}

#[test]
fn render_needs_a_buffer_that_can_be_asked_for() {
    let model = generate_graph();
    assert!(matches!(render(&model, 0x8000_0000, 10), Err(GraphError::SurfaceUnavailable)));
    assert!(matches!(render(&model, 10, 0x8000_0000), Err(GraphError::SurfaceUnavailable)));
    let frame = render(&model, 0x7FFF_FFFF, 0).unwrap();
    assert_eq!((frame.buffer_width, frame.buffer_height), (0xFFFF_FFFE, 0));
    assert_eq!(frame.shapes.len(), 33);
}

#[test]
fn label_starts_left_of_and_below_the_centre() {
    assert_eq!(label_origin(p(100, 200), 60), (70, 210));
    assert_eq!(label_origin(p(100, 200), 61), (70, 210));
    assert_eq!(label_origin(p(0, 0), 0), (0, 10));
    assert_eq!(label_origin(p(i32::MIN, i32::MAX), u32::MAX), (-2147483648 - 2147483647, 2147483647 + 10));
}

#[test]
fn canvas_remembers_its_size_and_view() {
    let canvas = CanvasApp::new(1800, 900);
    assert_eq!((canvas.width(), canvas.height()), (1800, 900));
    assert_eq!(canvas.center(), p(900, 450));
    assert!(canvas.graph().is_none());
    let odd = CanvasApp::new(u32::MAX, 3);
    assert_eq!(odd.center(), p(0x7FFF_FFFF, 1));
}

#[test]
fn scenario_overview_renders_five_edges_into_a_doubled_buffer() {
    let graph = generate_graph();
    let canvas = CanvasApp::new(1800, 900);
    let ring = ring_round(canvas.center(), graph.out_degree(0));
    let (canvas, frame) = canvas.draw(&graph, "Security Union", &ring).unwrap();
    assert_eq!((frame.buffer_width, frame.buffer_height), (3600, 1800));
    assert_eq!((frame.width, frame.height), (1800, 900));
    assert_eq!(frame.shapes.len(), 5);
    let titles: Vec<&str> = frame.shapes.iter().map(|s| s.title.as_str()).collect();
    assert_eq!(titles, vec!["Recruiters", "Data Annotation", "Customers", "ERP", "AV Testing"]);
    for (j, shape) in frame.shapes.iter().enumerate() {
        assert_eq!(shape.from, p(900, 450));
        assert_eq!(shape.to, ring[j]);
    }
    assert_eq!(frame.shapes[0].to, p(1200, 450));
    let view = canvas.graph().unwrap();
    assert_eq!(view.node_count(), 6);
    assert_eq!(view.edge_count(), 5);
    assert_eq!(view.out_degree(0), 5);
}

#[test]
fn scenario_click_on_an_area_drills_into_it() {
    let graph = generate_graph();
    let canvas = CanvasApp::new(1800, 900);
    let center = canvas.center();
    let ring = ring_round(center, graph.out_degree(0));
    let (canvas, _) = canvas.draw(&graph, "Security Union", &ring).unwrap();
    let view = canvas.graph().unwrap();
    let area = view.node_by_title("Customers").unwrap();
    let at = view.position_of(area.id).unwrap();
    assert_eq!(at, ring[2]);
    assert_eq!(hit_test(view, at, 50), Some(area.id));
    let picked = view.node_by_id(area.id).unwrap();
    let source = graph.node_by_title(&picked.data.title()).unwrap();
    let members = graph.out_degree(source.id);
    let (next, event) = drill(&graph, source.id, center, &ring_round(center, members)).unwrap();
    assert_eq!(next.node_by_id(0).unwrap().data.title(), "Customers");
    assert_eq!(event.title, "Customers");
    assert_eq!(next.children_of(0).len(), 10);
    assert_eq!(next.edge_count(), 10);
}

#[test]
fn scenario_click_far_from_every_node_changes_nothing() {
    let graph = generate_graph();
    let mut component = GraphComponent::create();
    let ring = ring_round(p(900, 450), 5);
    let effect = component.update(&props("Security Union"), &graph, Some((1800, 900)), &ring, Msg::Draw);
    assert!(matches!(effect, Effect::Paint(_)));
    let far = p(900, 450 + 300 + 1000);
    {
        let view = component.canvas_app().unwrap().graph().unwrap();
        assert_eq!(hit_test(view, far, 50), None);
    }
    let effect = component.update(&props("Security Union"), &graph, Some((1800, 900)), &ring, Msg::OnCanvasClick(far));
    assert!(matches!(effect, Effect::Nothing));
    let view = component.canvas_app().unwrap().graph().unwrap();
    assert_eq!(view.node_count(), 6);
    assert_eq!(view.edge_count(), 5);
    assert_eq!(view.node_by_id(0).unwrap().data.title(), "Security Union");
    for j in 0..5 {
        assert_eq!(view.position_of(j + 1), Some(ring[j]));
    }
}

#[test]
fn draw_of_an_unknown_title_is_not_found() {
    let graph = generate_graph();
    let canvas = CanvasApp::new(1800, 900);
    assert!(matches!(canvas.draw(&graph, "Nobody", &Vec::new()), Err(GraphError::NotFound)));
    let canvas = CanvasApp::new(0x8000_0000, 900);
    assert!(matches!(canvas.draw(&graph, "ERP", &Vec::new()), Err(GraphError::SurfaceUnavailable)));
    let canvas = CanvasApp::new(0x8000_0000, 900);
    assert!(matches!(canvas.draw(&graph, "Nobody", &Vec::new()), Err(GraphError::NotFound)));
}

#[test]
fn component_draws_clicks_and_navigates() {
    let graph = generate_graph();
    let mut component = GraphComponent::create();
    assert!(component.canvas_app().is_none());
    let ring = ring_round(p(900, 450), 5);

    let effect = component.update(&props("Security Union"), &graph, None, &ring, Msg::Draw);
    assert!(matches!(effect, Effect::Nothing));
    assert!(component.canvas_app().is_none());

    let effect = component.update(&props("Security Union"), &graph, None, &ring, Msg::OnCanvasClick(p(1200, 450)));
    assert!(matches!(effect, Effect::Nothing));

    let effect = component.update(&props("Nobody"), &graph, Some((1800, 900)), &ring, Msg::Draw);
    assert!(matches!(effect, Effect::Failed(GraphError::NotFound)));
    assert!(component.canvas_app().is_none());

    let effect = component.update(&props("Security Union"), &graph, Some((1800, 900)), &ring, Msg::Draw);
    match effect {
        Effect::Paint(frame) => assert_eq!(frame.shapes.len(), 5),
        other => panic!("unexpected effect {:?}", other),
    }
    assert_eq!(component.canvas_app().unwrap().width(), 1800);

    let click = p(1200 - 30, 450 + 40);
    let effect = component.update(&props("Security Union"), &graph, Some((1800, 900)), &ring, Msg::OnCanvasClick(click));
    let data = match effect {
        Effect::Send(Msg::NodeClicked(data)) => data,
        other => panic!("unexpected effect {:?}", other),
    };
    assert_eq!(data.title(), "Recruiters");
    assert_eq!(p(data.x(), data.y()), p(1200, 450));

    let effect = component.update(&props("Security Union"), &graph, Some((1800, 900)), &ring, Msg::NodeClicked(data));
    match effect {
        Effect::Navigate(Route::ShowNode { title }) => assert_eq!(title, "Recruiters"),
        other => panic!("unexpected effect {:?}", other),
    }
    assert_eq!(component.canvas_app().unwrap().graph().unwrap().node_count(), 6);
}

#[test]
fn click_on_the_centre_picks_the_root() {
    let graph = generate_graph();
    let canvas = CanvasApp::new(1800, 900);
    let (canvas, _) = canvas.draw(&graph, "ERP", &ring_round(p(900, 450), 4)).unwrap();
    let component = GraphComponent::create();
    match component.on_canvas_click(p(900, 400), &canvas) {
        Some(Msg::NodeClicked(data)) => assert_eq!(data.title(), "ERP"),
        other => panic!("unexpected answer {:?}", other),
    }
    assert!(component.on_canvas_click(p(900, 399), &canvas).is_none());
    let blank = CanvasApp::new(1800, 900);
    assert!(component.on_canvas_click(p(900, 450), &blank).is_none());
}

#[test]
fn node_clicked_carries_the_data() {
    let graph = generate_graph();
    let mut component = GraphComponent::create();
    let data = CompanyData::new("AV Testing".to_string(), 5, 6);
    let effect = component.update(&props("x"), &graph, None, &Vec::new(), Msg::NodeClicked(data));
    match effect {
        Effect::Navigate(Route::ShowNode { title }) => assert_eq!(title, "AV Testing"),
        other => panic!("unexpected effect {:?}", other),
    }
}

#[test]
fn routes_show_their_pages() {
    match switch(&Route::Root) {
        Some(Page::Graph { node }) => assert_eq!(node, "Security Union"),
        other => panic!("unexpected page {:?}", other),
    }
    assert!(matches!(switch(&Route::NotFound), Some(Page::NotFound)));
    match switch(&Route::ShowNode { title: "Customers".to_string() }) {
        Some(Page::Graph { node }) => assert_eq!(node, "Customers"),
        other => panic!("unexpected page {:?}", other),
    }
}

#[test]
fn route_titles_are_percent_decoded() {
    match switch(&Route::ShowNode { title: "Data%20Annotation".to_string() }) {
        Some(Page::Graph { node }) => assert_eq!(node, "Data Annotation"),
        other => panic!("unexpected page {:?}", other),
    }
    match switch(&Route::ShowNode { title: "AV+Testing%2B".to_string() }) {
        Some(Page::Graph { node }) => assert_eq!(node, "AV+Testing+"),
        other => panic!("unexpected page {:?}", other),
    }
    match switch(&Route::ShowNode { title: "caf%C3%A9".to_string() }) {
        Some(Page::Graph { node }) => assert_eq!(node, "caf\u{e9}"),
        other => panic!("unexpected page {:?}", other),
    }
    assert!(switch(&Route::ShowNode { title: "%FF".to_string() }).is_none());
}

#[test]
fn page_for_takes_the_decoded_title() {
    let route = Route::ShowNode { title: "a%20b".to_string() };
    match page_for(&route, Some("a b".to_string())) {
        Some(Page::Graph { node }) => assert_eq!(node, "a b"),
        other => panic!("unexpected page {:?}", other),
    }
    assert!(page_for(&route, None).is_none());
    match page_for(&Route::Root, None) {
        Some(Page::Graph { node }) => assert_eq!(node, "Security Union"),
        other => panic!("unexpected page {:?}", other),
    }
    assert!(matches!(page_for(&Route::NotFound, Some("x".to_string())), Some(Page::NotFound)));
}

#[test]
fn drill_down_leads_to_the_route_of_the_node() {
    match route_of(NavigationEvent { title: "ERP".to_string() }) {
        Route::ShowNode { title } => assert_eq!(title, "ERP"),
        other => panic!("unexpected route {:?}", other),
    }
}

#[test]
fn click_anywhere_on_a_disc_is_answered() {
    let mut graph = GraphModel::new();
    graph.add_node("a".to_string(), 0, 0);
    graph.add_node("b".to_string(), 0, 0);
    graph.add_edge(0, 1, 1).unwrap();
    let canvas = CanvasApp::new(1800, 900);
    let (canvas, frame) = canvas.draw(&graph, "a", &vec![p(1000, 0)]).unwrap();
    assert_eq!(frame.shapes[0].to, p(1000, 0));
    let component = GraphComponent::create();
    let on_disc = [p(1000, 0), p(1040, 0), p(960, 0), p(1000, 40), p(1000, -40), p(1028, 28), p(976, -32)];
    for click in on_disc.iter() {
        match component.on_canvas_click(*click, &canvas) {
            Some(Msg::NodeClicked(data)) => assert_eq!(data.title(), "b"),
            other => panic!("unexpected answer {:?}", other),
        }
    }
    assert!(component.on_canvas_click(p(1041, 0), &canvas).is_some());
    assert!(component.on_canvas_click(p(1050, 0), &canvas).is_some());
    assert!(component.on_canvas_click(p(1051, 0), &canvas).is_none());
    assert!(component.on_canvas_click(p(1060, 0), &canvas).is_none());
}

#[test]
fn click_on_a_disc_is_sent_on_by_the_component() {
    let graph = generate_graph();
    let mut component = GraphComponent::create();
    let ring = ring_round(p(900, 450), 5);
    component.update(&props("Security Union"), &graph, Some((1800, 900)), &ring, Msg::Draw);
    for place in ring.iter() {
        let click = p(place.x + NODE_RADIUS as i32, place.y);
        let effect = component.update(&props("Security Union"), &graph, None, &Vec::new(), Msg::OnCanvasClick(click));
        assert!(matches!(effect, Effect::Send(Msg::NodeClicked(_))));
    }
}

#[test]
fn view_directions_follow_the_out_degree() {
    let graph = generate_graph();
    let customers = view_directions(&graph, "Customers");
    assert_eq!(customers.len(), 10);
    for (i, angle) in customers.iter().enumerate() {
        assert_eq!(*angle, Angle { num: i as u128, den: 10 });
    }
    let root = view_directions(&graph, "Security Union");
    assert_eq!(root, place_children(Angle { num: 0, den: 1 }, 5));
    assert_eq!(root[4], Angle { num: 4, den: 5 });
    assert!(view_directions(&graph, "ERP 3").is_empty());
    assert!(view_directions(&graph, "Nobody").is_empty());
    assert!(view_directions(&GraphModel::new(), "Security Union").is_empty());
}

#[test]
fn view_directions_go_by_the_first_node_with_the_title() {
    let mut graph = GraphModel::new();
    graph.add_node("twin".to_string(), 0, 0);
    graph.add_node("twin".to_string(), 0, 0);
    graph.add_node("leaf".to_string(), 0, 0);
    graph.add_edge(1, 2, 1).unwrap();
    graph.add_edge(1, 0, 1).unwrap();
    assert!(view_directions(&graph, "twin").is_empty());
    graph.add_edge(0, 2, 1).unwrap();
    assert_eq!(view_directions(&graph, "twin"), vec![Angle { num: 0, den: 1 }]);
}
