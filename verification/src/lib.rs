//! A node-and-edge graph that is shown one neighbourhood at a time.
//!
//! The graph lives in a `petgraph` container. A view is the one-hop
//! neighbourhood of a chosen node, laid out around the centre of a drawing
//! surface; a click on a node of the view leads to the view of that node.
//! Coordinates are whole units of the drawing surface.

pub mod canvas;
pub mod component;
pub mod drill;
pub mod geometry;
pub mod graph;
pub mod hit;
pub mod layout;
pub mod route;
pub mod store;
pub mod titles;
