//! Slot-group layout and selection logic for a text-plus-icon widget demo.
//!
//! Three screen regions (a top bar, a side bar and a central panel) each own
//! an ordered group of widget slots sharing one layout axis.  This crate
//! holds the region-independent core — centered rectangle layout, the
//! single-selection click fold, per-frame hover state and a running render
//! benchmark — together with the per-region parameterizations and the
//! application object that composes them.  Rendering itself is left to the
//! immediate-mode GUI host that drives the frame loop.

pub mod demo_app;
pub mod geometry;
pub mod group;
pub mod slot_state;
pub mod style;
pub mod texi_central_menu;
pub mod texi_centralbar;
pub mod texi_side_menu;
pub mod texi_sidebar;
pub mod texi_top_menu;
pub mod texi_topbar;

pub use demo_app::TexiconDemoApp;
pub use geometry::Axis;
pub use geometry::Rect;
pub use geometry::SlotGeometry;
