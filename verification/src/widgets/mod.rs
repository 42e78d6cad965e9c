//! Widget descriptions and the property and event bindings they hand to the
//! backend.
pub mod binding;
pub mod scroll_viewer;
pub mod tab_view;
