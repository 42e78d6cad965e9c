//! Core scheduling, rerender-hook bookkeeping and tab-view widget model of the
//! reactor UI library.
pub mod dispatcher;
pub mod rerender;
pub mod marshaller;
pub mod widgets;
pub mod decimal;
pub mod gallery;
