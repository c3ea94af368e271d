//! Geometry and interaction rules of a floating window on an integer grid.
//!
//! A window is a movable, resizable, collapsible and closable panel that is
//! rebuilt from scratch every frame. Nothing survives a frame except the
//! explicit [`state::WindowState`] that the caller stores per window identity.
//! Every coordinate is a whole number of grid units, so a rectangle that this
//! crate hands out is already aligned to the grid.
//!
//! A frame runs in this order:
//!
//! 1. [`interaction::PossibleInteractions`] says which edges can be dragged.
//! 2. [`interaction::resize_interaction`] resolves the pointer against the
//!    hit regions around the rectangle of the last frame.
//! 3. [`interaction::resize_response`] turns a drag into a new rectangle,
//!    always from the rectangle at which the drag began, holds it to the
//!    size limits, brings it into the bounds, and stores it at once.
//! 4. [`chrome::title_bar_metrics`] and [`chrome::TitleBar`] estimate the
//!    title bar before the content is laid out, and refine it after.
//! 5. [`paint`] describes the resize handle and the border that answers the
//!    pointer; [`fade`] eases a closing window out.
//!
//! [`window::Window`] holds the configuration, and [`show`] runs the frame.
//! [`laws`] holds what is proved of all this for every input.

pub mod align;
pub mod chrome;
pub mod config;
pub mod fade;
pub mod geometry;
pub mod interaction;
pub mod laws;
pub mod outside;
pub mod paint;
pub mod show;
pub mod state;
pub mod style;
pub mod window;
