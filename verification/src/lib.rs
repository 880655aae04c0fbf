//! The view-state core of a terminal issue browser.
//!
//! A session fetches an ordered sequence of issues once, then browses it
//! interactively: a list view with a moving, clamped selection and a
//! scroll offset that keeps the selected row visible, a detail view for
//! the selected issue, and a terminating state that absorbs all further
//! input. Every state transition is a total function of the current view
//! mode and one input event; the renderer is a pure function from the
//! state to a frame. The surrounding program supplies the events and
//! draws the frames.

pub mod app_state;
pub mod controls;
pub mod events;
pub mod issue;
pub mod menu_items;
pub mod ui;
