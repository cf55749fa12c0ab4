//! Verified core of a minimal windowed GPU application skeleton.
//!
//! The crate models the event-driven lifecycle of the application: a
//! controller that lazily creates a window and a render-surface holder on
//! first resume, filters window events by window identity, forwards resize
//! and redraw notifications to the holder, and interprets keyboard text to
//! toggle cursor visibility or request shutdown.
//!
//! The host windowing runtime and the GPU backend stay outside this crate:
//! the controller consumes plain events and answers with the actions the
//! host must perform (request exit, set the window title, change cursor
//! visibility, report a resize or a draw).

pub mod events;
pub mod lifecycle;
pub mod surface;
