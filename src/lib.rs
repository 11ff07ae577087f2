//! Decision logic of a single-window GPU client: the outline drawn each
//! frame, the surface configuration kept in step with the window, the table
//! of per-device renderers, and the event-driven state machine that sequences
//! surface handoff, resizing, drawing and shutdown.
pub mod scene;
pub mod client;
pub mod renderers;
pub mod surface;

