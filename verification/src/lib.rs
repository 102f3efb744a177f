//! Verified core of the extension GUI system: the element builders that
//! extensions use, the flattening of a built tree into the wire format, the
//! event-handler registry, the command registry and palette filter, the
//! decisions of the host panel, and the logic of the bundled demo panels.
pub mod elements;
pub mod events;
pub mod ui;
pub mod flatten;
pub mod text;
pub mod commands;
pub mod json;
pub mod panel;
pub mod renderer;
pub mod host;
pub mod strings;
pub mod outline;
pub mod git_panel;
pub mod project_panel;
pub mod view;
pub mod shape;
pub mod laws;
