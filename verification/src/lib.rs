//! Screen state and input handling for a keyboard-driven Jira client.

pub mod input;
pub mod interaction;
pub mod menu;
pub mod model;
pub mod text;
pub mod viewport;
pub mod screens;
pub mod form;
