//! Command surface of a desktop application shell: two side-effect-free
//! handlers and the name-based dispatch that a GUI host uses to reach them.
pub mod commands;
pub mod dispatch;
