//! The command-line crafting tool: a macro file, one item, a count.
pub mod craft;
pub mod garland;
pub mod macros;
pub mod recipe;
pub mod role_actions;
pub mod task;
pub mod ui;
pub mod xiv_ui;
