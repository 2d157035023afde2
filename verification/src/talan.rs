//! The crafting assistant: macro parsing and selection, recipes, tasks and
//! the crafting plan.
pub mod action;
pub mod config;
pub mod craft;
pub mod gui;
pub mod lists;
pub mod macros;
pub mod recipe;
pub mod role_actions;
pub mod rpc;
pub mod task;
