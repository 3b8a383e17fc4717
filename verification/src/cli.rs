//! The registry: programs, the system that owns them, menus and prompts.

pub mod action;
pub mod menu;
pub mod program;
pub mod prompt;
pub mod report;
pub mod shell;
pub mod system;
