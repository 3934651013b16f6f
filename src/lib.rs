//! Window management core for a desktop shell: the sizing policy applied on
//! resize and zoom requests, the context menu the shell shows, the dispatch of
//! the menu's events, and the platform capability that locks a window's
//! aspect ratio.
pub mod commands;
pub mod menu;
pub mod platform;
pub mod sizing;
