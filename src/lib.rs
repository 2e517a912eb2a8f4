//! Navigation over git repositories and their worktrees: hotkey codes,
//! list filtering, the navigator state machine, and the resolution of a
//! free-text request into a worktree creation plan.
pub mod text;
pub mod hotkeys;
pub mod filter;
pub mod paths;
pub mod resolve;
pub mod repo;
pub mod navigator;
pub mod render;
pub mod commands;
