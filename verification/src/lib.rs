//! Verified core of a dual-pane terminal multiplexer for worktree-based
//! development: key handling, tab and pane state, dialogs, git worktree
//! management, diff styling and ordering, the terminal panes, the file
//! watcher's bookkeeping, theming, and the text and layout of the screen.

pub mod app;
pub mod diff_viewer;
pub mod event_handler;
pub mod file_watcher;
pub mod input;
pub mod layout;
pub mod pty;
pub mod render;
pub mod style;
pub mod terminal;
pub mod terminal_pair;
pub mod text;
pub mod theme;
pub mod ui;
pub mod worktree;
