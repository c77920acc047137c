# maestro_tui

A dual-pane terminal multiplexer for worktree-based development: each task
gets its own git worktree and tab, with a live diff on the left and the coding
assistant's terminal on the right.

The library under `src/` is written in Verus and verified: key handling, tab
and pane state, dialogs (including the theme picker and the worktree actions),
diff styling and ordering, the terminal pane's color and cell mapping, the
file watcher's bookkeeping, and the text and colors of everything drawn.

For the git worktree workflow, git is reached through the `GitBackend` trait,
which the program implements; nothing is known of what it answers. What is
verified there is which arguments each git command gets (the `*_args`
functions), what each answer means (the `*_from_output`, `*_answer` and
decision functions), and how the manager combines them; a manager method's
contract states its result in terms of some answer of git, not of the
commands actually run.
The program under `app/` performs what the library decides: it runs git and
the pseudo-terminals, watches the file system, and draws with ratatui.

- `src/app.rs`: tabs, panes, commands and their effect on the state
- `src/event_handler.rs`: what each key or click does
- `src/worktree.rs`: worktree listing, creation, removal, merging, status
- `src/diff_viewer.rs`: diff styling, scrolling, files ordered by change time
- `src/render.rs`: tab bar, status bar, control panel panes, dialogs
- `src/terminal.rs`, `src/terminal_pair.rs`, `src/pty.rs`: terminal panes
- `src/file_watcher.rs`: worktree roots and changed worktrees
- `src/theme.rs`, `src/ui.rs`, `src/style.rs`: colors and styles
- `src/input.rs`, `src/text.rs`, `src/layout.rs`: keys, text, rectangles
