//! A pair of terminals for the left and right panes of a tab, and what a
//! terminal must offer to be placed in a pane.

use vstd::prelude::*;
use crate::app::{area_ok, inner_area, inner_spec, Pane};
use crate::layout::Rect;

verus! {

/// The program a pane terminal runs.
#[derive(Debug, Clone, Copy, PartialEq, Eq, Structural)]
pub enum Program {
    /// The user's shell
    Shell,
    /// The coding assistant's command-line program
    Assistant,
}

/// What starting a terminal takes: its size, the program, its arguments, and the
/// directory it starts in (the current one when `None`).
#[derive(Debug, Clone)]
pub struct SpawnRequest {
    pub cols: u16,
    pub rows: u16,
    pub program: Program,
    pub args: Vec<String>,
    pub cwd: Option<String>,
}

/// A terminal that can stand in a pane: a program running in a pseudo-terminal,
/// shown through a terminal emulator.
pub trait PaneTerminal: Sized {
    /// Starts the program of `request`; `None` when it could not be started.
    fn spawn(request: &SpawnRequest) -> Option<Self>;

    /// Sends bytes to the program.
    fn write(&mut self, data: &[u8]) -> Result<(), String>;

    /// Resizes the pseudo-terminal and the emulator.
    fn resize(&mut self, cols: u16, rows: u16);

    /// Scrolls the view by `lines` (positive: towards older output).
    fn scroll(&mut self, lines: i32);
}

/// A pair of terminals (left and right panes) with the sizes they were last given.
pub struct TerminalPair<T> {
    left: Option<T>,
    right: Option<T>,
    last_left_size: (u16, u16),
    last_right_size: (u16, u16),
}

/// The (width, height) inside the border of `area`.
pub open spec fn inner_size(area: Rect) -> (u16, u16) {
    (inner_spec(area).width, inner_spec(area).height)
}

impl<T> TerminalPair<T> {
    /// The left terminal, if any.
    pub closed spec fn left_term(&self) -> Option<T> {
        self.left
    }

    /// The right terminal, if any.
    pub closed spec fn right_term(&self) -> Option<T> {
        self.right
    }

    /// The terminal of `pane`, if any.
    pub open spec fn pane_term(&self, pane: Pane) -> Option<T> {
        match pane {
            Pane::Left => self.left_term(),
            Pane::Right => self.right_term(),
        }
    }

    /// The size the left terminal was last given.
    pub closed spec fn left_size(&self) -> (u16, u16) {
        self.last_left_size
    }

    /// The size the right terminal was last given.
    pub closed spec fn right_size(&self) -> (u16, u16) {
        self.last_right_size
    }

    /// Creates a new empty terminal pair.
    pub fn new() -> (r: Self)
        ensures
            r.left_term() is None,
            r.right_term() is None,
            r.left_size() == (0u16, 0u16),
            r.right_size() == (0u16, 0u16),
    {
        TerminalPair { left: None, right: None, last_left_size: (0, 0), last_right_size: (0, 0) }
    }

    /// The terminal of `pane`, if any.
    pub fn get(&self, pane: Pane) -> (r: Option<&T>)
        ensures
            r is Some == self.pane_term(pane) is Some,
            r is Some ==> *r->0 == self.pane_term(pane)->0,
    {
        match pane {
            Pane::Left => self.left.as_ref(),
            Pane::Right => self.right.as_ref(),
        }
    }

    /// The terminal of `pane`, if any, for changing it.
    pub fn get_mut(&mut self, pane: Pane) -> (r: Option<&mut T>)
        ensures
            r is Some == (match pane {
                Pane::Left => old(self).left_term() is Some,
                Pane::Right => old(self).right_term() is Some,
            }),
            final(self).left_size() == old(self).left_size(),
            final(self).right_size() == old(self).right_size(),
            pane == Pane::Left ==> final(self).right_term() == old(self).right_term(),
            pane == Pane::Right ==> final(self).left_term() == old(self).left_term(),
            pane == Pane::Left ==> (final(self).left_term() is Some == old(self).left_term() is Some),
            pane == Pane::Right ==> (final(self).right_term() is Some == old(self).right_term() is Some),
    {
        match pane {
            Pane::Left => self.left.as_mut(),
            Pane::Right => self.right.as_mut(),
        }
    }

    /// Whether the left terminal needs to be created: there is none and the
    /// inside of `area` is not empty.
    pub fn needs_left(&self, area: Rect) -> (r: bool)
        requires
            area_ok(area),
        ensures
            r == (self.left_term() is None && inner_size(area).0 > 0 && inner_size(area).1 > 0),
    {
        let inner = inner_area(area);
        self.left.is_none() && inner.width > 0 && inner.height > 0
    }

    /// Whether the right terminal needs to be created: there is none and the
    /// inside of `area` is not empty.
    pub fn needs_right(&self, area: Rect) -> (r: bool)
        requires
            area_ok(area),
        ensures
            r == (self.right_term() is None && inner_size(area).0 > 0 && inner_size(area).1 > 0),
    {
        let inner = inner_area(area);
        self.right.is_none() && inner.width > 0 && inner.height > 0
    }

    /// The new size of the left terminal when it needs a resize: there is one,
    /// the inside of `area` differs from its last size and is not empty.
    pub fn needs_left_resize(&self, area: Rect) -> (r: Option<(u16, u16)>)
        requires
            area_ok(area),
        ensures
            r == (if self.left_term() is Some && self.left_size() != inner_size(area)
                && inner_size(area).0 > 0 && inner_size(area).1 > 0 {
                Some(inner_size(area))
            } else {
                None
            }),
    {
        let inner = inner_area(area);
        let size = (inner.width, inner.height);
        if self.left.is_some() && (self.last_left_size.0 != size.0 || self.last_left_size.1
            != size.1) && size.0 > 0 && size.1 > 0 {
            Some(size)
        } else {
            None
        }
    }

    /// The new size of the right terminal when it needs a resize: there is one,
    /// the inside of `area` differs from its last size and is not empty.
    pub fn needs_right_resize(&self, area: Rect) -> (r: Option<(u16, u16)>)
        requires
            area_ok(area),
        ensures
            r == (if self.right_term() is Some && self.right_size() != inner_size(area)
                && inner_size(area).0 > 0 && inner_size(area).1 > 0 {
                Some(inner_size(area))
            } else {
                None
            }),
    {
        let inner = inner_area(area);
        let size = (inner.width, inner.height);
        if self.right.is_some() && (self.last_right_size.0 != size.0 || self.last_right_size.1
            != size.1) && size.0 > 0 && size.1 > 0 {
            Some(size)
        } else {
            None
        }
    }

    /// Places `term` on the left and records the inside of `area` as its size.
    pub fn set_left(&mut self, term: T, area: Rect)
        requires
            area_ok(area),
        ensures
            final(self).left_term() == Some(term),
            final(self).left_size() == inner_size(area),
            final(self).right_term() == old(self).right_term(),
            final(self).right_size() == old(self).right_size(),
    {
        let inner = inner_area(area);
        self.left = Some(term);
        self.last_left_size = (inner.width, inner.height);
    }

    /// Places `term` on the right and records the inside of `area` as its size.
    pub fn set_right(&mut self, term: T, area: Rect)
        requires
            area_ok(area),
        ensures
            final(self).right_term() == Some(term),
            final(self).right_size() == inner_size(area),
            final(self).left_term() == old(self).left_term(),
            final(self).left_size() == old(self).left_size(),
    {
        let inner = inner_area(area);
        self.right = Some(term);
        self.last_right_size = (inner.width, inner.height);
    }

    /// Records the inside of `area` as the left terminal's size.
    pub fn update_left_size(&mut self, area: Rect)
        requires
            area_ok(area),
        ensures
            final(self).left_size() == inner_size(area),
            final(self).left_term() == old(self).left_term(),
            final(self).right_term() == old(self).right_term(),
            final(self).right_size() == old(self).right_size(),
    {
        let inner = inner_area(area);
        self.last_left_size = (inner.width, inner.height);
    }

    /// Records the inside of `area` as the right terminal's size.
    pub fn update_right_size(&mut self, area: Rect)
        requires
            area_ok(area),
        ensures
            final(self).right_size() == inner_size(area),
            final(self).left_term() == old(self).left_term(),
            final(self).right_term() == old(self).right_term(),
            final(self).left_size() == old(self).left_size(),
    {
        let inner = inner_area(area);
        self.last_right_size = (inner.width, inner.height);
    }

    /// The size the left terminal was last given.
    pub fn last_left_size(&self) -> (r: (u16, u16))
        ensures
            r == self.left_size(),
    {
        self.last_left_size
    }

    /// The size the right terminal was last given.
    pub fn last_right_size(&self) -> (r: (u16, u16))
        ensures
            r == self.right_size(),
    {
        self.last_right_size
    }
}

impl<T: PaneTerminal> TerminalPair<T> {
    /// Scrolls the terminal of `pane` by `lines` (positive: older output); does
    /// nothing when there is none.
    pub fn scroll(&mut self, pane: Pane, lines: i32)
        ensures
            final(self).left_size() == old(self).left_size(),
            final(self).right_size() == old(self).right_size(),
            final(self).left_term() is Some == old(self).left_term() is Some,
            final(self).right_term() is Some == old(self).right_term() is Some,
            pane == Pane::Left ==> final(self).right_term() == old(self).right_term(),
            pane == Pane::Right ==> final(self).left_term() == old(self).left_term(),
            (match pane {
                Pane::Left => old(self).left_term() is None,
                Pane::Right => old(self).right_term() is None,
            }) ==> *final(self) == *old(self),
    {
        match pane {
            Pane::Left => {
                if let Some(term) = self.left.as_mut() {
                    term.scroll(lines);
                }
            },
            Pane::Right => {
                if let Some(term) = self.right.as_mut() {
                    term.scroll(lines);
                }
            },
        }
    }
}

impl<T> Default for TerminalPair<T> {
    fn default() -> (r: Self)
        ensures
            r.left_term() is None,
            r.right_term() is None,
            r.left_size() == (0u16, 0u16),
            r.right_size() == (0u16, 0u16),
    {
        TerminalPair::new()
    }
}

} // verus!
