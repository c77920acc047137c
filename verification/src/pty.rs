//! The pseudo-terminal a pane talks to, as a trait so that a pane can be
//! driven by a real device or by a scripted one.

use vstd::prelude::*;

verus! {

/// An I/O error of the standard library, carried through unchanged.
#[verifier::external_type_specification]
#[verifier::external_body]
pub struct ExIoError(std::io::Error);

/// A pseudo-terminal: bytes go in, the program's output comes back.
pub trait PtyBackend: Send {
    /// Writes `data` to the program's input.
    fn write(&mut self, data: &[u8]) -> std::io::Result<()>;

    /// Tells the program that its window is now `cols` by `rows`.
    fn resize(&mut self, cols: u16, rows: u16);

    /// Reads what output is available: `None` when there is none.
    fn try_read(&mut self) -> std::io::Result<Option<Vec<u8>>>;
}

} // verus!
