//! Traits the library's users implement: a greeter and a byte sink.

use vstd::prelude::*;

verus! {

/// A type that can announce itself; the derive-style tooling around the
/// library implements this for its own types.
pub trait HelloMacro {
    /// Announces the implementing type.
    fn hello_macro();
}

/// A source of items handed out one at a time; `None` means the source is
/// exhausted.  Implementations only provide `next`.
pub trait Stepper {
    /// The kind of item the source hands out.
    type Item;

    /// The next item, or `None` once the source is exhausted.
    fn next(&mut self) -> Option<Self::Item>;
}

/// The failure a byte sink may report.
#[derive(Debug, Clone, Copy, PartialEq, Eq, Structural)]
pub enum WriteError {
    /// The sink cannot take more bytes right now.
    Full,
    /// The sink is gone and will not take bytes again.
    Closed,
}

/// A sink for bytes; implementations decide where the bytes go.
pub trait Write: Sized {
    /// Writes some prefix of `buf`, returning how many bytes were taken.
    fn write(&mut self, buf: &[u8]) -> Result<usize, WriteError>;

    /// Pushes buffered bytes through to their destination.
    fn flush(&mut self) -> Result<(), WriteError>;

    /// Writes all of `buf`, or reports why it could not.
    fn write_all(&mut self, buf: &[u8]) -> Result<(), WriteError>;
}

} // verus!
