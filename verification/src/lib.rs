//! A single-threaded memory-ownership library: a unique-owner heap pointer,
//! a reference-counted shared pointer with weak back-references and a
//! deterministic finalizer protocol, and an interior-mutability cell that
//! enforces the shared/exclusive borrow rule at run time.
//!
//! The library also carries a set of small verified utilities that consume
//! these primitives.

pub mod adder;
pub mod articles;
pub mod basics;
pub mod cell;
pub mod coins;
pub mod geometry;
pub mod heap;
pub mod interfaces;
pub mod inventory;
pub mod list;
pub mod maybe;
pub mod owning;
pub mod restaurant;
pub mod text;
pub mod tracker;
pub mod users;

pub use cell::BorrowConflict;
pub use cell::BorrowState;
pub use cell::Cell;
pub use heap::Heap;
pub use heap::SharedPointer;
pub use heap::WeakRef;
pub use owning::OwningPointer;
