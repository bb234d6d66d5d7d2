//! A dynamic analogue of single-owner, multiple-borrow semantics.
//!
//! A value has exactly one owning handle ([`My`]). The owner may issue any
//! number of borrowing handles ([`Dyb`]), whose validity is tracked by a
//! borrow counter in the shared storage cell. Releasing the owner is safe
//! only when no borrows are outstanding: if the counter is zero the cell is
//! freed, and otherwise the release faults and the cell is deliberately
//! leaked, so that no live borrow can ever observe freed storage.
//!
//! The storage cell's lifecycle is specified by the ghost model in
//! [`model`], the handles and their contracts live in [`handles`], and the
//! properties that hold of whole histories of borrow activity are proved in
//! [`laws`].

pub mod handles;
pub mod laws;
pub mod model;

pub use handles::fault_message;
pub use handles::release_decision;
pub use handles::Dyb;
pub use handles::My;
pub use model::ReleaseOutcome;
