//! The ghost model of a storage cell.
//!
//! A cell holds the wrapped value together with the number of live borrow
//! handles, and moves through three phases: `Live` from construction until
//! the owner releases it, then either `Freed` (no borrows were outstanding,
//! the storage was reclaimed) or `Leaked` (the release faulted and the
//! storage is kept alive forever, so outstanding borrows stay valid).
//!
//! The spec functions here are the single description of what each handle
//! operation does; the executable handles in [`crate::handles`] promise to
//! follow them exactly.

use vstd::prelude::*;

verus! {

/// What the owner's release protocol reports.
#[derive(Clone, Copy, Debug, PartialEq, Eq, Structural)]
pub enum ReleaseOutcome {
    /// No borrows were outstanding; the storage cell was freed.
    Freed,
    /// Borrows were outstanding; the storage cell is leaked, never freed.
    Faulted,
}

/// The lifecycle phase of a storage cell.
#[derive(Clone, Copy, Debug, PartialEq, Eq, Structural)]
pub enum Phase {
    /// The owner has not yet released the cell.
    Live,
    /// The owner released the cell with no borrows outstanding; the storage
    /// is gone.
    Freed,
    /// The owner released the cell while borrows were outstanding; the
    /// storage is kept forever.
    Leaked,
}

/// A storage cell as the contracts see it: the live-borrow count, the
/// lifecycle phase, and the payload (`None` once the cell is freed).
pub struct CellModel<T> {
    pub count: nat,
    pub phase: Phase,
    pub data: Option<T>,
}

impl<T> CellModel<T> {
    /// Well-formedness: the storage exists exactly while the cell is not
    /// freed, and a freed cell was freed with no borrows outstanding.
    pub open spec fn inv(self) -> bool {
        &&& self.data is Some <==> !(self.phase is Freed)
        &&& self.phase is Freed ==> self.count == 0
    }

    /// The wrapped value (meaningful while the cell is not freed).
    pub open spec fn value(self) -> T {
        self.data->Some_0
    }
}

/// Construction: a fresh live cell around `v`, with no borrows.
pub open spec fn cell_new<T>(v: T) -> CellModel<T> {
    CellModel { count: 0, phase: Phase::Live, data: Some(v) }
}

/// Taking a borrow (or duplicating one): the count rises by one; phase and
/// payload are untouched.
pub open spec fn cell_borrow<T>(m: CellModel<T>) -> CellModel<T> {
    CellModel { count: m.count + 1, phase: m.phase, data: m.data }
}

/// Returning a borrow: the count falls by one; phase and payload are
/// untouched.
pub open spec fn cell_return<T>(m: CellModel<T>) -> CellModel<T> {
    CellModel { count: (m.count - 1) as nat, phase: m.phase, data: m.data }
}

/// What the owner's release reports: it frees exactly when no borrows are
/// outstanding, and faults otherwise.
pub open spec fn release_outcome<T>(m: CellModel<T>) -> ReleaseOutcome {
    if m.count == 0 {
        ReleaseOutcome::Freed
    } else {
        ReleaseOutcome::Faulted
    }
}

/// The owner's release: with no borrows outstanding the storage is freed;
/// otherwise the cell is leaked with its count and payload intact, so that
/// every outstanding borrow stays valid.
pub open spec fn cell_release<T>(m: CellModel<T>) -> CellModel<T> {
    if m.count == 0 {
        CellModel { count: 0, phase: Phase::Freed, data: None }
    } else {
        CellModel { count: m.count, phase: Phase::Leaked, data: m.data }
    }
}

} // verus!
