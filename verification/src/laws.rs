//! Properties of whole histories of borrow activity, proved over the ghost
//! model in [`crate::model`].
//!
//! A history is a sequence of [`BorrowEvent`]s: each `Take` stands for a
//! call of [`crate::My::borrow`] or [`crate::Dyb::duplicate`], each `Give`
//! for a call of [`crate::Dyb::release`]. Running a history over a cell
//! model replays exactly the transitions those operations promise in their
//! contracts, so what is proved of `run` holds of every interleaving of the
//! executable operations.

use crate::model::{
    cell_borrow, cell_new, cell_release, cell_return, release_outcome, CellModel, ReleaseOutcome,
};
use vstd::prelude::*;

verus! {

/// One unit of borrow-side activity on a cell: taking a borrow handle
/// (borrowing from the owner, or duplicating an existing handle) or giving
/// one back (releasing it).
pub enum BorrowEvent {
    Take,
    Give,
}

/// An event is admissible on a cell: a handle can be given back only while
/// the count accounts for it.
pub open spec fn event_ok<T>(m: CellModel<T>, e: BorrowEvent) -> bool {
    e is Give ==> m.count >= 1
}

/// The cell after one event.
pub open spec fn step<T>(m: CellModel<T>, e: BorrowEvent) -> CellModel<T> {
    match e {
        BorrowEvent::Take => cell_borrow(m),
        BorrowEvent::Give => cell_return(m),
    }
}

/// Every event of the history is admissible at its turn.
pub open spec fn events_ok<T>(m: CellModel<T>, es: Seq<BorrowEvent>) -> bool
    decreases es.len(),
{
    es.len() > 0 ==> event_ok(m, es[0]) && events_ok(step(m, es[0]), es.drop_first())
}

/// The cell after the whole history.
pub open spec fn run<T>(m: CellModel<T>, es: Seq<BorrowEvent>) -> CellModel<T>
    decreases es.len(),
{
    if es.len() == 0 {
        m
    } else {
        run(step(m, es[0]), es.drop_first())
    }
}

/// How many handles the history takes.
pub open spec fn takes(es: Seq<BorrowEvent>) -> nat
    decreases es.len(),
{
    if es.len() == 0 {
        0
    } else {
        (if es[0] is Take {
            1nat
        } else {
            0nat
        }) + takes(es.drop_first())
    }
}

/// How many handles the history gives back.
pub open spec fn gives(es: Seq<BorrowEvent>) -> nat
    decreases es.len(),
{
    if es.len() == 0 {
        0
    } else {
        (if es[0] is Give {
            1nat
        } else {
            0nat
        }) + gives(es.drop_first())
    }
}

/// The history `e, e, ..., e` of length `n`.
pub open spec fn repeat_event(e: BorrowEvent, n: nat) -> Seq<BorrowEvent> {
    Seq::new(n, |i: int| e)
}

/// Borrow activity only moves the count, by its takes minus its gives; the
/// phase and the payload are untouched. In particular the order of the
/// events within the history is irrelevant to where the cell ends up.
pub proof fn lemma_run_balance<T>(m: CellModel<T>, es: Seq<BorrowEvent>)
    requires
        events_ok(m, es),
    ensures
        run(m, es).count == m.count + takes(es) - gives(es),
        run(m, es).phase == m.phase,
        run(m, es).data == m.data,
    decreases es.len(),
{
    if es.len() > 0 {
        lemma_run_balance(step(m, es[0]), es.drop_first());
    }
}

/// Running a concatenated history is running its parts in turn, and it is
/// admissible exactly when each part is admissible where it starts.
pub proof fn lemma_run_append<T>(m: CellModel<T>, a: Seq<BorrowEvent>, b: Seq<BorrowEvent>)
    ensures
        run(m, a + b) == run(run(m, a), b),
        events_ok(m, a + b) <==> events_ok(m, a) && events_ok(run(m, a), b),
    decreases a.len(),
{
    if a.len() == 0 {
        assert(a + b =~= b);
    } else {
        assert((a + b)[0] == a[0]);
        assert((a + b).drop_first() =~= a.drop_first() + b);
        lemma_run_append(step(m, a[0]), a.drop_first(), b);
    }
}

/// Running `n` copies of one event: `n` takes raise the count by `n`, and
/// `n` gives are admissible while the count covers them and lower it by `n`.
pub proof fn lemma_run_repeat<T>(m: CellModel<T>, e: BorrowEvent, n: nat)
    requires
        e is Give ==> m.count >= n,
    ensures
        events_ok(m, repeat_event(e, n)),
        run(m, repeat_event(e, n)).phase == m.phase,
        run(m, repeat_event(e, n)).data == m.data,
        e is Take ==> run(m, repeat_event(e, n)).count == m.count + n,
        e is Give ==> run(m, repeat_event(e, n)).count == m.count - n,
    decreases n,
{
    if n > 0 {
        assert(repeat_event(e, n)[0] == e);
        assert(repeat_event(e, n).drop_first() =~= repeat_event(e, (n - 1) as nat));
        lemma_run_repeat(step(m, e), e, (n - 1) as nat);
    }
}

/// Releasing a freshly constructed owner, with no borrows taken, always
/// frees the storage and never faults, whatever the value.
pub proof fn lemma_fresh_release_frees<T>(v: T)
    ensures
        release_outcome(cell_new(v)) == ReleaseOutcome::Freed,
        cell_release(cell_new(v)).phase is Freed,
{
}

/// A borrow taken from a freshly constructed owner views exactly the
/// constructed value, so accessing it yields that value back.
pub proof fn lemma_construct_borrow_access<T>(v: T)
    ensures
        cell_new(v).value() == v,
        cell_borrow(cell_new(v)).value() == v,
{
}

/// Releasing an owner while borrows are outstanding faults, every time, and
/// leaks the cell: the payload and the count survive untouched, and the
/// storage is never freed.
pub proof fn lemma_premature_release_faults<T>(m: CellModel<T>)
    requires
        m.inv(),
        m.count >= 1,
    ensures
        release_outcome(m) == ReleaseOutcome::Faulted,
        cell_release(m).phase is Leaked,
        cell_release(m).data == m.data,
        cell_release(m).count == m.count,
        cell_release(m).inv(),
{
}

/// Giving back every handle that a history took, in any order, strictly
/// before the owner's release means the release frees and never faults.
pub proof fn lemma_balanced_history_frees<T>(v: T, es: Seq<BorrowEvent>)
    requires
        events_ok(cell_new(v), es),
        takes(es) == gives(es),
    ensures
        run(cell_new(v), es).count == 0,
        run(cell_new(v), es).phase is Live,
        release_outcome(run(cell_new(v), es)) == ReleaseOutcome::Freed,
        cell_release(run(cell_new(v), es)).phase is Freed,
{
    lemma_run_balance(cell_new(v), es);
}

/// Taking one borrow, duplicating it `n` times, and giving back `k` of the
/// `n + 1` resulting handles leaves `n + 1 - k` outstanding, and the owner's
/// release faults exactly when that is more than zero.
pub proof fn lemma_duplication_balance<T>(v: T, n: nat, k: nat)
    requires
        k <= n + 1,
    ensures
        ({
            let es = repeat_event(BorrowEvent::Take, (n + 1) as nat) + repeat_event(
                BorrowEvent::Give,
                k,
            );
            &&& events_ok(cell_new(v), es)
            &&& run(cell_new(v), es).count == n + 1 - k
            &&& (release_outcome(run(cell_new(v), es)) == ReleaseOutcome::Faulted <==> n + 1 - k
                > 0)
        }),
{
    let m0 = cell_new(v);
    let a = repeat_event(BorrowEvent::Take, (n + 1) as nat);
    let b = repeat_event(BorrowEvent::Give, k);
    lemma_run_repeat(m0, BorrowEvent::Take, (n + 1) as nat);
    lemma_run_repeat(run(m0, a), BorrowEvent::Give, k);
    lemma_run_append(m0, a, b);
}

} // verus!
