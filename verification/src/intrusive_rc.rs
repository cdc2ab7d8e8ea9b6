//! Intrusive reference counting.
//!
//! Instead of a separate control block, an intrusively counted type keeps
//! its own reference count — here, the high bits of the cell's packed state
//! word. An owner handle is one tick of ownership: it is created by
//! acquiring a tick and destroyed by releasing one, and whichever release
//! observes a pre-decrement count of exactly one tick runs the type's
//! disposal routine instead of an ordinary destructor.

use vstd::prelude::*;

use crate::rwcell::RWCell;
use crate::rwcell::TICKS_LIMIT;

verus! {

/// Contract required of a type that carries its own reference count.
///
/// `rc_inv` is whatever invariant the counting needs; `ref_ticks` is the
/// count an abstract owner population would observe. Acquiring adds one
/// tick; releasing subtracts one and reports whether the count stood at
/// exactly one tick before the decrement — the last-reference case, after
/// which the object must be disposed, not dropped.
pub trait IntrusiveRefCounter: Sized {
    /// The invariant that acquiring and releasing preserve.
    spec fn rc_inv(&self) -> bool;

    /// The current reference count, in ticks.
    spec fn ref_ticks(&self) -> int;

    /// Whether one more tick fits.
    spec fn can_acquire(&self) -> bool;

    /// Add one tick of ownership; use it prior to copying a pointer to the
    /// object.
    fn acquire_ref(&mut self)
        requires
            old(self).rc_inv(),
            old(self).can_acquire(),
        ensures
            final(self).rc_inv(),
            final(self).ref_ticks() == old(self).ref_ticks() + 1,
    ;

    /// Subtract one tick of ownership; true means the count stood at
    /// exactly one tick, so the caller holds the last reference and must
    /// dispose of the object.
    fn release_ref(&mut self) -> (last: bool)
        requires
            old(self).rc_inv(),
            old(self).ref_ticks() >= 1,
        ensures
            final(self).rc_inv(),
            final(self).ref_ticks() == old(self).ref_ticks() - 1,
            last == (old(self).ref_ticks() == 1),
    ;

    /// One-time teardown at the end of the shared lifetime, run by whoever
    /// released the last reference.
    fn dispose(self)
        requires
            self.rc_inv(),
    ;
}

impl<T> IntrusiveRefCounter for RWCell<T> {
    /// The cell's own well-formedness.
    closed spec fn rc_inv(&self) -> bool {
        self.wf()
    }

    /// The count packed above the rotation bits of the state word.
    closed spec fn ref_ticks(&self) -> int {
        self@.ticks
    }

    closed spec fn can_acquire(&self) -> bool {
        self@.ticks + 1 < TICKS_LIMIT
    }

    fn acquire_ref(&mut self) {
        self.acquire();
    }

    fn release_ref(&mut self) -> (last: bool) {
        self.release()
    }

    fn dispose(self) {
        let _current = self.dispose_value();
    }
}

/// The reference count after a run of ownership events, each `true` an
/// acquire (a handle created) and each `false` a release (a handle
/// dropped), starting from `start` ticks.
pub open spec fn ticks_after(start: int, ops: Seq<bool>) -> int
    decreases ops.len(),
{
    if ops.len() == 0 {
        start
    } else {
        ticks_after(start, ops.drop_last()) + if ops.last() {
            1int
        } else {
            -1int
        }
    }
}

/// A run of ownership events is valid when every event happens while some
/// owner still exists: each acquire copies a live handle, each release
/// drops one.
pub open spec fn valid_ops(start: int, ops: Seq<bool>) -> bool {
    forall|i: int| 0 <= i < ops.len() ==> ticks_after(start, #[trigger] ops.take(i)) >= 1
}

/// One event extends the count by one step.
proof fn lemma_ticks_after_step(start: int, ops: Seq<bool>, i: int)
    requires
        0 <= i < ops.len(),
    ensures
        ticks_after(start, ops.take(i + 1)) == ticks_after(start, ops.take(i)) + if ops[i] {
            1int
        } else {
            -1int
        },
{
    assert(ops.take(i + 1).drop_last() =~= ops.take(i));
    assert(ops.take(i + 1).last() == ops[i]);
}

/// Refcount correctness: create one owner, clone and drop owners in any
/// valid order until every one of them is gone. Then the release that
/// observed a pre-decrement count of one tick — the one that disposes — is
/// exactly the last event, and no earlier release disposed: disposal
/// happens exactly once, strictly after the last drop.
pub proof fn law_refcount_disposal(ops: Seq<bool>)
    requires
        ops.len() >= 1,
        valid_ops(1, ops),
        ticks_after(1, ops) == 0,
    ensures
        !ops.last(),
        ticks_after(1, ops.take(ops.len() - 1)) == 1,
        forall|i: int|
            0 <= i < ops.len() - 1 ==> !(!ops[i] && ticks_after(1, #[trigger] ops.take(i)) == 1),
{
    let n = ops.len() as int;
    assert(ops.take(n) =~= ops);
    lemma_ticks_after_step(1, ops, n - 1);
    assert(ticks_after(1, ops.take(n - 1)) >= 1);
    assert forall|i: int|
        0 <= i < n - 1 implies !(!ops[i] && ticks_after(1, #[trigger] ops.take(i)) == 1) by {
        if !ops[i] && ticks_after(1, ops.take(i)) == 1 {
            lemma_ticks_after_step(1, ops, i);
            assert(ticks_after(1, ops.take(i + 1)) == 0);
        }
    }
}

} // verus!
