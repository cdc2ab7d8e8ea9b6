//! A single-writer, single-reader "latest value" cell.
//!
//! The core is a triple-buffered rotation protocol: three storage slots and
//! one packed state word that encodes, in its low bits, which slot belongs to
//! the writer, which to the reader, and whether a freshly written value is
//! pending, and, in its high bits, an intrusive reference count measured in
//! ticks. The writer always constructs into a slot the reader never touches,
//! so the two sides never race on slot storage; only the state word itself is
//! shared.
//!
//! This crate verifies the protocol itself in a sequential model: every
//! rotation step, the slot-liveness invariant, the disjointness of reader and
//! writer positions, the latest-value-wins behaviour, and the reference-count
//! protocol. The lock-free façade that runs the same state-word arithmetic
//! through atomic operations lives outside the verified library.

use vstd::prelude::*;

pub mod intrusive_rc;
pub mod rwcell;

use rwcell::CellState;
use rwcell::RWCell;
use rwcell::read_step;
use rwcell::read_value;
use rwcell::write_step;

verus! {

/// The writing half of a cell pair. It owns the cell storage; the matching
/// [`CellRead`] half borrows it for each read.
pub struct CellWrite<T> {
    cell: RWCell<T>,
}

/// The reading half of a cell pair: a move-only capability that performs the
/// consumer side of the rotation protocol. Holding it is what entitles a
/// caller to run reads, so "exactly one reader" is a compile-time guarantee.
pub struct CellRead<T> {
    role: core::marker::PhantomData<T>,
}

impl<T> CellWrite<T> {
    /// Abstract state of the underlying cell.
    pub closed spec fn view(&self) -> CellState<T> {
        self.cell.view()
    }

    /// The cell invariant, carried through every operation on the pair.
    pub closed spec fn wf(&self) -> bool {
        self.cell.wf()
    }

    /// Publish a new value, superseding any value still pending.
    pub fn set(&mut self, value: T)
        requires
            old(self).wf(),
        ensures
            final(self).wf(),
            final(self)@ == write_step(old(self)@, value),
    {
        self.cell.write(value);
    }
}

impl<T> CellRead<T> {
    /// Observe the most recently published value: consume the pending value
    /// if there is one, otherwise return the current value unchanged.
    pub fn get<'a>(&mut self, source: &'a mut CellWrite<T>) -> (r: &'a T)
        requires
            old(source).wf(),
        ensures
            final(source).wf(),
            final(source)@ == read_step(old(source)@),
            *r == read_value(old(source)@),
    {
        source.cell.read()
    }
}

/// Creates a new cell holding `initial` and returns the writing and reading
/// halves. The cell starts in rotation state 0 with no value pending and a
/// reference count of two ticks, one per half.
pub fn make_rw_cell<T>(initial: T) -> (pair: (CellWrite<T>, CellRead<T>))
    ensures
        pair.0.wf(),
        pair.0@.current == initial,
        pair.0@.pending is None,
        pair.0@.rot == 0,
        pair.0@.ticks == 2,
{
    let mut cell = RWCell::new(initial);
    cell.acquire();
    cell.acquire();
    (CellWrite { cell }, CellRead { role: core::marker::PhantomData })
}

} // verus!
