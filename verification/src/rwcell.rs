//! The wait-free cell's rotation protocol, modelled sequentially.
//!
//! One state word (`marker`) packs two independent sub-fields:
//!
//! * the low four bits are the rotation state: which of the three slots is
//!   the writer's target, which is the reader's, and (bit 0) whether a
//!   written value is pending and not yet consumed;
//! * the remaining high bits count references in ticks of 16, so that
//!   acquiring or releasing a reference never disturbs the rotation bits.
//!
//! The slot positions are pure functions of the rotation sub-field. On every
//! reachable rotation state the writer's slot and the reader's slot differ,
//! which is why the concurrent variant of this protocol needs atomicity only
//! on the state word, never on the slots.

use vstd::prelude::*;

verus! {

/// Number of state-word units in one reference-count tick; the rotation
/// sub-field lives entirely below it.
pub const TICK: usize = 16;

/// Upper bound on the reference count, far below any machine word's
/// capacity, so that state-word arithmetic can never overflow.
pub const TICKS_LIMIT: usize = 0x0800_0000;

/// Rotation sub-field of a state word: its low four bits.
pub open spec fn rot_of(m: usize) -> int {
    m as int % 16
}

/// Reference count of a state word, in ticks: its high bits.
pub open spec fn ticks_of(m: usize) -> int {
    m as int / 16
}

/// Slot the reader currently observes, as a function of the rotation state.
pub open spec fn spec_reader_pos(r: int) -> int {
    (r / 4) % 3
}

/// Slot the writer will construct into next, as a function of the rotation
/// state. It cycles opposite to the reader's position.
pub open spec fn spec_writer_pos(r: int) -> int {
    2 - (r / 2) % 3
}

/// The publish flag: a written value is pending and not yet consumed.
pub open spec fn spec_flag(r: int) -> bool {
    r % 2 == 1
}

/// The writer's toggle of the slot-assignment bit (bit 1) of the rotation
/// state.
pub open spec fn spec_flip(r: int) -> int {
    if (r / 2) % 2 == 0 {
        r + 2
    } else {
        r - 2
    }
}

/// Rotation state after one write: toggle the assignment bit, then raise the
/// publish flag if it was not already up.
pub open spec fn spec_write_rot(r: int) -> int {
    let f = spec_flip(r);
    if spec_flag(f) {
        f
    } else {
        f + 1
    }
}

/// Rotation state after one read: unchanged unless a value is pending, in
/// which case the rotation advances around its cycle (the step is an add or
/// a subtract, chosen by which half of the cycle the state is in).
pub open spec fn spec_read_rot(r: int) -> int {
    if !spec_flag(r) {
        r
    } else if r > 7 {
        r - 7
    } else {
        r + 5
    }
}

/// Slot holding the pending value when the publish flag is up: the one the
/// reader will move to at its next switch.
pub open spec fn spec_pending_pos(r: int) -> int {
    spec_reader_pos(spec_read_rot(r))
}

/// The rotation states reachable from the initial state 0. Of the sixteen
/// values of the sub-field only these occur; 14 never does.
pub open spec fn reachable_rot(r: int) -> bool {
    0 <= r < 16 && r != 14
}

/// Every fact the protocol needs about one reachable rotation state: the
/// positions are slot indices, reader and writer never share a slot, a
/// pending value sits in the third slot, and both the write step and the
/// read step stay inside the reachable set while moving the positions the
/// way the protocol intends.
pub proof fn lemma_rot_facts(r: int)
    requires
        reachable_rot(r),
    ensures
        0 <= spec_reader_pos(r) < 3,
        0 <= spec_writer_pos(r) < 3,
        spec_reader_pos(r) != spec_writer_pos(r),
        spec_flag(r) ==> 0 <= spec_pending_pos(r) < 3,
        spec_flag(r) ==> spec_pending_pos(r) != spec_reader_pos(r),
        spec_flag(r) ==> spec_pending_pos(r) != spec_writer_pos(r),
        // the write step
        reachable_rot(spec_write_rot(r)),
        0 <= spec_flip(r) < 16,
        spec_flag(spec_write_rot(r)),
        spec_reader_pos(spec_write_rot(r)) == spec_reader_pos(r),
        spec_pending_pos(spec_write_rot(r)) == spec_writer_pos(r),
        spec_flag(r) ==> spec_write_rot(r) == spec_flip(r),
        spec_flag(r) ==> spec_writer_pos(spec_flip(r)) == spec_pending_pos(r),
        // the read step
        reachable_rot(spec_read_rot(r)),
        spec_flag(r) ==> !spec_flag(spec_read_rot(r)),
        spec_flag(r) ==> spec_reader_pos(spec_read_rot(r)) == spec_pending_pos(r),
{
    if r == 0 {
    } else if r == 1 {
    } else if r == 2 {
    } else if r == 3 {
    } else if r == 4 {
    } else if r == 5 {
    } else if r == 6 {
    } else if r == 7 {
    } else if r == 8 {
    } else if r == 9 {
    } else if r == 10 {
    } else if r == 11 {
    } else if r == 12 {
    } else if r == 13 {
    } else {
        assert(r == 15);
    }
}

/// Splits a state word into its reference count and rotation sub-field, and
/// conversely pins down the word built from a count and a rotation value.
pub proof fn lemma_pack(m: int, q: int, r: int)
    requires
        m == 16 * q + r,
        0 <= r < 16,
        0 <= q,
    ensures
        m / 16 == q,
        m % 16 == r,
        m % 2 == r % 2,
{
    vstd::arithmetic::div_mod::lemma_fundamental_div_mod_converse(m, 16, q, r);
    vstd::arithmetic::div_mod::lemma_mod_multiples_vanish(8 * q, r, 2);
    assert(2 * (8 * q) + r == m) by (nonlinear_arith)
        requires
            m == 16 * q + r,
    ;
}

/// Abstract state of one cell: the rotation sub-field, the reference count
/// in ticks, the value the reader currently observes, and the published
/// value not yet consumed, if any.
pub struct CellState<T> {
    pub rot: int,
    pub ticks: int,
    pub current: T,
    pub pending: Option<T>,
}

/// One write, abstractly: the rotation advances by the write step, the new
/// value becomes the pending one — superseding, never disturbing, what the
/// reader currently observes.
pub open spec fn write_step<T>(s: CellState<T>, v: T) -> CellState<T> {
    CellState { rot: spec_write_rot(s.rot), ticks: s.ticks, current: s.current, pending: Some(v) }
}

/// One read, abstractly: with a value pending the reader moves onto it and
/// clears the publish flag; with none, nothing changes.
pub open spec fn read_step<T>(s: CellState<T>) -> CellState<T> {
    if s.pending is Some {
        CellState { rot: spec_read_rot(s.rot), ticks: s.ticks, current: s.pending->0, pending: None }
    } else {
        s
    }
}

/// The value one read returns: the pending value if there is one, else the
/// current one.
pub open spec fn read_value<T>(s: CellState<T>) -> T {
    if s.pending is Some {
        s.pending->0
    } else {
        s.current
    }
}

/// The cell: one packed state word and three slots. At any instant the
/// reader's slot holds a value, the writer's slot holds none, and the third
/// slot holds a value exactly when one is pending — so at most two slots are
/// ever occupied, and at least one always is.
pub struct RWCell<T> {
    marker: usize,
    slot0: Option<T>,
    slot1: Option<T>,
    slot2: Option<T>,
}

impl<T> RWCell<T> {
    /// The slot at index `i`.
    pub closed spec fn slot(&self, i: int) -> Option<T> {
        if i == 0 {
            self.slot0
        } else if i == 1 {
            self.slot1
        } else {
            self.slot2
        }
    }

    /// The state word.
    pub closed spec fn marker_word(&self) -> usize {
        self.marker
    }

    /// Current rotation sub-field.
    pub closed spec fn rot(&self) -> int {
        rot_of(self.marker)
    }

    /// Current reference count, in ticks.
    pub closed spec fn ticks(&self) -> int {
        ticks_of(self.marker)
    }

    /// Whether a written value is pending.
    pub closed spec fn flag(&self) -> bool {
        spec_flag(self.rot())
    }

    /// Reader's slot index.
    pub closed spec fn rpos(&self) -> int {
        spec_reader_pos(self.rot())
    }

    /// Writer's slot index.
    pub closed spec fn wpos(&self) -> int {
        spec_writer_pos(self.rot())
    }

    /// Pending value's slot index (meaningful when the flag is up).
    pub closed spec fn ppos(&self) -> int {
        spec_pending_pos(self.rot())
    }

    /// The cell invariant: the rotation state is reachable, the count is
    /// bounded, and slot occupancy is exactly what the rotation state
    /// derives — the reader's slot and, when a value is pending, the
    /// pending slot, and no other.
    pub closed spec fn occupied_iff_derived(&self, i: int) -> bool {
        self.slot(i) is Some <==> (i == self.rpos() || (self.flag() && i == self.ppos()))
    }

    pub closed spec fn wf(&self) -> bool {
        &&& reachable_rot(self.rot())
        &&& self.ticks() < TICKS_LIMIT
        &&& self.occupied_iff_derived(0)
        &&& self.occupied_iff_derived(1)
        &&& self.occupied_iff_derived(2)
    }
}

impl<T> View for RWCell<T> {
    type V = CellState<T>;

    closed spec fn view(&self) -> CellState<T> {
        CellState {
            rot: self.rot(),
            ticks: self.ticks(),
            current: self.slot(self.rpos())->0,
            pending: if self.flag() {
                Some(self.slot(self.ppos())->0)
            } else {
                None
            },
        }
    }
}

impl<T> RWCell<T> {
    /// Creates a cell holding `value`, in rotation state 0 with no value
    /// pending and a reference count of zero ticks.
    pub fn new(value: T) -> (c: RWCell<T>)
        ensures
            c.wf(),
            c@.rot == 0,
            c@.ticks == 0,
            c@.current == value,
            c@.pending is None,
    {
        RWCell { marker: 0, slot0: Some(value), slot1: None, slot2: None }
    }

    /// Slot index the reader of a cell in state `marker` observes: a pure
    /// function of the rotation sub-field alone, so the reference count in
    /// the high bits never shifts it.
    pub fn reader_pos(marker: usize) -> (p: usize)
        ensures
            p as int == spec_reader_pos(rot_of(marker)),
            p < 3,
    {
        ((marker % 16) / 4) % 3
    }

    /// Slot index the writer of a cell in state `marker` targets; likewise a
    /// function of the rotation sub-field alone.
    pub fn writer_pos(marker: usize) -> (p: usize)
        ensures
            p as int == spec_writer_pos(rot_of(marker)),
            p < 3,
    {
        2 - (((marker % 16) / 2) % 3)
    }

    /// Replaces the slot at `pos`, returning what it held.
    fn swap_slot(&mut self, pos: usize, value: Option<T>) -> (prev: Option<T>)
        requires
            pos < 3,
        ensures
            prev == old(self).slot(pos as int),
            final(self).slot(pos as int) == value,
            final(self).slot(0) == if pos == 0 { value } else { old(self).slot(0) },
            final(self).slot(1) == if pos == 1 { value } else { old(self).slot(1) },
            final(self).slot(2) == if pos == 2 { value } else { old(self).slot(2) },
            final(self).marker_word() == old(self).marker_word(),
    {
        if pos == 0 {
            let prev = self.slot0.take();
            self.slot0 = value;
            prev
        } else if pos == 1 {
            let prev = self.slot1.take();
            self.slot1 = value;
            prev
        } else {
            let prev = self.slot2.take();
            self.slot2 = value;
            prev
        }
    }

    /// A shared borrow of the value in the slot at `pos`.
    fn get_slot(&self, pos: usize) -> (r: &T)
        requires
            pos < 3,
            self.slot(pos as int) is Some,
        ensures
            *r == self.slot(pos as int)->0,
    {
        let opt = if pos == 0 {
            &self.slot0
        } else if pos == 1 {
            &self.slot1
        } else {
            &self.slot2
        };
        match opt {
            Some(v) => v,
            None => vstd::pervasive::unreached(),
        }
    }

    /// Store a new value, called only through the writing half.
    ///
    /// The value is constructed into the writer's slot — never the one the
    /// reader observes — then the assignment bit is toggled. If no value was
    /// pending, the publish flag goes up; if one was, it has just been
    /// superseded without ever being read, and is destroyed: only the newest
    /// unread value survives.
    pub fn write(&mut self, value: T)
        requires
            old(self).wf(),
        ensures
            final(self).wf(),
            final(self)@ == write_step(old(self)@, value),
    {
        let m0 = self.marker;
        let r0 = m0 % 16;
        proof {
            vstd::arithmetic::div_mod::lemma_fundamental_div_mod(m0 as int, 16);
            lemma_rot_facts(r0 as int);
        }
        let pos = Self::writer_pos(m0);
        // the writer's slot held nothing: it is neither the reader's slot
        // nor, when a value is pending, the pending slot
        let _empty = self.swap_slot(pos, Some(value));
        // toggle the writer/reader slot-assignment bit of the rotation field
        let r1 = if (r0 / 2) % 2 == 0 {
            r0 + 2
        } else {
            r0 - 2
        };
        let r2 = if r1 % 2 == 0 {
            // nothing was pending: raise the publish flag
            r1 + 1
        } else {
            // a pending value was never consumed; destroy it
            proof {
                vstd::arithmetic::div_mod::lemma_small_mod(r1 as nat, 16);
            }
            let stale_pos = Self::writer_pos(r1);
            let _superseded = self.swap_slot(stale_pos, None);
            r1
        };
        proof {
            assert(usize::MAX >= 0xFFFF_FFFF);
            lemma_pack(m0 as int - r0 as int + r2 as int, ticks_of(m0), r2 as int);
        }
        self.marker = m0 - r0 + r2;
    }

    /// Advance the reader onto the pending slot: the rotation sub-field
    /// steps around its cycle by an add or a subtract chosen by which half
    /// of the cycle it is in, leaving the reference-count bits untouched.
    /// `marker` is the state word as last observed; the new word is
    /// returned.
    pub fn reader_switch(&mut self, marker: usize) -> (m1: usize)
        requires
            marker == old(self).marker_word(),
            reachable_rot(rot_of(marker)),
            spec_flag(rot_of(marker)),
            ticks_of(marker) < TICKS_LIMIT,
        ensures
            final(self).marker_word() == m1,
            rot_of(m1) == spec_read_rot(rot_of(marker)),
            ticks_of(m1) == ticks_of(marker),
            final(self).slot(0) == old(self).slot(0),
            final(self).slot(1) == old(self).slot(1),
            final(self).slot(2) == old(self).slot(2),
    {
        let r0 = marker % 16;
        proof {
            vstd::arithmetic::div_mod::lemma_fundamental_div_mod(marker as int, 16);
            lemma_rot_facts(r0 as int);
            assert(usize::MAX >= 0xFFFF_FFFF);
        }
        let m1 = if r0 > 7 {
            marker - 7
        } else {
            marker + 5
        };
        proof {
            lemma_pack(m1 as int, ticks_of(marker), spec_read_rot(r0 as int));
        }
        self.marker = m1;
        m1
    }

    /// Read the stored value, called only through the reading half.
    ///
    /// With no value pending the reader's slot is returned unchanged, so
    /// repeated reads keep yielding the same value. With one pending, the
    /// superseded value is destroyed, the reader switches onto the pending
    /// slot, and the newly published value is returned.
    pub fn read(&mut self) -> (r: &T)
        requires
            old(self).wf(),
        ensures
            final(self).wf(),
            final(self)@ == read_step(old(self)@),
            *r == read_value(old(self)@),
    {
        let m0 = self.marker;
        let pos = Self::reader_pos(m0);
        proof {
            vstd::arithmetic::div_mod::lemma_fundamental_div_mod(m0 as int, 16);
            lemma_pack(m0 as int, ticks_of(m0), rot_of(m0));
            lemma_rot_facts(rot_of(m0));
        }
        if m0 % 2 == 0 {
            self.get_slot(pos)
        } else {
            // destroy the value being superseded, switch onto the pending
            // slot, and hand that newly published value out
            let _superseded = self.swap_slot(pos, None);
            let m1 = self.reader_switch(m0);
            let pos2 = Self::reader_pos(m1);
            self.get_slot(pos2)
        }
    }

    /// Add one tick of ownership to the reference count packed above the
    /// rotation bits; the rotation state and the slots are untouched.
    pub fn acquire(&mut self)
        requires
            old(self).wf(),
            old(self)@.ticks + 1 < TICKS_LIMIT,
        ensures
            final(self).wf(),
            final(self)@ == (CellState { ticks: old(self)@.ticks + 1, ..old(self)@ }),
    {
        proof {
            let m0 = self.marker;
            vstd::arithmetic::div_mod::lemma_fundamental_div_mod(m0 as int, 16);
            assert(usize::MAX >= 0xFFFF_FFFF);
            lemma_pack(m0 as int + 16, ticks_of(m0) + 1, rot_of(m0));
        }
        self.marker = self.marker + TICK;
    }

    /// Subtract one tick of ownership, reporting whether this was the last
    /// reference. The comparison is against the count as it stood before
    /// the decrement — the only form that stays correct when many owners
    /// release concurrently through the atomic variant of this word.
    pub fn release(&mut self) -> (last: bool)
        requires
            old(self).wf(),
            old(self)@.ticks >= 1,
        ensures
            final(self).wf(),
            final(self)@ == (CellState { ticks: old(self)@.ticks - 1, ..old(self)@ }),
            last == (old(self)@.ticks == 1),
    {
        let m0 = self.marker;
        let last = m0 / TICK == 1;
        proof {
            vstd::arithmetic::div_mod::lemma_fundamental_div_mod(m0 as int, 16);
            lemma_pack(m0 as int - 16, ticks_of(m0) - 1, rot_of(m0));
        }
        self.marker = m0 - TICK;
        last
    }

    /// The disposal routine, run once at the end of the cell's shared
    /// lifetime: re-derive the reader's slot from the state word and extract
    /// exactly that one value — always exactly one, whichever of the three
    /// slots is the current one. Any still-pending value goes down with the
    /// cell's remaining storage.
    pub fn dispose_value(self) -> (v: T)
        requires
            self.wf(),
        ensures
            v == self@.current,
    {
        let mut this = self;
        proof {
            lemma_rot_facts(this.rot());
        }
        let pos = Self::reader_pos(this.marker);
        let taken = this.swap_slot(pos, None);
        match taken {
            Some(v) => v,
            None => vstd::pervasive::unreached(),
        }
    }
}

/// Round-trip: after one write with no further writes, the next read
/// returns the written value, and every later read keeps returning it —
/// both the value and the cell's state are stable — until the next write.
pub proof fn law_round_trip<T>(s: CellState<T>, v: T)
    ensures
        read_value(write_step(s, v)) == v,
        read_step(write_step(s, v)).current == v,
        read_step(write_step(s, v)).pending is None,
        read_value(read_step(write_step(s, v))) == v,
        read_step(read_step(write_step(s, v))) == read_step(write_step(s, v)),
{
}

/// Liveness: a completed write is visible to the very next read — polling
/// never needs more than one further read call to observe it.
pub proof fn law_liveness<T>(s: CellState<T>, v: T)
    ensures
        read_value(write_step(s, v)) == v,
{
}

/// The state after a run of writes, oldest first, with no read in between.
pub open spec fn write_all<T>(s: CellState<T>, vs: Seq<T>) -> CellState<T>
    decreases vs.len(),
{
    if vs.len() == 0 {
        s
    } else {
        write_step(write_all(s, vs.drop_last()), vs.last())
    }
}

/// Latest-value-wins: after any run of writes with no read in between, only
/// the newest value is pending, and the next read returns it — never any
/// earlier value, which vanished without being observed.
pub proof fn law_latest_value_wins<T>(s: CellState<T>, vs: Seq<T>)
    requires
        vs.len() >= 1,
    ensures
        write_all(s, vs).pending == Some(vs.last()),
        read_value(write_all(s, vs)) == vs.last(),
        read_step(write_all(s, vs)).current == vs.last(),
{
}

/// No-tear, as far as a sequential model can state it: the slot a read
/// returns — the reader's, or the pending one — always holds a completely
/// constructed value, and is never the slot the writer constructs into; the
/// happens-before edge that carries this disjointness across threads is the
/// concurrent façade's one extra obligation.
pub proof fn law_no_tear<T>(c: RWCell<T>)
    requires
        c.wf(),
    ensures
        c.slot(c.rpos()) is Some,
        c@.current == c.slot(c.rpos())->0,
        c.slot(c.wpos()) is None,
        c.rpos() != c.wpos(),
        c.flag() ==> c.slot(c.ppos()) is Some,
        c.flag() ==> c@.pending == Some(c.slot(c.ppos())->0),
        c.flag() ==> c.ppos() != c.wpos() && c.ppos() != c.rpos(),
{
    lemma_rot_facts(c.rot());
}


/// Representative of a rotation value's observable class: the base value,
/// below twelve, with the same derived positions and publish flag.
pub open spec fn rot_class(r: int) -> int {
    if r == 12 {
        0
    } else if r == 13 {
        1
    } else if r == 15 {
        3
    } else {
        r
    }
}

/// The rotation sub-field never takes all sixteen values of its four bits,
/// and what it does take collapses into at most twelve observable classes:
/// three reader positions times four phases. Every reachable value behaves,
/// in both derived positions and the publish flag, like its base value
/// below twelve.
pub proof fn law_twelve_rotation_classes(r: int)
    requires
        reachable_rot(r),
    ensures
        0 <= rot_class(r) < 12,
        spec_reader_pos(rot_class(r)) == spec_reader_pos(r),
        spec_writer_pos(rot_class(r)) == spec_writer_pos(r),
        spec_flag(rot_class(r)) == spec_flag(r),
{
    lemma_rot_facts(r);
    if r == 12 {
        assert(spec_reader_pos(0) == spec_reader_pos(12));
    } else if r == 13 {
        assert(spec_reader_pos(1) == spec_reader_pos(13));
    } else if r == 15 {
        assert(spec_reader_pos(3) == spec_reader_pos(15));
    }
}

} // verus!
