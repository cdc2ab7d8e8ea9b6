//! The rotation protocol observed directly: position functions, the reader's
//! switch, and the disposal routine from every reader position.

use rwcell::rwcell::RWCell;

#[test]
fn reader_positions_follow_the_rotation_table() {
    let expected = [0, 0, 0, 0, 1, 1, 1, 1, 2, 2, 2, 2];
    for (rot, want) in expected.iter().enumerate() {
        assert_eq!(RWCell::<u32>::reader_pos(rot), *want, "rotation {rot}");
    }
}

#[test]
fn writer_positions_follow_the_rotation_table() {
    let expected = [2, 2, 1, 1, 0, 0, 2, 2, 1, 1, 0, 0];
    for (rot, want) in expected.iter().enumerate() {
        assert_eq!(RWCell::<u32>::writer_pos(rot), *want, "rotation {rot}");
    }
}

#[test]
fn writer_and_reader_never_share_a_slot() {
    for rot in 0..16 {
        if rot == 14 {
            continue; // the one four-bit value the protocol never reaches
        }
        assert_ne!(
            RWCell::<u32>::reader_pos(rot),
            RWCell::<u32>::writer_pos(rot),
            "rotation {rot}"
        );
    }
}

#[test]
fn positions_ignore_the_reference_count_bits() {
    // the count lives in ticks of 16 above the rotation bits, so adding
    // whole ticks to the state word must never move either position
    for rot in 0..12 {
        for ticks in [1usize, 2, 5, 1000] {
            let marker = ticks * 16 + rot;
            assert_eq!(RWCell::<u32>::reader_pos(marker), RWCell::<u32>::reader_pos(rot));
            assert_eq!(RWCell::<u32>::writer_pos(marker), RWCell::<u32>::writer_pos(rot));
        }
    }
}

#[test]
fn reader_switch_advances_onto_the_pending_slot() {
    // from the initial state one write moves the rotation field to 3; the
    // reader's switch then adds 5, landing on state 8, whose reader slot is
    // the one the write filled
    let mut cell = RWCell::new(1u32);
    cell.write(2);
    let m1 = cell.reader_switch(3);
    assert_eq!(m1, 8);
    assert_eq!(RWCell::<u32>::reader_pos(m1), 2);
}

#[test]
fn disposal_recovers_the_value_from_each_slot() {
    // the reader position cycles 0, 2, 1 as values are written and read;
    // disposal must recover exactly the current value wherever it sits
    let mut cell = RWCell::new(10u64);
    assert_eq!(cell.dispose_value(), 10);

    let mut cell = RWCell::new(10u64);
    cell.write(11);
    cell.read();
    assert_eq!(cell.dispose_value(), 11);

    let mut cell = RWCell::new(10u64);
    cell.write(11);
    cell.read();
    cell.write(12);
    cell.read();
    assert_eq!(cell.dispose_value(), 12);
}

#[test]
fn disposal_with_a_value_still_pending() {
    // an unconsumed pending value does not divert disposal: the routine
    // extracts the reader's current value, not the pending one
    let mut cell = RWCell::new(1u8);
    cell.write(2);
    assert_eq!(cell.dispose_value(), 1);
}

#[test]
fn reads_do_not_consume_without_a_pending_write() {
    let mut cell = RWCell::new(5i32);
    for _ in 0..100 {
        assert_eq!(*cell.read(), 5);
    }
}

#[test]
fn interleaved_writes_and_reads_keep_the_newest_value() {
    let mut cell = RWCell::new(0u32);
    for i in 1..200u32 {
        cell.write(i);
        if i % 3 == 0 {
            assert_eq!(*cell.read(), i);
        }
    }
    assert_eq!(*cell.read(), 199);
}
