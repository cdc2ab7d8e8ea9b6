//! End-to-end scenarios over the cell pair.

use rwcell::make_rw_cell;
use rwcell::rwcell::RWCell;

#[test]
fn scenario_two_writes_then_reads() {
    // cell holds 3; two writes with no read in between: the first read
    // returns only the newest value, and so does a second read with no new
    // write in between — the value 4 is dropped, never observed
    let (mut w, mut r) = make_rw_cell(3);
    w.set(4);
    w.set(5);
    assert_eq!(*r.get(&mut w), 5);
    assert_eq!(*r.get(&mut w), 5);
}

#[test]
fn scenario_clone_and_drop_owners() {
    // cell holds "A"; one owner plus four clones make five ticks; four
    // releases are not the last, the value stays live and readable; the
    // fifth release is the last, and disposal recovers the one value
    let mut cell = RWCell::new("A");
    cell.acquire();
    for _ in 0..4 {
        cell.acquire();
    }
    for _ in 0..4 {
        assert!(!cell.release());
        assert_eq!(*cell.read(), "A");
    }
    assert!(cell.release());
    assert_eq!(cell.dispose_value(), "A");
}

#[test]
fn initial_value_readable_before_any_write() {
    let (mut w, mut r) = make_rw_cell(41);
    assert_eq!(*r.get(&mut w), 41);
    assert_eq!(*r.get(&mut w), 41);
    w.set(42);
    assert_eq!(*r.get(&mut w), 42);
}

#[test]
fn round_trip_single_write() {
    // after one write, the next read returns it, and every further read
    // keeps returning it until the next write
    let (mut w, mut r) = make_rw_cell(String::from("first"));
    w.set(String::from("second"));
    assert_eq!(*r.get(&mut w), "second");
    assert_eq!(*r.get(&mut w), "second");
    assert_eq!(*r.get(&mut w), "second");
    w.set(String::from("third"));
    assert_eq!(*r.get(&mut w), "third");
}

#[test]
fn polling_reader_sees_every_write_at_once() {
    // a write becomes visible within one read call after it completes
    let (mut w, mut r) = make_rw_cell(3u64);
    for i in 4..10000u64 {
        w.set(i);
        assert_eq!(*r.get(&mut w), i);
    }
}

#[test]
fn unread_writes_are_discarded_silently() {
    let (mut w, mut r) = make_rw_cell(3u64);
    for i in 4..10000u64 {
        w.set(i);
    }
    assert_eq!(*r.get(&mut w), 9999);
}
