//! The intrusive reference count: ticks packed above the rotation bits.

use rwcell::intrusive_rc::IntrusiveRefCounter;
use rwcell::rwcell::RWCell;

#[test]
fn only_the_last_release_reports_last() {
    let mut cell = RWCell::new(0u32);
    let n = 7;
    for _ in 0..n + 1 {
        cell.acquire();
    }
    for _ in 0..n {
        assert!(!cell.release());
    }
    assert!(cell.release());
}

#[test]
fn interleaved_acquires_and_releases() {
    // owners may be cloned and dropped in any valid order; only the release
    // that sees a single remaining tick disposes
    let mut cell = RWCell::new(0u32);
    cell.acquire(); // first owner
    cell.acquire(); // clone
    assert!(!cell.release());
    cell.acquire(); // clone again
    cell.acquire();
    assert!(!cell.release());
    assert!(!cell.release());
    assert!(cell.release());
}

#[test]
fn counting_leaves_the_value_untouched() {
    let (mut w, mut r) = rwcell::make_rw_cell(String::from("payload"));
    w.set(String::from("updated"));
    assert_eq!(*r.get(&mut w), "updated");
}

#[test]
fn trait_counting_matches_the_cell() {
    // the cell exposes its count through the intrusive-counter trait; the
    // trait's release reports the last reference exactly as the cell does
    let mut cell = RWCell::new(9u8);
    cell.acquire_ref();
    cell.acquire_ref();
    assert!(!cell.release_ref());
    assert!(cell.release_ref());
    cell.dispose();
}
