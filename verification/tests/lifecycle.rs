//! Slot lifecycle: open counting, idempotent close, and the retention of a
//! slot's history across close/reopen cycles.

use tty0tty::lines::{TIOCM_CAR, TIOCM_DSR, TIOCM_DTR};
use tty0tty::table::PortSlotTable;

fn open_count(t: &PortSlotTable, i: usize) -> u32 {
    match t.lookup(i) {
        Some(s) => s.open_count,
        None => 0,
    }
}

#[test]
fn open_twice_counts_two_and_closes_return_to_zero() {
    let mut t = PortSlotTable::new(2);
    assert_eq!(t.len(), 4);
    assert!(!t.is_allocated(2));

    t.open(2).unwrap();
    assert!(t.is_allocated(2));
    assert_eq!(open_count(&t, 2), 1);

    t.open(2).unwrap();
    assert_eq!(open_count(&t, 2), 2);

    t.close(2);
    assert_eq!(open_count(&t, 2), 1);
    t.close(2);
    assert_eq!(open_count(&t, 2), 0);

    // The slot is still allocated after both closes.
    assert!(t.is_allocated(2));
}

#[test]
fn over_close_is_a_silent_no_op() {
    let mut t = PortSlotTable::new(1);
    // Closing a never-opened index does nothing and allocates nothing.
    t.close(0);
    assert!(!t.is_allocated(0));

    t.open(0).unwrap();
    t.close(0);
    t.close(0);
    t.close(0);
    assert_eq!(open_count(&t, 0), 0);
}

#[test]
fn reopen_reuses_the_slot_and_keeps_counter_history() {
    let mut t = PortSlotTable::new(1);
    t.open(0).unwrap();
    t.open(1).unwrap();

    // Drive some history onto slot 1's counters through the cross-wire.
    t.set_control(0, TIOCM_DTR, 0);
    t.set_control(0, 0, TIOCM_DTR);
    let history = t.lookup(1).unwrap().icount;
    assert_eq!(history.dsr, 2);
    assert_eq!(history.dcd, 2);

    t.close(1);
    t.close(1);
    assert_eq!(open_count(&t, 1), 0);

    // A third open after the two closes finds the same slot, history intact.
    t.open(1).unwrap();
    let after = t.lookup(1).unwrap().icount;
    assert_eq!(after, history);
    assert_eq!(open_count(&t, 1), 1);
}

#[test]
fn reopen_recomputes_status_from_retained_control_lines() {
    let mut t = PortSlotTable::new(1);
    t.open(0).unwrap();
    t.set_control(0, TIOCM_DTR, 0);
    t.close(0);

    // The control state survives the close; opening again derives the
    // status baseline from it, as a cross-wired cable would feed it back.
    t.open(0).unwrap();
    let st = t.get_status(0);
    assert_ne!(st & TIOCM_DTR, 0);
    assert_ne!(st & TIOCM_DSR, 0);
    assert_ne!(st & TIOCM_CAR, 0);
}

#[test]
fn teardown_releases_every_slot() {
    let mut t = PortSlotTable::new(3);
    t.open(0).unwrap();
    t.open(5).unwrap();
    t.teardown();
    assert_eq!(t.len(), 0);
}
