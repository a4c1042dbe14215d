//! The blocking status-change wait, driven as a state machine: snapshot,
//! wake, verdict.

use tty0tty::lines::{TIOCM_CTS, TIOCM_DSR, TIOCM_DTR, TIOCM_RTS};
use tty0tty::table::PortSlotTable;
use tty0tty::wait::WaitVerdict;

fn pair() -> PortSlotTable {
    let mut t = PortSlotTable::new(1);
    t.open(0).unwrap();
    t.open(1).unwrap();
    t
}

#[test]
fn cts_only_wait_ignores_dsr_change_and_wakes_on_cts() {
    let mut t = pair();
    // Wait on slot 1 for CTS changes only, started before anything moves.
    let mut st = t.wait_begin(1, TIOCM_CTS);

    // A DTR-driven change lands on slot 1's DSR/CD lines, not on CTS: the
    // wake is not spurious, but the wait stays blocked.
    t.set_control(0, TIOCM_DTR, 0);
    let v = t.wait_on_wake(&mut st, false);
    assert_eq!(v, WaitVerdict::KeepWaiting);

    // Nothing new since the snapshot advanced: a second wake is judged
    // spurious and ends the wait as a failure.
    let mut st_probe = st;
    let v_probe = t.wait_on_wake(&mut st_probe, false);
    assert_eq!(v_probe, WaitVerdict::NoChange);

    // Only a CTS-affecting change releases the wait.
    t.set_control(0, TIOCM_RTS, 0);
    let v2 = t.wait_on_wake(&mut st, false);
    assert_eq!(v2, WaitVerdict::Ready);
}

#[test]
fn pending_signal_interrupts_before_anything_else() {
    let mut t = pair();
    let mut st = t.wait_begin(1, TIOCM_CTS);
    t.set_control(0, TIOCM_RTS, 0);
    // Even though a selected line moved, the signal wins.
    let v = t.wait_on_wake(&mut st, true);
    assert_eq!(v, WaitVerdict::Interrupted);
}

#[test]
fn still_wake_is_a_no_change_failure() {
    let t = pair();
    let mut st = t.wait_begin(1, TIOCM_CTS | TIOCM_DSR);
    let v = t.wait_on_wake(&mut st, false);
    assert_eq!(v, WaitVerdict::NoChange);
}

#[test]
fn selected_dsr_change_wakes_a_dsr_wait() {
    let mut t = pair();
    let mut st = t.wait_begin(1, TIOCM_DSR);
    t.set_control(0, TIOCM_DTR, 0);
    let v = t.wait_on_wake(&mut st, false);
    assert_eq!(v, WaitVerdict::Ready);
}

#[test]
fn keep_waiting_advances_the_snapshot() {
    let mut t = pair();
    let mut st = t.wait_begin(1, TIOCM_CTS);

    t.set_control(0, TIOCM_DTR, 0);
    assert_eq!(t.wait_on_wake(&mut st, false), WaitVerdict::KeepWaiting);

    // Another irrelevant movement: still waiting, snapshot advances again.
    t.set_control(0, 0, TIOCM_DTR);
    assert_eq!(t.wait_on_wake(&mut st, false), WaitVerdict::KeepWaiting);

    t.set_control(0, TIOCM_RTS, 0);
    assert_eq!(t.wait_on_wake(&mut st, false), WaitVerdict::Ready);
}
