//! The ioctl dispatcher: the three recognised commands, their failure on a
//! null destination, the "not supported" fallback, and the numeric error
//! codes.

use tty0tty::errors::DriverError;
use tty0tty::facade::{IoctlReply, TIOCGICOUNT, TIOCGSERIAL, TIOCMIWAIT};
use tty0tty::lines::{TIOCM_CTS, TIOCM_RTS};
use tty0tty::table::PortSlotTable;
use tty0tty::wait::WaitVerdict;

fn pair() -> PortSlotTable {
    let mut t = PortSlotTable::new(1);
    t.open(0).unwrap();
    t.open(1).unwrap();
    t
}

#[test]
fn serial_info_reflects_fixed_capabilities() {
    let t = pair();
    match t.ioctl(0, TIOCGSERIAL, 0x1000) {
        Ok(IoctlReply::Serial(info)) => {
            assert_eq!(info.flags, 0x40 | 0x80);
            assert_eq!(info.close_delay, 5 * 250);
            assert_eq!(info.closing_wait, 30 * 250);
            assert_eq!(info.kind, 0);
            assert_eq!(info.line, 0);
            assert_eq!(info.baud_base, 0);
        }
        other => panic!("unexpected reply: {:?}", other),
    }
}

#[test]
fn serial_info_fails_on_null_destination() {
    let t = pair();
    assert_eq!(t.ioctl(0, TIOCGSERIAL, 0), Err(DriverError::InvalidDestination));
}

#[test]
fn counters_snapshot_the_event_history() {
    let mut t = pair();
    t.set_control(0, TIOCM_RTS, 0);
    t.set_control(0, 0, TIOCM_RTS);
    match t.ioctl(1, TIOCGICOUNT, 0x1000) {
        Ok(IoctlReply::Counters(c)) => {
            assert_eq!(c.cts, 2);
            assert_eq!(c.dsr, 0);
            assert_eq!(c.dcd, 0);
            assert_eq!(c.rng, 0);
            assert_eq!(c.rx, 0);
            assert_eq!(c.tx, 0);
        }
        other => panic!("unexpected reply: {:?}", other),
    }
    assert_eq!(t.ioctl(1, TIOCGICOUNT, 0), Err(DriverError::InvalidDestination));
}

#[test]
fn wait_command_starts_a_wait_keyed_on_the_mask() {
    let mut t = pair();
    let mut st = match t.ioctl(1, TIOCMIWAIT, TIOCM_CTS as u64) {
        Ok(IoctlReply::WaitRequested(st)) => st,
        other => panic!("unexpected reply: {:?}", other),
    };
    assert_eq!(st.index, 1);
    assert_eq!(st.mask, TIOCM_CTS);
    t.set_control(0, TIOCM_RTS, 0);
    assert_eq!(t.wait_on_wake(&mut st, false), WaitVerdict::Ready);
}

#[test]
fn unknown_command_is_not_supported() {
    let t = pair();
    assert_eq!(t.ioctl(0, 0xDEAD, 0x1000), Err(DriverError::NotSupported));
}

#[test]
fn errors_map_to_their_numeric_codes() {
    assert_eq!(DriverError::OutOfMemory.errno(), -12);
    assert_eq!(DriverError::InvalidDestination.errno(), -14);
    assert_eq!(DriverError::Interrupted.errno(), -512);
    assert_eq!(DriverError::NoChange.errno(), -5);
    assert_eq!(DriverError::NotSupported.errno(), -515);
}

#[test]
fn ioctl_on_a_never_opened_slot_reports_fresh_state() {
    let t = PortSlotTable::new(1);
    match t.ioctl(0, TIOCGICOUNT, 0x1000) {
        Ok(IoctlReply::Counters(c)) => {
            assert_eq!(c.cts, 0);
            assert_eq!(c.dsr, 0);
        }
        other => panic!("unexpected reply: {:?}", other),
    }
}
