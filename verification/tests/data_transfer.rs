//! Forwarding written bytes to the peer's inbound queue, and the end-to-end
//! behaviour of one cable pair.

use tty0tty::lines::{TIOCM_CTS, TIOCM_RTS};
use tty0tty::table::PortSlotTable;

#[test]
fn write_delivers_whole_sequence_to_open_peer() {
    let mut t = PortSlotTable::new(1);
    t.open(0).unwrap();
    t.open(1).unwrap();

    let n = t.write(0, b"hello");
    assert_eq!(n, 5);
    assert_eq!(t.lookup(1).unwrap().inbound.as_slice(), b"hello");
    // The writer's own queue stays empty.
    assert!(t.lookup(0).unwrap().inbound.is_empty());
}

#[test]
fn write_to_closed_peer_returns_zero_and_delivers_nothing() {
    let mut t = PortSlotTable::new(1);
    t.open(0).unwrap();
    // Peer 1 was never opened.
    let n = t.write(0, b"hello");
    assert_eq!(n, 0);
    assert!(!t.is_allocated(1));

    // Peer open, writer closed: also dropped.
    t.open(1).unwrap();
    t.close(0);
    let n2 = t.write(0, b"hello");
    assert_eq!(n2, 0);
    assert!(t.lookup(1).unwrap().inbound.is_empty());
}

#[test]
fn writes_append_in_order() {
    let mut t = PortSlotTable::new(1);
    t.open(0).unwrap();
    t.open(1).unwrap();
    assert_eq!(t.write(0, b"ab"), 2);
    assert_eq!(t.write(0, b""), 0);
    assert_eq!(t.write(0, b"cd"), 2);
    assert_eq!(t.lookup(1).unwrap().inbound.as_slice(), b"abcd");
}

#[test]
fn end_to_end_pair_session() {
    // One pair: slots 0 and 1.
    let mut t = PortSlotTable::new(1);
    assert_eq!(t.len(), 2);

    t.open(0).unwrap();
    t.open(1).unwrap();

    // Written data crosses the cable.
    let n = t.write(0, b"AT\r\n");
    assert_eq!(n, 4);
    assert_eq!(t.lookup(1).unwrap().inbound.as_slice(), b"AT\r\n");

    // Raising RTS on 0 shows up as CTS on 1.
    t.set_control(0, TIOCM_RTS, 0);
    assert_ne!(t.get_status(1) & TIOCM_CTS, 0);

    // Closing 1 unplugs the far end: further writes vanish silently.
    t.close(1);
    let n2 = t.write(0, b"X");
    assert_eq!(n2, 0);
    assert_eq!(t.lookup(1).unwrap().inbound.as_slice(), b"AT\r\n");
}
