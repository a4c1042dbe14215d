//! Pairing of endpoint indices: even and odd neighbours are cross-wired.

use tty0tty::peer;

#[test]
fn peer_is_xor_one() {
    assert_eq!(peer(0), 1);
    assert_eq!(peer(1), 0);
    assert_eq!(peer(2), 3);
    assert_eq!(peer(3), 2);
    assert_eq!(peer(6), 7);
    assert_eq!(peer(7), 6);
    for i in 0..64usize {
        assert_eq!(peer(i), i ^ 1);
    }
}

#[test]
fn peer_is_an_involution() {
    for i in 0..64usize {
        assert_eq!(peer(peer(i)), i);
    }
}
