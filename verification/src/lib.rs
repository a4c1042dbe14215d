//! Verified core of a software null-modem: pairs of serial endpoints are
//! cross-wired so that bytes written to one endpoint arrive as input on its
//! peer, and modem-control lines raised on one endpoint appear as modem-status
//! lines on the other, with no physical hardware involved.
//!
//! The library owns the per-endpoint state (open counts, control and status
//! registers, event counters, inbound data) in an indexable slot table and
//! proves the pairing, cross-peer propagation, data forwarding and
//! status-wait rules. Device registration, the blocking suspension point and
//! every other interaction with a host system stay outside; callers drive the
//! state machine through plain values and hold the table behind their own
//! mutual exclusion (a `&mut` borrow here is one critical section).

pub mod errors;
pub mod facade;
pub mod laws;
pub mod lines;
pub mod modem;
pub mod slot;
pub mod spi;
pub mod table;
pub mod wait;

pub use lines::peer;
