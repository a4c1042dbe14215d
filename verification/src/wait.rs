//! The blocking "wait until specific status lines change" protocol, split at
//! its suspension point: this module snapshots and judges counter movement,
//! while the caller owns the actual sleeping and wake-ups. A wait is a small
//! state machine: snapshot the slot's counters, suspend, and on every wake
//! hand the observation back to [`PortSlotTable::wait_on_wake`] for the
//! verdict.

use vstd::prelude::*;

use crate::lines::{TIOCM_CD, TIOCM_CTS, TIOCM_DSR, TIOCM_RNG};
use crate::slot::{zero_icount, Icount, SlotModel};
use crate::table::{slot_or_fresh, PortSlotTable};

verus! {

/// The event counters of slot `i`; a slot that was never allocated counts as
/// fresh, with every counter zero.
pub open spec fn icount_at(t: Seq<Option<SlotModel>>, i: int) -> Icount {
    slot_or_fresh(t, i).icount
}

/// A wait in progress: which slot is watched, which lines the caller cares
/// about (a subset of ring, DSR, carrier and CTS), and the counter snapshot
/// the next wake is judged against.
#[derive(Clone, Copy, PartialEq, Eq, Structural, Debug)]
pub struct WaitState {
    pub index: usize,
    pub mask: u32,
    pub cprev: Icount,
}

/// What one wake-up of a waiting caller means.
#[derive(Clone, Copy, PartialEq, Eq, Structural, Debug)]
pub enum WaitVerdict {
    /// A pending signal cancelled the wait; surfaced before anything else is
    /// checked.
    Interrupted,
    /// The caller woke but no watched-class counter moved at all; the wait
    /// ends as a failure rather than re-suspending.
    NoChange,
    /// A line the caller asked about transitioned; the wait succeeds.
    Ready,
    /// Some line moved, but none the caller asked about: the snapshot
    /// advances and the caller suspends again.
    KeepWaiting,
}

/// Whether any of the four watchable lines (ring, DSR, carrier, CTS) has a
/// counter that moved between the snapshot and now.
pub open spec fn spec_any_wait_line_moved(cprev: Icount, cnow: Icount) -> bool {
    ||| cnow.rng != cprev.rng
    ||| cnow.dsr != cprev.dsr
    ||| cnow.dcd != cprev.dcd
    ||| cnow.cts != cprev.cts
}

/// Whether a line selected by `mask` has a counter that moved between the
/// snapshot and now.
pub open spec fn spec_selected_line_moved(cprev: Icount, cnow: Icount, mask: u32) -> bool {
    ||| (mask & TIOCM_RNG != 0 && cnow.rng != cprev.rng)
    ||| (mask & TIOCM_DSR != 0 && cnow.dsr != cprev.dsr)
    ||| (mask & TIOCM_CD != 0 && cnow.dcd != cprev.dcd)
    ||| (mask & TIOCM_CTS != 0 && cnow.cts != cprev.cts)
}

/// The verdict of one wake. A pending signal wins outright; a wake where
/// nothing moved at all is a failure; movement on a selected line is
/// success; movement only on unselected lines keeps the wait going. The
/// asymmetry between the last two outcomes is deliberate and preserved: a
/// perfectly still wake terminates the wait, an irrelevant movement does
/// not.
pub open spec fn spec_wait_verdict(
    cprev: Icount,
    cnow: Icount,
    mask: u32,
    signal_pending: bool,
) -> WaitVerdict {
    if signal_pending {
        WaitVerdict::Interrupted
    } else if !spec_any_wait_line_moved(cprev, cnow) {
        WaitVerdict::NoChange
    } else if spec_selected_line_moved(cprev, cnow, mask) {
        WaitVerdict::Ready
    } else {
        WaitVerdict::KeepWaiting
    }
}

impl PortSlotTable {
    /// Starts a status-change wait on `index`: snapshots the slot's event
    /// counters so later wakes can be judged against them.
    pub fn wait_begin(&self, index: usize, mask: u32) -> (st: WaitState)
        requires
            index < self@.len(),
        ensures
            st.index == index,
            st.mask == mask,
            st.cprev == icount_at(self@, index as int),
    {
        let cprev = match self.lookup(index) {
            Some(s) => s.icount,
            None => zero_icount(),
        };
        WaitState { index, mask, cprev }
    }

    /// Judges one wake-up of the waiting caller. On `KeepWaiting` the
    /// snapshot advances to the counters just read, so the next wake is
    /// compared against them; on every other verdict the wait is over and
    /// the state is left as it was.
    pub fn wait_on_wake(&self, st: &mut WaitState, signal_pending: bool) -> (v: WaitVerdict)
        requires
            old(st).index < self@.len(),
        ensures
            ({
                let cnow = icount_at(self@, old(st).index as int);
                let verdict = spec_wait_verdict(old(st).cprev, cnow, old(st).mask, signal_pending);
                &&& v == verdict
                &&& final(st).index == old(st).index
                &&& final(st).mask == old(st).mask
                &&& final(st).cprev == (if verdict is KeepWaiting {
                    cnow
                } else {
                    old(st).cprev
                })
            }),
    {
        if signal_pending {
            return WaitVerdict::Interrupted;
        }
        let cnow = match self.lookup(st.index) {
            Some(s) => s.icount,
            None => zero_icount(),
        };
        if cnow.rng == st.cprev.rng && cnow.dsr == st.cprev.dsr && cnow.dcd == st.cprev.dcd
            && cnow.cts == st.cprev.cts {
            return WaitVerdict::NoChange;
        }
        if (st.mask & TIOCM_RNG != 0 && cnow.rng != st.cprev.rng) || (st.mask & TIOCM_DSR != 0
            && cnow.dsr != st.cprev.dsr) || (st.mask & TIOCM_CD != 0 && cnow.dcd != st.cprev.dcd)
            || (st.mask & TIOCM_CTS != 0 && cnow.cts != st.cprev.cts) {
            return WaitVerdict::Ready;
        }
        st.cprev = cnow;
        WaitVerdict::KeepWaiting
    }
}

} // verus!
