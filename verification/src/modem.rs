//! The modem state machine: opening and closing endpoints, applying
//! control-line changes with cross-peer status propagation, and reading the
//! standard status mask.

use vstd::prelude::*;

use crate::errors::DriverError;
use crate::lines::{
    lemma_peer_in_range, mcr_apply, msr_apply, msr_from_mcr, peer, relevant_iflag, spec_mcr_apply,
    spec_msr_apply, spec_msr_from_mcr, spec_peer, spec_relevant_iflag, spec_status_mask,
    status_mask, MSR_CD, MSR_CTS, MSR_DSR,
};
use crate::slot::{bump, spec_bump, Icount, SlotModel};
use crate::table::{slot_or_fresh, PortSlotTable};

verus! {

/// One more concurrent open of a slot; the count saturates at the register
/// width instead of wrapping back to a closed-looking state.
pub open spec fn spec_count_up(c: u32) -> u32 {
    if c == u32::MAX {
        c
    } else {
        (c + 1) as u32
    }
}

/// The table after `open(i)`: the slot exists, its status lines are
/// recomputed from its own retained control lines (the baseline a cross-wired
/// cable feeds back), and its open count grows by one. Registers and
/// counters retained from an earlier session are kept.
pub open spec fn spec_open(t: Seq<Option<SlotModel>>, i: int) -> Seq<Option<SlotModel>> {
    let s = slot_or_fresh(t, i);
    t.update(
        i,
        Some(
            SlotModel {
                msr: spec_msr_from_mcr(s.mcr),
                open_count: spec_count_up(s.open_count),
                ..s
            },
        ),
    )
}

/// The table after `close(i)`: an open count above zero goes down by one;
/// closing a closed or never-opened slot is a silent no-op. Nothing else of
/// the slot's state is reset.
pub open spec fn spec_close(t: Seq<Option<SlotModel>>, i: int) -> Seq<Option<SlotModel>> {
    match t[i] {
        None => t,
        Some(s) => {
            if s.open_count == 0 {
                t
            } else {
                t.update(i, Some(SlotModel { open_count: (s.open_count - 1) as u32, ..s }))
            }
        },
    }
}

/// The peer's event counters after its status lines moved from `old_msr` to
/// `new_msr`: each line that transitioned advances its counter.
pub open spec fn spec_icount_propagate(ic: Icount, old_msr: u32, new_msr: u32) -> Icount {
    Icount {
        cts: if (old_msr ^ new_msr) & MSR_CTS != 0 {
            spec_bump(ic.cts)
        } else {
            ic.cts
        },
        dsr: if (old_msr ^ new_msr) & MSR_DSR != 0 {
            spec_bump(ic.dsr)
        } else {
            ic.dsr
        },
        dcd: if (old_msr ^ new_msr) & MSR_CD != 0 {
            spec_bump(ic.dcd)
        } else {
            ic.dcd
        },
        ..ic
    }
}

/// The table after `set_control(i, set, clear)`: the slot's own control mask
/// takes the requested bits, and — when the slot is open and its peer has
/// been allocated — the derived status bits land on the peer, advancing the
/// peer's counter for every line that transitioned. On an unallocated slot
/// the call is a no-op.
pub open spec fn spec_set_control(
    t: Seq<Option<SlotModel>>,
    i: int,
    set: u32,
    clear: u32,
) -> Seq<Option<SlotModel>> {
    match t[i] {
        None => t,
        Some(s) => {
            let t1 = t.update(i, Some(SlotModel { mcr: spec_mcr_apply(s.mcr, set, clear), ..s }));
            let p = spec_peer(i);
            if s.open_count > 0 && 0 <= p < t1.len() {
                match t1[p] {
                    None => t1,
                    Some(ps) => {
                        let new_msr = spec_msr_apply(ps.msr, set, clear);
                        t1.update(
                            p,
                            Some(
                                SlotModel {
                                    msr: new_msr,
                                    icount: spec_icount_propagate(ps.icount, ps.msr, new_msr),
                                    ..ps
                                },
                            ),
                        )
                    },
                }
            } else {
                t1
            }
        },
    }
}

/// The standard status mask reported for slot `i`; a slot that was never
/// allocated reports all lines down.
pub open spec fn spec_get_status(t: Seq<Option<SlotModel>>, i: int) -> u32 {
    match t[i] {
        None => 0,
        Some(s) => spec_status_mask(s.mcr, s.msr),
    }
}

impl PortSlotTable {
    /// Opens the endpoint at `index`: creates the slot on first use,
    /// recomputes its status baseline from its retained control lines and
    /// counts the open. The only failure the device contract reserves for
    /// this call is an allocation failure, which this library's infallible
    /// allocation model never reports.
    pub fn open(&mut self, index: usize) -> (r: Result<(), DriverError>)
        requires
            old(self).wf(),
            index < old(self)@.len(),
        ensures
            final(self)@ == spec_open(old(self)@, index as int),
            final(self).wf(),
            r is Ok,
    {
        self.get_or_create(index);
        let entry = self.swap_slot(index, None);
        let mut s = entry.unwrap();
        s.msr = msr_from_mcr(s.mcr);
        if s.open_count < u32::MAX {
            s.open_count = s.open_count + 1;
        }
        self.swap_slot(index, Some(s));
        Ok(())
    }

    /// Closes the endpoint at `index`. Over-closing and closing a slot that
    /// was never opened are silent no-ops, and no control, status or counter
    /// state is reset: the wiring state of a cable does not depend on
    /// whether either end is plugged in.
    pub fn close(&mut self, index: usize)
        requires
            old(self).wf(),
            index < old(self)@.len(),
        ensures
            final(self)@ == spec_close(old(self)@, index as int),
            final(self).wf(),
    {
        if self.is_allocated(index) {
            let entry = self.swap_slot(index, None);
            let mut s = entry.unwrap();
            if s.open_count > 0 {
                s.open_count = s.open_count - 1;
            }
            self.swap_slot(index, Some(s));
        }
    }

    /// Applies a control-line request to the endpoint at `index`: `set` bits
    /// are asserted, then `clear` bits are dropped (only DTR and RTS are
    /// steerable). When the slot is open and its peer exists, the cross-wire
    /// drives the peer's status lines — RTS onto the peer's CTS, DTR onto
    /// the peer's DSR and carrier-detect — and every line that transitions
    /// advances the matching event counter on the peer.
    pub fn set_control(&mut self, index: usize, set: u32, clear: u32)
        requires
            old(self).wf(),
            index < old(self)@.len(),
        ensures
            final(self)@ == spec_set_control(old(self)@, index as int, set, clear),
            final(self).wf(),
    {
        let n = self.len();
        if !self.is_allocated(index) {
            return ;
        }
        let p = peer(index);
        proof {
            lemma_peer_in_range(index, n);
        }
        let entry = self.swap_slot(index, None);
        let mut s = entry.unwrap();
        let was_open = s.open_count > 0;
        s.mcr = mcr_apply(s.mcr, set, clear);
        self.swap_slot(index, Some(s));
        if was_open && self.is_allocated(p) {
            let pentry = self.swap_slot(p, None);
            let mut ps = pentry.unwrap();
            let old_msr = ps.msr;
            let new_msr = msr_apply(ps.msr, set, clear);
            if (old_msr ^ new_msr) & MSR_CTS != 0 {
                ps.icount.cts = bump(ps.icount.cts);
            }
            if (old_msr ^ new_msr) & MSR_DSR != 0 {
                ps.icount.dsr = bump(ps.icount.dsr);
            }
            if (old_msr ^ new_msr) & MSR_CD != 0 {
                ps.icount.dcd = bump(ps.icount.dcd);
            }
            ps.msr = new_msr;
            self.swap_slot(p, Some(ps));
        }
    }

    /// Reports the endpoint's state as the standard modem-status bitmask:
    /// DTR, RTS and LOOP from its own control lines, CTS, carrier, ring and
    /// DSR from the lines it observes.
    pub fn get_status(&self, index: usize) -> (r: u32)
        requires
            index < self@.len(),
        ensures
            r == spec_get_status(self@, index as int),
    {
        match self.lookup(index) {
            Some(s) => status_mask(s.mcr, s.msr),
            None => 0,
        }
    }
}

/// Whether requested terminal settings differ from the previous snapshot.
/// The driver emulates no line discipline, so any requested combination is
/// accepted; the comparison only decides whether there is anything to do,
/// looking at the control word and the relevant input-mode bits. It never
/// fails, whatever the values.
pub fn compare_termios(new_cflag: u32, new_iflag: u32, prev_cflag: u32, prev_iflag: u32) -> (changed:
    bool)
    ensures
        changed == !(new_cflag == prev_cflag && spec_relevant_iflag(new_iflag)
            == spec_relevant_iflag(prev_iflag)),
{
    !(new_cflag == prev_cflag && relevant_iflag(new_iflag) == relevant_iflag(prev_iflag))
}

} // verus!
