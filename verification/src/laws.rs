//! Laws that cut across several operations of the driver, stated over the
//! model transitions and proved once and for all: slot-lifecycle counting
//! and history retention, the shape of cross-peer propagation, which line
//! changes wake a masked status wait, and the indifference of write room to
//! traffic.

use vstd::prelude::*;

use crate::facade::{spec_write_room, spec_write_table};
use crate::lines::{
    lemma_spec_peer_bounds, spec_msr_apply, spec_peer, spec_status_mask, MSR_CD, MSR_CTS, MSR_DSR,
    TIOCM_CAR, TIOCM_CD, TIOCM_CTS, TIOCM_DSR, TIOCM_DTR, TIOCM_RNG, TIOCM_RTS,
};
use crate::modem::{spec_close, spec_get_status, spec_open, spec_set_control};
use crate::slot::SlotModel;
use crate::table::slot_or_fresh;
use crate::wait::{icount_at, spec_wait_verdict, WaitVerdict};

verus! {

/// Opening an index twice counts two concurrent opens; two closes return the
/// count to zero without releasing the slot; a further open then reuses the
/// same slot, with its whole event-counter history preserved rather than
/// reset.
pub proof fn lemma_lifecycle_counts_and_history(t: Seq<Option<SlotModel>>, i: int)
    requires
        0 <= i < t.len(),
        slot_or_fresh(t, i).open_count == 0,
    ensures
        ({
            let t2 = spec_open(spec_open(t, i), i);
            let t4 = spec_close(spec_close(t2, i), i);
            let t5 = spec_open(t4, i);
            &&& slot_or_fresh(t2, i).open_count == 2
            &&& slot_or_fresh(t4, i).open_count == 0
            &&& t4[i] is Some
            &&& slot_or_fresh(t4, i).icount == slot_or_fresh(t, i).icount
            &&& slot_or_fresh(t5, i).icount == slot_or_fresh(t, i).icount
            &&& slot_or_fresh(t5, i).open_count == 1
        }),
{
}

/// Asserting DTR on an open endpoint makes the peer report DSR and
/// carrier-detect; clearing DTR afterwards drops both again.
pub proof fn lemma_dtr_drives_peer_dsr_cd(t: Seq<Option<SlotModel>>, i: int)
    requires
        t.len() % 2 == 0,
        0 <= i < t.len(),
        t[i] matches Some(s) && s.open_count > 0,
        t[spec_peer(i)] is Some,
    ensures
        ({
            let p = spec_peer(i);
            let t2 = spec_set_control(t, i, TIOCM_DTR, 0);
            let t3 = spec_set_control(t2, i, 0, TIOCM_DTR);
            &&& spec_get_status(t2, p) & TIOCM_DSR != 0
            &&& spec_get_status(t2, p) & TIOCM_CAR != 0
            &&& spec_get_status(t3, p) & TIOCM_DSR == 0
            &&& spec_get_status(t3, p) & TIOCM_CAR == 0
        }),
{
    lemma_spec_peer_bounds(i, t.len() as int);
    let p = spec_peer(i);
    let a = slot_or_fresh(t, p).mcr;
    let m = slot_or_fresh(t, p).msr;
    let m2 = spec_msr_apply(m, TIOCM_DTR, 0);
    let m3 = spec_msr_apply(m2, 0, TIOCM_DTR);
    assert(spec_status_mask(a, m2) & TIOCM_DSR != 0 && spec_status_mask(a, m2) & TIOCM_CAR != 0)
        by (bit_vector)
        requires
            m2 == spec_msr_apply(m, TIOCM_DTR, 0u32),
    ;
    assert(spec_status_mask(a, m3) & TIOCM_DSR == 0 && spec_status_mask(a, m3) & TIOCM_CAR == 0)
        by (bit_vector)
        requires
            m3 == spec_msr_apply(m2, 0u32, TIOCM_DTR),
    ;
}

/// A control request that does not name DTR may move the peer's CTS line but
/// never its DSR or carrier lines: their reported status and their event
/// counters stay exactly as they were, and the ring counter never moves at
/// all.
pub proof fn lemma_no_dtr_leaves_dsr_cd_alone(
    t: Seq<Option<SlotModel>>,
    i: int,
    set: u32,
    clear: u32,
)
    requires
        t.len() % 2 == 0,
        0 <= i < t.len(),
        set & TIOCM_DTR == 0,
        clear & TIOCM_DTR == 0,
    ensures
        ({
            let p = spec_peer(i);
            let t2 = spec_set_control(t, i, set, clear);
            &&& spec_get_status(t2, p) & TIOCM_DSR == spec_get_status(t, p) & TIOCM_DSR
            &&& spec_get_status(t2, p) & TIOCM_CAR == spec_get_status(t, p) & TIOCM_CAR
            &&& icount_at(t2, p).dsr == icount_at(t, p).dsr
            &&& icount_at(t2, p).dcd == icount_at(t, p).dcd
            &&& icount_at(t2, p).rng == icount_at(t, p).rng
        }),
{
    lemma_spec_peer_bounds(i, t.len() as int);
    let p = spec_peer(i);
    let a = slot_or_fresh(t, p).mcr;
    let m = slot_or_fresh(t, p).msr;
    let m2 = spec_msr_apply(m, set, clear);
    assert((m ^ m2) & MSR_DSR == 0 && (m ^ m2) & MSR_CD == 0 && spec_status_mask(a, m2) & TIOCM_DSR
        == spec_status_mask(a, m) & TIOCM_DSR && spec_status_mask(a, m2) & TIOCM_CAR
        == spec_status_mask(a, m) & TIOCM_CAR) by (bit_vector)
        requires
            m2 == spec_msr_apply(m, set, clear),
            set & TIOCM_DTR == 0,
            clear & TIOCM_DTR == 0,
    ;
}

/// A wait that watches only CTS stays blocked across a DTR-driven change:
/// the peer's DSR and carrier counters move, so the wake is not judged
/// spurious, but no watched line moved, so the verdict is to keep waiting.
pub proof fn lemma_cts_wait_ignores_dtr_change(t: Seq<Option<SlotModel>>, i: int)
    requires
        t.len() % 2 == 0,
        0 <= i < t.len(),
        t[i] matches Some(s) && s.open_count > 0,
        t[spec_peer(i)] matches Some(ps) && ps.msr & MSR_DSR == 0,
    ensures
        ({
            let p = spec_peer(i);
            let t2 = spec_set_control(t, i, TIOCM_DTR, 0);
            spec_wait_verdict(icount_at(t, p), icount_at(t2, p), TIOCM_CTS, false)
                == WaitVerdict::KeepWaiting
        }),
{
    lemma_spec_peer_bounds(i, t.len() as int);
    let p = spec_peer(i);
    let m = slot_or_fresh(t, p).msr;
    let m2 = spec_msr_apply(m, TIOCM_DTR, 0);
    assert((m ^ m2) & MSR_CTS == 0 && (m ^ m2) & MSR_DSR != 0) by (bit_vector)
        requires
            m2 == spec_msr_apply(m, TIOCM_DTR, 0u32),
            m & MSR_DSR == 0,
    ;
    assert(TIOCM_CTS & TIOCM_RNG == 0 && TIOCM_CTS & TIOCM_DSR == 0 && TIOCM_CTS & TIOCM_CD == 0
        && TIOCM_CTS & TIOCM_CTS != 0) by (bit_vector);
}

/// A wait that watches only CTS is woken by an RTS-driven change: the peer's
/// CTS line transitions, its counter moves, and the verdict is success.
pub proof fn lemma_cts_wait_wakes_on_rts_change(t: Seq<Option<SlotModel>>, i: int)
    requires
        t.len() % 2 == 0,
        0 <= i < t.len(),
        t[i] matches Some(s) && s.open_count > 0,
        t[spec_peer(i)] matches Some(ps) && ps.msr & MSR_CTS == 0,
    ensures
        ({
            let p = spec_peer(i);
            let t2 = spec_set_control(t, i, TIOCM_RTS, 0);
            spec_wait_verdict(icount_at(t, p), icount_at(t2, p), TIOCM_CTS, false)
                == WaitVerdict::Ready
        }),
{
    lemma_spec_peer_bounds(i, t.len() as int);
    let p = spec_peer(i);
    let m = slot_or_fresh(t, p).msr;
    let m2 = spec_msr_apply(m, TIOCM_RTS, 0);
    assert((m ^ m2) & MSR_CTS != 0) by (bit_vector)
        requires
            m2 == spec_msr_apply(m, TIOCM_RTS, 0u32),
            m & MSR_CTS == 0,
    ;
    assert(TIOCM_CTS & TIOCM_CTS != 0) by (bit_vector);
}

/// The room a slot reports depends only on whether it is open: forwarding
/// any amount of data anywhere in the table changes no slot's write room.
pub proof fn lemma_write_room_ignores_traffic(
    t: Seq<Option<SlotModel>>,
    i: int,
    data: Seq<u8>,
    j: int,
)
    requires
        0 <= i < t.len(),
        0 <= j < t.len(),
    ensures
        spec_write_room(spec_write_table(t, i, data), j) == spec_write_room(t, j),
{
}

/// Opening and closing never disturb a slot's queued inbound data, on any
/// slot of the table.
pub proof fn lemma_lifecycle_keeps_inbound(t: Seq<Option<SlotModel>>, i: int, j: int)
    requires
        0 <= i < t.len(),
        0 <= j < t.len(),
    ensures
        slot_or_fresh(spec_open(t, i), j).inbound == slot_or_fresh(t, j).inbound,
        slot_or_fresh(spec_close(t, i), j).inbound == slot_or_fresh(t, j).inbound,
{
}

} // verus!
