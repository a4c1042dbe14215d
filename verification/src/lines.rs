//! Modem-line bit positions, the even/odd pairing of endpoints, and the pure
//! translations between control, status and the standard reporting mask.

use vstd::prelude::*;

verus! {

// Standard modem-status bit positions; part of the wire contract with
// callers, so the values matter bit for bit.
pub const TIOCM_LE: u32 = 0x001;
pub const TIOCM_DTR: u32 = 0x002;
pub const TIOCM_RTS: u32 = 0x004;
pub const TIOCM_ST: u32 = 0x010;
pub const TIOCM_SR: u32 = 0x020;
pub const TIOCM_CTS: u32 = 0x040;
pub const TIOCM_CAR: u32 = 0x100;
/// Carrier detect, an alias of `TIOCM_CAR`.
pub const TIOCM_CD: u32 = TIOCM_CAR;
pub const TIOCM_RNG: u32 = 0x200;
/// Ring, an alias of `TIOCM_RNG`.
pub const TIOCM_RI: u32 = TIOCM_RNG;
pub const TIOCM_DSR: u32 = 0x400;
pub const TIOCM_OUT1: u32 = 0x2000;
pub const TIOCM_OUT2: u32 = 0x4000;
pub const TIOCM_LOOP: u32 = 0x8000;

// Locally-asserted control lines (the slot's own outgoing signals).
pub const MCR_DTR: u32 = 0x01;
pub const MCR_RTS: u32 = 0x02;
pub const MCR_LOOP: u32 = 0x04;

// Locally-observed status lines (driven by the peer's control changes).
pub const MSR_CTS: u32 = 0x10;
pub const MSR_CD: u32 = 0x20;
pub const MSR_DSR: u32 = 0x40;
pub const MSR_RI: u32 = 0x80;

// Input-mode bits that a settings change is compared on.
pub const IGNBRK: u32 = 0x01;
pub const BRKINT: u32 = 0x02;
pub const IGNPAR: u32 = 0x04;
pub const PARMRK: u32 = 0x08;
pub const INPCK: u32 = 0x10;

/// The peer of an endpoint index: even and odd neighbours form one pair.
pub open spec fn spec_peer(i: int) -> int {
    if i % 2 == 0 {
        i + 1
    } else {
        i - 1
    }
}

/// Maps an endpoint index to the index of the endpoint it is cross-wired to.
pub fn peer(i: usize) -> (p: usize)
    ensures
        p == (i ^ 1),
        p == spec_peer(i as int),
{
    proof {
        assert(i % 2 == 0 ==> (i ^ 1) == i + 1) by (bit_vector);
        assert(i % 2 != 0 ==> (i ^ 1) == i - 1) by (bit_vector);
    }
    i ^ 1
}

/// Pairing is an involution: following the cross-wire twice returns to the
/// starting endpoint, and the peer is exactly the index with its lowest bit
/// flipped.
pub proof fn lemma_peer_involution(i: usize)
    ensures
        ((i ^ 1) ^ 1) == i,
        (i ^ 1) == spec_peer(i as int),
        spec_peer(spec_peer(i as int)) == i as int,
{
    assert(((i ^ 1) ^ 1) == i) by (bit_vector);
    assert(i % 2 == 0 ==> (i ^ 1) == i + 1) by (bit_vector);
    assert(i % 2 != 0 ==> (i ^ 1) == i - 1) by (bit_vector);
}

/// In a table of even length every index's peer is also in range, and is a
/// different slot.
pub proof fn lemma_peer_in_range(i: usize, len: usize)
    requires
        len % 2 == 0,
        i < len,
    ensures
        (i ^ 1) < len,
        (i ^ 1) != i,
        spec_peer(i as int) == i ^ 1,
{
    assert((i ^ 1) < len && (i ^ 1) != i) by (bit_vector)
        requires
            len % 2 == 0 && i < len,
    ;
    lemma_peer_involution(i);
}

/// In a table of even length every index's peer is also in range, is a
/// different slot, and pairing back returns to the start; the model-level
/// counterpart of [`lemma_peer_in_range`].
pub proof fn lemma_spec_peer_bounds(i: int, len: int)
    requires
        len % 2 == 0,
        0 <= i < len,
    ensures
        0 <= spec_peer(i) < len,
        spec_peer(i) != i,
        spec_peer(spec_peer(i)) == i,
{
    if i % 2 == 0 {
        assert((i + 1) % 2 == 1) by (nonlinear_arith)
            requires
                i % 2 == 0,
        ;
        assert(i + 1 != len);
    } else {
        assert(i - 1 >= 0);
        assert((i - 1) % 2 == 0) by (nonlinear_arith)
            requires
                i % 2 == 1,
        ;
    }
}

/// The input-mode bits that matter when deciding whether requested terminal
/// settings differ from the previous ones.
pub open spec fn spec_relevant_iflag(iflag: u32) -> u32 {
    iflag & (IGNBRK | BRKINT | IGNPAR | PARMRK | INPCK)
}

/// Restricts an input-mode word to the bits a settings comparison looks at.
pub fn relevant_iflag(iflag: u32) -> (r: u32)
    ensures
        r == spec_relevant_iflag(iflag),
{
    iflag & (IGNBRK | BRKINT | IGNPAR | PARMRK | INPCK)
}

/// The status lines a slot observes as a function of its own control lines:
/// what a cross-wired cable would feed straight back on open.
pub open spec fn spec_msr_from_mcr(mcr: u32) -> u32 {
    (if mcr & MCR_RTS == MCR_RTS {
        MSR_CTS
    } else {
        0
    }) | (if mcr & MCR_DTR == MCR_DTR {
        MSR_DSR | MSR_CD
    } else {
        0
    })
}

/// Computes the baseline status mask a slot starts from when it is opened,
/// derived from its retained control mask.
pub fn msr_from_mcr(mcr: u32) -> (r: u32)
    ensures
        r == spec_msr_from_mcr(mcr),
{
    (if mcr & MCR_RTS == MCR_RTS {
        MSR_CTS
    } else {
        0
    }) | (if mcr & MCR_DTR == MCR_DTR {
        MSR_DSR | MSR_CD
    } else {
        0
    })
}

/// A slot's own control mask after a set/clear request: requested set bits
/// are applied first, then requested clear bits, so a line named in both is
/// left cleared. Only DTR and RTS are steerable.
pub open spec fn spec_mcr_apply(mcr: u32, set: u32, clear: u32) -> u32 {
    (mcr | (if set & TIOCM_RTS != 0 {
        MCR_RTS
    } else {
        0
    }) | (if set & TIOCM_DTR != 0 {
        MCR_DTR
    } else {
        0
    })) & !((if clear & TIOCM_RTS != 0 {
        MCR_RTS
    } else {
        0
    }) | (if clear & TIOCM_DTR != 0 {
        MCR_DTR
    } else {
        0
    }))
}

/// Applies a set/clear request to a slot's own control mask.
pub fn mcr_apply(mcr: u32, set: u32, clear: u32) -> (r: u32)
    ensures
        r == spec_mcr_apply(mcr, set, clear),
{
    (mcr | (if set & TIOCM_RTS != 0 {
        MCR_RTS
    } else {
        0
    }) | (if set & TIOCM_DTR != 0 {
        MCR_DTR
    } else {
        0
    })) & !((if clear & TIOCM_RTS != 0 {
        MCR_RTS
    } else {
        0
    }) | (if clear & TIOCM_DTR != 0 {
        MCR_DTR
    } else {
        0
    }))
}

/// The peer's status mask after a set/clear request on this slot, modelling
/// the cross-wire: RTS drives the peer's CTS, DTR drives the peer's DSR and
/// carrier-detect. Set bits are applied before clear bits.
pub open spec fn spec_msr_apply(msr: u32, set: u32, clear: u32) -> u32 {
    (msr | (if set & TIOCM_RTS != 0 {
        MSR_CTS
    } else {
        0
    }) | (if set & TIOCM_DTR != 0 {
        MSR_DSR | MSR_CD
    } else {
        0
    })) & !((if clear & TIOCM_RTS != 0 {
        MSR_CTS
    } else {
        0
    }) | (if clear & TIOCM_DTR != 0 {
        MSR_DSR | MSR_CD
    } else {
        0
    }))
}

/// Applies a set/clear request to the peer's observed status mask.
pub fn msr_apply(msr: u32, set: u32, clear: u32) -> (r: u32)
    ensures
        r == spec_msr_apply(msr, set, clear),
{
    (msr | (if set & TIOCM_RTS != 0 {
        MSR_CTS
    } else {
        0
    }) | (if set & TIOCM_DTR != 0 {
        MSR_DSR | MSR_CD
    } else {
        0
    })) & !((if clear & TIOCM_RTS != 0 {
        MSR_CTS
    } else {
        0
    }) | (if clear & TIOCM_DTR != 0 {
        MSR_DSR | MSR_CD
    } else {
        0
    }))
}

/// A slot's state translated to the standard modem-status bitmask: DTR, RTS
/// and LOOP come from the slot's own control lines, CTS, carrier, ring and
/// DSR from its observed status lines.
pub open spec fn spec_status_mask(mcr: u32, msr: u32) -> u32 {
    (if mcr & MCR_DTR != 0 {
        TIOCM_DTR
    } else {
        0
    }) | (if mcr & MCR_RTS != 0 {
        TIOCM_RTS
    } else {
        0
    }) | (if mcr & MCR_LOOP != 0 {
        TIOCM_LOOP
    } else {
        0
    }) | (if msr & MSR_CTS != 0 {
        TIOCM_CTS
    } else {
        0
    }) | (if msr & MSR_CD != 0 {
        TIOCM_CAR
    } else {
        0
    }) | (if msr & MSR_RI != 0 {
        TIOCM_RI
    } else {
        0
    }) | (if msr & MSR_DSR != 0 {
        TIOCM_DSR
    } else {
        0
    })
}

/// Translates a slot's control and status lines to the standard bitmask.
pub fn status_mask(mcr: u32, msr: u32) -> (r: u32)
    ensures
        r == spec_status_mask(mcr, msr),
{
    (if mcr & MCR_DTR != 0 {
        TIOCM_DTR
    } else {
        0
    }) | (if mcr & MCR_RTS != 0 {
        TIOCM_RTS
    } else {
        0
    }) | (if mcr & MCR_LOOP != 0 {
        TIOCM_LOOP
    } else {
        0
    }) | (if msr & MSR_CTS != 0 {
        TIOCM_CTS
    } else {
        0
    }) | (if msr & MSR_CD != 0 {
        TIOCM_CAR
    } else {
        0
    }) | (if msr & MSR_RI != 0 {
        TIOCM_RI
    } else {
        0
    }) | (if msr & MSR_DSR != 0 {
        TIOCM_DSR
    } else {
        0
    })
}

} // verus!
