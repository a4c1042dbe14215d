//! Per-endpoint state: open count, control and status registers, event
//! counters, the inbound byte queue, and the stored serial-information
//! fields, together with the mathematical model a slot is specified by.

use vstd::prelude::*;

verus! {

// Fixed capability flags reported for every endpoint.
pub const ASYNC_SKIP_TEST: i32 = 0x40;
pub const ASYNC_AUTO_IRQ: i32 = 0x80;

/// Monotonically increasing event counters, one per status-line transition
/// type. Each counter wraps at the register width; the status-change wait
/// only ever compares counters for inequality.
#[derive(Clone, Copy, PartialEq, Eq, Structural, Debug)]
pub struct Icount {
    pub rng: u32,
    pub dsr: u32,
    pub dcd: u32,
    pub cts: u32,
    pub rx: u32,
    pub tx: u32,
    pub frame: u32,
    pub overrun: u32,
    pub parity: u32,
    pub brk: u32,
    pub buf_overrun: u32,
}

/// The all-zero counter state a fresh slot starts with.
pub open spec fn spec_zero_icount() -> Icount {
    Icount {
        rng: 0,
        dsr: 0,
        dcd: 0,
        cts: 0,
        rx: 0,
        tx: 0,
        frame: 0,
        overrun: 0,
        parity: 0,
        brk: 0,
        buf_overrun: 0,
    }
}

/// Builds the all-zero counter state.
pub fn zero_icount() -> (r: Icount)
    ensures
        r == spec_zero_icount(),
{
    Icount {
        rng: 0,
        dsr: 0,
        dcd: 0,
        cts: 0,
        rx: 0,
        tx: 0,
        frame: 0,
        overrun: 0,
        parity: 0,
        brk: 0,
        buf_overrun: 0,
    }
}

/// One step of an event counter: increases by one and wraps at the register
/// width, so two successive values always differ.
pub open spec fn spec_bump(c: u32) -> u32 {
    if c == u32::MAX {
        0
    } else {
        (c + 1) as u32
    }
}

/// Advances an event counter by one transition.
pub fn bump(c: u32) -> (r: u32)
    ensures
        r == spec_bump(c),
{
    if c == u32::MAX {
        0
    } else {
        c + 1
    }
}

/// Stored serial-information fields of a slot; a fresh slot holds zeroes and
/// the ioctl that reports serial information echoes them back.
#[derive(Clone, Copy, PartialEq, Eq, Structural, Debug)]
pub struct SerialSettings {
    pub kind: i32,
    pub line: i32,
    pub port: u32,
    pub irq: i32,
    pub xmit_fifo_size: i32,
    pub baud_base: i32,
    pub custom_divisor: i32,
    pub hub6: i32,
    pub io_type: u8,
}

/// The zeroed serial-information fields of a fresh slot.
pub open spec fn spec_zero_serial() -> SerialSettings {
    SerialSettings {
        kind: 0,
        line: 0,
        port: 0,
        irq: 0,
        xmit_fifo_size: 0,
        baud_base: 0,
        custom_divisor: 0,
        hub6: 0,
        io_type: 0,
    }
}

/// Builds the zeroed serial-information fields.
pub fn zero_serial() -> (r: SerialSettings)
    ensures
        r == spec_zero_serial(),
{
    SerialSettings {
        kind: 0,
        line: 0,
        port: 0,
        irq: 0,
        xmit_fifo_size: 0,
        baud_base: 0,
        custom_divisor: 0,
        hub6: 0,
        io_type: 0,
    }
}

/// The synthesized descriptor returned by the serial-information ioctl:
/// stored fields plus fixed capability flags and fixed close timings.
#[derive(Clone, Copy, PartialEq, Eq, Structural, Debug)]
pub struct SerialInfo {
    pub kind: i32,
    pub line: i32,
    pub port: u32,
    pub irq: i32,
    pub flags: i32,
    pub xmit_fifo_size: i32,
    pub baud_base: i32,
    pub close_delay: i32,
    pub closing_wait: i32,
    pub custom_divisor: i32,
    pub hub6: i32,
    pub io_type: u8,
}

/// The standard counter-report shape the counters ioctl copies out.
#[derive(Clone, Copy, PartialEq, Eq, Structural, Debug)]
pub struct CounterReport {
    pub cts: i32,
    pub dsr: i32,
    pub rng: i32,
    pub dcd: i32,
    pub rx: i32,
    pub tx: i32,
    pub frame: i32,
    pub overrun: i32,
    pub parity: i32,
    pub brk: i32,
    pub buf_overrun: i32,
}

/// State of one endpoint. A slot is created on the first open of its index
/// and lives until the table is torn down; its registers and counters
/// survive close/reopen cycles.
pub struct PortSlot {
    /// Reference count of concurrent opens.
    pub open_count: u32,
    /// Locally-asserted control lines (`MCR_*` bits).
    pub mcr: u32,
    /// Locally-observed status lines (`MSR_*` bits), driven by the peer.
    pub msr: u32,
    /// Event counters consumed by the status-change wait.
    pub icount: Icount,
    /// Bytes delivered by the peer and not yet consumed by the device side.
    pub inbound: Vec<u8>,
    /// Stored serial-information fields.
    pub serial: SerialSettings,
}

/// The mathematical model of one endpoint's state.
#[verifier::ext_equal]
pub struct SlotModel {
    pub open_count: u32,
    pub mcr: u32,
    pub msr: u32,
    pub icount: Icount,
    pub inbound: Seq<u8>,
    pub serial: SerialSettings,
}

impl View for PortSlot {
    type V = SlotModel;

    open spec fn view(&self) -> SlotModel {
        SlotModel {
            open_count: self.open_count,
            mcr: self.mcr,
            msr: self.msr,
            icount: self.icount,
            inbound: self.inbound@,
            serial: self.serial,
        }
    }
}

/// The model of a slot that has just been allocated: never opened, all
/// registers and counters zero, nothing queued.
pub open spec fn spec_fresh_slot() -> SlotModel {
    SlotModel {
        open_count: 0,
        mcr: 0,
        msr: 0,
        icount: spec_zero_icount(),
        inbound: Seq::empty(),
        serial: spec_zero_serial(),
    }
}

impl PortSlot {
    /// Allocates a zero-initialised slot.
    pub fn new() -> (r: PortSlot)
        ensures
            r@ == spec_fresh_slot(),
    {
        let r = PortSlot {
            open_count: 0,
            mcr: 0,
            msr: 0,
            icount: zero_icount(),
            inbound: Vec::new(),
            serial: zero_serial(),
        };
        proof {
            assert(r@.inbound =~= Seq::<u8>::empty());
        }
        r
    }
}

} // verus!
