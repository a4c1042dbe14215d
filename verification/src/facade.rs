//! The driver-facing operations that move data and service ioctl requests:
//! forwarding written bytes to the peer's inbound queue, reporting write
//! room, and the three recognised ioctl commands.

use vstd::prelude::*;

use crate::errors::DriverError;
use crate::lines::{lemma_peer_in_range, peer, spec_peer};
use crate::slot::{
    CounterReport, Icount, SerialInfo, SerialSettings, SlotModel, ASYNC_AUTO_IRQ, ASYNC_SKIP_TEST,
};
use crate::table::{slot_or_fresh, PortSlotTable};
use crate::wait::{icount_at, WaitState};

verus! {

// The ioctl commands the driver recognises.
pub const TIOCGSERIAL: u32 = 0x541E;
pub const TIOCMIWAIT: u32 = 0x545C;
pub const TIOCGICOUNT: u32 = 0x545D;

/// The write room reported for any open endpoint. A fixed figure: no
/// backpressure is modelled, so callers must not rely on it to avoid
/// overrun.
pub const WRITE_ROOM_OPEN: u32 = 255;

/// Whether a write on slot `i` reaches its peer: the writer must be open,
/// and the peer must exist and be open. Otherwise the bytes are silently
/// discarded, as an unplugged cable would discard them — not an error.
pub open spec fn spec_write_delivers(t: Seq<Option<SlotModel>>, i: int) -> bool {
    let p = spec_peer(i);
    &&& t[i] matches Some(s) && s.open_count > 0
    &&& 0 <= p < t.len()
    &&& t[p] matches Some(ps) && ps.open_count > 0
}

/// The table after `write(i, data)`: when the write delivers, the whole byte
/// sequence lands at the end of the peer's inbound queue; otherwise nothing
/// changes. Delivery is all-or-nothing.
pub open spec fn spec_write_table(t: Seq<Option<SlotModel>>, i: int, data: Seq<u8>) -> Seq<
    Option<SlotModel>,
> {
    if spec_write_delivers(t, i) {
        let p = spec_peer(i);
        match t[p] {
            Some(ps) => t.update(p, Some(SlotModel { inbound: ps.inbound + data, ..ps })),
            None => t,
        }
    } else {
        t
    }
}

/// The count a write reports: every byte when it delivers, zero otherwise.
pub open spec fn spec_write_count(t: Seq<Option<SlotModel>>, i: int, data: Seq<u8>) -> nat {
    if spec_write_delivers(t, i) {
        data.len()
    } else {
        0
    }
}

/// The room reported for slot `i`: the fixed figure while the slot is open,
/// zero otherwise, never coupled to how much was written before.
pub open spec fn spec_write_room(t: Seq<Option<SlotModel>>, i: int) -> u32 {
    match t[i] {
        None => 0,
        Some(s) => if s.open_count > 0 {
            WRITE_ROOM_OPEN
        } else {
            0
        },
    }
}

/// The descriptor the serial-information ioctl synthesises: the slot's
/// stored fields, fixed capability flags, and fixed close timings.
pub open spec fn spec_serial_info(s: SerialSettings) -> SerialInfo {
    SerialInfo {
        kind: s.kind,
        line: s.line,
        port: s.port,
        irq: s.irq,
        flags: ASYNC_SKIP_TEST | ASYNC_AUTO_IRQ,
        xmit_fifo_size: s.xmit_fifo_size,
        baud_base: s.baud_base,
        close_delay: 1250,
        closing_wait: 7500,
        custom_divisor: s.custom_divisor,
        hub6: s.hub6,
        io_type: s.io_type,
    }
}

/// The event counters snapshotted into the standard counter-report shape.
pub open spec fn spec_counter_report(ic: Icount) -> CounterReport {
    CounterReport {
        cts: ic.cts as i32,
        dsr: ic.dsr as i32,
        rng: ic.rng as i32,
        dcd: ic.dcd as i32,
        rx: ic.rx as i32,
        tx: ic.tx as i32,
        frame: ic.frame as i32,
        overrun: ic.overrun as i32,
        parity: ic.parity as i32,
        brk: ic.brk as i32,
        buf_overrun: ic.buf_overrun as i32,
    }
}

/// A successful ioctl's reply.
#[derive(Clone, Copy, PartialEq, Eq, Structural, Debug)]
pub enum IoctlReply {
    /// The synthesized serial-information descriptor.
    Serial(SerialInfo),
    /// A status-change wait has been set up; the caller now owns the
    /// suspend/wake loop around it.
    WaitRequested(WaitState),
    /// The snapshot of the slot's event counters.
    Counters(CounterReport),
}

/// What each ioctl command returns, as a function of the table, the slot and
/// the request: the serial-information and counter commands fail exactly on
/// a null destination, the wait command always starts a wait keyed on the
/// request mask, and every other command is not supported.
pub open spec fn spec_ioctl(t: Seq<Option<SlotModel>>, index: usize, cmd: u32, arg: u64) -> Result<
    IoctlReply,
    DriverError,
> {
    if cmd == TIOCGSERIAL {
        if arg == 0 {
            Err(DriverError::InvalidDestination)
        } else {
            Ok(IoctlReply::Serial(spec_serial_info(slot_or_fresh(t, index as int).serial)))
        }
    } else if cmd == TIOCMIWAIT {
        Ok(
            IoctlReply::WaitRequested(
                WaitState { index, mask: arg as u32, cprev: icount_at(t, index as int) },
            ),
        )
    } else if cmd == TIOCGICOUNT {
        if arg == 0 {
            Err(DriverError::InvalidDestination)
        } else {
            Ok(IoctlReply::Counters(spec_counter_report(icount_at(t, index as int))))
        }
    } else {
        Err(DriverError::NotSupported)
    }
}

impl PortSlotTable {
    /// Writes `data` on the endpoint at `index`. An open writer with an open
    /// peer delivers the whole sequence to the peer's inbound queue and
    /// reports every byte; a closed writer, or a missing or closed peer,
    /// reports zero and delivers nothing — the cable is simply unplugged,
    /// which is no failure of the writer.
    pub fn write(&mut self, index: usize, data: &[u8]) -> (n: usize)
        requires
            old(self).wf(),
            index < old(self)@.len(),
        ensures
            final(self)@ == spec_write_table(old(self)@, index as int, data@),
            n == spec_write_count(old(self)@, index as int, data@),
            final(self).wf(),
    {
        let total = self.len();
        let own_open = match self.lookup(index) {
            Some(s) => s.open_count > 0,
            None => false,
        };
        if !own_open {
            return 0;
        }
        let p = peer(index);
        proof {
            lemma_peer_in_range(index, total);
        }
        let peer_open = match self.lookup(p) {
            Some(s) => s.open_count > 0,
            None => false,
        };
        if !peer_open {
            return 0;
        }
        let pentry = self.swap_slot(p, None);
        let mut ps = pentry.unwrap();
        let ghost queued: Seq<u8> = ps.inbound@;
        let ghost ps0: SlotModel = ps@;
        let mut k: usize = 0;
        while k < data.len()
            invariant
                k <= data@.len(),
                ps.inbound@ == queued + data@.subrange(0, k as int),
                ps.open_count == ps0.open_count,
                ps.mcr == ps0.mcr,
                ps.msr == ps0.msr,
                ps.icount == ps0.icount,
                ps.serial == ps0.serial,
            decreases data@.len() - k,
        {
            ps.inbound.push(data[k]);
            k = k + 1;
            proof {
                assert(ps.inbound@ =~= queued + data@.subrange(0, k as int));
            }
        }
        proof {
            assert(ps.inbound@ =~= queued + data@);
        }
        self.swap_slot(p, Some(ps));
        proof {
            assert(self@ =~~= spec_write_table(old(self)@, index as int, data@));
        }
        data.len()
    }

    /// Reports how much may be written on the endpoint at `index`: the fixed
    /// figure while the slot is open, zero otherwise, independent of any
    /// write that came before.
    pub fn write_room(&self, index: usize) -> (r: u32)
        requires
            index < self@.len(),
        ensures
            r == spec_write_room(self@, index as int),
    {
        match self.lookup(index) {
            Some(s) => if s.open_count > 0 {
                WRITE_ROOM_OPEN
            } else {
                0
            },
            None => 0,
        }
    }

    /// Services an ioctl request on the endpoint at `index`. The
    /// serial-information command synthesises a descriptor and the counter
    /// command snapshots the event counters, both failing exactly when the
    /// destination `arg` is null; the wait command sets a status-change wait
    /// up, keyed on the lines named in `arg`; any other command reports "not
    /// supported".
    pub fn ioctl(&self, index: usize, cmd: u32, arg: u64) -> (r: Result<IoctlReply, DriverError>)
        requires
            index < self@.len(),
        ensures
            r == spec_ioctl(self@, index, cmd, arg),
    {
        if cmd == TIOCGSERIAL {
            if arg == 0 {
                return Err(DriverError::InvalidDestination);
            }
            let stored = match self.lookup(index) {
                Some(s) => s.serial,
                None => crate::slot::zero_serial(),
            };
            Ok(IoctlReply::Serial(serial_info(stored)))
        } else if cmd == TIOCMIWAIT {
            let st = self.wait_begin(index, #[verifier::truncate] (arg as u32));
            Ok(IoctlReply::WaitRequested(st))
        } else if cmd == TIOCGICOUNT {
            if arg == 0 {
                return Err(DriverError::InvalidDestination);
            }
            let cnow = match self.lookup(index) {
                Some(s) => s.icount,
                None => crate::slot::zero_icount(),
            };
            Ok(IoctlReply::Counters(counter_report(cnow)))
        } else {
            Err(DriverError::NotSupported)
        }
    }
}

/// Builds the synthesized serial-information descriptor for stored fields.
pub fn serial_info(s: SerialSettings) -> (r: SerialInfo)
    ensures
        r == spec_serial_info(s),
{
    SerialInfo {
        kind: s.kind,
        line: s.line,
        port: s.port,
        irq: s.irq,
        flags: ASYNC_SKIP_TEST | ASYNC_AUTO_IRQ,
        xmit_fifo_size: s.xmit_fifo_size,
        baud_base: s.baud_base,
        close_delay: 1250,
        closing_wait: 7500,
        custom_divisor: s.custom_divisor,
        hub6: s.hub6,
        io_type: s.io_type,
    }
}

/// Snapshots event counters into the standard counter-report shape.
pub fn counter_report(ic: Icount) -> (r: CounterReport)
    ensures
        r == spec_counter_report(ic),
{
    CounterReport {
        cts: #[verifier::truncate] (ic.cts as i32),
        dsr: #[verifier::truncate] (ic.dsr as i32),
        rng: #[verifier::truncate] (ic.rng as i32),
        dcd: #[verifier::truncate] (ic.dcd as i32),
        rx: #[verifier::truncate] (ic.rx as i32),
        tx: #[verifier::truncate] (ic.tx as i32),
        frame: #[verifier::truncate] (ic.frame as i32),
        overrun: #[verifier::truncate] (ic.overrun as i32),
        parity: #[verifier::truncate] (ic.parity as i32),
        brk: #[verifier::truncate] (ic.brk as i32),
        buf_overrun: #[verifier::truncate] (ic.buf_overrun as i32),
    }
}

} // verus!
