//! The adapter for the clocked serial bus.
//!
//! The serial bus has no addressing of its own, so the adapter frames every
//! transaction with the chip-select line it exclusively owns: select low,
//! one bus transaction, select high. The adapter keeps a ghost log of these
//! select and bus events, and its contracts state the framing exactly.

use vstd::prelude::*;
use crate::buffer::zero_fill;
use crate::bus::SelectLine;
use crate::bus::SerialBus;
use crate::bus::SerialTx;
use crate::register::Register;
use crate::types::Interface;
use crate::types::Tx;

verus! {

/// One step the adapter takes on the wire: driving the select line, or one
/// transaction on the serial bus while the line is held.
pub enum SerialEvent {
    /// The select line was driven to this level (`false` is asserted).
    Select(bool),
    /// A transaction completed on the bus.
    Bus(SerialTx),
}

/// The select-line levels among `events`, in order.
pub open spec fn select_events(events: Seq<SerialEvent>) -> Seq<bool>
    decreases events.len(),
{
    if events.len() == 0 {
        Seq::empty()
    } else {
        let rest = select_events(events.drop_last());
        match events.last() {
            SerialEvent::Select(level) => rest.push(level),
            SerialEvent::Bus(_) => rest,
        }
    }
}

/// The bus transactions among `events`, in order.
pub open spec fn bus_events(events: Seq<SerialEvent>) -> Seq<SerialTx>
    decreases events.len(),
{
    if events.len() == 0 {
        Seq::empty()
    } else {
        let rest = bus_events(events.drop_last());
        match events.last() {
            SerialEvent::Select(_) => rest,
            SerialEvent::Bus(tx) => rest.push(tx),
        }
    }
}

/// How one more event changes each projection of the event log.
pub proof fn lemma_events_push(events: Seq<SerialEvent>, e: SerialEvent)
    ensures
        select_events(events.push(e)) == (match e {
            SerialEvent::Select(level) => select_events(events).push(level),
            SerialEvent::Bus(_) => select_events(events),
        }),
        bus_events(events.push(e)) == (match e {
            SerialEvent::Select(_) => bus_events(events),
            SerialEvent::Bus(tx) => bus_events(events).push(tx),
        }),
{
    assert(events.push(e).drop_last() =~= events);
    assert(events.push(e).last() == e);
}

/// The frame clocked out for an `n`-byte block read: the register's read
/// address followed by `n - 1` zero filler bytes, which clock the device's
/// reply in.
pub open spec fn read_frame(reg: Register, n: nat) -> Seq<u8> {
    Seq::new(n, |i: int| if i == 0 { reg.spec_read_address() } else { 0u8 })
}

/// The frame clocked out for a single-byte write: the register's write
/// address followed by the value.
pub open spec fn write_frame(reg: Register, val: u8) -> Seq<u8> {
    seq![reg.spec_write_address(), val]
}

/// The clocked-serial adapter: owns the bus handle and the select-line pin.
///
/// Its core invariant is stated by the contracts of [`Interface::read_many`]
/// and [`Interface::write`] below: on the success path the select line is
/// asserted exactly around one bus transaction, with nothing else
/// interleaved.
pub struct ClockedSerial<S, L> {
    /// The serial bus handle.
    pub bus: S,
    /// The active-low chip-select pin, exclusively owned.
    pub ncs: L,
    /// Everything the adapter has done on the wire, oldest first.
    pub events: Ghost<Seq<SerialEvent>>,
    /// The register-level transactions completed, oldest first.
    pub txs: Ghost<Seq<Tx>>,
}

impl<S: SerialBus, L: SelectLine> ClockedSerial<S, L> {
    /// The adapter's event log is truthful: its select events are exactly
    /// the pin's history, and its bus events are exactly the bus's log.
    /// Both methods preserve this, so the log can be trusted to show how pin
    /// toggles and bus transactions interleaved.
    pub open spec fn wf(&self) -> bool {
        &&& select_events(self.events@) == self.ncs.history()
        &&& bus_events(self.events@) == self.bus.log()
    }

    pub fn new(bus: S, ncs: L) -> (r: Self)
        ensures
            r.bus == bus,
            r.ncs == ncs,
            r.events@ == Seq::<SerialEvent>::empty(),
            r.txs@ == Seq::<Tx>::empty(),
            bus.log() == Seq::<SerialTx>::empty() && ncs.history() == Seq::<bool>::empty()
                ==> r.wf(),
    {
        ClockedSerial { bus, ncs, events: Ghost(Seq::empty()), txs: Ghost(Seq::empty()) }
    }
}

impl<S: SerialBus, L: SelectLine> Interface<<S as SerialBus>::Error> for ClockedSerial<S, L> {
    open spec fn trace(&self) -> Seq<Tx> {
        self.txs@
    }

    /// Frames a block read: asserts the select line, clocks the read frame
    /// out while the reply overwrites it in place, deasserts the line.
    ///
    /// On success the adapter performed exactly `select low, one full-duplex
    /// transfer of the read frame, select high`. On failure the transfer
    /// left no transaction behind — but the select line stays asserted,
    /// faithful to the behaviour this adapter has always had; recovering the
    /// line is left to the caller. Either way the buffer never exposes a
    /// stale byte: it holds the zero-filled read frame until the reply
    /// lands.
    fn read_many(&mut self, reg: Register, buf: &mut Vec<u8>) -> (r: Result<
        (),
        <S as SerialBus>::Error,
    >)
        ensures
            old(self).wf() ==> final(self).wf(),
            r is Ok ==> {
                &&& final(buf)@ == old(self).bus.response(read_frame(reg, old(buf)@.len()))
                &&& final(self).bus.log() == old(self).bus.log().push(
                    (SerialTx::Transfer { out: read_frame(reg, old(buf)@.len()), back: final(buf)@ }),
                )
                &&& final(self).ncs.history() == old(self).ncs.history().push(false).push(true)
                &&& final(self).events@ == old(self).events@.push(SerialEvent::Select(false)).push(
                    SerialEvent::Bus(
                        (SerialTx::Transfer { out: read_frame(reg, old(buf)@.len()), back: final(buf)@ }),
                    ),
                ).push(SerialEvent::Select(true))
            },
            r is Err ==> {
                &&& final(buf)@ == read_frame(reg, old(buf)@.len())
                &&& final(self).bus.log() == old(self).bus.log()
                &&& final(self).ncs.history() == old(self).ncs.history().push(false)
                &&& final(self).events@ == old(self).events@.push(SerialEvent::Select(false))
                &&& final(self).txs@ == old(self).txs@
            },
    {
        let ghost n0 = buf@.len();
        let ghost evs0 = self.events@;
        zero_fill(buf);
        let ra = reg.read_address();
        buf.set(0, ra);
        proof {
            assert(buf@ =~= read_frame(reg, n0));
        }
        self.ncs.set_low();
        self.events = Ghost(self.events@.push(SerialEvent::Select(false)));
        let res = self.bus.transfer(buf);
        match res {
            Ok(_) => {
                self.events = Ghost(
                    self.events@.push(
                        SerialEvent::Bus(SerialTx::Transfer { out: read_frame(reg, n0), back: buf@ }),
                    ),
                );
                self.ncs.set_high();
                self.events = Ghost(self.events@.push(SerialEvent::Select(true)));
                self.txs = Ghost(self.txs@.push(Tx::Read { reg, n: n0, data: buf@ }));
                proof {
                    let t = SerialEvent::Bus(
                        SerialTx::Transfer { out: read_frame(reg, n0), back: buf@ },
                    );
                    lemma_events_push(evs0, SerialEvent::Select(false));
                    lemma_events_push(evs0.push(SerialEvent::Select(false)), t);
                    lemma_events_push(
                        evs0.push(SerialEvent::Select(false)).push(t),
                        SerialEvent::Select(true),
                    );
                }
                Ok(())
            },
            Err(e) => {
                // The select line stays asserted on this path; see above.
                proof {
                    lemma_events_push(evs0, SerialEvent::Select(false));
                }
                Err(e)
            },
        }
    }

    /// Frames a single-byte write: asserts the select line, writes
    /// `[write address, value]`, deasserts the line.
    ///
    /// The failure path mirrors `read_many`: no transaction is left behind,
    /// and the select line stays asserted.
    fn write(&mut self, reg: Register, val: u8) -> (r: Result<(), <S as SerialBus>::Error>)
        ensures
            old(self).wf() ==> final(self).wf(),
            r is Ok ==> {
                &&& final(self).bus.log() == old(self).bus.log().push(
                    (SerialTx::Write { bytes: write_frame(reg, val) }),
                )
                &&& final(self).ncs.history() == old(self).ncs.history().push(false).push(true)
                &&& final(self).events@ == old(self).events@.push(SerialEvent::Select(false)).push(
                    SerialEvent::Bus((SerialTx::Write { bytes: write_frame(reg, val) })),
                ).push(SerialEvent::Select(true))
            },
            r is Err ==> {
                &&& final(self).bus.log() == old(self).bus.log()
                &&& final(self).ncs.history() == old(self).ncs.history().push(false)
                &&& final(self).events@ == old(self).events@.push(SerialEvent::Select(false))
                &&& final(self).txs@ == old(self).txs@
            },
    {
        let ghost evs0 = self.events@;
        let wa = reg.write_address();
        let mut bytes: Vec<u8> = Vec::new();
        bytes.push(wa);
        bytes.push(val);
        proof {
            assert(bytes@ =~= write_frame(reg, val));
        }
        self.ncs.set_low();
        self.events = Ghost(self.events@.push(SerialEvent::Select(false)));
        let res = self.bus.write(&bytes);
        match res {
            Ok(_) => {
                self.events = Ghost(
                    self.events@.push(SerialEvent::Bus(SerialTx::Write { bytes: bytes@ })),
                );
                self.ncs.set_high();
                self.events = Ghost(self.events@.push(SerialEvent::Select(true)));
                self.txs = Ghost(self.txs@.push(Tx::Write { reg, val }));
                proof {
                    let t = SerialEvent::Bus(SerialTx::Write { bytes: write_frame(reg, val) });
                    lemma_events_push(evs0, SerialEvent::Select(false));
                    lemma_events_push(evs0.push(SerialEvent::Select(false)), t);
                    lemma_events_push(
                        evs0.push(SerialEvent::Select(false)).push(t),
                        SerialEvent::Select(true),
                    );
                }
                Ok(())
            },
            Err(e) => {
                // The select line stays asserted on this path; see above.
                proof {
                    lemma_events_push(evs0, SerialEvent::Select(false));
                }
                Err(e)
            },
        }
    }
}

} // verus!
