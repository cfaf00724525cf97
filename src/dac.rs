//! The driver handle: owns the SPI bus and the sync line, and sends
//! commands as framed transfers, blocking until each is done.
use vstd::prelude::*;

use crate::command::{Channel, Message};
use crate::error::{transfer_outcome, DacError};
use crate::framing::{FrameAction, FrameStage, Framing};

verus! {

/// Something the driver did to the bus or the sync line.
#[derive(Copy, Clone, Debug)]
pub enum BusEvent {
    /// The sync line was driven low, selecting the device.
    SyncAsserted,
    /// These bytes were written on the bus as one write, which succeeded
    /// or failed as the flag says.
    PayloadWritten([u8; 4], bool),
    /// The sync line was driven high, deselecting the device.
    SyncReleased,
}

/// The events of one transfer of `payload` whose bus write succeeded
/// exactly when `bus_ok`.
pub open spec fn transfer_events(payload: [u8; 4], bus_ok: bool) -> Seq<BusEvent> {
    seq![BusEvent::SyncAsserted, BusEvent::PayloadWritten(payload, bus_ok), BusEvent::SyncReleased]
}

/// The events of a transfer that has reached the stage of `f`.
spec fn events_so_far(f: Framing) -> Seq<BusEvent> {
    match f.spec_stage() {
        FrameStage::SelectDevice => seq![],
        FrameStage::WritePayload => seq![BusEvent::SyncAsserted],
        FrameStage::DeselectDevice => seq![
            BusEvent::SyncAsserted,
            BusEvent::PayloadWritten(f.spec_payload(), f.spec_bus_ok()),
        ],
        FrameStage::Complete => transfer_events(f.spec_payload(), f.spec_bus_ok()),
    }
}

/// DAC8568
pub struct Dac<SPI, SYNC> {
    /// The SPI interface
    spi: SPI,
    /// The SPI's sync (select) line
    sync: SYNC,
    /// If the output of the DAC is inverted.
    /// Useful if the hardware engineer has designed an inverting gain stage after the DAC output
    is_inverted: bool,
    /// The calls this handle has made on the bus and the sync line, oldest
    /// first. Only `new` and the three methods that make those calls change it.
    events: Ghost<Seq<BusEvent>>,
}

impl<SPI, SYNC> Dac<SPI, SYNC> {
    pub closed spec fn spec_spi(&self) -> SPI {
        self.spi
    }

    pub closed spec fn spec_sync(&self) -> SYNC {
        self.sync
    }

    pub closed spec fn spec_is_inverted(&self) -> bool {
        self.is_inverted
    }

    /// The calls this handle has made on the bus and the sync line, oldest
    /// first.
    pub closed spec fn history(&self) -> Seq<BusEvent> {
        self.events@
    }

    /// `after` is this handle once it has made one transfer of `payload`
    /// that reported `r`: one select, one write of the payload, one
    /// deselect, and an error exactly when the write failed.
    pub open spec fn transferred(&self, after: &Self, payload: [u8; 4], r: Result<(), DacError>) -> bool {
        &&& after.history() == self.history() + transfer_events(payload, r is Ok)
        &&& r == transfer_outcome(r is Ok)
        &&& after.spec_is_inverted() == self.spec_is_inverted()
    }

    /// Initialize a new instance of dac8568
    pub fn new(spi: SPI, sync: SYNC) -> (r: Self)
        ensures
            r.spec_spi() == spi,
            r.spec_sync() == sync,
            !r.spec_is_inverted(),
            r.history() == Seq::<BusEvent>::empty(),
    {
        Self { spi, sync, is_inverted: false, events: Ghost(Seq::empty()) }
    }

    /// Consume the dac and return the underlying SPI and GPIO pins used by it
    pub fn release(self) -> (r: (SPI, SYNC))
        ensures
            r == (self.spec_spi(), self.spec_sync()),
    {
        (self.spi, self.sync)
    }

    /// Sets the output signal of the DAC to be inverted or non-inverted (default)
    /// Useful if the hardware engineer has designed an inverting gain stage after the DAC output
    pub fn set_inverted_output(&mut self, state: bool)
        ensures
            final(self).spec_is_inverted() == state,
            final(self).spec_spi() == old(self).spec_spi(),
            final(self).spec_sync() == old(self).spec_sync(),
            final(self).history() == old(self).history(),
    {
        self.is_inverted = state;
    }

    /// Whether output values are reflected around the 16-bit range.
    #[verifier::when_used_as_spec(spec_is_inverted)]
    pub fn is_inverted(&self) -> (r: bool)
        ensures
            r == self.spec_is_inverted(),
    {
        self.is_inverted
    }
}

impl<SPI, SYNC> Dac<SPI, SYNC> where
    SPI: embedded_hal::spi::SpiBus,
    SYNC: embedded_hal::digital::OutputPin,
 {
    /// Relies on embedded_hal's `OutputPin::set_low`: drives the sync line
    /// low, which the history records, and tells whether the pin driver
    /// reported success. Only the sync line is touched.
    #[verifier::external_body]
    fn select(&mut self) -> (ok: bool)
        ensures
            final(self).history() == old(self).history().push(BusEvent::SyncAsserted),
            final(self).spec_is_inverted() == old(self).spec_is_inverted(),
            final(self).spec_spi() == old(self).spec_spi(),
    {
        self.sync.set_low().is_ok()
    }

    /// Relies on embedded_hal's `SpiBus::write`: writes the bytes on the bus
    /// as one write, which the history records together with whether the
    /// bus reported success. Only the bus is touched.
    #[verifier::external_body]
    fn send(&mut self, bytes: &[u8; 4]) -> (ok: bool)
        ensures
            final(self).history() == old(self).history().push(BusEvent::PayloadWritten(*bytes, ok)),
            final(self).spec_is_inverted() == old(self).spec_is_inverted(),
            final(self).spec_sync() == old(self).spec_sync(),
    {
        self.spi.write(bytes).is_ok()
    }

    /// Relies on embedded_hal's `OutputPin::set_high`: drives the sync line
    /// high, which the history records, and tells whether the pin driver
    /// reported success. Only the sync line is touched.
    #[verifier::external_body]
    fn deselect(&mut self) -> (ok: bool)
        ensures
            final(self).history() == old(self).history().push(BusEvent::SyncReleased),
            final(self).spec_is_inverted() == old(self).spec_is_inverted(),
            final(self).spec_spi() == old(self).spec_spi(),
    {
        self.sync.set_high().is_ok()
    }

    /// Set the specified value to the given channel. This will update the DAC
    /// to output the desired voltage
    pub fn set_voltage(&mut self, channel: Channel, voltage: u16) -> (r: Result<(), DacError>)
        ensures
            old(self).transferred(
                final(self),
                Message::spec_voltage_message(
                    channel,
                    voltage,
                    old(self).spec_is_inverted(),
                ).spec_payload_bytes(),
                r,
            ),
    {
        let message = Message::get_voltage_message(channel, voltage, self.is_inverted);
        self.write(message)
    }

    /// Configure the DAC to use its internal reference mode of 2.5v rather than using an external
    /// voltage reference
    pub fn use_internal_reference(&mut self) -> (r: Result<(), DacError>)
        ensures
            old(self).transferred(
                final(self),
                Message::spec_reference_message(true).spec_payload_bytes(),
                r,
            ),
    {
        let message = Message::get_internal_reference_message(true);
        self.write(message)
    }

    /// Configure the DAC to use its external reference mode rather than using the internal reference
    pub fn use_external_reference(&mut self) -> (r: Result<(), DacError>)
        ensures
            old(self).transferred(
                final(self),
                Message::spec_reference_message(false).spec_payload_bytes(),
                r,
            ),
    {
        let message = Message::get_internal_reference_message(false);
        self.write(message)
    }

    /// Perform a software reset, clearing out all registers.
    ///
    /// All registers inside the device are reset to default settings; that
    /// is, all DAC channels are reset to the power-on reset code (zero scale
    /// for grades A and C, midscale for grades B and D).
    pub fn reset(&mut self) -> (r: Result<(), DacError>)
        ensures
            old(self).transferred(
                final(self),
                Message::spec_reset_message().spec_payload_bytes(),
                r,
            ),
    {
        let message = Message::get_software_reset_message();
        self.write(message)
    }

    /// Write to the DAC via a blocking call on the specified SPI interface.
    ///
    /// A sync line that fails to move is not reported: the transfer goes
    /// on, and the line is driven high again whatever the write did.
    fn write(&mut self, message: Message) -> (r: Result<(), DacError>)
        ensures
            old(self).transferred(final(self), message.spec_payload_bytes(), r),
    {
        let payload = message.get_payload_bytes();
        let mut frame = Framing::new(payload);
        let ghost start = self.events@;
        loop
            invariant
                payload == message.spec_payload_bytes(),
                frame.spec_payload() == payload,
                self.events@ == start + events_so_far(frame),
                self.is_inverted == old(self).is_inverted,
                start == old(self).events@,
            decreases frame.spec_stage().remaining(),
        {
            match frame.next_action() {
                FrameAction::SelectDevice => {
                    let pin_ok = self.select();
                    frame.complete(pin_ok);
                    assert(self.events@ =~= start + events_so_far(frame));
                },
                FrameAction::Write(bytes) => {
                    let bus_ok = self.send(&bytes);
                    frame.complete(bus_ok);
                    assert(self.events@ =~= start + events_so_far(frame));
                },
                FrameAction::DeselectDevice => {
                    let pin_ok = self.deselect();
                    frame.complete(pin_ok);
                    assert(self.events@ =~= start + events_so_far(frame));
                },
                FrameAction::Finish(r) => {
                    return r;
                },
            }
        }
    }
}

/// Repeating one logical operation makes two identical transfers. An
/// operation's message depends on nothing but the inversion policy, which a
/// transfer leaves as it found it, so both transfers carry the same payload,
/// and where the bus answers both writes alike, the two call sequences are
/// the same.
pub proof fn lemma_repeated_operation<SPI, SYNC>(
    op: spec_fn(bool) -> Message,
    d0: Dac<SPI, SYNC>,
    d1: Dac<SPI, SYNC>,
    d2: Dac<SPI, SYNC>,
    r1: Result<(), DacError>,
    r2: Result<(), DacError>,
)
    requires
        d0.transferred(&d1, op(d0.spec_is_inverted()).spec_payload_bytes(), r1),
        d1.transferred(&d2, op(d1.spec_is_inverted()).spec_payload_bytes(), r2),
    ensures
        op(d1.spec_is_inverted()).spec_payload_bytes() == op(d0.spec_is_inverted()).spec_payload_bytes(),
        ({
            let p = op(d0.spec_is_inverted()).spec_payload_bytes();
            &&& d2.history() == d0.history() + transfer_events(p, r1 is Ok) + transfer_events(p, r2 is Ok)
        }),
{
    let p = op(d0.spec_is_inverted()).spec_payload_bytes();
    assert(d2.history() =~= d0.history() + transfer_events(p, r1 is Ok) + transfer_events(p, r2 is Ok));
}

} // verus!
