//! The framing of one command on the bus: select the device, write the
//! payload, deselect the device, report.
//!
//! The steps are a state machine so that a blocking driver and a
//! suspending one can share them: the driver asks for the next action,
//! performs it, and reports whether it succeeded.
use vstd::prelude::*;

use crate::error::{transfer_outcome, DacError};

verus! {

/// Where a transfer stands.
#[derive(Copy, Clone, Debug, PartialEq, Eq, Structural)]
pub enum FrameStage {
    /// The sync line is to be driven low.
    SelectDevice,
    /// The payload is to be written.
    WritePayload,
    /// The sync line is to be driven high.
    DeselectDevice,
    /// The transfer is over.
    Complete,
}

impl FrameStage {
    /// The stage that follows this one.
    pub open spec fn next(self) -> FrameStage {
        match self {
            FrameStage::SelectDevice => FrameStage::WritePayload,
            FrameStage::WritePayload => FrameStage::DeselectDevice,
            FrameStage::DeselectDevice => FrameStage::Complete,
            FrameStage::Complete => FrameStage::Complete,
        }
    }

    /// How many actions are left before the transfer is over.
    pub open spec fn remaining(self) -> nat {
        match self {
            FrameStage::SelectDevice => 3,
            FrameStage::WritePayload => 2,
            FrameStage::DeselectDevice => 1,
            FrameStage::Complete => 0,
        }
    }
}

/// What the driver is to do next.
#[derive(Copy, Clone, Debug)]
pub enum FrameAction {
    /// Drive the sync line low.
    SelectDevice,
    /// Write these bytes on the bus, as one write.
    Write([u8; 4]),
    /// Drive the sync line high.
    DeselectDevice,
    /// The transfer is over; report this.
    Finish(Result<(), DacError>),
}

/// One transfer of a four-byte payload, framed by the sync line.
#[derive(Copy, Clone)]
pub struct Framing {
    payload: [u8; 4],
    stage: FrameStage,
    bus_ok: bool,
}

/// The actions of a transfer of `payload` whose bus write succeeds exactly
/// when `bus_ok`.
pub open spec fn frame_actions(payload: [u8; 4], bus_ok: bool) -> Seq<FrameAction> {
    seq![
        FrameAction::SelectDevice,
        FrameAction::Write(payload),
        FrameAction::DeselectDevice,
        FrameAction::Finish(transfer_outcome(bus_ok)),
    ]
}

impl Framing {
    pub closed spec fn spec_payload(&self) -> [u8; 4] {
        self.payload
    }

    pub closed spec fn spec_stage(&self) -> FrameStage {
        self.stage
    }

    /// Whether the bus write succeeded; meaningful once it has been made.
    pub closed spec fn spec_bus_ok(&self) -> bool {
        self.bus_ok
    }

    /// A transfer of `payload` that has not begun.
    pub closed spec fn spec_new(payload: [u8; 4]) -> Framing {
        Framing { payload, stage: FrameStage::SelectDevice, bus_ok: false }
    }

    /// The transfer once its current action has been performed with the
    /// outcome `ok`. Only the bus write's outcome is kept: a sync line that
    /// fails to move does not stop the transfer.
    pub closed spec fn spec_after(self, ok: bool) -> Framing {
        Framing {
            payload: self.payload,
            stage: self.stage.next(),
            bus_ok: if self.stage == FrameStage::WritePayload { ok } else { self.bus_ok },
        }
    }

    /// The action that the current stage calls for.
    pub open spec fn spec_action(&self) -> FrameAction {
        match self.spec_stage() {
            FrameStage::SelectDevice => FrameAction::SelectDevice,
            FrameStage::WritePayload => FrameAction::Write(self.spec_payload()),
            FrameStage::DeselectDevice => FrameAction::DeselectDevice,
            FrameStage::Complete => FrameAction::Finish(transfer_outcome(self.spec_bus_ok())),
        }
    }

    /// Begin a transfer of `payload`.
    pub fn new(payload: [u8; 4]) -> (r: Framing)
        ensures
            r == Framing::spec_new(payload),
            r.spec_payload() == payload,
            r.spec_stage() == FrameStage::SelectDevice,
    {
        Framing { payload, stage: FrameStage::SelectDevice, bus_ok: false }
    }

    /// The action to perform next.
    pub fn next_action(&self) -> (r: FrameAction)
        ensures
            r == self.spec_action(),
    {
        match self.stage {
            FrameStage::SelectDevice => FrameAction::SelectDevice,
            FrameStage::WritePayload => FrameAction::Write(self.payload),
            FrameStage::DeselectDevice => FrameAction::DeselectDevice,
            FrameStage::Complete => FrameAction::Finish(
                if self.bus_ok {
                    Ok(())
                } else {
                    Err(DacError::BusWriteError)
                },
            ),
        }
    }

    /// Report that the current action was performed, and whether it
    /// succeeded.
    pub fn complete(&mut self, ok: bool)
        requires
            old(self).spec_stage() != FrameStage::Complete,
        ensures
            *final(self) == old(self).spec_after(ok),
            final(self).spec_payload() == old(self).spec_payload(),
            final(self).spec_stage() == old(self).spec_stage().next(),
            final(self).spec_bus_ok() == if old(self).spec_stage() == FrameStage::WritePayload {
                ok
            } else {
                old(self).spec_bus_ok()
            },
    {
        if self.stage == FrameStage::WritePayload {
            self.bus_ok = ok;
        }
        self.stage =
        match self.stage {
            FrameStage::SelectDevice => FrameStage::WritePayload,
            FrameStage::WritePayload => FrameStage::DeselectDevice,
            _ => FrameStage::Complete,
        };
    }

    /// Whether the transfer is over.
    pub fn is_complete(&self) -> (r: bool)
        ensures
            r <==> self.spec_stage() == FrameStage::Complete,
    {
        self.stage == FrameStage::Complete
    }
}

/// Whatever the sync line does, a transfer asks for exactly one select, one
/// write of its payload and one deselect, in that order, and then reports a
/// bus-write error exactly when the write failed.
pub proof fn lemma_frame_sequence(payload: [u8; 4], select_ok: bool, bus_ok: bool, deselect_ok: bool)
    ensures
        ({
            let f0 = Framing::spec_new(payload);
            let f1 = f0.spec_after(select_ok);
            let f2 = f1.spec_after(bus_ok);
            let f3 = f2.spec_after(deselect_ok);
            &&& seq![f0.spec_action(), f1.spec_action(), f2.spec_action(), f3.spec_action()]
                == frame_actions(payload, bus_ok)
            &&& f3.spec_stage() == FrameStage::Complete
        }),
{
    let f0 = Framing::spec_new(payload);
    let f1 = f0.spec_after(select_ok);
    let f2 = f1.spec_after(bus_ok);
    let f3 = f2.spec_after(deselect_ok);
    assert(seq![f0.spec_action(), f1.spec_action(), f2.spec_action(), f3.spec_action()]
        =~= frame_actions(payload, bus_ok));
}

} // verus!
