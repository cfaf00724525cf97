use vstd::prelude::*;

verus! {

/// Errors reported by the driver.
#[derive(Copy, Clone, Debug, PartialEq, Eq, Structural)]
#[non_exhaustive]
pub enum DacError {
    /// The bus refused or failed the write of a command.
    BusWriteError,
}

/// What a transfer reports, given whether its bus write succeeded.
pub open spec fn transfer_outcome(bus_ok: bool) -> Result<(), DacError> {
    if bus_ok {
        Ok(())
    } else {
        Err(DacError::BusWriteError)
    }
}

} // verus!
