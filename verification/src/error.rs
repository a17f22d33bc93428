use vstd::prelude::*;

verus! {

/// Errors of the debug probe that the probe's own rules decide.
#[derive(Debug, PartialEq, Eq, Structural)]
pub enum DebugProbeError {
    /// The probe does not support the requested JTAG clock speed (in kHz).
    UnsupportedSpeed(u32),
}

/// Errors while looking for a probe to open.
#[derive(Debug, PartialEq, Eq, Structural)]
pub enum ProbeCreationError {
    /// No device with a CH34x vendor and product identifier is attached.
    NotFound,
}

} // verus!
