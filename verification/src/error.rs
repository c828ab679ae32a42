//! Error kinds reported by the endpoint and class layers.

use vstd::prelude::*;

verus! {

/// Why an endpoint or class operation did not succeed.  None of these is
/// fatal: the owning task falls back to waiting for a connection.
#[derive(Clone, Copy, Debug, PartialEq, Eq, Structural)]
pub enum UsbError {
    /// The endpoint is not enabled: the device is not configured.
    EndpointDisabled,
    /// The data does not fit into one packet of the endpoint.
    BufferOverflow,
    /// A bus reset arrived while the operation was suspended.
    Disconnected,
    /// The control request is not supported and was answered with a STALL.
    ProtocolStall,
}

impl UsbError {
    /// All recoverable errors send the task back to its connection wait.
    /// `ProtocolStall` is answered on the control endpoint and never reaches
    /// a task.
    pub open spec fn reaches_task(self) -> bool {
        self != UsbError::ProtocolStall
    }

    /// A short, fixed name for the error kind.
    pub fn name(&self) -> (s: &'static str)
        ensures
            s@ == Self::spec_name(*self),
    {
        match self {
            UsbError::EndpointDisabled => "EndpointDisabled",
            UsbError::BufferOverflow => "BufferOverflow",
            UsbError::Disconnected => "Disconnected",
            UsbError::ProtocolStall => "ProtocolStall",
        }
    }

    pub open spec fn spec_name(e: UsbError) -> Seq<char> {
        match e {
            UsbError::EndpointDisabled => "EndpointDisabled"@,
            UsbError::BufferOverflow => "BufferOverflow"@,
            UsbError::Disconnected => "Disconnected"@,
            UsbError::ProtocolStall => "ProtocolStall"@,
        }
    }
}

} // verus!
