//! The failures the driver reports.
use vstd::prelude::*;

verus! {

/// Why an operation of the driver failed.
#[derive(Clone, Copy, Debug, PartialEq, Eq, Structural)]
pub enum AxiDMAErr {
    /// The device failed: a reset timed out, or it raised its error interrupt.
    DMAErr,
    /// The engine has not been reset successfully yet.
    NotInit,
    /// The descriptor ring has fewer free descriptors than the request needs.
    BDRingNoList,
    /// An argument is outside what the operation accepts.
    InValidParam,
    /// The engine was configured without the channel.
    ChannelAbsent,
}

} // verus!
