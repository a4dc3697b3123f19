use vstd::prelude::*;

verus! {

/// Ways in which bytes fail to form a frame or a telemetry payload.
#[derive(Debug, Clone, Copy, PartialEq, Eq, Structural)]
pub enum ProtocolError {
    /// A payload handed to the encoder does not hold exactly as many bytes as
    /// its data length code names.
    PayloadLengthMismatch,
    /// The bytes end before the header or the payload is complete.
    PayloadTruncated,
    /// The header names a data length index that does not fit in four bits.
    InvalidDlcIndex,
    /// A telemetry payload does not hold exactly the bytes of its fixed field
    /// layout.
    MalformedPayload,
}

} // verus!
