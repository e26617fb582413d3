use vstd::prelude::*;

verus! {

/// The failures a sensor or publisher can report.
///
/// `DeviceUnavailable` is fatal at construction time; the others describe a
/// single dropped reading or send and never outlive their tick.
#[derive(Clone, Copy, Debug, PartialEq, Eq, Structural)]
pub enum SensorError {
    /// The bus or backing file could not be opened or located.
    DeviceUnavailable,
    /// A binary frame failed CRC validation; carries the nonzero checksum
    /// computed over the whole frame.
    ChecksumMismatch(u16),
    /// A text reading was not a well-formed integer.
    ParseError,
    /// A bus or broker transfer failed.
    TransportError,
    /// A structured-record encode or decode failed.
    DecodeError,
}

impl SensorError {
    /// A short label for the error kind, for diagnostics outside the library.
    pub fn label(&self) -> (r: &'static str)
        ensures
            r@ == self.spec_label(),
    {
        match self {
            SensorError::DeviceUnavailable => "device unavailable",
            SensorError::ChecksumMismatch(_) => "checksum mismatch",
            SensorError::ParseError => "parse error",
            SensorError::TransportError => "transport error",
            SensorError::DecodeError => "decode error",
        }
    }

    pub open spec fn spec_label(&self) -> Seq<char> {
        match self {
            SensorError::DeviceUnavailable => "device unavailable"@,
            SensorError::ChecksumMismatch(_) => "checksum mismatch"@,
            SensorError::ParseError => "parse error"@,
            SensorError::TransportError => "transport error"@,
            SensorError::DecodeError => "decode error"@,
        }
    }
}

} // verus!
