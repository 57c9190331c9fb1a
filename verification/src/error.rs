use vstd::prelude::*;

verus! {

/// The broad class of fault an I2C bus transport can report.
///
/// The driver never interprets bus failures beyond recording which kind the
/// transport reported: every kind is propagated uniformly to the caller.
#[derive(Debug, Clone, Copy, PartialEq, Eq, Hash)]
pub enum I2cErrorKind {
    /// A general fault on the bus lines.
    Bus,
    /// Arbitration was lost against another bus master.
    ArbitrationLoss,
    /// The device did not acknowledge its address or a data byte.
    NoAcknowledge,
    /// A peripheral buffer overrun.
    Overrun,
    /// Any fault the transport could not classify further.
    Other,
}

/// Error during DS3502 operation.
#[derive(Debug, Clone, Copy, PartialEq, Eq, Hash)]
pub enum Ds3502Error {
    /// Wiper value must be between 0 and 127 inclusive.
    InvalidWiperValue,
    /// Error on the I2C bus.
    I2cError(I2cErrorKind),
}

} // verus!
