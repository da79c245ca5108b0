//! The errors of the board, and how one kind turns into another.
//!
//! Four things can go wrong: a bus transaction fails, a sensor does not
//! identify itself, the USB host goes away, or a USB endpoint overflows. The
//! first three are reported to the caller, who may try again. The last one
//! stops the device.

use vstd::prelude::*;

verus! {

/// A bus transaction did not complete. No acknowledgement, a lost arbitration
/// and a line fault all end here: the bus does not tell them apart.
#[derive(Clone, Copy, Debug, PartialEq, Eq, Structural)]
pub struct BusError {}

/// What a driver reports to the task that called it.
#[derive(Clone, Copy, Debug, PartialEq, Eq, Structural)]
pub enum BoardError {
    SpiError,
    I2CError,
}

pub type BoardResult<T> = Result<T, BoardError>;

impl BoardError {
    /// The text that stands for each error in a log.
    pub open spec fn message_of(error: BoardError) -> Seq<char> {
        match error {
            BoardError::SpiError => "Spi Error Occured"@,
            BoardError::I2CError => "I2C Error Occured"@,
        }
    }

    /// The line that a log shows for this error.
    pub fn message(&self) -> (text: &'static str)
        ensures
            text@ == Self::message_of(*self),
    {
        match self {
            BoardError::SpiError => "Spi Error Occured",
            BoardError::I2CError => "I2C Error Occured",
        }
    }
}

impl From<BusError> for BoardError {
    /// Every fault of the bus is an I2C error to the board.
    fn from(value: BusError) -> (error: Self) {
        BoardError::I2CError
    }
}

impl vstd::std_specs::convert::FromSpecImpl<BusError> for BoardError {
    open spec fn obeys_from_spec() -> bool {
        true
    }

    open spec fn from_spec(value: BusError) -> Self {
        BoardError::I2CError
    }
}

/// Why a sensor could not be brought up.
#[derive(Clone, Copy, Debug, PartialEq, Eq, Structural)]
pub enum InitError {
    /// The identity query itself failed on the bus.
    Bus(BusError),
    /// The device answered, but not with its own address: it is another
    /// device, or a damaged one.
    IdentityMismatch,
}

/// How an endpoint read or write can fail.
#[derive(Clone, Copy, Debug, PartialEq, Eq, Structural)]
pub enum EndpointError {
    /// The packet did not fit the buffer that was offered for it.
    BufferOverflow,
    /// The endpoint is off: the cable was pulled or the host enumerates again.
    Disabled,
}

/// What an endpoint failure means to the serial transport.
#[derive(Clone, Copy, Debug, PartialEq, Eq, Structural)]
pub enum TransportError {
    /// The host is gone. The service goes back to waiting for a connection.
    Disconnected,
    /// Nothing can be done. The device halts.
    Fatal,
}

impl TransportError {
    /// A disabled endpoint is a host that went away. An overflow is fatal.
    pub open spec fn of(failure: EndpointError) -> TransportError {
        match failure {
            EndpointError::BufferOverflow => TransportError::Fatal,
            EndpointError::Disabled => TransportError::Disconnected,
        }
    }
}

impl From<EndpointError> for TransportError {
    fn from(value: EndpointError) -> (error: Self) {
        match value {
            EndpointError::BufferOverflow => TransportError::Fatal,
            EndpointError::Disabled => TransportError::Disconnected,
        }
    }
}

impl vstd::std_specs::convert::FromSpecImpl<EndpointError> for TransportError {
    open spec fn obeys_from_spec() -> bool {
        true
    }

    open spec fn from_spec(value: EndpointError) -> Self {
        TransportError::of(value)
    }
}

} // verus!
