//! The inertial sensor.
//!
//! Before it is used the sensor is asked who it is: it holds its own bus
//! address in a register that cannot be written. Any other answer means that
//! the device is missing or damaged.

use vstd::prelude::*;
use crate::bus::Command;
use crate::error::{BusError, InitError};

verus! {

/// The bus address of the inertial sensor, which is also what it answers when
/// asked who it is.
pub const IMU_ADDR: u8 = 0x68;

/// The register in which the sensor holds its identity.
pub const IMU_WHOAMI_ADDR: [u8; 1] = [0x75];

/// What the answer to the identity query means: the sensor is there if the
/// query went through and the byte that came back is its address.
pub open spec fn identity_of(outcome: Result<[u8; 1], BusError>) -> Result<(), InitError> {
    match outcome {
        Ok(bytes) => if bytes[0] == IMU_ADDR {
            Ok(())
        } else {
            Err(InitError::IdentityMismatch)
        },
        Err(fault) => Err(InitError::Bus(fault)),
    }
}

/// The driver of the inertial sensor. Like every driver it holds the bus
/// while it is in use.
pub struct IMU<B> {
    i2c: B,
}

impl<B> IMU<B> {
    /// The bus that the driver holds.
    pub closed spec fn bus(&self) -> B {
        self.i2c
    }

    /// A driver for the inertial sensor on the bus `i2c`.
    pub fn new(i2c: B) -> (imu: Self)
        ensures
            imu.bus() == i2c,
    {
        Self { i2c }
    }

    /// Gives the bus back and ends the driver.
    pub fn inner(self) -> (i2c: B)
        ensures
            i2c == self.bus(),
    {
        self.i2c
    }

    /// The bus, to carry out a command on.
    pub fn inner_mut(&mut self) -> (i2c: &mut B)
        ensures
            *i2c == old(self).bus(),
            final(self).bus() == *final(i2c),
    {
        &mut self.i2c
    }

    /// The identity query: the register address is written and one byte comes
    /// back.
    pub fn identity_command(&self) -> (command: Command)
        ensures
            command.asks(IMU_ADDR, IMU_WHOAMI_ADDR@, 1),
    {
        Command::new(IMU_ADDR, IMU_WHOAMI_ADDR.as_slice(), 1)
    }

    /// Takes the outcome of the identity query. The sensor is ready if it
    /// answered with its own address. Another answer is reported as a
    /// mismatch, and a failed query as the fault of the bus, so that the
    /// caller decides what to do about it.
    pub fn init(&self, outcome: Result<[u8; 1], BusError>) -> (ready: Result<(), InitError>)
        ensures
            ready == identity_of(outcome),
    {
        match outcome {
            Ok(buf) => {
                if buf[0] == IMU_ADDR {
                    Ok(())
                } else {
                    Err(InitError::IdentityMismatch)
                }
            },
            Err(fault) => Err(InitError::Bus(fault)),
        }
    }
}

} // verus!
