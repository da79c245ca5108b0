//! The temperature and humidity sensor.
//!
//! The sensor sits on the bus at [`TEMP_ADDR`]. It answers a measurement with
//! two raw 16-bit registers, high byte first, each followed by a checksum
//! byte that this driver does not look at. A raw temperature `r` stands for
//! `-45 + 175 * r / 65535` degrees Celsius, a raw humidity for
//! `100 * r / 65535` percent.

use vstd::prelude::*;
use crate::bus::{be16, big_endian_u16, Command};
use crate::error::{BoardError, BoardResult, BusError};

verus! {

/// The bus address of the sensor.
pub const TEMP_ADDR: u8 = 0x44;

/// Reads the status register.
pub const TEMP_STATUS_COMMAND: [u8; 2] = [0xF3, 0x2D];

/// Single shot, high repeatability, with clock stretching enabled.
pub const TEMP_MEAS_COMMAND: [u8; 2] = [0x2C, 0x06];

/// Resets the sensor without cycling its power.
pub const TEMP_SOFT_RESET: [u8; 2] = [0x30, 0xA2];

/// The largest raw value: a raw register counts in this many steps.
pub const DIVISOR: u16 = 65535;

/// A temperature as the sensor gives it.
#[derive(Clone, Copy, Debug, PartialEq, Eq, Structural)]
pub struct Temperature {
    pub raw: u16,
}

/// A relative humidity as the sensor gives it.
#[derive(Clone, Copy, Debug, PartialEq, Eq, Structural)]
pub struct Humidity {
    pub raw: u16,
}

/// The temperature that `raw` stands for, in degrees Celsius times
/// [`DIVISOR`]. No rounding is in this number.
pub open spec fn celsius_steps(raw: u16) -> int {
    175 * raw - 45 * DIVISOR
}

/// The temperature that `raw` stands for, in thousandths of a degree Celsius,
/// rounded down.
pub open spec fn millidegrees_of(raw: u16) -> int {
    (1000 * celsius_steps(raw)) / (DIVISOR as int)
}

/// The humidity that `raw` stands for, in percent times [`DIVISOR`]. No
/// rounding is in this number.
pub open spec fn percent_steps(raw: u16) -> int {
    100 * raw
}

/// The humidity that `raw` stands for, in thousandths of a percent, rounded
/// down.
pub open spec fn millipercent_of(raw: u16) -> int {
    (1000 * percent_steps(raw)) / (DIVISOR as int)
}

/// A higher raw value is never a lower temperature. The lowest raw value is
/// -45 degrees and the highest is 130 degrees, both without rounding, and
/// every other value lies between them.
pub proof fn lemma_temperature_scale(low: u16, high: u16)
    requires
        low <= high,
    ensures
        celsius_steps(low) <= celsius_steps(high),
        millidegrees_of(low) <= millidegrees_of(high),
        celsius_steps(0) == -45 * DIVISOR,
        celsius_steps(DIVISOR) == 130 * DIVISOR,
        millidegrees_of(0) == -45000,
        millidegrees_of(DIVISOR) == 130000,
        -45000 <= millidegrees_of(low) <= 130000,
{
}

/// A higher raw value is never a lower humidity. The lowest raw value is 0
/// percent and the highest is 100 percent, both without rounding, and every
/// other value lies between them.
pub proof fn lemma_humidity_scale(low: u16, high: u16)
    requires
        low <= high,
    ensures
        percent_steps(low) <= percent_steps(high),
        millipercent_of(low) <= millipercent_of(high),
        percent_steps(0) == 0,
        percent_steps(DIVISOR) == 100 * DIVISOR,
        millipercent_of(0) == 0,
        millipercent_of(DIVISOR) == 100000,
        0 <= millipercent_of(low) <= 100000,
{
}

impl Temperature {
    /// Degrees Celsius times [`DIVISOR`], exactly.
    pub fn steps(&self) -> (steps: i32)
        ensures
            steps == celsius_steps(self.raw),
    {
        let raw: i32 = self.raw as i32;
        175 * raw - 45 * 65535
    }

    /// Thousandths of a degree Celsius, rounded down.
    pub fn millidegrees(&self) -> (thousandths: i32)
        ensures
            thousandths == millidegrees_of(self.raw),
            -45000 <= thousandths <= 130000,
    {
        let raw: i64 = self.raw as i64;
        let above: i64 = (175000 * raw) / 65535;
        (above - 45000) as i32
    }
}

impl Humidity {
    /// Percent times [`DIVISOR`], exactly.
    pub fn steps(&self) -> (steps: u32)
        ensures
            steps == percent_steps(self.raw),
    {
        let raw: u32 = self.raw as u32;
        100 * raw
    }

    /// Thousandths of a percent, rounded down.
    pub fn millipercent(&self) -> (thousandths: u32)
        ensures
            thousandths == millipercent_of(self.raw),
            thousandths <= 100000,
    {
        let raw: u64 = self.raw as u64;
        let thousandths: u64 = (100000 * raw) / 65535;
        thousandths as u32
    }
}

/// What the sensor makes of the answer to a status query: the two bytes of
/// the register as they came, or the error of the bus.
pub open spec fn status_of(outcome: Result<[u8; 2], BusError>) -> BoardResult<[u8; 2]> {
    match outcome {
        Ok(bytes) => Ok(bytes),
        Err(_) => Err(BoardError::I2CError),
    }
}

/// What the sensor makes of the two bytes of a temperature measurement.
pub open spec fn temperature_of(outcome: Result<[u8; 2], BusError>) -> BoardResult<Temperature> {
    match outcome {
        Ok(bytes) => Ok(Temperature { raw: be16(bytes[0], bytes[1]) as u16 }),
        Err(_) => Err(BoardError::I2CError),
    }
}

/// What the sensor makes of the five bytes of a full measurement: the
/// temperature is in the first two, the humidity in the last two. The byte
/// between them is a checksum and plays no part.
pub open spec fn temperature_and_humidity_of(outcome: Result<[u8; 5], BusError>) -> BoardResult<
    (Temperature, Humidity),
> {
    match outcome {
        Ok(bytes) => Ok(
            (
                Temperature { raw: be16(bytes[0], bytes[1]) as u16 },
                Humidity { raw: be16(bytes[3], bytes[4]) as u16 },
            ),
        ),
        Err(_) => Err(BoardError::I2CError),
    }
}

/// The driver of the sensor. It holds the bus while it is in use, so that no
/// other driver can get in between: the bus moves in with `new` and out again
/// with `inner`.
pub struct TempSensor<B> {
    i2c: B,
}

impl<B> TempSensor<B> {
    /// The bus that the driver holds.
    pub closed spec fn bus(&self) -> B {
        self.i2c
    }

    /// A driver for the sensor on the bus `i2c`.
    pub fn new(i2c: B) -> (sensor: Self)
        ensures
            sensor.bus() == i2c,
    {
        Self { i2c }
    }

    /// Gives the bus back and ends the driver.
    pub fn inner(self) -> (i2c: B)
        ensures
            i2c == self.bus(),
    {
        self.i2c
    }

    /// The bus, to carry out a command on.
    pub fn inner_mut(&mut self) -> (i2c: &mut B)
        ensures
            *i2c == old(self).bus(),
            final(self).bus() == *final(i2c),
    {
        &mut self.i2c
    }

    /// The query for the status register: two bytes come back.
    pub fn status_command(&self) -> (command: Command)
        ensures
            command.asks(TEMP_ADDR, TEMP_STATUS_COMMAND@, 2),
    {
        Command::new(TEMP_ADDR, TEMP_STATUS_COMMAND.as_slice(), 2)
    }

    /// The measurement of which only the temperature is read: two bytes come
    /// back.
    pub fn temperature_command(&self) -> (command: Command)
        ensures
            command.asks(TEMP_ADDR, TEMP_MEAS_COMMAND@, 2),
    {
        Command::new(TEMP_ADDR, TEMP_MEAS_COMMAND.as_slice(), 2)
    }

    /// The measurement of temperature and humidity: five bytes come back.
    pub fn temperature_and_humidity_command(&self) -> (command: Command)
        ensures
            command.asks(TEMP_ADDR, TEMP_MEAS_COMMAND@, 5),
    {
        Command::new(TEMP_ADDR, TEMP_MEAS_COMMAND.as_slice(), 5)
    }

    /// The soft reset: nothing comes back but the acknowledgement.
    pub fn soft_reset_command(&self) -> (command: Command)
        ensures
            command.asks(TEMP_ADDR, TEMP_SOFT_RESET@, 0),
    {
        Command::new(TEMP_ADDR, TEMP_SOFT_RESET.as_slice(), 0)
    }

    /// Takes the outcome of the status query and hands on the register.
    pub fn read_status_register(&self, outcome: Result<[u8; 2], BusError>) -> (status: BoardResult<
        [u8; 2],
    >)
        ensures
            status == status_of(outcome),
    {
        match outcome {
            Ok(bytes) => Ok(bytes),
            Err(fault) => Err(BoardError::from(fault)),
        }
    }

    /// Takes the outcome of a temperature measurement and reads the
    /// temperature from it.
    pub fn read_temperature(&self, outcome: Result<[u8; 2], BusError>) -> (reading: BoardResult<
        Temperature,
    >)
        ensures
            reading == temperature_of(outcome),
    {
        match outcome {
            Ok(read_buf) => {
                let raw_temp: u16 = big_endian_u16(read_buf[0], read_buf[1]);
                Ok(Temperature { raw: raw_temp })
            },
            Err(fault) => Err(BoardError::from(fault)),
        }
    }

    /// Takes the outcome of a full measurement and reads temperature and
    /// humidity from it.
    pub fn read_temperature_and_humidity(&self, outcome: Result<[u8; 5], BusError>) -> (reading:
        BoardResult<(Temperature, Humidity)>)
        ensures
            reading == temperature_and_humidity_of(outcome),
    {
        match outcome {
            Ok(read_buf) => {
                let raw_temp: u16 = big_endian_u16(read_buf[0], read_buf[1]);
                let raw_humidity: u16 = big_endian_u16(read_buf[3], read_buf[4]);
                Ok((Temperature { raw: raw_temp }, Humidity { raw: raw_humidity }))
            },
            Err(fault) => Err(BoardError::from(fault)),
        }
    }

    /// Takes the outcome of the soft reset: done once the sensor has
    /// acknowledged.
    pub fn soft_reset(&self, outcome: Result<(), BusError>) -> (done: BoardResult<()>)
        ensures
            done == match outcome {
                Ok(_) => Ok::<(), BoardError>(()),
                Err(_) => Err(BoardError::I2CError),
            },
    {
        match outcome {
            Ok(_) => Ok(()),
            Err(fault) => Err(BoardError::from(fault)),
        }
    }
}

} // verus!
