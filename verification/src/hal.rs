//! The drivers of the board as one value.

use vstd::prelude::*;
use crate::temp::TempSensor;

verus! {

/// The driver of the temperature and humidity sensor, an SHT30, under the
/// name that it has as a part of the board.
pub type TempSensorHAL<B> = TempSensor<B>;

/// The board as its drivers see it. The one bus of the board is with the
/// sensor driver.
pub struct BoardHAL<B> {
    pub temp_sensor: TempSensorHAL<B>,
}

} // verus!
