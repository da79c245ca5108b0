//! Everything that a program for the board needs, in one import.

pub use crate::bus::{be16, big_endian_u16, Command, MAX_M10S_ADDRESS};
pub use crate::echo::{EchoAction, EchoEvent, EchoService, EchoState};
pub use crate::error::{
    BoardError, BoardResult, BusError, EndpointError, InitError, TransportError,
};
pub use crate::hal::{BoardHAL, TempSensorHAL};
pub use crate::helpers::{i2c_scanner, BusScanner, ScanReport, ADDRESS_COUNT};
pub use crate::imu::{IMU, IMU_ADDR, IMU_WHOAMI_ADDR};
pub use crate::sched::{Scheduler, Task, TaskStatus};
pub use crate::temp::{
    Humidity, TempSensor, Temperature, DIVISOR, TEMP_ADDR, TEMP_MEAS_COMMAND, TEMP_SOFT_RESET,
    TEMP_STATUS_COMMAND,
};
pub use crate::usb::{
    ConnectionState, Packet, MANUFACTURER, MAX_PACKET_SIZE, PRODUCT, PRODUCT_ID, SERIAL_NUMBER,
    VENDOR_ID,
};
