//! Protocol core of a small sensor board: the bus requests of its two sensor
//! drivers and the decoding of their answers, the echo service of its USB
//! serial port, and the scheduler that interleaves the two USB tasks.
//!
//! Nothing in here touches hardware. Every operation is split in what is asked
//! of the outside world and what is made of the answer, so that the same code
//! runs on the board and on a desk.

pub mod bus;
pub mod echo;
pub mod error;
pub mod hal;
pub mod helpers;
pub mod imu;
pub mod prelude;
pub mod sched;
pub mod temp;
pub mod usb;
