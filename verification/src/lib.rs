//! Protocol driver for the HTU2xD family of humidity and temperature sensors.
//!
//! The driver knows the sensor's command set, checks every measurement
//! against its checksum, and decodes raw words and the configuration byte. It
//! does not own a bus: it names the [`Transaction`] to carry out and
//! interprets what the bus returned.

pub mod bus;
pub mod crc;
pub mod driver;
pub mod reading;
mod sealed;
pub mod user_register;

pub use crate::bus::{Command, Transaction, ADDRESS};
pub use crate::driver::{parse_and_check_reading, Error, Htu2xd, PollError, ResultReader};
pub use crate::reading::{Humidity, Measurement, Reading, Temperature};
pub use crate::user_register::{Resolution, SupplyVoltage, UserRegister};
