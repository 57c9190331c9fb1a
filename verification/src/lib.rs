//! Driver for the DS3502, a single-channel I2C digital potentiometer.
//!
//! The driver translates the operations "set the wiper position" and "set the
//! wiper position and persist it" into the device's two-byte register write
//! transactions, addressed to one of the four strappable bus addresses. A
//! trait of the crate stands for the bus transport, and a scripted transport
//! double that records every write is provided for exercising the driver
//! without hardware.

pub mod bus;
pub mod config;
pub mod driver;
pub mod error;
pub mod protocol;
pub mod scripted;
pub mod wiper;

pub use config::{Config, ControlRegisterMode, I2cAddr};
pub use driver::Ds3502;
pub use error::Ds3502Error;
pub use wiper::Wiper;
