//! Board support layer for a Feather-class SAMD21 development board.
//!
//! The crate binds the board's silkscreen pin names to fixed silicon pads,
//! hands the application exactly one linearly-owned handle per named pin,
//! and provides guarded bring-up functions for the shared serial
//! peripherals (SPI, I2C, USB).

pub mod clock;
pub mod pin;
pub mod sercom;
pub mod usb;

pub use crate::pin::Pins;
pub use crate::sercom::i2c_master;
pub use crate::sercom::spi_master;
pub use crate::usb::usb_bus;
