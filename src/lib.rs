//! Register-level driver for the TC72 SPI temperature sensor.
//!
//! The driver is written without I/O of its own: [`Tc72`] is a protocol engine
//! that hands out one bus request at a time ([`Request`]) and takes back what the
//! bus or the chip-select line reported ([`Event`]). The caller owns the bus, the
//! pin and the delay source and performs each request.

pub mod driver;
pub mod laws;
pub mod registers;

pub use driver::{Event, Job, Reading, Request, Step, Tc72, Tc72Error, ONE_SHOT_DELAY_MS};
pub use registers::{
    control_byte, quarter_degrees, raw_from_bytes, read_frame, write_frame, Frame, Registers,
    EXPECTED_ID,
};
