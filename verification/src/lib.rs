//! Transport abstraction for a sensor's register-access protocol.
//!
//! A register-level driver talks to the sensor through the [`types::Interface`]
//! capability, which erases the difference between two physical buses: an
//! addressed two-wire bus ([`two_wire::TwoWire`]) and a clocked serial bus
//! that needs an explicit chip-select toggle around every transaction
//! ([`serial::ClockedSerial`]). The bus primitives themselves are traits
//! ([`bus::SerialBus`], [`bus::SelectLine`], [`bus::TwoWireBus`]) whose
//! contracts describe each transaction over a ghost log; verified mock
//! implementations in [`mock_serial`] and [`mock_two_wire`] drive the same
//! register-file device model ([`mock_device`]) and record every transaction
//! for tests to inspect.

pub mod register;
pub mod types;
pub mod bus;
pub mod buffer;
pub mod serial;
pub mod two_wire;
pub mod mock_device;
pub mod mock_serial;
pub mod mock_two_wire;
