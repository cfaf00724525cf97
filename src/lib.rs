//! Driver for the TI DAC8568, DAC7568 and DAC8168 eight-channel DACs.
//!
//! Each operation is encoded as a five-field command, packed into a 32-bit
//! word, sent big-endian as four bytes on an SPI bus, and framed by the
//! chip's sync (chip-select) line.
pub mod command;
pub mod dac;
pub mod error;
pub mod framing;
pub mod payload;

pub use command::{Channel, ControlType, Message};
pub use dac::{BusEvent, Dac};
pub use error::DacError;
pub use framing::{FrameAction, FrameStage, Framing};

