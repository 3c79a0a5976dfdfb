//! Protocol layer for Novation Launchpad grid controllers.
//!
//! The library builds the exact byte frames that the devices understand,
//! checks every coordinate and palette value before a frame is produced,
//! and turns raw incoming messages into a queue of timestamped events.
//! Moving bytes to and from the hardware is left to the caller: a device
//! session collects the frames it has built until they are taken for
//! transmission, and accepts raw messages as they arrive.

pub mod discovery;
pub mod error;
pub mod events;
pub mod frames;
pub mod mk1;
pub mod mk2;
pub mod session;
pub mod validate;

pub use discovery::{find_port, guess_ports, name_contains};
pub use error::LaunchpadError;
pub use events::{decode_message, EventQueue, MidiEvent, MidiMessage};
pub use mk1::{Brightness, GridMappingMode, Launchpad};
pub use mk2::{Color, ColorColumn, ColorLed, ColorRow, LaunchpadMk2};
pub use session::Session;
pub use validate::{
    assert_color, assert_column, assert_position, assert_row, valid_color, valid_column,
    valid_led_position, valid_row,
};
