//! Controller for a serial terminal: scan for ports, open one, send text.
//!
//! The controller decides; its host performs. A user gesture or the result
//! of a transport operation goes in as an [`Event`], and what the transport
//! must do next comes out as an [`Action`]. No function of this crate
//! touches a device.

pub mod controller;
pub mod error;
pub mod laws;
pub mod model;
pub mod settings;
pub mod transport;

pub use controller::SerialEmbedApp;
pub use error::{SerialError, SerialErrorView};
pub use model::AppModel;
pub use settings::{DataBits, Parity, PortSettings, StopBits, BAUD_RATE, READ_TIMEOUT_MS};
pub use transport::{Action, ActionView, Event, EventView};
