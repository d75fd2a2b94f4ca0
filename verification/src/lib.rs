//! Bridge between a status-bar widget and a media-player control backend.
//!
//! The crate holds the verified core of the bridge: the status-polling
//! state machine with its change-detection and debouncing, the command
//! wire-format decoder, the command-server decision logic with its
//! port-retry model, and the display-string construction with its
//! metadata fallbacks.  The surrounding process (bus transport, sockets,
//! threads) hands these functions plain values and acts on what they
//! return.

pub mod arguments;
pub mod commands;
pub mod poller;
pub mod server;
pub mod status;
pub mod track;
