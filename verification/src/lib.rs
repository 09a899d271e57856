//! A verified core for a client of the sonic search backend's channel
//! protocol: channel modes, the per-command mode gate, the start handshake
//! state and the line-oriented reply reader.

pub mod channel;
pub mod command;
pub mod error;
pub mod exchange;
pub mod mode;

pub use channel::{ChannelModel, ChannelState, StartResponse};
pub use command::ChannelCommand;
pub use error::{Error, ErrorKind};
pub use exchange::{Exchange, ExchangeModel, ExchangeStep};
pub use mode::ChannelMode;
