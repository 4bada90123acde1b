//! Client-side logic of a Socket Mode connection: the handshake ticket, the
//! inbound envelope decoder, the acknowledgement encoder and the dispatch
//! state machine.
//!
//! The modules `json` and `locator` are the boundary to `serde_json` and
//! `url`; everything else is proved from what they state.

pub mod ack;
pub mod dispatch;
pub mod handshake;
pub mod json;
pub mod locator;
pub mod message;
pub mod response;

pub use crate::ack::SocketModeAcknowledgeMessage;
pub use crate::handshake::OpenConnectionResponse;
pub use crate::message::SocketModeMessage;
pub use crate::message::SocketModeMessagePayload;
pub use crate::response::Accessory;
pub use crate::response::Block;
pub use crate::response::Payload;
pub use crate::response::Text;
