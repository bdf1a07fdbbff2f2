//! Verified core of a WebSocket adapter that turns a callback-driven duplex
//! transport into a pollable sink and stream.
//!
//! The crate holds every decision the adapter makes: what each transport
//! event puts on the notification channel, what each notification becomes
//! when the stream is polled, when the sink is ready, and which command is
//! sent to the transport. The transport itself stays with the caller, who
//! feeds in what it observed and carries out the commands handed back.
//!
//! - [`message`] and [`transport`] hold the values that cross the two
//!   boundaries, each with its mathematical content.
//! - [`relay`] and [`stream`] hold the two ends of the way a notification
//!   takes, [`channel`] the queue between them.
//! - [`websocket`] holds the adapter itself, [`sink`] and [`lifecycle`]
//!   the operations that need none of its state.
//! - [`model`] describes the adapter as a state machine, and [`laws`]
//!   states what holds of every run of it.

pub mod message;
pub mod transport;
pub mod relay;
pub mod channel;
pub mod stream;
pub mod model;
pub mod websocket;
pub mod sink;
pub mod lifecycle;
pub mod laws;

pub use crate::message::CloseEvent;
pub use crate::message::Message;
pub use crate::message::State;
pub use crate::message::WebSocketError;
pub use crate::websocket::WebSocket;
