//! Primitives for consuming a one-shot, callback-driven host event source:
//! a guard that turns a repeatable notifier into a single signal, and a
//! classifier that turns a message event's data into a typed payload.

pub mod host;
pub mod js_msg_event;
pub mod once_signal;
pub mod payload;
pub mod ws_message;

pub use js_msg_event::{JsMsgEvent, JsMsgEvtData};
pub use once_signal::{FireAction, OnceSignal};
pub use payload::{classify, classify_owned, PayloadError, RawPayload};
pub use ws_message::WsMessage;
