//! Typed, verified bridge between the callback interface of the whatsmeow
//! engine and per-connection event channels.
//!
//! The engine reports everything through flat entry points that carry
//! integers and strings. This crate turns those arguments into the typed
//! [`Event`](events::Event) model, routes each event to the channel of its
//! connection, keeps the warning log that explains failed engine calls, and
//! prepares the arguments of outbound engine calls.

mod text;
pub mod jid;
pub mod types;
pub mod events;
pub mod registry;
pub mod handlers;
pub mod error;
pub mod api;

pub use api::{create_connection, AccountState, FileType, OutgoingMessage, QuotedMessage};
pub use error::{attempt, get_error, LogLevel, LogMsg, LogState, WhatsmeowError};
pub use events::{ChatEvent, Event};
pub use jid::{Jid, JidServer};
pub use registry::{Delivery, Registry};
pub use types::{ConnId, DownloadFileAction, DownloadFileStatus, GoInt, MsgId, StatusFlags};
