//! Application-side connector core for the OneBot protocol: correlation
//! tokens, the registries of connected bots and of pending calls, the choice
//! of wire encoding per action, and the dual-encoding byte container.

pub mod action;
pub mod bytes;
pub mod connector;
pub mod content;
pub mod error;
pub mod message;
pub mod obc;
pub mod token;
pub mod value;

pub use action::{
    ActionType, ExtendedAction, GetFileFragmented, GetLatestEvents, SendMessage, StandardAction,
    UploadFileFragmented,
};
pub use bytes::{OneBotBytes, WireBytes};
pub use connector::{AppOBC, CallEvent, CallState};
pub use content::ContentType;
pub use error::{ResultExt, WalleError};
pub use message::{Message, MessageSegment};
pub use obc::{BotMapInner, Dispatch, Echo, EchoMap};
pub use value::{ExtendedMap, ExtendedValue};
