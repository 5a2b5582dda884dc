//! Local, exhaustively matchable counterparts of the Discord application
//! command types, together with the rules that decode them from JSON.
//!
//! The types here hold plain values only: identifiers are `u64`, colours
//! `u32`, permission sets their `u64` bits, and a JSON document is a
//! [`json::JsonValue`] tree. Code that talks to the gateway converts between
//! these and the gateway library's model types.

pub mod interaction;
pub mod json;
mod kinds;
pub mod premium_subscriber;
mod resolved;
mod serde_helpers;

pub use interaction::{CommandInteraction, InteractionError};
pub use json::{JsonNumber, JsonValue};
pub use kinds::{LocalChannelType, LocalCommandOptionType, LocalCommandType};
pub use resolved::{Attachment, CommandInteractionResolved, PartialChannel, Role, RoleTags};
pub use serde_helpers::is_false;
