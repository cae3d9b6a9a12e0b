//! A minimal real-time connection gateway: the message protocol of one
//! connection, the identities it hands out and the registry of users that
//! all connections share.

pub mod identity;
pub mod json;
pub mod laws;
pub mod message;
pub mod registry;
pub mod session;
pub mod user;

pub use identity::canonical_text;
pub use identity::gen_uuid;
pub use json::Json;
pub use json::Member;
pub use message::dispatch;
pub use message::parse;
pub use message::read_envelope;
pub use message::Opcodes;
pub use message::Outcome;
pub use message::ParseError;
pub use message::WSMessage;
pub use registry::Registry;
pub use session::Action;
pub use session::Event;
pub use session::Session;
pub use user::Channel;
pub use user::User;
