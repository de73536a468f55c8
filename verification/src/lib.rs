//! The state of a chat room's client and the rules by which it changes.
//!
//! Frames from the server are read into events, events change the list of
//! participants and the message history, and what the user submits becomes a
//! frame to send. Showing the state and moving frames is left to the caller.
pub mod chat;
pub mod json;
pub mod scene;
pub mod wire;

pub use chat::{Chat, Msg, Participant, Update};
pub use scene::{Body, FeedEntry, ParticipantCard, Scene};
pub use wire::{ChatMessage, Envelope, Event, MsgTypes, WireError};
