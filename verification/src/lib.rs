//! The request pipeline of a conversational service: what each stage asks of
//! the services it depends on, how it reads their replies, and in which order
//! the stages of the voice flow and of the chat flow follow one another.

pub mod auth;
pub mod chat;
pub mod corpus;
pub mod encoding;
pub mod error;
pub mod generation;
pub mod http;
pub mod json;
pub mod language;
pub mod persona;
pub mod store;
pub mod synthesis;
pub mod text;
pub mod transcode;
pub mod transcription;
pub mod voice;
