//! Core logic of a command-line client for the Bing chat service: reading
//! what the user types, building the messages sent over the chat hub,
//! interpreting the updates that come back, and the HTTP request headers.

pub mod text;
pub mod input;
pub mod reader;
pub mod json;
pub mod conversation;
pub mod msg;
pub mod chat;
pub mod answer;
pub mod http;
