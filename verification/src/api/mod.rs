//! The payloads of the methods of the web API.

pub mod chat;
