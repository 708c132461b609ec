//! Core of a BBS terminal client: the character grid and its VT100
//! interpretation, telnet framing, key encoding, charsets and settings.

pub mod charset;
pub mod config;
pub mod connection;
pub mod keys;
pub mod notifier;
pub mod script;
pub mod terminal;
mod text;
