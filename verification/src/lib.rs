//! Client side of the interaction protocol spoken by Agda's
//! `--interaction-json` mode: the commands a client sends, the responses it
//! reads back, and the bookkeeping that pairs the two.
//!
//! Everything here is pure: the functions turn values into the text to write
//! and the text that was read into values, and say what to do next. Spawning
//! the process and moving bytes is left to the caller.
//!
//! - [`cmd`]: the commands and their text.
//! - [`resp`]: the responses and their JSON.
//! - [`session`]: the phases of one conversation.
//! - [`goals`]: reloading the file and listing its goals.
//! - [`repl`]: what the user types, and what is done about it.
//! - [`base`], [`text`], [`json`]: what the others are built from.
//! - [`decode_laws`]: what holds of decoding whatever the response.

pub mod base;
pub mod cmd;
pub mod decode_laws;
pub mod goals;
pub mod json;
pub mod repl;
pub mod resp;
pub mod session;
pub mod text;
