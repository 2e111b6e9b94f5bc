//! Parsing and dispatch core of a small interactive command interpreter.
//!
//! One input line is lexed into a [`parse::ParsedCommand`], classified as a
//! builtin or an external program, and carried through a dispatch whose
//! decisions are made here while the outside work (probing files, spawning,
//! writing) is done by the caller.

pub mod builtin;
pub mod dispatch;
pub mod error;
pub mod parse;
pub mod path;
pub mod shellio;
pub mod text;
