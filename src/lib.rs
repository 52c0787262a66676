//! Utilities for chat bots built on serenity: reaction-driven menus and
//! prompts, text pagination and escaping, and embed builders.
//!
//! The library holds the decisions; the network round trips are made by the
//! caller, who feeds their outcomes back as events.

pub mod builder;
pub mod error;
pub mod formatting;
pub mod menu;
pub mod prompt;
pub mod reaction;
mod strings;

pub use error::Error;
