//! Wire-format codec and command-tree builders for a chat platform's
//! interaction model.
//!
//! The crate models encoded payloads as ordered key-value objects
//! ([`value`]), gives the button component and its style codec an exact
//! encoder and decoder ([`button`], [`embed`]), and assembles slash-command
//! definitions through consuming builders that make the platform's two-level
//! nesting limit unrepresentable ([`command`], [`builder`]).

pub mod value;
pub mod button;
pub mod embed;
pub mod command;
pub mod builder;
