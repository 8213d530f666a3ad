//! The typed vocabulary of the two event sources.

pub mod ingame;
pub mod ws;
