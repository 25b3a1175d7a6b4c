//! Live-operations bot core: timed mini-games driven by a game event stream,
//! a chat command grammar, and the bookkeeping around running instances.

pub mod span;
pub mod messages;
pub mod events;
pub mod infractions;
pub mod melee_mania;
pub mod words;
pub mod command;
pub mod config;
pub mod listener;
pub mod client;
pub mod radio_spies;
pub mod sky_eye;
pub mod handle;
