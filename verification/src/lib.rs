//! The directory of a chat service: the users it knows, its public and
//! private rooms, and the rules by which users join, moderate, mute and ban.
//!
//! A [`controller::Controller`] holds the directory in memory, on top of a
//! store of users and a store of rooms that the caller provides
//! ([`external_data_source`]). What it holds, and what each operation
//! makes of it, is said over plain sequences in [`directory`] and
//! [`room`]; what follows from that for every state is proved in [`laws`].
//! Identifiers come from the `uuid` crate ([`ids`]), times from `chrono`
//! ([`time`]).

pub mod controller;
pub mod directory;
pub mod external_data_source;
pub mod ids;
pub mod laws;
pub mod role;
pub mod room;
pub mod time;
pub mod token;
pub mod user;
