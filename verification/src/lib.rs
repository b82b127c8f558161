//! Verified core of a Discord bot for a Space Station 14 community: reading
//! command invocations and durations, deciding what each command answers and
//! what the sponsor-role watcher does, and wording every reply.
//!
//! - `decimal`: reading and writing decimal numbers.
//! - `utils`: durations, the clock, configured sponsor roles, colours,
//!   trimming, and the text of a player's extra data.
//! - `error`: the bot's errors and their messages.
//! - `services`: the sponsorship records.
//! - `bot`: command registration, guilds, answering interactions, and (in
//!   `bot::sponsor`) the watcher's decisions; `bot::commands` holds the
//!   commands themselves.

pub mod bot;
pub mod decimal;
pub mod error;
pub mod services;
pub mod utils;

