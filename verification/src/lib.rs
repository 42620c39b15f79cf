//! The HackSquad Discord bot's logic: what its commands show, how its
//! paginated leaderboard reacts to button presses, how autocompletion picks
//! suggestions, and how cached API requests are keyed.

pub mod api;
pub mod commands;
pub mod data;
pub mod database;
pub mod embed;
pub mod environment;
pub mod events;
pub mod fuzzy;
pub mod pagination;
pub mod text;
pub mod utils;
