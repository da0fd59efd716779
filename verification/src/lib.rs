//! Decision core of an anti-nuke moderation bot.
pub mod actor;
pub mod command;
pub mod command_info;
pub mod command_link;
pub mod command_mod;
pub mod command_owner;
pub mod config;
pub mod dispatch;
pub mod embed;
pub mod guard;
pub mod inspect;
pub mod json;
pub mod load;
pub mod number;
pub mod pattern;
pub mod permission;
pub mod receive;
pub mod slash;
pub mod snapshot;
pub mod state;
pub mod table;
pub mod tally;
pub mod text;
pub mod time;
pub mod watch_channel;
pub mod watch_guild;
pub mod watch_member;
