//! The verified core of a Telegram bot that runs Factorio servers on factorio.zone.
//!
//! [`api`] is the client of the zone: its state, its requests and what it makes of answers and
//! messages. [`bot`] and [`flow`] decide what the bot does about messages and pressed buttons.

pub mod api;
pub mod bot;
pub mod bot_laws;
pub mod client_laws;
pub mod conversation_laws;
pub mod flow;
pub mod json;
pub mod menu;
pub mod message_laws;
pub mod pattern;
pub mod reconnect;
pub mod request;
pub mod request_laws;
pub mod status;
pub mod text;
pub mod text_laws;
pub mod view_laws;
pub mod vote;
