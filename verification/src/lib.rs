//! Verified core of a Discord API model: embed validation, interaction
//! responses, modal components and channel request builders.

pub mod callback;
pub mod channel;
pub mod channel_validation;
pub mod command;
pub mod command_validation;
pub mod component;
pub mod datetime;
pub mod decimal;
pub mod embed;
pub mod embed_validation;
pub mod http;
pub mod id;
pub mod input_text_fields;
pub mod message;
pub mod modal;
pub mod response_fields;
pub mod user;
