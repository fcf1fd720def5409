//! Verified core of a Twitch chat relay: it decides how a start request is
//! answered, drives the EventSub listener from event to action, names the
//! Redis keys and channels it uses, and frames every JSON text it sends.

pub mod json;
pub mod redis_keys;
pub mod twitch_account;
pub mod listener;
pub mod start;
pub mod dto;
pub mod hub;
