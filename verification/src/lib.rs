//! Verified core of a small notification-forwarding bot.
//!
//! The bot listens for voice-channel joins and slash commands on one chat
//! service and relays a formatted message plus an animation URL to another.
//! This crate holds the parts worth stating contracts about: the notification
//! debounce gate (at most one notification per TTL window), the animation URL
//! list, the message templates, the command dispatch rules, and the immutable
//! configuration record. The network clients around them live outside the
//! crate and hand plain values in and out.

pub mod animation;
pub mod commands;
pub mod config;
pub mod events;
pub mod gate;
pub mod message_helper;
