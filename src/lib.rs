//! Reaction-role bookkeeping for a community chat bot: the persisted binding
//! between a message, an emoji and a role, the slot that holds it, the matcher
//! that turns reaction notifications into role operations, and the flow that
//! creates a new binding.

pub mod binding;
pub mod state;
pub mod matcher;
pub mod command;
pub mod creator;
pub mod guilds;
