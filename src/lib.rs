//! The logic of the moth bot. At its core: per-guild configuration as typed settings
//! decoded from storage rows, a cache of settings snapshots, and the link moderation
//! pipeline that consumes them. Around it: the text and decisions of the bot's commands
//! and event handlers.
use vstd::prelude::*;

pub mod flags;
pub mod text;
pub mod pattern;
pub mod settings;
pub mod guild;
pub mod store;
pub mod moderation;
pub mod scores;
pub mod commands;
pub mod moths;
pub mod utility;
pub mod events;
pub mod zstd;

verus! {

} // verus!
