//! Core engine of a chat-platform leveling bot: XP-to-level and rank
//! computation, rank-card color themes with per-field defaults, command
//! routing, guarded admin operations, a FIFO import queue, and the
//! write-through display-name cache keys.
pub mod admin;
pub mod cache;
pub mod card;
pub mod colors;
pub mod common;
pub mod guild_config;
pub mod levels;
pub mod queue;
pub mod router;
pub mod strfmt;
