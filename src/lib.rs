//! Voice-channel text-to-speech relay: the per-server session store, the
//! text normalization and dictionary engine, voice resolution, the message
//! dispatch decisions and the hourly announcement scheduler.
//!
//! - `text`, `dictionary`: from a chat message to at most sixty speakable
//!   characters.
//! - `voice`: which preset or style a message is spoken in.
//! - `session`, `autojoin`: voice sessions and auto-join settings.
//! - `dispatch`: what happens to each incoming message.
//! - `time_signal`: hourly announcements.
//! - `command`, `prefix`: slash and prefix commands.
//! - `config`, `format`: configuration values and number rendering.

pub mod autojoin;
pub mod command;
pub mod config;
pub mod dictionary;
pub mod dispatch;
pub mod format;
pub mod prefix;
pub mod session;
mod store;
pub mod text;
pub mod time_signal;
pub mod voice;
