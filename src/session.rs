//! Voice sessions: which servers are voice-connected, to which channels.
use crate::store::{map_entries, map_get, map_insert, map_new, map_remove};
use vstd::prelude::*;

verus! {

/// The message spoken last in a session: who wrote it, and when (Unix
/// seconds).
#[derive(Debug, Clone, Copy, PartialEq, Eq, Structural)]
pub struct SpokenMessage {
    pub author_id: u64,
    pub timestamp: i64,
}

/// One voice-connected server.
#[derive(Debug, Clone, Copy, PartialEq, Eq, Structural)]
pub struct ConnectedGuildState {
    /// The channel whose messages are read aloud.
    pub bound_text_channel: u64,
    /// The message spoken last, if any.
    pub last_message_read: Option<SpokenMessage>,
    /// The voice channel joined, once joining succeeded.
    pub joined_voice_channel: Option<u64>,
}

impl ConnectedGuildState {
    /// A fresh session after joining `voice_channel`, reading `text_channel`.
    pub open spec fn joined_spec(text_channel: u64, voice_channel: u64) -> Self {
        ConnectedGuildState {
            bound_text_channel: text_channel,
            last_message_read: None,
            joined_voice_channel: Some(voice_channel),
        }
    }

    /// The session that results from joining `voice_channel` with
    /// `text_channel` bound.
    pub fn joined(text_channel: u64, voice_channel: u64) -> (r: Self)
        ensures
            r == Self::joined_spec(text_channel, voice_channel),
    {
        ConnectedGuildState {
            bound_text_channel: text_channel,
            last_message_read: None,
            joined_voice_channel: Some(voice_channel),
        }
    }

    /// The same session with `message` recorded as spoken last.
    pub fn with_last_read(self, message: SpokenMessage) -> (r: Self)
        ensures
            r == (ConnectedGuildState { last_message_read: Some(message), ..self }),
    {
        ConnectedGuildState { last_message_read: Some(message), ..self }
    }
}

/// The sessions of all voice-connected servers, at most one per server.
pub struct SessionStore {
    sessions: dashmap::DashMap<u64, ConnectedGuildState>,
}

impl SessionStore {
    pub fn new() -> Self {
        SessionStore { sessions: map_new() }
    }

    /// Starts or replaces the session of `guild_id`.
    pub fn insert(&self, guild_id: u64, session: ConnectedGuildState) {
        map_insert(&self.sessions, guild_id, session);
    }

    /// Records that `guild_id` joined `voice_channel`, reading
    /// `text_channel`; replaces any earlier session of that server.
    pub fn join(&self, guild_id: u64, text_channel: u64, voice_channel: u64) -> (r:
        ConnectedGuildState)
        ensures
            r == ConnectedGuildState::joined_spec(text_channel, voice_channel),
    {
        let session = ConnectedGuildState::joined(text_channel, voice_channel);
        map_insert(&self.sessions, guild_id, session);
        session
    }

    /// Ends the session of `guild_id`; nothing happens if there is none.
    pub fn remove(&self, guild_id: u64) {
        map_remove(&self.sessions, &guild_id);
    }

    /// The session of `guild_id` at the moment of the call.
    pub fn get(&self, guild_id: u64) -> Option<ConnectedGuildState> {
        map_get(&self.sessions, &guild_id)
    }

    /// Records `message` as spoken last in the session of `guild_id`, if
    /// that server still has a session; returns the updated session.
    pub fn record_spoken(&self, guild_id: u64, message: SpokenMessage) -> (r: Option<
        ConnectedGuildState,
    >)
        ensures
            r matches Some(s) ==> s.last_message_read == Some(message),
    {
        match map_get(&self.sessions, &guild_id) {
            Some(s) => {
                let updated = s.with_last_read(message);
                map_insert(&self.sessions, guild_id, updated);
                Some(updated)
            },
            None => None,
        }
    }

    /// A copy of every session, for a pass over all servers; each server
    /// comes at most once.
    pub fn snapshot(&self) -> (r: Vec<(u64, ConnectedGuildState)>)
        ensures
            forall|i: int, j: int|
                0 <= i < j < r.len() ==> (#[trigger] r@[i]).0 != (#[trigger] r@[j]).0,
    {
        map_entries(&self.sessions)
    }
}

} // verus!
