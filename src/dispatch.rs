//! The decisions taken for each incoming chat message.
use crate::session::{ConnectedGuildState, SpokenMessage};
use vstd::prelude::*;

verus! {

/// A chat message as the dispatch sees it.
#[derive(Debug, Clone)]
pub struct IncomingMessage {
    /// The server, if the message was sent in one.
    pub guild_id: Option<u64>,
    pub channel_id: u64,
    pub author_id: u64,
    /// Whether the author is a bot account.
    pub author_is_bot: bool,
    pub content: String,
    /// Unix seconds.
    pub timestamp: i64,
}

/// What to do with an incoming message.
#[derive(Debug, Clone, Copy, PartialEq, Eq, Structural)]
pub enum DispatchPlan {
    /// Outside a server, or written by this bot or another bot.
    Ignore,
    /// A prefix command: handle it, whatever the voice connection.
    Command,
    /// Not connected, auto-join on and the author in a voice channel: join
    /// it with the message's channel bound, then speak the message.
    Join { voice_channel: u64 },
    /// Not connected, yet a session was stored: forget it, and drop the
    /// message.
    ForgetSession,
    /// Nothing is to be spoken.
    Drop,
    /// Build the text, resolve a voice, synthesize and enqueue.
    Speak,
}

/// A message that begins with the command prefix `!`.
pub open spec fn is_command_text(c: Seq<char>) -> bool {
    c.len() > 0 && c[0] == '!'
}

/// A channel in which a server's messages are read: the bound text channel,
/// the joined voice channel's text surface, or the default channel.
pub open spec fn readable(s: ConnectedGuildState, default_channel: Option<u64>, channel: u64) -> bool {
    s.bound_text_channel == channel || s.joined_voice_channel == Some(channel) || default_channel
        == Some(channel)
}

/// The plan for message `m`, given this bot's user, whether the voice
/// transport is connected in `m`'s server, the server's stored session,
/// whether auto-join is on there, the author's voice channel and the
/// server's default channel.
pub open spec fn plan_spec(
    m: IncomingMessage,
    bot_user: u64,
    connected: bool,
    session: Option<ConnectedGuildState>,
    autojoin: bool,
    author_voice_channel: Option<u64>,
    default_channel: Option<u64>,
) -> DispatchPlan {
    if m.guild_id is None || m.author_id == bot_user || m.author_is_bot {
        DispatchPlan::Ignore
    } else if is_command_text(m.content@) {
        DispatchPlan::Command
    } else if !connected {
        if autojoin && author_voice_channel is Some {
            DispatchPlan::Join { voice_channel: author_voice_channel->0 }
        } else if session is Some {
            DispatchPlan::ForgetSession
        } else {
            DispatchPlan::Drop
        }
    } else {
        match session {
            Some(s) => if readable(s, default_channel, m.channel_id) {
                DispatchPlan::Speak
            } else {
                DispatchPlan::Drop
            },
            None => DispatchPlan::Drop,
        }
    }
}

/// Tells whether `channel` is one in which the session's messages are read.
pub fn is_readable_channel(session: &ConnectedGuildState, default_channel: Option<u64>, channel: u64) -> (r:
    bool)
    ensures
        r == readable(*session, default_channel, channel),
{
    session.bound_text_channel == channel || session.joined_voice_channel == Some(channel)
        || default_channel == Some(channel)
}

/// Decides what to do with message `m` (see `plan_spec`). A message is
/// spoken only in a readable channel of an existing session, or right after
/// joining, when the new session is bound to the message's channel.
pub fn plan_dispatch(
    m: &IncomingMessage,
    bot_user: u64,
    connected: bool,
    session: Option<ConnectedGuildState>,
    autojoin: bool,
    author_voice_channel: Option<u64>,
    default_channel: Option<u64>,
) -> (r: DispatchPlan)
    ensures
        r == plan_spec(
            *m,
            bot_user,
            connected,
            session,
            autojoin,
            author_voice_channel,
            default_channel,
        ),
        r == DispatchPlan::Speak ==> (session matches Some(s) && readable(
            s,
            default_channel,
            m.channel_id,
        )),
        r matches DispatchPlan::Join { voice_channel } ==> readable(
            ConnectedGuildState::joined_spec(m.channel_id, voice_channel),
            default_channel,
            m.channel_id,
        ),
{
    if m.guild_id.is_none() || m.author_id == bot_user || m.author_is_bot {
        return DispatchPlan::Ignore;
    }
    let content = m.content.as_str();
    if content.unicode_len() > 0 && content.get_char(0) == '!' {
        return DispatchPlan::Command;
    }
    if !connected {
        match author_voice_channel {
            Some(voice_channel) => {
                if autojoin {
                    return DispatchPlan::Join { voice_channel };
                }
            },
            None => {},
        }
        if session.is_some() {
            return DispatchPlan::ForgetSession;
        }
        return DispatchPlan::Drop;
    }
    match session {
        Some(s) => {
            if is_readable_channel(&s, default_channel, m.channel_id) {
                DispatchPlan::Speak
            } else {
                DispatchPlan::Drop
            }
        },
        None => DispatchPlan::Drop,
    }
}

/// The text to synthesize: none when the built text is empty, which means
/// that the message is not spoken.
pub fn text_to_speak(text: String) -> (r: Option<String>)
    ensures
        r is None <==> text@.len() == 0,
        r matches Some(t) ==> t@ == text@,
{
    if text.as_str().is_empty() {
        None
    } else {
        Some(text)
    }
}

/// Whether the author's name is to be read before `current`: there is no
/// previous message, another author wrote it, or more than ten seconds
/// passed since it.
pub fn should_read_author_name(current: SpokenMessage, last: Option<SpokenMessage>) -> (r: bool)
    ensures
        r == match last {
            None => true,
            Some(l) => current.author_id != l.author_id || current.timestamp as int - l.timestamp as int
                > 10,
        },
{
    match last {
        None => true,
        Some(l) => current.author_id != l.author_id || (current.timestamp as i128 - l.timestamp as i128)
            > 10,
    }
}

/// A message in a channel that is neither the bound text channel, the
/// joined voice channel nor the default channel is never spoken.
pub proof fn lemma_unreadable_channel_not_spoken(
    m: IncomingMessage,
    bot_user: u64,
    session: ConnectedGuildState,
    autojoin: bool,
    author_voice_channel: Option<u64>,
    default_channel: Option<u64>,
)
    requires
        !readable(session, default_channel, m.channel_id),
    ensures
        plan_spec(m, bot_user, true, Some(session), autojoin, author_voice_channel, default_channel)
            != DispatchPlan::Speak,
{
}

} // verus!
