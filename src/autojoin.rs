//! Auto-join settings and the voice join/leave decisions.
use crate::format::{decimal, decimal_text};
use crate::store::{map_get, map_insert, map_new};
use vstd::prelude::*;

verus! {

/// The auto-join switch given what is stored for a server: on when
/// nothing is stored.
pub open spec fn autojoin_setting_spec(stored: Option<bool>) -> bool {
    match stored {
        Some(b) => b,
        None => true,
    }
}

/// Reads the auto-join switch from what is stored for a server.
pub fn autojoin_setting(stored: Option<bool>) -> (r: bool)
    ensures
        r == autojoin_setting_spec(stored),
{
    match stored {
        Some(b) => b,
        None => true,
    }
}

/// The switch after toggling, given what is stored for a server.
pub fn toggled_autojoin(stored: Option<bool>) -> (r: bool)
    ensures
        r == !autojoin_setting_spec(stored),
        autojoin_setting_spec(Some(r)) == r,
{
    !autojoin_setting(stored)
}

/// Toggling twice gives back the switch a server started with.
pub proof fn lemma_autojoin_toggle_twice(stored: Option<bool>)
    ensures
        !autojoin_setting_spec(Some(!autojoin_setting_spec(stored))) == autojoin_setting_spec(stored),
{
}

/// Per-server auto-join switch (on unless switched off), default voice
/// channel and default text channel.
pub struct AutojoinSettings {
    enabled: dashmap::DashMap<u64, bool>,
    default_vc: dashmap::DashMap<u64, u64>,
    default_text: dashmap::DashMap<u64, u64>,
}

impl AutojoinSettings {
    pub fn new() -> Self {
        AutojoinSettings { enabled: map_new(), default_vc: map_new(), default_text: map_new() }
    }

    /// Whether auto-join is on for `guild_id`; on unless switched off.
    pub fn is_autojoin_enabled_for_guild(&self, guild_id: u64) -> bool {
        autojoin_setting(map_get(&self.enabled, &guild_id))
    }

    /// Switches auto-join of `guild_id` and returns whether it is now on.
    pub fn toggle_autojoin_for_guild(&self, guild_id: u64) -> bool {
        let next = toggled_autojoin(map_get(&self.enabled, &guild_id));
        map_insert(&self.enabled, guild_id, next);
        next
    }

    pub fn set_default_vc(&self, guild_id: u64, channel_id: u64) {
        map_insert(&self.default_vc, guild_id, channel_id);
    }

    pub fn get_default_vc(&self, guild_id: u64) -> Option<u64> {
        map_get(&self.default_vc, &guild_id)
    }

    pub fn set_default_text_ch(&self, guild_id: u64, channel_id: u64) {
        map_insert(&self.default_text, guild_id, channel_id);
    }

    pub fn get_default_text_ch(&self, guild_id: u64) -> Option<u64> {
        map_get(&self.default_text, &guild_id)
    }
}

/// What a member's move into a voice channel leads to.
#[derive(Debug, Clone, Copy, PartialEq, Eq, Structural)]
pub enum AutojoinAction {
    Nothing,
    /// Join `voice_channel` and bind `text_channel`.
    Join { voice_channel: u64, text_channel: u64 },
    /// The join is due but no text channel can be bound.
    NoTextChannel,
}

/// The action for a member now in `new_channel` (if any) of `guild_id` (if
/// any): when auto-join is on, the channel is the server's default voice
/// channel and the bot is not connected, join it, binding the default text
/// channel or else the server's system channel.
pub open spec fn autojoin_spec(
    guild_id: Option<u64>,
    new_channel: Option<u64>,
    enabled: bool,
    default_vc: Option<u64>,
    connected: bool,
    default_text: Option<u64>,
    system_channel: Option<u64>,
) -> AutojoinAction {
    if guild_id is None || new_channel is None || !enabled || default_vc != new_channel || connected {
        AutojoinAction::Nothing
    } else if default_text is Some {
        AutojoinAction::Join { voice_channel: new_channel->0, text_channel: default_text->0 }
    } else if system_channel is Some {
        AutojoinAction::Join { voice_channel: new_channel->0, text_channel: system_channel->0 }
    } else {
        AutojoinAction::NoTextChannel
    }
}

/// Decides whether a voice-presence change makes the bot join.
pub fn on_voice_state_update(
    guild_id: Option<u64>,
    new_channel: Option<u64>,
    enabled: bool,
    default_vc: Option<u64>,
    connected: bool,
    default_text: Option<u64>,
    system_channel: Option<u64>,
) -> (r: AutojoinAction)
    ensures
        r == autojoin_spec(
            guild_id,
            new_channel,
            enabled,
            default_vc,
            connected,
            default_text,
            system_channel,
        ),
{
    let voice_channel = match (guild_id, new_channel) {
        (Some(_), Some(ch)) => ch,
        _ => return AutojoinAction::Nothing,
    };
    if !enabled || default_vc != Some(voice_channel) || connected {
        return AutojoinAction::Nothing;
    }
    match default_text {
        Some(text_channel) => AutojoinAction::Join { voice_channel, text_channel },
        None => match system_channel {
            Some(text_channel) => AutojoinAction::Join { voice_channel, text_channel },
            None => AutojoinAction::NoTextChannel,
        },
    }
}

/// The result of the voice toggle command.
#[derive(Debug, Clone, Copy, PartialEq, Eq, Structural)]
pub enum VoiceToggleOutcome {
    Joined { voice_channel: u64 },
    Left,
    MissingUserChannel,
}

/// The voice toggle: leave when connected; else join the caller's voice
/// channel, if the caller is in one.
pub fn toggle_voice(connected: bool, user_channel: Option<u64>) -> (r: VoiceToggleOutcome)
    ensures
        connected ==> r == VoiceToggleOutcome::Left,
        !connected && user_channel is None ==> r == VoiceToggleOutcome::MissingUserChannel,
        !connected && user_channel is Some ==> r == (VoiceToggleOutcome::Joined {
            voice_channel: user_channel->0,
        }),
{
    if connected {
        VoiceToggleOutcome::Left
    } else {
        match user_channel {
            Some(voice_channel) => VoiceToggleOutcome::Joined { voice_channel },
            None => VoiceToggleOutcome::MissingUserChannel,
        }
    }
}

/// The reply to the voice toggle command.
pub open spec fn voice_reply_spec(outcome: VoiceToggleOutcome) -> Seq<char> {
    match outcome {
        VoiceToggleOutcome::Joined { voice_channel } => "<#"@ + decimal(voice_channel as nat)
            + "> に参加しました。"@,
        VoiceToggleOutcome::Left => "ボイスチャンネルから退出しました。"@,
        VoiceToggleOutcome::MissingUserChannel => "まずボイスチャンネルに参加してから実行してください。"@,
    }
}

/// Words the reply to the voice toggle command; a joined channel is
/// mentioned by its id.
pub fn voice_toggle_reply(outcome: VoiceToggleOutcome) -> (r: String)
    ensures
        r@ == voice_reply_spec(outcome),
{
    match outcome {
        VoiceToggleOutcome::Joined { voice_channel } => String::from_str("<#").concat(
            decimal_text(voice_channel).as_str(),
        ).concat("> に参加しました。"),
        VoiceToggleOutcome::Left => String::from_str("ボイスチャンネルから退出しました。"),
        VoiceToggleOutcome::MissingUserChannel => String::from_str(
            "まずボイスチャンネルに参加してから実行してください。",
        ),
    }
}
} // verus!
