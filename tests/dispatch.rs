use yomiage::autojoin::{autojoin_setting, toggled_autojoin, on_voice_state_update, toggle_voice, voice_toggle_reply, AutojoinAction, AutojoinSettings, VoiceToggleOutcome};
use yomiage::dispatch::{text_to_speak, is_readable_channel, plan_dispatch, should_read_author_name, DispatchPlan, IncomingMessage};
use yomiage::session::{ConnectedGuildState, SessionStore, SpokenMessage};

const BOT: u64 = 999;

fn msg(channel: u64, author: u64, content: &str) -> IncomingMessage {
    IncomingMessage {
        guild_id: Some(1),
        channel_id: channel,
        author_id: author,
        author_is_bot: false,
        content: content.to_string(),
        timestamp: 100,
    }
}

fn session() -> ConnectedGuildState {
    ConnectedGuildState { bound_text_channel: 10, last_message_read: None, joined_voice_channel: Some(20) }
}

#[test]
fn ignores_direct_messages_and_bots() {
    let mut m = msg(10, 5, "やあ");
    m.guild_id = None;
    assert_eq!(plan_dispatch(&m, BOT, true, Some(session()), true, None, None), DispatchPlan::Ignore);
    let m = msg(10, BOT, "やあ");
    assert_eq!(plan_dispatch(&m, BOT, true, Some(session()), true, None, None), DispatchPlan::Ignore);
    let mut m = msg(10, 5, "やあ");
    m.author_is_bot = true;
    assert_eq!(plan_dispatch(&m, BOT, true, Some(session()), true, None, None), DispatchPlan::Ignore);
}

#[test]
fn commands_run_without_connection() {
    let m = msg(77, 5, "!v");
    assert_eq!(plan_dispatch(&m, BOT, false, None, false, None, None), DispatchPlan::Command);
}

#[test]
fn speaks_in_bound_voice_and_default_channels() {
    assert_eq!(plan_dispatch(&msg(10, 5, "a"), BOT, true, Some(session()), true, None, None), DispatchPlan::Speak);
    assert_eq!(plan_dispatch(&msg(20, 5, "a"), BOT, true, Some(session()), true, None, None), DispatchPlan::Speak);
    assert_eq!(plan_dispatch(&msg(30, 5, "a"), BOT, true, Some(session()), true, None, Some(30)), DispatchPlan::Speak);
}

#[test]
fn other_channel_is_never_spoken() {
    assert_eq!(plan_dispatch(&msg(40, 5, "a"), BOT, true, Some(session()), true, Some(21), Some(30)), DispatchPlan::Drop);
    assert!(!is_readable_channel(&session(), Some(30), 40));
}

#[test]
fn not_connected_joins_or_drops() {
    assert_eq!(
        plan_dispatch(&msg(40, 5, "a"), BOT, false, None, true, Some(21), None),
        DispatchPlan::Join { voice_channel: 21 }
    );
    assert_eq!(plan_dispatch(&msg(40, 5, "a"), BOT, false, None, false, Some(21), None), DispatchPlan::Drop);
    assert_eq!(plan_dispatch(&msg(40, 5, "a"), BOT, false, None, true, None, None), DispatchPlan::Drop);
    assert_eq!(
        plan_dispatch(&msg(10, 5, "a"), BOT, false, Some(session()), false, None, None),
        DispatchPlan::ForgetSession
    );
}

#[test]
fn connected_without_session_drops() {
    assert_eq!(plan_dispatch(&msg(10, 5, "a"), BOT, true, None, true, Some(20), None), DispatchPlan::Drop);
}

#[test]
fn author_name_heuristic() {
    let now = SpokenMessage { author_id: 5, timestamp: 100 };
    assert!(should_read_author_name(now, None));
    assert!(should_read_author_name(now, Some(SpokenMessage { author_id: 6, timestamp: 99 })));
    assert!(!should_read_author_name(now, Some(SpokenMessage { author_id: 5, timestamp: 90 })));
    assert!(should_read_author_name(now, Some(SpokenMessage { author_id: 5, timestamp: 89 })));
}

#[test]
fn session_store_lifecycle() {
    let store = SessionStore::new();
    assert!(store.get(1).is_none());
    let s = store.join(1, 10, 20);
    assert_eq!(store.get(1), Some(s));
    let m = SpokenMessage { author_id: 5, timestamp: 7 };
    let updated = store.record_spoken(1, m).unwrap();
    assert_eq!(updated.last_message_read, Some(m));
    assert_eq!(store.get(1).unwrap().last_message_read, Some(m));
    assert_eq!(store.snapshot(), vec![(1, updated)]);
    store.remove(1);
    store.remove(1);
    assert!(store.get(1).is_none());
    assert!(store.record_spoken(1, m).is_none());
}

#[test]
fn autojoin_settings_default_on() {
    let a = AutojoinSettings::new();
    assert!(a.is_autojoin_enabled_for_guild(1));
    assert!(!a.toggle_autojoin_for_guild(1));
    assert!(!a.is_autojoin_enabled_for_guild(1));
    assert!(a.toggle_autojoin_for_guild(1));
    assert_eq!(a.get_default_vc(1), None);
    a.set_default_vc(1, 20);
    a.set_default_text_ch(1, 10);
    assert_eq!(a.get_default_vc(1), Some(20));
    assert_eq!(a.get_default_text_ch(1), Some(10));
}

#[test]
fn autojoin_on_voice_update() {
    assert_eq!(
        on_voice_state_update(Some(1), Some(20), true, Some(20), false, Some(10), Some(11)),
        AutojoinAction::Join { voice_channel: 20, text_channel: 10 }
    );
    assert_eq!(
        on_voice_state_update(Some(1), Some(20), true, Some(20), false, None, Some(11)),
        AutojoinAction::Join { voice_channel: 20, text_channel: 11 }
    );
    assert_eq!(
        on_voice_state_update(Some(1), Some(20), true, Some(20), false, None, None),
        AutojoinAction::NoTextChannel
    );
    assert_eq!(on_voice_state_update(Some(1), Some(20), true, Some(20), true, Some(10), None), AutojoinAction::Nothing);
    assert_eq!(on_voice_state_update(Some(1), Some(21), true, Some(20), false, Some(10), None), AutojoinAction::Nothing);
    assert_eq!(on_voice_state_update(Some(1), Some(20), false, Some(20), false, Some(10), None), AutojoinAction::Nothing);
    assert_eq!(on_voice_state_update(None, Some(20), true, Some(20), false, Some(10), None), AutojoinAction::Nothing);
    assert_eq!(on_voice_state_update(Some(1), None, true, Some(20), false, Some(10), None), AutojoinAction::Nothing);
}

#[test]
fn voice_toggle_outcomes() {
    assert_eq!(toggle_voice(true, Some(20)), VoiceToggleOutcome::Left);
    assert_eq!(toggle_voice(false, None), VoiceToggleOutcome::MissingUserChannel);
    assert_eq!(toggle_voice(false, Some(20)), VoiceToggleOutcome::Joined { voice_channel: 20 });
}

#[test]
fn voice_toggle_replies() {
    assert_eq!(voice_toggle_reply(VoiceToggleOutcome::Joined { voice_channel: 12345 }), "<#12345> に参加しました。");
    assert_eq!(voice_toggle_reply(VoiceToggleOutcome::Left), "ボイスチャンネルから退出しました。");
    assert_eq!(
        voice_toggle_reply(VoiceToggleOutcome::MissingUserChannel),
        "まずボイスチャンネルに参加してから実行してください。"
    );
}

#[test]
fn autojoin_setting_steps() {
    assert!(autojoin_setting(None));
    assert!(!autojoin_setting(Some(false)));
    assert!(!toggled_autojoin(None));
    assert!(toggled_autojoin(Some(false)));
}

#[test]
fn empty_text_is_not_spoken() {
    assert_eq!(text_to_speak(String::new()), None);
    assert_eq!(text_to_speak("やあ".to_string()), Some("やあ".to_string()));
}
