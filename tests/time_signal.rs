use yomiage::session::{ConnectedGuildState, SessionStore};
use yomiage::time_signal::{
    announcement_text, check_chime_size, config_or_initial, has_listeners, select_targets, zone_clock,
    AnnouncementTarget, ChimeError, TimeSignalAudio, TimeSignalConfig, TimeSignalSettings,
};

fn session(text: u64, voice: Option<u64>) -> ConnectedGuildState {
    ConnectedGuildState { bound_text_channel: text, last_message_read: None, joined_voice_channel: voice }
}

#[test]
fn default_config_is_enabled() {
    let c = TimeSignalConfig::default();
    assert!(c.enabled);
    assert!(c.audio.is_none());
    assert_eq!(c.last_announced_hour, None);
}

#[test]
fn toggle_twice_restores_enabled_and_clears_hour() {
    let mut c = TimeSignalConfig { enabled: true, audio: None, last_announced_hour: Some(5) };
    assert!(!c.toggle());
    assert_eq!(c.last_announced_hour, None);
    c.last_announced_hour = Some(7);
    assert!(c.toggle());
    assert!(c.enabled);
    assert_eq!(c.last_announced_hour, None);
}

#[test]
fn settings_toggle_twice() {
    let s = TimeSignalSettings::new();
    assert!(!s.toggle_for_guild(1));
    assert!(s.toggle_for_guild(1));
    assert!(s.config(1).enabled);
}

#[test]
fn unjoined_session_is_never_selected() {
    let cands = vec![(1u64, session(10, None), TimeSignalConfig::default())];
    assert!(select_targets(&cands, 9, 0).is_empty());
}

#[test]
fn due_joined_session_is_selected_on_the_hour() {
    let cands = vec![
        (1u64, session(10, Some(20)), TimeSignalConfig::default()),
        (2u64, session(11, None), TimeSignalConfig::default()),
        (3u64, session(12, Some(22)), TimeSignalConfig { enabled: false, audio: None, last_announced_hour: None }),
        (4u64, session(13, Some(23)), TimeSignalConfig { enabled: true, audio: None, last_announced_hour: Some(9) }),
    ];
    assert_eq!(
        select_targets(&cands, 9, 0),
        vec![AnnouncementTarget { guild_id: 1, text_channel: 10, voice_channel: 20 }]
    );
    assert!(select_targets(&cands, 9, 1).is_empty());
}

#[test]
fn one_announcement_per_hour() {
    let sessions = SessionStore::new();
    sessions.join(1, 10, 20);
    let settings = TimeSignalSettings::new();
    let first = select_targets(&settings.candidates(&sessions.snapshot()), 14, 0);
    assert_eq!(first.len(), 1);
    assert!(has_listeners(&vec![(100, Some(20), false), (999, Some(20), true)], 20, 999));
    settings.finish_announcement(1, 14, true);
    assert_eq!(settings.config(1).last_announced_hour, Some(14));
    let second = select_targets(&settings.candidates(&sessions.snapshot()), 14, 0);
    assert!(second.is_empty());
    let next_hour = select_targets(&settings.candidates(&sessions.snapshot()), 15, 0);
    assert_eq!(next_hour.len(), 1);
}

#[test]
fn listeners_exclude_the_bot_and_other_channels() {
    assert!(!has_listeners(&vec![(999, Some(20), true)], 20, 999));
    assert!(!has_listeners(&vec![(999, Some(20), false)], 20, 999));
    assert!(!has_listeners(&vec![(100, Some(21), false), (101, None, false)], 20, 999));
    assert!(!has_listeners(&vec![(555, Some(20), true)], 20, 999));
    assert!(has_listeners(&vec![(555, Some(20), true), (100, Some(20), false)], 20, 999));
    assert!(!has_listeners(&Vec::new(), 20, 999));
}

#[test]
fn clock_in_reference_zone() {
    assert_eq!(zone_clock(0), (9, 0));
    assert_eq!(zone_clock(15 * 3600), (0, 0));
    assert_eq!(zone_clock(-1), (8, 59));
    assert_eq!(zone_clock(1_700_000_000), (7, 13));
    assert_eq!(zone_clock(i64::MIN).0 < 24, true);
}

#[test]
fn announcement_texts() {
    assert_eq!(announcement_text(9), "9時をお知らせします。");
    assert_eq!(announcement_text(0), "0時をお知らせします。");
    assert_eq!(announcement_text(23), "23時をお知らせします。");
}

#[test]
fn chime_size_limits() {
    assert_eq!(check_chime_size(0), Err(ChimeError::Empty));
    assert_eq!(check_chime_size(1), Ok(()));
    assert_eq!(check_chime_size(10 * 1024 * 1024), Ok(()));
    assert_eq!(check_chime_size(10 * 1024 * 1024 + 1), Err(ChimeError::TooLarge));
}

#[test]
fn chime_set_and_cleared() {
    let s = TimeSignalSettings::new();
    s.set_audio(3, TimeSignalAudio { source_url: "https://x/a.mp3".to_string(), pcm: vec![1, 2, 3] });
    assert_eq!(s.config(3).audio.unwrap().pcm, vec![1, 2, 3]);
    assert!(s.config(3).enabled);
    s.clear_audio(3);
    assert!(s.config(3).audio.is_none());
}

#[test]
fn failed_post_leaves_hour_unrecorded() {
    let c = TimeSignalConfig::default();
    assert_eq!(c.clone().after_announcement(8, false).last_announced_hour, None);
    assert_eq!(c.after_announcement(8, true).last_announced_hour, Some(8));
    let s = TimeSignalSettings::new();
    s.finish_announcement(1, 8, false);
    assert_eq!(s.config(1).last_announced_hour, None);
    s.finish_announcement(1, 8, true);
    assert_eq!(s.config(1).last_announced_hour, Some(8));
}

#[test]
fn server_without_settings_is_announced_to() {
    let c = config_or_initial(None);
    assert!(c.enabled);
    assert_eq!(c.last_announced_hour, None);
    let stored = TimeSignalConfig { enabled: false, audio: None, last_announced_hour: Some(3) };
    let c = config_or_initial(Some(stored));
    assert!(!c.enabled);
    assert_eq!(c.last_announced_hour, Some(3));
    let sessions = SessionStore::new();
    sessions.join(9, 10, 20);
    let settings = TimeSignalSettings::new();
    let cands = settings.candidates(&sessions.snapshot());
    assert_eq!(cands.len(), 1);
    assert_eq!(select_targets(&cands, 5, 0), vec![AnnouncementTarget { guild_id: 9, text_channel: 10, voice_channel: 20 }]);
}
