use yomiage::voice::{find_default_style, list_style_ids, resolve_voice, PresetId, Speaker, SpeakerStyle, VoiceChoice, VoiceError};

fn style(id: i64, name: &str) -> SpeakerStyle {
    SpeakerStyle { id, name: name.to_string() }
}

fn speaker(name: &str, uuid: &str, styles: Vec<SpeakerStyle>) -> Speaker {
    Speaker { name: name.to_string(), speaker_uuid: uuid.to_string(), styles }
}

fn speakers() -> Vec<Speaker> {
    vec![
        speaker("四国めたん", "aaaa", vec![style(2, "ノーマル"), style(0, "あまあま")]),
        speaker("ずんだもん", "bbbb", vec![style(1, "あまあま"), style(3, "ノーマル")]),
    ]
}

#[test]
fn style_ids_flattened_in_order() {
    assert_eq!(list_style_ids(&speakers()), vec![2, 0, 1, 3]);
    assert!(list_style_ids(&Vec::new()).is_empty());
}

#[test]
fn default_style_is_normal_style_of_default_speaker() {
    assert_eq!(find_default_style(&speakers()), Some(3));
    let by_uuid = vec![speaker("x", "388f246b-8c41-4ac1-8e2d-5d79f3ff56d9", vec![style(7, "ささやき")])];
    assert_eq!(find_default_style(&by_uuid), Some(7));
    let none = vec![speaker("y", "cccc", vec![style(8, "ノーマル")])];
    assert_eq!(find_default_style(&none), None);
}

#[test]
fn stored_preset_used_while_available() {
    let presets = vec![PresetId(4), PresetId(5)];
    assert_eq!(resolve_voice(Some(5), &presets, &speakers()), Ok(VoiceChoice::Preset(PresetId(5))));
}

#[test]
fn stale_stored_preset_falls_back() {
    let presets = vec![PresetId(4)];
    assert_eq!(resolve_voice(Some(9), &presets, &speakers()), Ok(VoiceChoice::Style(3)));
    let plain = vec![speaker("y", "cccc", vec![style(8, "ノーマル")])];
    assert_eq!(resolve_voice(Some(9), &presets, &plain), Ok(VoiceChoice::Preset(PresetId(4))));
    assert_eq!(resolve_voice(None, &Vec::new(), &plain), Ok(VoiceChoice::Style(8)));
}

#[test]
fn no_voice_available() {
    assert_eq!(resolve_voice(None, &Vec::new(), &Vec::new()), Err(VoiceError::NoVoiceAvailable));
    assert_eq!(resolve_voice(Some(1), &Vec::new(), &Vec::new()), Err(VoiceError::NoVoiceAvailable));
}

#[test]
fn preset_id_conversions() {
    assert_eq!(PresetId::from(12i64), PresetId(12));
    assert_eq!(i64::from(PresetId(13)), 13);
}
