use yomiage::command::{
    autocomplete_suggestions, dict_list_message, parse, route_slash, Command, CommandInput, CommandOption, MissingOption,
    OptionValue, SlashAction, SubOption,
};
use yomiage::format::decimal_text;
use yomiage::prefix::{parse_prefix_command, words, PrefixCommand};

fn input(name: &str, options: Vec<CommandOption>) -> CommandInput {
    CommandInput { name: name.to_string(), options }
}

fn sub(name: &str, options: Vec<SubOption>) -> CommandOption {
    CommandOption { name: name.to_string(), options }
}

fn text_opt(name: &str, v: &str) -> SubOption {
    SubOption { name: name.to_string(), resolved: Some(OptionValue::Str(v.to_string())) }
}

#[test]
fn slash_simple_commands() {
    assert!(matches!(parse(&input("v", vec![])), Command::VoiceToggle));
    assert!(matches!(parse(&input("skip", vec![])), Command::Skip));
    assert!(matches!(parse(&input("help", vec![])), Command::Help));
    assert!(matches!(parse(&input("nope", vec![])), Command::Unknown));
}

#[test]
fn slash_dict_commands() {
    let add = input("dict", vec![sub("add", vec![text_opt("word", "猫"), text_opt("read_as", "ねこ")])]);
    match parse(&add) {
        Command::DictAdd(o) => {
            assert_eq!(o.word, "猫");
            assert_eq!(o.read_as, "ねこ");
        }
        _ => panic!("expected DictAdd"),
    }
    let short = input("dict", vec![sub("add", vec![text_opt("word", "猫")])]);
    assert!(matches!(parse(&short), Command::Unknown));
    let remove = input("dict", vec![sub("remove", vec![text_opt("word", "猫")])]);
    match parse(&remove) {
        Command::DictRemove(o) => assert_eq!(o.word, "猫"),
        _ => panic!("expected DictRemove"),
    }
    assert!(matches!(parse(&input("dict", vec![sub("list", vec![])])), Command::DictList));
    assert!(matches!(parse(&input("dict", vec![])), Command::Unknown));
}

#[test]
fn slash_time_commands() {
    assert!(matches!(parse(&input("time", vec![])), Command::TimeToggle));
    assert!(matches!(parse(&input("time", vec![sub("toggle", vec![])])), Command::TimeToggle));
    let ch = input(
        "time",
        vec![sub("channel", vec![SubOption { name: "channel".to_string(), resolved: Some(OptionValue::Channel(42)) }])],
    );
    match parse(&ch) {
        Command::TimeChannel(o) => assert_eq!(o.channel_id, 42),
        _ => panic!("expected TimeChannel"),
    }
    let bad = input("time", vec![sub("channel", vec![text_opt("channel", "x")])]);
    assert!(matches!(parse(&bad), Command::Unknown));
}

#[test]
fn words_split_on_unicode_space() {
    assert_eq!(words("  a b\u{3000}c\t"), vec!["a", "b", "c"]);
    assert!(words("   ").is_empty());
}

#[test]
fn prefix_simple_commands() {
    assert!(matches!(parse_prefix_command("!v"), PrefixCommand::Voice));
    assert!(matches!(parse_prefix_command("!V"), PrefixCommand::Voice));
    assert!(matches!(parse_prefix_command("!!s"), PrefixCommand::Skip));
    assert!(matches!(parse_prefix_command("!autojoin"), PrefixCommand::Autojoin));
    assert!(matches!(parse_prefix_command("!help"), PrefixCommand::Help));
    assert!(matches!(parse_prefix_command("!"), PrefixCommand::Empty));
    assert!(matches!(parse_prefix_command("!foo"), PrefixCommand::Unknown));
}

#[test]
fn prefix_time_commands() {
    assert!(matches!(parse_prefix_command("!time"), PrefixCommand::TimeToggle));
    assert!(matches!(parse_prefix_command("!time toggle"), PrefixCommand::TimeToggle));
    match parse_prefix_command("!time audio set https://x/a.mp3") {
        PrefixCommand::TimeAudioSet(u) => assert_eq!(u, "https://x/a.mp3"),
        _ => panic!("expected TimeAudioSet"),
    }
    assert!(matches!(parse_prefix_command("!time audio set"), PrefixCommand::TimeAudioSetUsage));
    assert!(matches!(parse_prefix_command("!time audio clear"), PrefixCommand::TimeAudioClear));
    assert!(matches!(parse_prefix_command("!time audio"), PrefixCommand::TimeUsage));
    assert!(matches!(parse_prefix_command("!time other"), PrefixCommand::TimeUsage));
}

#[test]
fn prefix_dict_commands() {
    match parse_prefix_command("!dict add 単語 たん  ご") {
        PrefixCommand::DictAdd { word, read_as } => {
            assert_eq!(word, "単語");
            assert_eq!(read_as, "たん ご");
        }
        _ => panic!("expected DictAdd"),
    }
    assert!(matches!(parse_prefix_command("!dict add 単語"), PrefixCommand::DictAddUsage));
    assert!(matches!(parse_prefix_command("!dict add"), PrefixCommand::DictAddUsage));
    match parse_prefix_command("!dict remove 単語") {
        PrefixCommand::DictRemove(w) => assert_eq!(w, "単語"),
        _ => panic!("expected DictRemove"),
    }
    assert!(matches!(parse_prefix_command("!dict remove"), PrefixCommand::DictRemoveUsage));
    assert!(matches!(parse_prefix_command("!dict list"), PrefixCommand::DictList));
    assert!(matches!(parse_prefix_command("!dict"), PrefixCommand::DictUsage));
}

#[test]
fn decimal_rendering() {
    assert_eq!(decimal_text(0), "0");
    assert_eq!(decimal_text(7), "7");
    assert_eq!(decimal_text(1234), "1234");
    assert_eq!(decimal_text(u64::MAX), "18446744073709551615");
}

#[test]
fn slash_routes() {
    assert!(matches!(route_slash(&input("v", vec![])), SlashAction::Voice));
    assert!(matches!(route_slash(&input("s", vec![])), SlashAction::Skip));
    assert!(matches!(route_slash(&input("help", vec![])), SlashAction::Help));
    assert!(matches!(route_slash(&input("autojoin", vec![])), SlashAction::Autojoin));
    assert!(matches!(route_slash(&input("nope", vec![])), SlashAction::Unsupported));
    assert!(matches!(route_slash(&input("time", vec![])), SlashAction::TimeToggle));
    match route_slash(&input("time", vec![sub("audio_set", vec![text_opt("url", "https://x/a.mp3")])])) {
        SlashAction::TimeAudioSet(u) => assert_eq!(u, "https://x/a.mp3"),
        _ => panic!("expected TimeAudioSet"),
    }
    assert!(matches!(route_slash(&input("time", vec![sub("audio_set", vec![])])), SlashAction::TimeAudioUrlMissing));
    let bad = SubOption { name: "url".to_string(), resolved: Some(OptionValue::Channel(1)) };
    assert!(matches!(route_slash(&input("time", vec![sub("audio_set", vec![bad])])), SlashAction::TimeAudioUrlInvalid));
    assert!(matches!(route_slash(&input("time", vec![sub("audio_clear", vec![])])), SlashAction::TimeAudioClear));
    assert!(matches!(route_slash(&input("time", vec![sub("other", vec![])])), SlashAction::UnsupportedSubcommand));
}

#[test]
fn slash_dict_routes_by_option_name() {
    let add = input("dict", vec![sub("add", vec![text_opt("read_as", "ねこ"), text_opt("word", "猫")])]);
    match route_slash(&add) {
        SlashAction::DictAdd { word, read_as } => {
            assert_eq!(word, "猫");
            assert_eq!(read_as, "ねこ");
        }
        _ => panic!("expected DictAdd"),
    }
    let no_reading = input("dict", vec![sub("add", vec![text_opt("word", "猫")])]);
    assert!(matches!(route_slash(&no_reading), SlashAction::Missing(MissingOption::ReadAs)));
    let no_word = input("dict", vec![sub("remove", vec![])]);
    assert!(matches!(route_slash(&no_word), SlashAction::Missing(MissingOption::Word)));
    assert!(matches!(route_slash(&input("dict", vec![])), SlashAction::DictMissingSubcommand));
    assert!(matches!(route_slash(&input("dict", vec![sub("list", vec![])])), SlashAction::DictList));
}

#[test]
fn autocomplete_filters_case_insensitively() {
    let words: Vec<String> = vec!["Apple".into(), "banana".into(), "pineapple".into()];
    assert_eq!(autocomplete_suggestions(&words, "APP"), vec!["Apple", "pineapple"]);
    assert_eq!(autocomplete_suggestions(&words, ""), words);
    assert!(autocomplete_suggestions(&words, "zzz").is_empty());
}

#[test]
fn autocomplete_offers_at_most_twenty_five() {
    let words: Vec<String> = (0..30).map(|i| format!("w{}", i)).collect();
    let r = autocomplete_suggestions(&words, "w");
    assert_eq!(r.len(), 25);
    assert_eq!(r[24], "w24");
}

#[test]
fn dict_listing_message() {
    assert_eq!(dict_list_message("{}"), "```json\n{}\n```");
    let long = "x".repeat(1901);
    assert_eq!(dict_list_message(&long), "件数が多すぎるため表示できません。登録内容を絞ってください。");
    let edge = "x".repeat(1900);
    assert_eq!(dict_list_message(&edge), format!("```json\n{}\n```", edge));
}
