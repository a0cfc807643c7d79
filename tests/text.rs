use yomiage::text::{
    build_read_text, improve_english_pronunciation, improved_text_processing, remove_url,
    replace_custom_emojis, split_long_word, truncate_for_speech,
};

#[test]
fn custom_emoji_becomes_its_name() {
    assert_eq!(replace_custom_emojis("<:smile:123456> やあ"), "smile やあ");
    assert_eq!(replace_custom_emojis("<a:dance:99>"), "dance");
}

#[test]
fn url_becomes_pause() {
    assert_eq!(remove_url("see https://example.com/a now"), "see 、 now");
}

#[test]
fn url_collapses_to_phrase() {
    assert_eq!(improved_text_processing("https://example.com/x"), "リンク省略");
}

#[test]
fn leftover_emoji_and_shortcodes_removed() {
    assert_eq!(improved_text_processing("<:a:1>わーい:smile:"), "わーい");
}

#[test]
fn tool_name_replaced() {
    assert_eq!(improved_text_processing("xaero-share です"), "ウェイポイント共有 です");
}

#[test]
fn file_words_mentions_and_brackets_removed() {
    assert_eq!(improved_text_processing("@everyone 画像"), " ");
    assert_eq!(improved_text_processing("(テスト)"), "テスト");
    assert_eq!(improved_text_processing("（テスト）"), "テスト");
}

#[test]
fn common_english_words_read_in_katakana() {
    assert_eq!(improve_english_pronunciation("hello world"), "ハロー ワールド");
    assert_eq!(improve_english_pronunciation("Thank You"), "サンキュー");
}

#[test]
fn long_latin_words_get_a_pause() {
    assert_eq!(improve_english_pronunciation("typescript"), "types、cript");
    assert_eq!(improve_english_pronunciation("abcd"), "abcd");
}

#[test]
fn split_long_word_halves() {
    assert_eq!(split_long_word("abcde"), "ab、cde");
    assert_eq!(split_long_word("abcd"), "abcd");
    assert_eq!(split_long_word(""), "");
}

#[test]
fn truncation_keeps_short_text() {
    let s: String = "あ".repeat(60);
    assert_eq!(truncate_for_speech(&s), s);
    let s57: String = "a".repeat(57);
    assert_eq!(truncate_for_speech(&s57), s57);
}

#[test]
fn truncation_cuts_long_text_to_sixty() {
    let s: String = "あ".repeat(61);
    let r = truncate_for_speech(&s);
    assert_eq!(r.chars().count(), 60);
    assert!(r.ends_with("、以下略"));
    assert_eq!(r, "あ".repeat(56) + "、以下略");
}

#[test]
fn build_read_text_strips_markup_and_spoilers() {
    let r = build_read_text("**太字** と ||ネタバレ||", &Vec::new()).unwrap();
    assert_eq!(r, "太字 と ");
}

#[test]
fn build_read_text_pure_url_is_phrase() {
    assert_eq!(build_read_text("https://example.com", &Vec::new()).unwrap(), "リンク省略");
}

#[test]
fn build_read_text_empty_for_pure_mention() {
    assert_eq!(build_read_text("@someone", &Vec::new()).unwrap(), "");
}

#[test]
fn build_read_text_applies_dictionary_longest_match() {
    let d = vec![
        ("VC".to_string(), "ブイシー".to_string()),
        ("VCチャット".to_string(), "ブイシーチャット".to_string()),
    ];
    assert_eq!(build_read_text("VCチャットで話そう", &d).unwrap(), "ブイシーチャットで話そう");
}

#[test]
fn build_read_text_is_bounded() {
    let long: String = "あいうえお".repeat(20);
    let r = build_read_text(&long, &Vec::new()).unwrap();
    assert_eq!(r.chars().count(), 60);
    assert!(r.ends_with("、以下略"));
}
