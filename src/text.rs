//! Turning a chat message into bounded speakable text.
use crate::dictionary::{
    dict_rewrite, dictionary_usable, entries_view, replace_words_on_dict, DictionaryError,
};
use discord_md::generate::{ToMarkdownString, ToMarkdownStringOption};
use vstd::prelude::*;

verus! {

/// Whether `regex::Regex::new` accepts the pattern.
pub uninterp spec fn regex_valid(pattern: Seq<char>) -> bool;

/// What `regex::Regex::replace_all` gives for a pattern, a text and a
/// replacement string (with `$n` standing for capture group `n`).
pub uninterp spec fn regex_replaced(pattern: Seq<char>, text: Seq<char>, rep: Seq<char>) -> Seq<char>;

/// What `regex::Regex::replace_all` gives when each match is replaced by
/// `split_long_word` of the matched text.
pub uninterp spec fn regex_words_split(pattern: Seq<char>, text: Seq<char>) -> Seq<char>;

/// What `discord_md` renders a message as with formatting markers and
/// spoilers omitted.
pub uninterp spec fn markdown_plain(text: Seq<char>) -> Seq<char>;

#[verifier::external_type_specification]
#[verifier::external_body]
pub struct ExRegexError(regex::Error);

/// Relies on `regex::Regex::new` (does the pattern compile) and
/// `regex::Regex::replace_all` with a replacement string.
#[verifier::external_body]
fn regex_replace(pattern: &str, text: &str, rep: &str) -> (r: Result<String, regex::Error>)
    ensures
        r is Ok == regex_valid(pattern@),
        r matches Ok(s) ==> s@ == regex_replaced(pattern@, text@, rep@),
{
    regex::Regex::new(pattern).map(|re| re.replace_all(text, rep).into_owned())
}

/// Relies on `regex::Regex::new` and `regex::Regex::replace_all` with a
/// closure that hands each match to `split_long_word`.
#[verifier::external_body]
fn regex_replace_split(pattern: &str, text: &str) -> (r: Result<String, regex::Error>)
    ensures
        r is Ok == regex_valid(pattern@),
        r matches Ok(s) ==> s@ == regex_words_split(pattern@, text@),
{
    regex::Regex::new(pattern).map(
        |re| re.replace_all(text, |caps: &regex::Captures| split_long_word(&caps[0])).into_owned(),
    )
}

/// Relies on `discord_md::parse` and `to_markdown_string` with
/// `omit_format(true)` and `omit_spoiler(true)`: formatting markers are
/// dropped with their text kept, spoilers are left out whole.
#[verifier::external_body]
fn render_plain_markdown(text: &str) -> (r: String)
    ensures
        r@ == markdown_plain(text@),
{
    discord_md::parse(text).to_markdown_string(
        &ToMarkdownStringOption::new().omit_format(true).omit_spoiler(true),
    )
}

pub const URL_PATTERN: &'static str = "https?://\\S+";

pub const URL_PHRASE: &'static str = "リンク省略";

pub const CUSTOM_EMOJI_PATTERN: &'static str = "<a?:(\\w+):\\d+>";

pub const EMOJI_TOKEN_PATTERN: &'static str = "<a?:\\w+:\\d+>";

pub const SHORTCODE_PATTERN: &'static str = ":[^:\\s]{1,20}:";

pub const XAERO_PATTERN: &'static str = "\\bxaero[^\\s]*";

pub const XAERO_PHRASE: &'static str = "ウェイポイント共有";

pub const FILE_WORD_PATTERN: &'static str = "(?i)(画像|ファイル|画像ファイル)";

pub const MENTION_PATTERN: &'static str = "@\\w+";

pub const BRACKET_PATTERN: &'static str = "[（）()]";

pub const LATIN_WORD_PATTERN: &'static str = "\\b[a-zA-Z]{2,}\\b";

/// What is appended to a text cut short.
pub const OMISSION_MARKER: &'static str = "、以下略";

/// The most characters that are read aloud.
pub const MAX_SPOKEN_CHARS: usize = 60;

/// How many characters are kept when the text is cut short.
pub const KEPT_CHARS: usize = 56;

/// One replacement stage: the pattern's matches replaced, or the text as it
/// was if the pattern does not compile.
pub open spec fn regex_stage(pattern: Seq<char>, t: Seq<char>, rep: Seq<char>) -> Seq<char> {
    if regex_valid(pattern) {
        regex_replaced(pattern, t, rep)
    } else {
        t
    }
}

fn replace_pattern(pattern: &str, text: &str, rep: &str) -> (r: String)
    ensures
        r@ == regex_stage(pattern@, text@, rep@),
{
    match regex_replace(pattern, text, rep) {
        Ok(s) => s,
        Err(_) => String::from_str(text),
    }
}

/// Custom emoji tokens `<:name:id>` replaced by their name.
pub open spec fn custom_emojis_replaced(t: Seq<char>) -> Seq<char> {
    regex_stage(CUSTOM_EMOJI_PATTERN@, t, "$1"@)
}

/// Replaces each custom emoji token by its shortcode name.
pub fn replace_custom_emojis(text: &str) -> (r: String)
    ensures
        r@ == custom_emojis_replaced(text@),
{
    replace_pattern(CUSTOM_EMOJI_PATTERN, text, "$1")
}

/// URLs replaced by a pause.
pub open spec fn urls_removed(t: Seq<char>) -> Seq<char> {
    regex_stage(URL_PATTERN@, t, "、"@)
}

/// Replaces each URL by a pause mark.
pub fn remove_url(text: &str) -> (r: String)
    ensures
        r@ == urls_removed(text@),
{
    replace_pattern(URL_PATTERN, text, "、")
}

/// The cleanup stages in their fixed order, before the English fixes.
pub open spec fn cleaned(t: Seq<char>) -> Seq<char> {
    let t1 = regex_stage(URL_PATTERN@, t, URL_PHRASE@);
    let t2 = regex_stage(EMOJI_TOKEN_PATTERN@, t1, ""@);
    let t3 = regex_stage(SHORTCODE_PATTERN@, t2, ""@);
    let t4 = regex_stage(XAERO_PATTERN@, t3, XAERO_PHRASE@);
    let t5 = regex_stage(FILE_WORD_PATTERN@, t4, ""@);
    let t6 = regex_stage(MENTION_PATTERN@, t5, ""@);
    regex_stage(BRACKET_PATTERN@, t6, ""@)
}

/// URLs collapsed to a fixed phrase; leftover emoji tokens and shortcodes,
/// file/image words, at-mentions and brackets removed; a tool name replaced
/// by a fixed phrase; then the English fixes.
pub open spec fn processed(t: Seq<char>) -> Seq<char> {
    english_improved(cleaned(t))
}

/// Applies the cleanup stages and the English fixes, in that order.
pub fn improved_text_processing(text: &str) -> (r: String)
    ensures
        r@ == processed(text@),
{
    let r = replace_pattern(URL_PATTERN, text, URL_PHRASE);
    let r = replace_pattern(EMOJI_TOKEN_PATTERN, &r, "");
    let r = replace_pattern(SHORTCODE_PATTERN, &r, "");
    let r = replace_pattern(XAERO_PATTERN, &r, XAERO_PHRASE);
    let r = replace_pattern(FILE_WORD_PATTERN, &r, "");
    let r = replace_pattern(MENTION_PATTERN, &r, "");
    let r = replace_pattern(BRACKET_PATTERN, &r, "");
    improve_english_pronunciation(&r)
}

/// The number of common English words with a fixed katakana reading.
pub const ENGLISH_WORD_COUNT: usize = 32;

/// The `i`-th common English word and its katakana reading.
pub open spec fn english_pair(i: usize) -> (Seq<char>, Seq<char>) {
    match i {
        0 => ("hello"@, "ハロー"@),
        1 => ("thanks"@, "サンクス"@),
        2 => ("thank you"@, "サンキュー"@),
        3 => ("yes"@, "イエス"@),
        4 => ("no"@, "ノー"@),
        5 => ("ok"@, "オーケー"@),
        6 => ("okay"@, "オーケー"@),
        7 => ("good"@, "グッド"@),
        8 => ("bad"@, "バッド"@),
        9 => ("nice"@, "ナイス"@),
        10 => ("cool"@, "クール"@),
        11 => ("wow"@, "ワオ"@),
        12 => ("sorry"@, "ソーリー"@),
        13 => ("please"@, "プリーズ"@),
        14 => ("welcome"@, "ウェルカム"@),
        15 => ("you"@, "ユー"@),
        16 => ("me"@, "ミー"@),
        17 => ("help"@, "ヘルプ"@),
        18 => ("stop"@, "ストップ"@),
        19 => ("start"@, "スタート"@),
        20 => ("go"@, "ゴー"@),
        21 => ("come"@, "カム"@),
        22 => ("minecraft"@, "マインクラフト"@),
        23 => ("discord"@, "ディスコード"@),
        24 => ("game"@, "ゲーム"@),
        25 => ("play"@, "プレイ"@),
        26 => ("player"@, "プレイヤー"@),
        27 => ("server"@, "サーバー"@),
        28 => ("world"@, "ワールド"@),
        29 => ("build"@, "ビルド"@),
        30 => ("craft"@, "クラフト"@),
        _ => ("mine"@, "マイン"@),
    }
}

fn english_pair_at(i: usize) -> (r: (&'static str, &'static str))
    requires
        i < ENGLISH_WORD_COUNT,
    ensures
        (r.0@, r.1@) == english_pair(i),
{
    match i {
        0 => ("hello", "ハロー"),
        1 => ("thanks", "サンクス"),
        2 => ("thank you", "サンキュー"),
        3 => ("yes", "イエス"),
        4 => ("no", "ノー"),
        5 => ("ok", "オーケー"),
        6 => ("okay", "オーケー"),
        7 => ("good", "グッド"),
        8 => ("bad", "バッド"),
        9 => ("nice", "ナイス"),
        10 => ("cool", "クール"),
        11 => ("wow", "ワオ"),
        12 => ("sorry", "ソーリー"),
        13 => ("please", "プリーズ"),
        14 => ("welcome", "ウェルカム"),
        15 => ("you", "ユー"),
        16 => ("me", "ミー"),
        17 => ("help", "ヘルプ"),
        18 => ("stop", "ストップ"),
        19 => ("start", "スタート"),
        20 => ("go", "ゴー"),
        21 => ("come", "カム"),
        22 => ("minecraft", "マインクラフト"),
        23 => ("discord", "ディスコード"),
        24 => ("game", "ゲーム"),
        25 => ("play", "プレイ"),
        26 => ("player", "プレイヤー"),
        27 => ("server", "サーバー"),
        28 => ("world", "ワールド"),
        29 => ("build", "ビルド"),
        30 => ("craft", "クラフト"),
        _ => ("mine", "マイン"),
    }
}

/// The pattern for a whole word, matched regardless of case.
pub open spec fn whole_word_pattern(w: Seq<char>) -> Seq<char> {
    "(?i)\\b"@ + w + "\\b"@
}

/// The text after the first `n` English words were replaced by their
/// readings, one word after the other.
pub open spec fn english_replaced(t: Seq<char>, n: nat) -> Seq<char>
    decreases n,
{
    if n == 0 {
        t
    } else {
        let p = english_pair((n - 1) as usize);
        regex_stage(whole_word_pattern(p.0), english_replaced(t, (n - 1) as nat), p.1)
    }
}

/// The English words replaced by their readings, then each remaining run
/// of Latin letters given a pause in its middle (see `split_long_word`).
pub open spec fn english_improved(t: Seq<char>) -> Seq<char> {
    let r = english_replaced(t, ENGLISH_WORD_COUNT as nat);
    if regex_valid(LATIN_WORD_PATTERN@) {
        regex_words_split(LATIN_WORD_PATTERN@, r)
    } else {
        r
    }
}

/// Replaces common English words by katakana readings and breaks longer
/// Latin words in two so that they are not spelled out letter by letter.
pub fn improve_english_pronunciation(text: &str) -> (r: String)
    ensures
        r@ == english_improved(text@),
{
    let mut result = String::from_str(text);
    let mut i: usize = 0;
    while i < ENGLISH_WORD_COUNT
        invariant
            i <= ENGLISH_WORD_COUNT,
            result@ == english_replaced(text@, i as nat),
        decreases ENGLISH_WORD_COUNT - i,
    {
        let (word, reading) = english_pair_at(i);
        let pattern = String::from_str("(?i)\\b").concat(word).concat("\\b");
        result = replace_pattern(pattern.as_str(), result.as_str(), reading);
        i += 1;
    }
    match regex_replace_split(LATIN_WORD_PATTERN, result.as_str()) {
        Ok(s) => s,
        Err(_) => result,
    }
}

/// A word of at most four characters as it is; a longer one with a pause
/// mark between its halves.
pub open spec fn split_word(w: Seq<char>) -> Seq<char> {
    if w.len() <= 4 {
        w
    } else {
        let h = w.len() / 2;
        w.subrange(0, h as int) + "、"@ + w.subrange(h as int, w.len() as int)
    }
}

/// Puts a pause mark in the middle of a word longer than four characters.
pub fn split_long_word(word: &str) -> (r: String)
    ensures
        r@ == split_word(word@),
{
    let n = word.unicode_len();
    if n <= 4 {
        String::from_str(word)
    } else {
        let h = n / 2;
        String::from_str(word.substring_char(0, h)).concat("、").concat(word.substring_char(h, n))
    }
}

/// At most sixty characters: a longer text keeps its first fifty-six and
/// gets the omission marker.
pub open spec fn truncated(t: Seq<char>) -> Seq<char> {
    if t.len() > MAX_SPOKEN_CHARS {
        t.subrange(0, KEPT_CHARS as int) + OMISSION_MARKER@
    } else {
        t
    }
}

/// Cuts a text longer than sixty characters down to fifty-six and appends
/// the omission marker.
pub fn truncate_for_speech(text: &str) -> (r: String)
    ensures
        r@ == truncated(text@),
        r@.len() <= MAX_SPOKEN_CHARS,
        text@.len() > MAX_SPOKEN_CHARS ==> r@.len() == MAX_SPOKEN_CHARS,
{
    proof {
        lemma_truncated_bounded(text@);
    }
    let n = text.unicode_len();
    if n > MAX_SPOKEN_CHARS {
        String::from_str(text.substring_char(0, KEPT_CHARS)).concat(OMISSION_MARKER)
    } else {
        String::from_str(text)
    }
}

/// A text never exceeds sixty characters after truncation; one longer than
/// sixty comes out at exactly sixty and ends with the omission marker.
pub proof fn lemma_truncated_bounded(t: Seq<char>)
    ensures
        truncated(t).len() <= MAX_SPOKEN_CHARS,
        t.len() > MAX_SPOKEN_CHARS ==> truncated(t).len() == MAX_SPOKEN_CHARS && truncated(
            t,
        ).subrange(KEPT_CHARS as int, MAX_SPOKEN_CHARS as int) == OMISSION_MARKER@,
{
    reveal_strlit("、以下略");
    if t.len() > MAX_SPOKEN_CHARS {
        let r = truncated(t);
        assert(r.subrange(KEPT_CHARS as int, MAX_SPOKEN_CHARS as int) =~= OMISSION_MARKER@);
    }
}

/// The message after markup removal, custom emoji names and the cleanup
/// stages: what the dictionary is applied to.
pub open spec fn speakable(t: Seq<char>) -> Seq<char> {
    processed(custom_emojis_replaced(markdown_plain(t)))
}

/// The text read aloud for a message whose mentions are already resolved,
/// given the server's dictionary snapshot.
pub open spec fn read_text(content: Seq<char>, entries: Seq<(Seq<char>, Seq<char>)>) -> Seq<char> {
    truncated(dict_rewrite(entries, speakable(content)))
}

/// Builds the text to read aloud: markup stripped, custom emojis named,
/// cleaned, English fixed, the dictionary applied, and cut to sixty
/// characters. An empty result means that nothing is to be read.
pub fn build_read_text(content: &str, entries: &Vec<(String, String)>) -> (r: Result<
    String,
    DictionaryError,
>)
    ensures
        r is Ok ==> r->Ok_0@ == read_text(content@, entries_view(entries@)),
        r is Ok ==> r->Ok_0@.len() <= MAX_SPOKEN_CHARS,
        r is Err ==> r == Err::<String, DictionaryError>(DictionaryError::Build),
        r is Ok <==> dictionary_usable(entries_view(entries@)),
{
    let plain = render_plain_markdown(content);
    let named = replace_custom_emojis(&plain);
    let cleaned = improved_text_processing(&named);
    let rewritten = replace_words_on_dict(entries, &cleaned)?;
    Ok(truncate_for_speech(&rewritten))
}

} // verus!
