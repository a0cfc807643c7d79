//! Slash and prefix commands: their model and how they are parsed.
use crate::dictionary::strings_view;
use crate::prefix::{lower_of, lowercase};
use crate::voice::{contains_seq, str_contains};
use vstd::prelude::*;

verus! {

#[derive(Debug, Clone)]
pub struct DictAddOption {
    pub word: String,
    pub read_as: String,
}

#[derive(Debug, Clone)]
pub struct DictRemoveOption {
    pub word: String,
}

#[derive(Debug, Clone, Copy, PartialEq, Eq, Structural)]
pub struct TimeChannelOption {
    pub channel_id: u64,
}

/// A slash command.
#[derive(Debug, Clone)]
pub enum Command {
    VoiceToggle,
    Skip,
    DictAdd(DictAddOption),
    DictRemove(DictRemoveOption),
    DictList,
    Help,
    TimeToggle,
    TimeChannel(TimeChannelOption),
    Unknown,
}

/// A command with its texts seen as character sequences.
pub enum CommandView {
    VoiceToggle,
    Skip,
    DictAdd(Seq<char>, Seq<char>),
    DictRemove(Seq<char>),
    DictList,
    Help,
    TimeToggle,
    TimeChannel(u64),
    Unknown,
}

impl View for Command {
    type V = CommandView;

    open spec fn view(&self) -> CommandView {
        match self {
            Command::VoiceToggle => CommandView::VoiceToggle,
            Command::Skip => CommandView::Skip,
            Command::DictAdd(o) => CommandView::DictAdd(o.word@, o.read_as@),
            Command::DictRemove(o) => CommandView::DictRemove(o.word@),
            Command::DictList => CommandView::DictList,
            Command::Help => CommandView::Help,
            Command::TimeToggle => CommandView::TimeToggle,
            Command::TimeChannel(o) => CommandView::TimeChannel(o.channel_id),
            Command::Unknown => CommandView::Unknown,
        }
    }
}

/// The resolved value of a command option.
#[derive(Debug, Clone)]
pub enum OptionValue {
    Str(String),
    Channel(u64),
    Other,
}

/// An option of a subcommand.
#[derive(Debug, Clone)]
pub struct SubOption {
    pub name: String,
    pub resolved: Option<OptionValue>,
}

/// A subcommand (or top-level option) with its options.
#[derive(Debug, Clone)]
pub struct CommandOption {
    pub name: String,
    pub options: Vec<SubOption>,
}

/// An invoked slash command: its name and options.
#[derive(Debug, Clone)]
pub struct CommandInput {
    pub name: String,
    pub options: Vec<CommandOption>,
}

/// The text of the `i`-th option, if it is there and holds a string.
pub open spec fn string_at(opts: Seq<SubOption>, i: int) -> Option<Seq<char>> {
    if 0 <= i < opts.len() {
        match opts[i].resolved {
            Some(OptionValue::Str(s)) => Some(s@),
            _ => None,
        }
    } else {
        None
    }
}

pub open spec fn parse_dict_spec(cmd: CommandInput) -> CommandView {
    if cmd.options.len() == 0 {
        CommandView::Unknown
    } else {
        let o = cmd.options@[0];
        if o.name@ == "add"@ {
            match (string_at(o.options@, 0), string_at(o.options@, 1)) {
                (Some(w), Some(r)) => CommandView::DictAdd(w, r),
                _ => CommandView::Unknown,
            }
        } else if o.name@ == "remove"@ {
            match string_at(o.options@, 0) {
                Some(w) => CommandView::DictRemove(w),
                None => CommandView::Unknown,
            }
        } else if o.name@ == "list"@ {
            CommandView::DictList
        } else {
            CommandView::Unknown
        }
    }
}

pub open spec fn parse_time_spec(cmd: CommandInput) -> CommandView {
    if cmd.options.len() == 0 {
        CommandView::TimeToggle
    } else {
        let o = cmd.options@[0];
        if o.name@ == "toggle"@ {
            CommandView::TimeToggle
        } else if o.name@ == "channel"@ {
            if o.options.len() > 0 {
                match o.options@[0].resolved {
                    Some(OptionValue::Channel(id)) => CommandView::TimeChannel(id),
                    _ => CommandView::Unknown,
                }
            } else {
                CommandView::Unknown
            }
        } else {
            CommandView::Unknown
        }
    }
}

/// The command that an invocation names.
pub open spec fn parse_spec(cmd: CommandInput) -> CommandView {
    if cmd.name@ == "v"@ {
        CommandView::VoiceToggle
    } else if cmd.name@ == "skip"@ {
        CommandView::Skip
    } else if cmd.name@ == "dict"@ {
        parse_dict_spec(cmd)
    } else if cmd.name@ == "help"@ {
        CommandView::Help
    } else if cmd.name@ == "time"@ {
        parse_time_spec(cmd)
    } else {
        CommandView::Unknown
    }
}

/// Whether `s` is exactly `lit`.
fn same_text(s: &String, lit: &str) -> (r: bool)
    ensures
        r == (s@ == lit@),
{
    *s == String::from_str(lit)
}

fn string_option(opts: &Vec<SubOption>, i: usize) -> (r: Option<String>)
    ensures
        r matches Some(s) ==> string_at(opts@, i as int) == Some(s@),
        r is None ==> string_at(opts@, i as int) is None,
{
    if i < opts.len() {
        match &opts[i].resolved {
            Some(OptionValue::Str(s)) => Some(s.clone()),
            _ => None,
        }
    } else {
        None
    }
}

fn parse_dict(cmd: &CommandInput) -> (r: Command)
    ensures
        r@ == parse_dict_spec(*cmd),
{
    if cmd.options.len() == 0 {
        return Command::Unknown;
    }
    let o = &cmd.options[0];
    if same_text(&o.name, "add") {
        match (string_option(&o.options, 0), string_option(&o.options, 1)) {
            (Some(word), Some(read_as)) => Command::DictAdd(DictAddOption { word, read_as }),
            _ => Command::Unknown,
        }
    } else if same_text(&o.name, "remove") {
        match string_option(&o.options, 0) {
            Some(word) => Command::DictRemove(DictRemoveOption { word }),
            None => Command::Unknown,
        }
    } else if same_text(&o.name, "list") {
        Command::DictList
    } else {
        Command::Unknown
    }
}

fn parse_time(cmd: &CommandInput) -> (r: Command)
    ensures
        r@ == parse_time_spec(*cmd),
{
    if cmd.options.len() == 0 {
        return Command::TimeToggle;
    }
    let o = &cmd.options[0];
    if same_text(&o.name, "toggle") {
        Command::TimeToggle
    } else if same_text(&o.name, "channel") {
        if o.options.len() > 0 {
            match &o.options[0].resolved {
                Some(OptionValue::Channel(id)) => Command::TimeChannel(
                    TimeChannelOption { channel_id: *id },
                ),
                _ => Command::Unknown,
            }
        } else {
            Command::Unknown
        }
    } else {
        Command::Unknown
    }
}

/// Reads the command that a slash-command invocation names.
pub fn parse(cmd: &CommandInput) -> (r: Command)
    ensures
        r@ == parse_spec(*cmd),
{
    if same_text(&cmd.name, "v") {
        Command::VoiceToggle
    } else if same_text(&cmd.name, "skip") {
        Command::Skip
    } else if same_text(&cmd.name, "dict") {
        parse_dict(cmd)
    } else if same_text(&cmd.name, "help") {
        Command::Help
    } else if same_text(&cmd.name, "time") {
        parse_time(cmd)
    } else {
        Command::Unknown
    }
}

/// The text of the first option named `name`, if that option holds a string.
pub open spec fn named_string(opts: Seq<SubOption>, name: Seq<char>) -> Option<Seq<char>>
    decreases opts.len(),
{
    if opts.len() == 0 {
        None
    } else if opts[0].name@ == name {
        string_at(opts, 0)
    } else {
        named_string(opts.drop_first(), name)
    }
}

fn find_string_option(opts: &Vec<SubOption>, name: &str) -> (r: Option<String>)
    ensures
        r matches Some(s) ==> named_string(opts@, name@) == Some(s@),
        r is None ==> named_string(opts@, name@) is None,
{
    let mut i: usize = 0;
    assert(opts@.subrange(0, opts.len() as int) == opts@);
    while i < opts.len()
        invariant
            i <= opts.len(),
            named_string(opts@, name@) == named_string(opts@.subrange(i as int, opts.len() as int), name@),
        decreases opts.len() - i,
    {
        let ghost rest = opts@.subrange(i as int, opts.len() as int);
        assert(rest[0] == opts@[i as int]);
        assert(rest.drop_first() == opts@.subrange(i + 1, opts.len() as int));
        if opts[i].name == String::from_str(name) {
            assert(string_at(rest, 0) == string_at(opts@, i as int));
            return string_option(opts, i);
        }
        i += 1;
    }
    None
}

/// A required option that an invocation lacks.
#[derive(Debug, Clone, Copy, PartialEq, Eq, Structural)]
pub enum MissingOption {
    Word,
    ReadAs,
}

/// What a slash-command invocation asks for.
#[derive(Debug, Clone)]
pub enum SlashAction {
    Voice,
    Skip,
    TimeToggle,
    TimeAudioSet(String),
    /// `audio_set` without a URL option.
    TimeAudioUrlMissing,
    /// `audio_set` whose URL option is not text.
    TimeAudioUrlInvalid,
    TimeAudioClear,
    DictAdd { word: String, read_as: String },
    DictRemove(String),
    DictList,
    DictMissingSubcommand,
    Missing(MissingOption),
    UnsupportedSubcommand,
    Autojoin,
    Help,
    Unsupported,
}

/// A slash action with its texts seen as character sequences.
pub enum SlashView {
    Voice,
    Skip,
    TimeToggle,
    TimeAudioSet(Seq<char>),
    TimeAudioUrlMissing,
    TimeAudioUrlInvalid,
    TimeAudioClear,
    DictAdd(Seq<char>, Seq<char>),
    DictRemove(Seq<char>),
    DictList,
    DictMissingSubcommand,
    Missing(MissingOption),
    UnsupportedSubcommand,
    Autojoin,
    Help,
    Unsupported,
}

impl View for SlashAction {
    type V = SlashView;

    open spec fn view(&self) -> SlashView {
        match self {
            SlashAction::Voice => SlashView::Voice,
            SlashAction::Skip => SlashView::Skip,
            SlashAction::TimeToggle => SlashView::TimeToggle,
            SlashAction::TimeAudioSet(u) => SlashView::TimeAudioSet(u@),
            SlashAction::TimeAudioUrlMissing => SlashView::TimeAudioUrlMissing,
            SlashAction::TimeAudioUrlInvalid => SlashView::TimeAudioUrlInvalid,
            SlashAction::TimeAudioClear => SlashView::TimeAudioClear,
            SlashAction::DictAdd { word, read_as } => SlashView::DictAdd(word@, read_as@),
            SlashAction::DictRemove(w) => SlashView::DictRemove(w@),
            SlashAction::DictList => SlashView::DictList,
            SlashAction::DictMissingSubcommand => SlashView::DictMissingSubcommand,
            SlashAction::Missing(m) => SlashView::Missing(*m),
            SlashAction::UnsupportedSubcommand => SlashView::UnsupportedSubcommand,
            SlashAction::Autojoin => SlashView::Autojoin,
            SlashAction::Help => SlashView::Help,
            SlashAction::Unsupported => SlashView::Unsupported,
        }
    }
}

/// `/time`: the first option names the subcommand, `toggle` when absent;
/// `audio_set` takes its URL from its first option.
pub open spec fn slash_time_spec(cmd: CommandInput) -> SlashView {
    let sub = if cmd.options.len() > 0 {
        cmd.options@[0].name@
    } else {
        "toggle"@
    };
    if sub == "toggle"@ {
        SlashView::TimeToggle
    } else if sub == "audio_set"@ {
        let o = cmd.options@[0];
        if o.options.len() == 0 {
            SlashView::TimeAudioUrlMissing
        } else {
            match string_at(o.options@, 0) {
                Some(u) => SlashView::TimeAudioSet(u),
                None => SlashView::TimeAudioUrlInvalid,
            }
        }
    } else if sub == "audio_clear"@ {
        SlashView::TimeAudioClear
    } else {
        SlashView::UnsupportedSubcommand
    }
}

/// `/dict`: `add` and `remove` take their texts from the options named
/// `word` and `read_as`.
pub open spec fn slash_dict_spec(cmd: CommandInput) -> SlashView {
    if cmd.options.len() == 0 {
        SlashView::DictMissingSubcommand
    } else {
        let o = cmd.options@[0];
        if o.name@ == "add"@ {
            match (named_string(o.options@, "word"@), named_string(o.options@, "read_as"@)) {
                (Some(w), Some(r)) => SlashView::DictAdd(w, r),
                (None, _) => SlashView::Missing(MissingOption::Word),
                _ => SlashView::Missing(MissingOption::ReadAs),
            }
        } else if o.name@ == "remove"@ {
            match named_string(o.options@, "word"@) {
                Some(w) => SlashView::DictRemove(w),
                None => SlashView::Missing(MissingOption::Word),
            }
        } else if o.name@ == "list"@ {
            SlashView::DictList
        } else {
            SlashView::UnsupportedSubcommand
        }
    }
}

/// What an invocation of the registered slash commands asks for.
pub open spec fn slash_spec(cmd: CommandInput) -> SlashView {
    if cmd.name@ == "v"@ {
        SlashView::Voice
    } else if cmd.name@ == "s"@ {
        SlashView::Skip
    } else if cmd.name@ == "time"@ {
        slash_time_spec(cmd)
    } else if cmd.name@ == "dict"@ {
        slash_dict_spec(cmd)
    } else if cmd.name@ == "autojoin"@ {
        SlashView::Autojoin
    } else if cmd.name@ == "help"@ {
        SlashView::Help
    } else {
        SlashView::Unsupported
    }
}

fn route_time(cmd: &CommandInput) -> (r: SlashAction)
    ensures
        r@ == slash_time_spec(*cmd),
{
    if cmd.options.len() == 0 {
        return SlashAction::TimeToggle;
    }
    let o = &cmd.options[0];
    if same_text(&o.name, "toggle") {
        SlashAction::TimeToggle
    } else if same_text(&o.name, "audio_set") {
        if o.options.len() == 0 {
            SlashAction::TimeAudioUrlMissing
        } else {
            match string_option(&o.options, 0) {
                Some(u) => SlashAction::TimeAudioSet(u),
                None => SlashAction::TimeAudioUrlInvalid,
            }
        }
    } else if same_text(&o.name, "audio_clear") {
        SlashAction::TimeAudioClear
    } else {
        SlashAction::UnsupportedSubcommand
    }
}

fn route_dict(cmd: &CommandInput) -> (r: SlashAction)
    ensures
        r@ == slash_dict_spec(*cmd),
{
    if cmd.options.len() == 0 {
        return SlashAction::DictMissingSubcommand;
    }
    let o = &cmd.options[0];
    if same_text(&o.name, "add") {
        match find_string_option(&o.options, "word") {
            None => SlashAction::Missing(MissingOption::Word),
            Some(word) => match find_string_option(&o.options, "read_as") {
                Some(read_as) => SlashAction::DictAdd { word, read_as },
                None => SlashAction::Missing(MissingOption::ReadAs),
            },
        }
    } else if same_text(&o.name, "remove") {
        match find_string_option(&o.options, "word") {
            Some(word) => SlashAction::DictRemove(word),
            None => SlashAction::Missing(MissingOption::Word),
        }
    } else if same_text(&o.name, "list") {
        SlashAction::DictList
    } else {
        SlashAction::UnsupportedSubcommand
    }
}

/// Decides what a slash-command invocation asks for.
pub fn route_slash(cmd: &CommandInput) -> (r: SlashAction)
    ensures
        r@ == slash_spec(*cmd),
{
    if same_text(&cmd.name, "v") {
        SlashAction::Voice
    } else if same_text(&cmd.name, "s") {
        SlashAction::Skip
    } else if same_text(&cmd.name, "time") {
        route_time(cmd)
    } else if same_text(&cmd.name, "dict") {
        route_dict(cmd)
    } else if same_text(&cmd.name, "autojoin") {
        SlashAction::Autojoin
    } else if same_text(&cmd.name, "help") {
        SlashAction::Help
    } else {
        SlashAction::Unsupported
    }
}

/// The most autocomplete suggestions offered.
pub const MAX_SUGGESTIONS: usize = 25;

/// A word is suggested when the query is empty or its lowercase form
/// contains the lowercase query.
pub open spec fn suggested(word: Seq<char>, lower_query: Seq<char>) -> bool {
    lower_query.len() == 0 || contains_seq(lower_of(word), lower_query)
}

/// The suggested words among `words`, in their order, at most `limit`.
pub open spec fn suggestions(words: Seq<Seq<char>>, lower_query: Seq<char>, limit: nat) -> Seq<Seq<char>>
    decreases words.len(),
{
    if words.len() == 0 || limit == 0 {
        Seq::empty()
    } else if suggested(words[0], lower_query) {
        seq![words[0]] + suggestions(words.drop_first(), lower_query, (limit - 1) as nat)
    } else {
        suggestions(words.drop_first(), lower_query, limit)
    }
}

/// Offers dictionary words for autocompletion: those that `suggested`
/// keeps for `query`, in the order given, at most `MAX_SUGGESTIONS`.
pub fn autocomplete_suggestions(words: &Vec<String>, query: &str) -> (r: Vec<String>)
    ensures
        strings_view(r@) == suggestions(strings_view(words@), lower_of(query@), MAX_SUGGESTIONS as nat),
{
    let lower_query = lowercase(query);
    let empty_query = lower_query.as_str().is_empty();
    let mut r: Vec<String> = Vec::new();
    let mut i: usize = 0;
    assert(strings_view(words@).subrange(0, words.len() as int) == strings_view(words@));
    assert(strings_view(r@) + suggestions(strings_view(words@), lower_of(query@), MAX_SUGGESTIONS as nat)
        =~= suggestions(strings_view(words@), lower_of(query@), MAX_SUGGESTIONS as nat));
    while i < words.len() && r.len() < MAX_SUGGESTIONS
        invariant
            i <= words.len(),
            r.len() <= MAX_SUGGESTIONS,
            lower_query@ == lower_of(query@),
            empty_query == (lower_query@.len() == 0),
            suggestions(strings_view(words@), lower_of(query@), MAX_SUGGESTIONS as nat)
                == strings_view(r@) + suggestions(
                strings_view(words@).subrange(i as int, words.len() as int),
                lower_of(query@),
                (MAX_SUGGESTIONS - r.len()) as nat,
            ),
        decreases words.len() - i,
    {
        let ghost rest = strings_view(words@).subrange(i as int, words.len() as int);
        assert(rest[0] == words@[i as int]@);
        assert(rest.drop_first() == strings_view(words@).subrange(i + 1, words.len() as int));
        let keep = empty_query || str_contains(lowercase(words[i].as_str()).as_str(), lower_query.as_str());
        if keep {
            let ghost before = r@;
            r.push(words[i].clone());
            assert(strings_view(r@) =~= strings_view(before).push(words@[i as int]@));
            assert(strings_view(r@) =~= strings_view(before) + seq![words@[i as int]@]);
        }
        i += 1;
    }
    proof {
        let rest = strings_view(words@).subrange(i as int, words.len() as int);
        if i == words.len() {
            assert(rest.len() == 0);
        }
        assert(suggestions(rest, lower_of(query@), (MAX_SUGGESTIONS - r.len()) as nat) =~= Seq::empty());
        assert(strings_view(r@) + Seq::<Seq<char>>::empty() =~= strings_view(r@));
    }
    r
}

/// The longest dictionary listing (in bytes of JSON) that is shown.
pub const MAX_LISTING_BYTES: usize = 1900;

pub const LISTING_TOO_LONG: &'static str = "件数が多すぎるため表示できません。登録内容を絞ってください。";

/// The reply that lists a dictionary given as JSON: the JSON in a code
/// block, or a notice when it is longer than `MAX_LISTING_BYTES`.
pub fn dict_list_message(json: &str) -> (r: String)
    ensures
        json.len() <= MAX_LISTING_BYTES ==> r@ == "```json\n"@ + json@ + "\n```"@,
        json.len() > MAX_LISTING_BYTES ==> r@ == LISTING_TOO_LONG@,
{
    if json.len() <= MAX_LISTING_BYTES {
        String::from_str("```json\n").concat(json).concat("\n```")
    } else {
        String::from_str(LISTING_TOO_LONG)
    }
}
} // verus!
