//! Prefix commands typed in chat (`!v`, `!dict add word reading`, ...).
use crate::dictionary::strings_view;
use vstd::prelude::*;

verus! {

/// What `str::to_lowercase` gives for a text.
pub uninterp spec fn lower_of(s: Seq<char>) -> Seq<char>;

/// Relies on `str::to_lowercase`: the lowercase mapping of each character;
/// the result depends on the characters alone.
#[verifier::external_body]
pub(crate) fn lowercase(s: &str) -> (r: String)
    ensures
        r@ == lower_of(s@),
{
    s.to_lowercase()
}

/// The characters with the Unicode `White_Space` property.
pub open spec fn white_space(c: char) -> bool {
    ('\u{9}' <= c <= '\u{d}') || c == ' ' || c == '\u{85}' || c == '\u{a0}' || c == '\u{1680}' || (
    '\u{2000}' <= c <= '\u{200a}') || c == '\u{2028}' || c == '\u{2029}' || c == '\u{202f}' || c
        == '\u{205f}' || c == '\u{3000}'
}

/// Whether `c` is white space (as `char::is_whitespace` tells).
pub fn is_white_space(c: char) -> (r: bool)
    ensures
        r == white_space(c),
{
    ('\u{9}' <= c && c <= '\u{d}') || c == ' ' || c == '\u{85}' || c == '\u{a0}' || c == '\u{1680}'
        || ('\u{2000}' <= c && c <= '\u{200a}') || c == '\u{2028}' || c == '\u{2029}' || c
        == '\u{202f}' || c == '\u{205f}' || c == '\u{3000}'
}

/// Splitting `s` at white space: `done` holds the words finished so far,
/// `cur` the word being read.
pub open spec fn split_acc(s: Seq<char>, done: Seq<Seq<char>>, cur: Seq<char>) -> Seq<Seq<char>>
    decreases s.len(),
{
    if s.len() == 0 {
        if cur.len() > 0 {
            done.push(cur)
        } else {
            done
        }
    } else if white_space(s[0]) {
        split_acc(s.drop_first(), if cur.len() > 0 {
            done.push(cur)
        } else {
            done
        }, Seq::empty())
    } else {
        split_acc(s.drop_first(), done, cur.push(s[0]))
    }
}

/// The words of `s`: its maximal runs of characters other than white space.
pub open spec fn split_words(s: Seq<char>) -> Seq<Seq<char>> {
    split_acc(s, Seq::empty(), Seq::empty())
}

/// Splits `text` into its words.
pub fn words(text: &str) -> (r: Vec<String>)
    ensures
        strings_view(r@) == split_words(text@),
{
    let n = text.unicode_len();
    let mut done: Vec<String> = Vec::new();
    let mut start: usize = 0;
    let mut i: usize = 0;
    assert(text@.subrange(0, n as int) == text@);
    assert(text@.subrange(0, 0) =~= Seq::<char>::empty());
    assert(strings_view(done@) =~= Seq::<Seq<char>>::empty());
    while i < n
        invariant
            n == text@.len(),
            start <= i <= n,
            split_words(text@) == split_acc(
                text@.subrange(i as int, n as int),
                strings_view(done@),
                text@.subrange(start as int, i as int),
            ),
        decreases n - i,
    {
        let c = text.get_char(i);
        let ghost rest = text@.subrange(i as int, n as int);
        assert(rest[0] == c);
        assert(rest.drop_first() == text@.subrange(i + 1, n as int));
        if is_white_space(c) {
            if start < i {
                let ghost before = done@;
                done.push(String::from_str(text.substring_char(start, i)));
                assert(strings_view(done@) =~= strings_view(before).push(
                    text@.subrange(start as int, i as int),
                ));
            }
            start = i + 1;
            assert(text@.subrange(start as int, i + 1) =~= Seq::<char>::empty());
        } else {
            assert(text@.subrange(start as int, i + 1) =~= text@.subrange(
                start as int,
                i as int,
            ).push(c));
        }
        i += 1;
    }
    if start < n {
        let ghost before = done@;
        done.push(String::from_str(text.substring_char(start, n)));
        assert(strings_view(done@) =~= strings_view(before).push(
            text@.subrange(start as int, n as int),
        ));
    }
    done
}

/// `s` without its leading `!` characters.
pub open spec fn strip_bangs(s: Seq<char>) -> Seq<char>
    decreases s.len(),
{
    if s.len() > 0 && s[0] == '!' {
        strip_bangs(s.drop_first())
    } else {
        s
    }
}

/// The words joined with single spaces.
pub open spec fn join_spaces(ws: Seq<Seq<char>>) -> Seq<char>
    decreases ws.len(),
{
    if ws.len() == 0 {
        Seq::empty()
    } else if ws.len() == 1 {
        ws[0]
    } else {
        join_spaces(ws.drop_last()) + " "@ + ws.last()
    }
}

/// A prefix command.
#[derive(Debug, Clone)]
pub enum PrefixCommand {
    /// No command word after the prefix.
    Empty,
    Voice,
    Skip,
    TimeToggle,
    TimeAudioSet(String),
    TimeAudioSetUsage,
    TimeAudioClear,
    TimeUsage,
    Autojoin,
    DictAdd { word: String, read_as: String },
    DictAddUsage,
    DictRemove(String),
    DictRemoveUsage,
    DictList,
    DictUsage,
    Help,
    Unknown,
}

/// A prefix command with its texts seen as character sequences.
pub enum PrefixView {
    Empty,
    Voice,
    Skip,
    TimeToggle,
    TimeAudioSet(Seq<char>),
    TimeAudioSetUsage,
    TimeAudioClear,
    TimeUsage,
    Autojoin,
    DictAdd(Seq<char>, Seq<char>),
    DictAddUsage,
    DictRemove(Seq<char>),
    DictRemoveUsage,
    DictList,
    DictUsage,
    Help,
    Unknown,
}

impl View for PrefixCommand {
    type V = PrefixView;

    open spec fn view(&self) -> PrefixView {
        match self {
            PrefixCommand::Empty => PrefixView::Empty,
            PrefixCommand::Voice => PrefixView::Voice,
            PrefixCommand::Skip => PrefixView::Skip,
            PrefixCommand::TimeToggle => PrefixView::TimeToggle,
            PrefixCommand::TimeAudioSet(u) => PrefixView::TimeAudioSet(u@),
            PrefixCommand::TimeAudioSetUsage => PrefixView::TimeAudioSetUsage,
            PrefixCommand::TimeAudioClear => PrefixView::TimeAudioClear,
            PrefixCommand::TimeUsage => PrefixView::TimeUsage,
            PrefixCommand::Autojoin => PrefixView::Autojoin,
            PrefixCommand::DictAdd { word, read_as } => PrefixView::DictAdd(word@, read_as@),
            PrefixCommand::DictAddUsage => PrefixView::DictAddUsage,
            PrefixCommand::DictRemove(w) => PrefixView::DictRemove(w@),
            PrefixCommand::DictRemoveUsage => PrefixView::DictRemoveUsage,
            PrefixCommand::DictList => PrefixView::DictList,
            PrefixCommand::DictUsage => PrefixView::DictUsage,
            PrefixCommand::Help => PrefixView::Help,
            PrefixCommand::Unknown => PrefixView::Unknown,
        }
    }
}

/// `!time` with its arguments; no subcommand means `toggle`.
pub open spec fn time_spec(args: Seq<Seq<char>>) -> PrefixView {
    let sub = if args.len() > 0 {
        args[0]
    } else {
        "toggle"@
    };
    if sub == "toggle"@ {
        PrefixView::TimeToggle
    } else if sub == "audio"@ {
        let mode = if args.len() > 1 {
            args[1]
        } else {
            Seq::<char>::empty()
        };
        if mode == "set"@ {
            if args.len() > 2 {
                PrefixView::TimeAudioSet(args[2])
            } else {
                PrefixView::TimeAudioSetUsage
            }
        } else if mode == "clear"@ {
            PrefixView::TimeAudioClear
        } else {
            PrefixView::TimeUsage
        }
    } else {
        PrefixView::TimeUsage
    }
}

/// `!dict` with its arguments; the reading is every word after the entry's
/// word, joined by spaces.
pub open spec fn dict_spec(args: Seq<Seq<char>>) -> PrefixView {
    let sub = if args.len() > 0 {
        args[0]
    } else {
        Seq::<char>::empty()
    };
    if sub == "add"@ {
        if args.len() > 1 {
            let read_as = join_spaces(args.subrange(2, args.len() as int));
            if read_as.len() == 0 {
                PrefixView::DictAddUsage
            } else {
                PrefixView::DictAdd(args[1], read_as)
            }
        } else {
            PrefixView::DictAddUsage
        }
    } else if sub == "remove"@ {
        if args.len() > 1 {
            PrefixView::DictRemove(args[1])
        } else {
            PrefixView::DictRemoveUsage
        }
    } else if sub == "list"@ {
        PrefixView::DictList
    } else {
        PrefixView::DictUsage
    }
}

/// The command that a message starting with the prefix names: its first
/// word (leading `!` removed, lowercased) and the words after it.
pub open spec fn prefix_spec(content: Seq<char>) -> PrefixView {
    let ws = split_words(strip_bangs(content));
    if ws.len() == 0 {
        PrefixView::Empty
    } else {
        let c = lower_of(ws[0]);
        let args = ws.drop_first();
        if c == "v"@ {
            PrefixView::Voice
        } else if c == "s"@ {
            PrefixView::Skip
        } else if c == "time"@ {
            time_spec(args)
        } else if c == "autojoin"@ {
            PrefixView::Autojoin
        } else if c == "dict"@ {
            dict_spec(args)
        } else if c == "help"@ {
            PrefixView::Help
        } else {
            PrefixView::Unknown
        }
    }
}

fn same_text(s: &String, lit: &str) -> (r: bool)
    ensures
        r == (s@ == lit@),
{
    *s == String::from_str(lit)
}

fn join_from(ws: &Vec<String>, from: usize) -> (r: String)
    requires
        from <= ws.len(),
    ensures
        r@ == join_spaces(strings_view(ws@).subrange(from as int, ws.len() as int)),
{
    let mut r = String::new();
    let mut i = from;
    while i < ws.len()
        invariant
            from <= i <= ws.len(),
            r@ == join_spaces(strings_view(ws@).subrange(from as int, i as int)),
        decreases ws.len() - i,
    {
        let ghost prev = strings_view(ws@).subrange(from as int, i as int);
        let ghost next = strings_view(ws@).subrange(from as int, i + 1);
        assert(next.drop_last() == prev);
        assert(next.last() == ws@[i as int]@);
        if i == from {
            r = ws[i].clone();
        } else {
            r = r.concat(" ").concat(ws[i].as_str());
        }
        i += 1;
    }
    r
}

fn parse_time_args(args: &Vec<String>) -> (r: PrefixCommand)
    requires
        args.len() >= 1,
    ensures
        r@ == time_spec(strings_view(args@).drop_first()),
{
    let ghost a = strings_view(args@).drop_first();
    assert(strings_view(args@).len() == args.len());
    assert(a.len() == args.len() - 1);
    proof {
        reveal_strlit("set");
        reveal_strlit("clear");
        assert("set"@.len() == 3);
        assert("clear"@.len() == 5);
    }
    if args.len() < 2 || same_text(&args[1], "toggle") {
        return PrefixCommand::TimeToggle;
    }
    assert(a[0] == args@[1]@);
    if !same_text(&args[1], "audio") {
        return PrefixCommand::TimeUsage;
    }
    if args.len() < 3 {
        return PrefixCommand::TimeUsage;
    }
    assert(a[1] == args@[2]@);
    if same_text(&args[2], "set") {
        if args.len() > 3 {
            assert(a[2] == args@[3]@);
            PrefixCommand::TimeAudioSet(args[3].clone())
        } else {
            PrefixCommand::TimeAudioSetUsage
        }
    } else if same_text(&args[2], "clear") {
        PrefixCommand::TimeAudioClear
    } else {
        PrefixCommand::TimeUsage
    }
}

fn parse_dict_args(args: &Vec<String>) -> (r: PrefixCommand)
    requires
        args.len() >= 1,
    ensures
        r@ == dict_spec(strings_view(args@).drop_first()),
{
    let ghost a = strings_view(args@).drop_first();
    assert(strings_view(args@).len() == args.len());
    assert(a.len() == args.len() - 1);
    proof {
        reveal_strlit("add");
        reveal_strlit("remove");
        reveal_strlit("list");
        assert("add"@.len() == 3);
        assert("remove"@.len() == 6);
        assert("list"@.len() == 4);
    }
    if args.len() < 2 {
        return PrefixCommand::DictUsage;
    }
    assert(a[0] == args@[1]@);
    if same_text(&args[1], "add") {
        if args.len() > 2 {
            assert(a[1] == args@[2]@);
            let read_as = join_from(args, 3);
            assert(a.subrange(2, a.len() as int) =~= strings_view(args@).subrange(
                3,
                args.len() as int,
            ));
            if read_as.as_str().is_empty() {
                PrefixCommand::DictAddUsage
            } else {
                PrefixCommand::DictAdd { word: args[2].clone(), read_as }
            }
        } else {
            PrefixCommand::DictAddUsage
        }
    } else if same_text(&args[1], "remove") {
        if args.len() > 2 {
            assert(a[1] == args@[2]@);
            PrefixCommand::DictRemove(args[2].clone())
        } else {
            PrefixCommand::DictRemoveUsage
        }
    } else if same_text(&args[1], "list") {
        PrefixCommand::DictList
    } else {
        PrefixCommand::DictUsage
    }
}

/// Reads the prefix command of a message that starts with `!`.
pub fn parse_prefix_command(content: &str) -> (r: PrefixCommand)
    ensures
        r@ == prefix_spec(content@),
{
    let n = content.unicode_len();
    let mut i: usize = 0;
    assert(content@.subrange(0, n as int) == content@);
    while i < n && content.get_char(i) == '!'
        invariant
            n == content@.len(),
            i <= n,
            strip_bangs(content@) == strip_bangs(content@.subrange(i as int, n as int)),
        decreases n - i,
    {
        assert(content@.subrange(i as int, n as int).drop_first() == content@.subrange(
            i + 1,
            n as int,
        ));
        i += 1;
    }
    let rest = content.substring_char(i, n);
    let ws = words(rest);
    if ws.len() == 0 {
        return PrefixCommand::Empty;
    }
    let c = lowercase(ws[0].as_str());
    if same_text(&c, "v") {
        PrefixCommand::Voice
    } else if same_text(&c, "s") {
        PrefixCommand::Skip
    } else if same_text(&c, "time") {
        parse_time_args(&ws)
    } else if same_text(&c, "autojoin") {
        PrefixCommand::Autojoin
    } else if same_text(&c, "dict") {
        parse_dict_args(&ws)
    } else if same_text(&c, "help") {
        PrefixCommand::Help
    } else {
        PrefixCommand::Unknown
    }
}

} // verus!
