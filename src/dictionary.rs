//! Per-server pronunciation dictionary: leftmost-longest rewriting of a text.
use vstd::prelude::*;

verus! {

/// A dictionary entry viewed as plain character sequences: `(word, reading)`.
pub type EntryView = (Seq<char>, Seq<char>);

/// The character view of each `(word, reading)` pair.
pub open spec fn entries_view(e: Seq<(String, String)>) -> Seq<EntryView> {
    e.map_values(|p: (String, String)| (p.0@, p.1@))
}

/// The character view of each string.
pub open spec fn strings_view(s: Seq<String>) -> Seq<Seq<char>> {
    s.map_values(|x: String| x@)
}

pub open spec fn words_of(d: Seq<EntryView>) -> Seq<Seq<char>> {
    d.map_values(|p: EntryView| p.0)
}

pub open spec fn readings_of(d: Seq<EntryView>) -> Seq<Seq<char>> {
    d.map_values(|p: EntryView| p.1)
}

/// `w` occurs in `t` starting at its first character.
pub open spec fn is_prefix_of(w: Seq<char>, t: Seq<char>) -> bool {
    w.len() <= t.len() && t.subrange(0, w.len() as int) == w
}

/// Some entry of `d` has the word `w`.
pub open spec fn has_word(d: Seq<EntryView>, w: Seq<char>) -> bool {
    exists|i: int| 0 <= i < d.len() && #[trigger] d[i].0 == w
}

/// The snapshot as the matcher sees it: entries with an empty word are
/// ignored, and of several entries with one word only the first counts.
pub open spec fn kept(e: Seq<EntryView>) -> Seq<EntryView>
    decreases e.len(),
{
    if e.len() == 0 {
        Seq::empty()
    } else {
        let prev = kept(e.drop_last());
        let last = e.last();
        if last.0.len() > 0 && !has_word(prev, last.0) {
            prev.push(last)
        } else {
            prev
        }
    }
}

/// Words that are all non-empty and pairwise different.
pub open spec fn distinct_nonempty(words: Seq<Seq<char>>) -> bool {
    &&& forall|i: int| 0 <= i < words.len() ==> #[trigger] words[i].len() > 0
    &&& forall|i: int, j: int|
        0 <= i < j < words.len() ==> #[trigger] words[i] != #[trigger] words[j]
}

/// Among `words[k..]`, the index of the longest non-empty word that `t`
/// starts with; of equally long ones the first.
pub open spec fn best_match(words: Seq<Seq<char>>, t: Seq<char>, k: int) -> Option<int>
    decreases words.len() - k,
{
    if k < 0 || k >= words.len() {
        None
    } else {
        let rest = best_match(words, t, k + 1);
        if words[k].len() > 0 && is_prefix_of(words[k], t) && (rest is None
            || words[rest->0].len() <= words[k].len()) {
            Some(k)
        } else {
            rest
        }
    }
}

/// One left-to-right pass: where a word starts, the longest such word is
/// replaced by its reading and the pass goes on after it; elsewhere the
/// character is kept.
pub open spec fn rewrite(words: Seq<Seq<char>>, readings: Seq<Seq<char>>, t: Seq<char>) -> Seq<
    char,
>
    decreases t.len(),
{
    if t.len() == 0 {
        Seq::empty()
    } else {
        let m = best_match(words, t, 0);
        if m is Some && 0 < words[m->0].len() <= t.len() {
            readings[m->0] + rewrite(words, readings, t.subrange(words[m->0].len() as int, t.len() as int))
        } else {
            seq![t[0]] + rewrite(words, readings, t.subrange(1, t.len() as int))
        }
    }
}

/// The text that the dictionary snapshot `e` turns `t` into.
pub open spec fn dict_rewrite(e: Seq<EntryView>, t: Seq<char>) -> Seq<char> {
    rewrite(words_of(kept(e)), readings_of(kept(e)), t)
}

/// No non-empty word of `words` starts at any position of `t`.
pub open spec fn no_occurrence(words: Seq<Seq<char>>, t: Seq<char>) -> bool {
    forall|i: int, k: int|
        0 <= i <= t.len() && 0 <= k < words.len() && words[k].len() > 0 ==> !is_prefix_of(
            #[trigger] words[k],
            #[trigger] t.subrange(i, t.len() as int),
        )
}

/// The matcher could not be built from the snapshot.
#[derive(Debug, Clone, Copy, PartialEq, Eq, Structural)]
pub enum DictionaryError {
    Build,
}

/// Whether aho-corasick builds a leftmost-longest matcher from these
/// words; it fails only past its limits on states, patterns or pattern
/// length, which depend on the words alone.
pub uninterp spec fn matcher_builds(words: Seq<Seq<char>>) -> bool;

#[verifier::external_type_specification]
#[verifier::external_body]
pub struct ExBuildError(aho_corasick::BuildError);

/// Relies on aho_corasick's `AhoCorasickBuilder::build` with
/// `MatchKind::LeftmostLongest` and `AhoCorasick::replace_all`: every
/// non-overlapping match, leftmost first and longest at its start, is
/// replaced by the reading with the same index. `replace_all` panics unless
/// there is one reading per word.
#[verifier::external_body]
fn leftmost_longest_replace(words: &Vec<String>, readings: &Vec<String>, text: &str) -> (r: Result<
    String,
    aho_corasick::BuildError,
>)
    requires
        words.len() == readings.len(),
    ensures
        r is Ok == matcher_builds(strings_view(words@)),
        r is Ok && distinct_nonempty(strings_view(words@)) ==> r->Ok_0@ == rewrite(
            strings_view(words@),
            strings_view(readings@),
            text@,
        ),
{
    aho_corasick::AhoCorasickBuilder::new()
        .match_kind(aho_corasick::MatchKind::LeftmostLongest)
        .build(words)
        .map(|ac| ac.replace_all(text, readings))
}

proof fn lemma_kept_distinct(e: Seq<EntryView>)
    ensures
        distinct_nonempty(words_of(kept(e))),
    decreases e.len(),
{
    if e.len() > 0 {
        lemma_kept_distinct(e.drop_last());
        let prev = kept(e.drop_last());
        let last = e.last();
        if last.0.len() > 0 && !has_word(prev, last.0) {
            let w = words_of(prev.push(last));
            assert forall|i: int, j: int| 0 <= i < j < w.len() implies #[trigger] w[i]
                != #[trigger] w[j] by {
                if j == w.len() - 1 {
                    assert(prev[i].0 == w[i]);
                } else {
                    assert(w[i] == words_of(prev)[i]);
                    assert(w[j] == words_of(prev)[j]);
                }
            }
            assert forall|i: int| 0 <= i < w.len() implies #[trigger] w[i].len() > 0 by {
                if i < w.len() - 1 {
                    assert(w[i] == words_of(prev)[i]);
                }
            }
        }
    }
}

/// Splits the snapshot into the words and readings that the matcher is
/// built from (see `kept`).
fn prepare(entries: &Vec<(String, String)>) -> (r: (Vec<String>, Vec<String>))
    ensures
        r.0.len() == r.1.len(),
        strings_view(r.0@) == words_of(kept(entries_view(entries@))),
        strings_view(r.1@) == readings_of(kept(entries_view(entries@))),
{
    let mut words: Vec<String> = Vec::new();
    let mut readings: Vec<String> = Vec::new();
    let n = entries.len();
    let mut i: usize = 0;
    while i < n
        invariant
            n == entries.len(),
            i <= n,
            words.len() == readings.len(),
            strings_view(words@) == words_of(kept(entries_view(entries@.subrange(0, i as int)))),
            strings_view(readings@) == readings_of(
                kept(entries_view(entries@.subrange(0, i as int))),
            ),
        decreases n - i,
    {
        let ghost prefix = entries_view(entries@.subrange(0, i as int));
        let ghost prev = kept(prefix);
        let word = &entries[i].0;
        let mut found = false;
        let mut j: usize = 0;
        while j < words.len()
            invariant
                j <= words.len(),
                words.len() == readings.len(),
                strings_view(words@) == words_of(prev),
                found == exists|m: int| 0 <= m < j && #[trigger] prev[m].0 == word@,
            decreases words.len() - j,
        {
            assert(strings_view(words@).len() == words@.len());
            assert(strings_view(words@)[j as int] == words@[j as int]@);
            assert(words_of(prev)[j as int] == prev[j as int].0);
            if words[j] == *word {
                found = true;
            }
            j += 1;
        }
        let ghost next = entries_view(entries@.subrange(0, i as int + 1));
        assert(next.drop_last() == prefix);
        assert(next.last() == (word@, entries@[i as int].1@));
        assert(strings_view(words@).len() == words@.len());
        assert(words_of(prev).len() == prev.len());
        assert(found == has_word(prev, word@));
        let empty = word.as_str().is_empty();
        if !empty && !found {
            let ghost old_words = words@;
            let ghost old_readings = readings@;
            assert(kept(next) == prev.push((word@, entries@[i as int].1@)));
            words.push(word.clone());
            readings.push(entries[i].1.clone());
            assert(strings_view(words@) =~= strings_view(old_words).push(word@));
            assert(strings_view(readings@) =~= strings_view(old_readings).push(entries@[i as int].1@));
            assert(strings_view(words@) =~= words_of(kept(next)));
            assert(strings_view(readings@) =~= readings_of(kept(next)));
        } else {
            assert(kept(next) == prev);
        }
        i += 1;
    }
    assert(entries@.subrange(0, n as int) == entries@);
    (words, readings)
}

/// Whether the matcher for snapshot `e` is available: there is nothing to
/// match, or the matcher builds from the words that count.
pub open spec fn dictionary_usable(e: Seq<EntryView>) -> bool {
    kept(e).len() == 0 || matcher_builds(words_of(kept(e)))
}

/// Rewrites `text` with the dictionary snapshot `entries` in one
/// leftmost-longest pass. An empty snapshot leaves the text as it is; a
/// matcher that cannot be built is reported as an error.
pub fn replace_words_on_dict(entries: &Vec<(String, String)>, text: &str) -> (r: Result<
    String,
    DictionaryError,
>)
    ensures
        r is Ok ==> r->Ok_0@ == dict_rewrite(entries_view(entries@), text@),
        r is Err ==> r == Err::<String, DictionaryError>(DictionaryError::Build),
        r is Ok <==> dictionary_usable(entries_view(entries@)),
{
    let (words, readings) = prepare(entries);
    proof {
        lemma_kept_distinct(entries_view(entries@));
    }
    assert(strings_view(words@).len() == words@.len());
    assert(words_of(kept(entries_view(entries@))).len() == kept(entries_view(entries@)).len());
    if words.len() == 0 {
        proof {
            assert(words_of(kept(entries_view(entries@))) =~= Seq::empty());
            lemma_rewrite_empty(readings_of(kept(entries_view(entries@))), text@);
        }
        return Ok(String::from_str(text));
    }
    match leftmost_longest_replace(&words, &readings, text) {
        Ok(s) => Ok(s),
        Err(_) => Err(DictionaryError::Build),
    }
}

proof fn lemma_rewrite_empty(readings: Seq<Seq<char>>, t: Seq<char>)
    ensures
        rewrite(Seq::empty(), readings, t) == t,
    decreases t.len(),
{
    if t.len() > 0 {
        let words = Seq::<Seq<char>>::empty();
        assert(best_match(words, t, 0) is None);
        lemma_rewrite_empty(readings, t.subrange(1, t.len() as int));
        assert(seq![t[0]] + t.subrange(1, t.len() as int) == t);
    }
}

proof fn lemma_best_match_found(words: Seq<Seq<char>>, t: Seq<char>, k: int)
    ensures
        best_match(words, t, k) matches Some(m) ==> k <= m < words.len() && words[m].len() > 0
            && is_prefix_of(words[m], t),
    decreases words.len() - k,
{
    if 0 <= k < words.len() {
        lemma_best_match_found(words, t, k + 1);
    }
}

/// Two different words that a text both starts with differ in length.
proof fn lemma_prefixes_differ_in_length(a: Seq<char>, b: Seq<char>, t: Seq<char>)
    requires
        is_prefix_of(a, t),
        is_prefix_of(b, t),
        a != b,
    ensures
        a.len() != b.len(),
{
    if a.len() == b.len() {
        assert(a =~= b);
    }
}

proof fn lemma_best_after(words: Seq<Seq<char>>, t: Seq<char>, k: int, i: int)
    requires
        0 <= k < i,
        distinct_nonempty(words),
        is_prefix_of(words[k], t),
        forall|j: int|
            0 <= j < words.len() && is_prefix_of(#[trigger] words[j], t) ==> words[j].len()
                <= words[k].len(),
    ensures
        best_match(words, t, i) matches Some(m) ==> words[m].len() < words[k].len(),
{
    lemma_best_match_found(words, t, i);
    if let Some(m) = best_match(words, t, i) {
        lemma_prefixes_differ_in_length(words[m], words[k], t);
    }
}

proof fn lemma_best_before(words: Seq<Seq<char>>, t: Seq<char>, k: int, i: int)
    requires
        0 <= i <= k < words.len(),
        distinct_nonempty(words),
        is_prefix_of(words[k], t),
        forall|j: int|
            0 <= j < words.len() && is_prefix_of(#[trigger] words[j], t) ==> words[j].len()
                <= words[k].len(),
    ensures
        best_match(words, t, i) == Some(k),
    decreases k - i,
{
    if i == k {
        lemma_best_after(words, t, k, k + 1);
    } else {
        lemma_best_before(words, t, k, i + 1);
        if words[i].len() > 0 && is_prefix_of(words[i], t) {
            lemma_prefixes_differ_in_length(words[i], words[k], t);
        }
    }
}

/// Where a text starts with several words, the longest of them is replaced,
/// whatever the order of the entries.
pub proof fn lemma_longest_match_wins(
    words: Seq<Seq<char>>,
    readings: Seq<Seq<char>>,
    t: Seq<char>,
    k: int,
)
    requires
        0 <= k < words.len(),
        distinct_nonempty(words),
        is_prefix_of(words[k], t),
        forall|j: int|
            0 <= j < words.len() && is_prefix_of(#[trigger] words[j], t) ==> words[j].len()
                <= words[k].len(),
    ensures
        rewrite(words, readings, t) == readings[k] + rewrite(
            words,
            readings,
            t.subrange(words[k].len() as int, t.len() as int),
        ),
{
    lemma_best_before(words, t, k, 0);
}

/// A text in which no word of the dictionary occurs is left as it is.
pub proof fn lemma_rewrite_fixpoint(words: Seq<Seq<char>>, readings: Seq<Seq<char>>, t: Seq<char>)
    requires
        no_occurrence(words, t),
    ensures
        rewrite(words, readings, t) == t,
    decreases t.len(),
{
    if t.len() > 0 {
        lemma_best_match_found(words, t, 0);
        assert(t.subrange(0, t.len() as int) == t);
        let tail = t.subrange(1, t.len() as int);
        assert forall|i: int, k: int|
            0 <= i <= tail.len() && 0 <= k < words.len() && words[k].len() > 0 implies !is_prefix_of(
            #[trigger] words[k],
            #[trigger] tail.subrange(i, tail.len() as int),
        ) by {
            assert(tail.subrange(i, tail.len() as int) == t.subrange(i + 1, t.len() as int));
        }
        lemma_rewrite_fixpoint(words, readings, tail);
        assert(seq![t[0]] + tail == t);
    }
}

/// Rewriting a second time with the same snapshot changes nothing as long as
/// no word of the snapshot occurs in the once-rewritten text. (Where a
/// reading brings a word back in, a second pass rewrites it again.)
pub proof fn lemma_dict_rewrite_idempotent(e: Seq<EntryView>, t: Seq<char>)
    requires
        no_occurrence(words_of(kept(e)), dict_rewrite(e, t)),
    ensures
        dict_rewrite(e, dict_rewrite(e, t)) == dict_rewrite(e, t),
{
    lemma_rewrite_fixpoint(words_of(kept(e)), readings_of(kept(e)), dict_rewrite(e, t));
}

} // verus!
