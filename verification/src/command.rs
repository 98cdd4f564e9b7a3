//! The command line of the console: how a line falls into words, which
//! command a word names, and which records a list of indexes means.
use vstd::prelude::*;
use vstd::string::*;
use crate::error::{NSError, NSResult};
use crate::text::{same_text, to_chars};

verus! {

/// What a pattern finds in a text, as the `regex` crate defines it: for
/// each match from left to right its groups, the whole match first; a group
/// that took no part is missing. `None` stands for a pattern that the
/// crate does not accept.
pub uninterp spec fn regex_captures(pattern: Seq<char>, text: Seq<char>) -> Option<
    Seq<Seq<Option<Seq<char>>>>,
>;

/// The text of a group, for contracts.
pub open spec fn group_text(group: Option<String>) -> Option<Seq<char>> {
    match group {
        Some(text) => Some(text@),
        None => None,
    }
}

/// The texts of all groups of all matches, for contracts.
pub open spec fn found_view(found: Seq<Vec<Option<String>>>) -> Seq<Seq<Option<Seq<char>>>> {
    found.map_values(|row: Vec<Option<String>>| row@.map_values(|g: Option<String>| group_text(g)))
}

/// `regex::Regex::new` and `Regex::captures_iter`, with every group of
/// every match copied out by `Captures::iter` and `Match::as_str`. The
/// contract gives the result its name; an error of `Regex::new` comes back
/// as it is.
#[verifier::external_body]
fn captures(pattern: &str, text: &str) -> (r: Result<Vec<Vec<Option<String>>>, regex::Error>)
    ensures
        match r {
            Ok(found) => regex_captures(pattern@, text@) == Some(found_view(found@)),
            Err(_) => regex_captures(pattern@, text@) is None,
        },
{
    let re = regex::Regex::new(pattern)?;
    Ok(
        re.captures_iter(text).map(
            |c| c.iter().map(|g| g.map(|m| m.as_str().to_string())).collect(),
        ).collect(),
    )
}

/// The pattern for the words of a line: what stands between two double
/// quotes, or a run of characters that are not white space.
pub open spec fn word_pattern() -> Seq<char> {
    "\"([^\"]*)\"|(\\S+)"@
}

/// The pattern for a range of places, as in `3-7`.
pub open spec fn range_pattern() -> Seq<char> {
    "([0-9]+)-([0-9]+)"@
}

/// The pattern for a single place.
pub open spec fn single_pattern() -> Seq<char> {
    "\\d+"@
}

/// The word that one match of the word pattern stands for: its first
/// group, else its second.
pub open spec fn word_of(row: Seq<Option<Seq<char>>>) -> Option<Seq<char>> {
    if row.len() > 1 && row[1] is Some {
        row[1]
    } else if row.len() > 2 && row[2] is Some {
        row[2]
    } else {
        None
    }
}

/// The words that the matches stand for, in order.
pub open spec fn words_of(found: Seq<Seq<Option<Seq<char>>>>) -> Seq<Seq<char>>
    decreases found.len(),
{
    if found.len() == 0 {
        Seq::empty()
    } else {
        let earlier = words_of(found.drop_last());
        match word_of(found.last()) {
            Some(word) => earlier.push(word),
            None => earlier,
        }
    }
}

/// The texts of a list of strings, for contracts.
pub open spec fn texts(words: Seq<String>) -> Seq<Seq<char>> {
    words.map_values(|w: String| w@)
}

/// The words that the matches of the word pattern stand for.
pub fn words(found: &Vec<Vec<Option<String>>>) -> (words: Vec<String>)
    ensures
        texts(words@) == words_of(found_view(found@)),
{
    let mut words: Vec<String> = Vec::new();
    let mut i: usize = 0;
    assert(found_view(found@).take(0) =~= Seq::empty());
    assert(texts(words@) =~= Seq::empty());
    while i < found.len()
        invariant
            i <= found.len(),
            texts(words@) == words_of(found_view(found@).take(i as int)),
        decreases found.len() - i,
    {
        let row = &found[i];
        proof {
            let all = found_view(found@);
            assert(all.take(i + 1).drop_last() =~= all.take(i as int));
            assert(all.take(i + 1).last() == all[i as int]);
            assert(all[i as int] == row@.map_values(|g: Option<String>| group_text(g)));
        }
        let ghost before = texts(words@);
        if row.len() > 1 && row[1].is_some() {
            let word = row[1].clone().unwrap();
            words.push(word);
            assert(texts(words@) =~= before.push(word@));
        } else if row.len() > 2 && row[2].is_some() {
            let word = row[2].clone().unwrap();
            words.push(word);
            assert(texts(words@) =~= before.push(word@));
        }
        i += 1;
    }
    assert(found_view(found@).take(i as int) =~= found_view(found@));
    words
}

/// Splits a line into words. A quoted passage is one word, without its
/// quotes.
pub fn split_line(line: &str) -> (r: NSResult<Vec<String>>)
    ensures
        match r {
            Ok(words) => regex_captures(word_pattern(), line@) matches Some(found) && texts(words@)
                == words_of(found),
            Err(e) => regex_captures(word_pattern(), line@) is None && e@.fatal,
        },
{
    match captures("\"([^\"]*)\"|(\\S+)", line) {
        Ok(found) => Ok(words(&found)),
        Err(e) => Err(NSError::from(e)),
    }
}

/// The first word of a line and the words after it; `None` for a line
/// without a word.
pub fn split_command(words: Vec<String>) -> (r: Option<(String, Vec<String>)>)
    ensures
        match r {
            Some((name, rest)) => words@.len() > 0 && name == words@[0] && rest@ == words@.skip(1),
            None => words@.len() == 0,
        },
{
    let mut rest = words;
    if rest.len() == 0 {
        return None;
    }
    let name = rest.remove(0);
    assert(rest@ =~= words@.skip(1));
    Some((name, rest))
}

/// The commands of the console.
#[derive(Debug, Clone, Copy, PartialEq, Eq, Structural)]
pub enum CommandKind {
    Help,
    Clear,
    Quit,
    StartGame,
    SetPath,
    Save,
    QuickSave,
    Overwrite,
    AutoSave,
    Load,
    QuickLoad,
    Log,
    ShortLog,
    Modify,
    Delete,
    QuickDelete,
    Lock,
    Unlock,
    Usage,
}

/// The command that a word names, by its name or one of its short forms.
pub open spec fn command_of(word: Seq<char>) -> Option<CommandKind> {
    if word == "help"@ || word == "h"@ {
        Some(CommandKind::Help)
    } else if word == "clear"@ || word == "cls"@ {
        Some(CommandKind::Clear)
    } else if word == "quit"@ || word == "q"@ || word == "exit"@ {
        Some(CommandKind::Quit)
    } else if word == "startgame"@ || word == "sg"@ {
        Some(CommandKind::StartGame)
    } else if word == "setpath"@ || word == "sp"@ {
        Some(CommandKind::SetPath)
    } else if word == "save"@ || word == "s"@ {
        Some(CommandKind::Save)
    } else if word == "qsave"@ || word == "qs"@ {
        Some(CommandKind::QuickSave)
    } else if word == "overwrite"@ || word == "ow"@ || word == "rsave"@ || word == "rs"@ {
        Some(CommandKind::Overwrite)
    } else if word == "asave"@ || word == "as"@ {
        Some(CommandKind::AutoSave)
    } else if word == "load"@ || word == "l"@ {
        Some(CommandKind::Load)
    } else if word == "qload"@ || word == "ql"@ {
        Some(CommandKind::QuickLoad)
    } else if word == "list"@ || word == "ls"@ || word == "log"@ || word == "lg"@ {
        Some(CommandKind::Log)
    } else if word == "slist"@ || word == "sl"@ || word == "slog"@ {
        Some(CommandKind::ShortLog)
    } else if word == "modify"@ || word == "mo"@ {
        Some(CommandKind::Modify)
    } else if word == "delete"@ || word == "d"@ || word == "del"@ {
        Some(CommandKind::Delete)
    } else if word == "qdelete"@ || word == "qd"@ || word == "qdel"@ {
        Some(CommandKind::QuickDelete)
    } else if word == "lock"@ || word == "lc"@ || word == "f"@ {
        Some(CommandKind::Lock)
    } else if word == "unlock"@ || word == "ul"@ || word == "uf"@ {
        Some(CommandKind::Unlock)
    } else if word == "usage"@ || word == "use"@ {
        Some(CommandKind::Usage)
    } else {
        None
    }
}

/// Finds the command that `word` names.
pub fn find_command(word: &str) -> (kind: Option<CommandKind>)
    ensures
        kind == command_of(word@),
{
    if same_text(word, "help") || same_text(word, "h") {
        Some(CommandKind::Help)
    } else if same_text(word, "clear") || same_text(word, "cls") {
        Some(CommandKind::Clear)
    } else if same_text(word, "quit") || same_text(word, "q") || same_text(word, "exit") {
        Some(CommandKind::Quit)
    } else if same_text(word, "startgame") || same_text(word, "sg") {
        Some(CommandKind::StartGame)
    } else if same_text(word, "setpath") || same_text(word, "sp") {
        Some(CommandKind::SetPath)
    } else if same_text(word, "save") || same_text(word, "s") {
        Some(CommandKind::Save)
    } else if same_text(word, "qsave") || same_text(word, "qs") {
        Some(CommandKind::QuickSave)
    } else if same_text(word, "overwrite") || same_text(word, "ow") || same_text(word, "rsave")
        || same_text(word, "rs") {
        Some(CommandKind::Overwrite)
    } else if same_text(word, "asave") || same_text(word, "as") {
        Some(CommandKind::AutoSave)
    } else if same_text(word, "load") || same_text(word, "l") {
        Some(CommandKind::Load)
    } else if same_text(word, "qload") || same_text(word, "ql") {
        Some(CommandKind::QuickLoad)
    } else if same_text(word, "list") || same_text(word, "ls") || same_text(word, "log")
        || same_text(word, "lg") {
        Some(CommandKind::Log)
    } else if same_text(word, "slist") || same_text(word, "sl") || same_text(word, "slog") {
        Some(CommandKind::ShortLog)
    } else if same_text(word, "modify") || same_text(word, "mo") {
        Some(CommandKind::Modify)
    } else if same_text(word, "delete") || same_text(word, "d") || same_text(word, "del") {
        Some(CommandKind::Delete)
    } else if same_text(word, "qdelete") || same_text(word, "qd") || same_text(word, "qdel") {
        Some(CommandKind::QuickDelete)
    } else if same_text(word, "lock") || same_text(word, "lc") || same_text(word, "f") {
        Some(CommandKind::Lock)
    } else if same_text(word, "unlock") || same_text(word, "ul") || same_text(word, "uf") {
        Some(CommandKind::Unlock)
    } else if same_text(word, "usage") || same_text(word, "use") {
        Some(CommandKind::Usage)
    } else {
        None
    }
}

/// Whether a character is one of the digits `0` to `9`.
pub open spec fn is_digit(c: char) -> bool {
    '0' <= c <= '9'
}

/// The value of a run of digits.
pub open spec fn digits_value(digits: Seq<char>) -> nat
    decreases digits.len(),
{
    if digits.len() == 0 {
        0
    } else {
        digits_value(digits.drop_last()) * 10 + (digits.last() as nat - '0' as nat) as nat
    }
}

/// The digits of a text that may begin with a plus sign.
pub open spec fn unsigned(text: Seq<char>) -> Seq<char> {
    if text.len() > 0 && text[0] == '+' {
        text.skip(1)
    } else {
        text
    }
}

/// Every character is a digit.
pub open spec fn all_digits(digits: Seq<char>) -> bool {
    forall|i: int| 0 <= i < digits.len() ==> is_digit(#[trigger] digits[i])
}

/// What a text says as a number: digits only and at least one, after one
/// plus sign if there is one.
pub open spec fn number_of(text: Seq<char>) -> Option<nat> {
    if unsigned(text).len() > 0 && all_digits(unsigned(text)) {
        Some(digits_value(unsigned(text)))
    } else {
        None
    }
}

/// What a text says as a number that the machine can hold.
pub open spec fn small_number_of(text: Seq<char>) -> Option<usize> {
    match number_of(text) {
        Some(value) => if value <= usize::MAX {
            Some(value as usize)
        } else {
            None
        },
        None => None,
    }
}

/// A longer run of digits has no smaller value than its beginning.
pub proof fn lemma_value_grows(digits: Seq<char>, n: int)
    requires
        0 <= n <= digits.len(),
    ensures
        digits_value(digits.take(n)) <= digits_value(digits),
    decreases digits.len() - n,
{
    if n < digits.len() {
        lemma_value_grows(digits, n + 1);
        assert(digits.take(n + 1).drop_last() =~= digits.take(n));
    } else {
        assert(digits.take(n) =~= digits);
    }
}

/// Reads a number. A text that is no number, or a number that does not fit,
/// gives `None`.
pub fn parse_number(text: &str) -> (n: Option<usize>)
    ensures
        n == small_number_of(text@),
{
    let chars = to_chars(text);
    let start: usize = if chars.len() > 0 && chars[0] == '+' {
        1
    } else {
        0
    };
    let ghost digits = unsigned(text@);
    assert(digits =~= chars@.skip(start as int));
    if chars.len() == start {
        return None;
    }
    let mut value: usize = 0;
    let mut i: usize = start;
    assert(digits.take(0) =~= Seq::<char>::empty());
    while i < chars.len()
        invariant
            start <= i <= chars.len(),
            chars@ == text@,
            digits == unsigned(text@),
            digits == chars@.skip(start as int),
            digits.len() > 0,
            forall|j: int| 0 <= j < i - start ==> is_digit(#[trigger] digits[j]),
            value == digits_value(digits.take(i - start)),
        decreases chars.len() - i,
    {
        let c = chars[i];
        assert(c == digits[i - start]);
        if !(c >= '0' && c <= '9') {
            assert(!is_digit(digits[i - start]));
            return None;
        }
        let d: usize = (c as u32 - '0' as u32) as usize;
        proof {
            let longer = digits.take(i - start + 1);
            assert(longer.drop_last() =~= digits.take(i - start));
            assert(longer.last() == c);
            assert(digits_value(longer) == value * 10 + d);
            lemma_value_grows(digits, i - start + 1);
        }
        match value.checked_mul(10) {
            Some(tens) => match tens.checked_add(d) {
                Some(next) => {
                    value = next;
                },
                None => {
                    return None;
                },
            },
            None => {
                return None;
            },
        }
        i += 1;
    }
    assert(digits.take(i - start) =~= digits);
    Some(value)
}

/// The place counted from zero for a place counted from one; none for 0.
pub fn to_index(place: usize) -> (index: Option<usize>)
    ensures
        index == if place >= 1 {
            Some((place - 1) as usize)
        } else {
            None
        },
{
    if place >= 1 {
        Some(place - 1)
    } else {
        None
    }
}

/// An empty text stands for nothing given.
pub fn optional_text(text: String) -> (given: Option<String>)
    ensures
        given == if text@.len() == 0 {
            None
        } else {
            Some(text)
        },
{
    if text.as_str().is_empty() {
        None
    } else {
        Some(text)
    }
}

/// The span of places, counted from zero, that two numbers of a range
/// stand for; none where either is no number, is 0 or does not fit.
pub open spec fn span_of(first: Option<Seq<char>>, last: Option<Seq<char>>) -> Option<
    (usize, usize),
> {
    match (first, last) {
        (Some(a), Some(b)) => match (small_number_of(a), small_number_of(b)) {
            (Some(x), Some(y)) => if x >= 1 && y >= 1 {
                Some(((x - 1) as usize, (y - 1) as usize))
            } else {
                None
            },
            _ => None,
        },
        _ => None,
    }
}

/// The span that one match stands for: a match of the range pattern by its
/// two groups, a match of the single pattern by itself.
pub open spec fn span_of_row(row: Seq<Option<Seq<char>>>, is_range: bool) -> Option<(usize, usize)> {
    if is_range {
        if row.len() > 2 {
            span_of(row[1], row[2])
        } else {
            None
        }
    } else {
        if row.len() > 0 {
            span_of(row[0], row[0])
        } else {
            None
        }
    }
}

/// The spans that the matches stand for, in order.
pub open spec fn spans_of(found: Seq<Seq<Option<Seq<char>>>>, is_range: bool) -> Seq<
    (usize, usize),
>
    decreases found.len(),
{
    if found.len() == 0 {
        Seq::empty()
    } else {
        let earlier = spans_of(found.drop_last(), is_range);
        match span_of_row(found.last(), is_range) {
            Some(span) => earlier.push(span),
            None => earlier,
        }
    }
}

fn span(first: &Option<String>, last: &Option<String>) -> (r: Option<(usize, usize)>)
    ensures
        r == span_of(group_text(*first), group_text(*last)),
{
    match (first, last) {
        (Some(a), Some(b)) => match (parse_number(a.as_str()), parse_number(b.as_str())) {
            (Some(x), Some(y)) => {
                if x >= 1 && y >= 1 {
                    Some((x - 1, y - 1))
                } else {
                    None
                }
            },
            _ => None,
        },
        _ => None,
    }
}

/// The spans that the matches of one item stand for; `spans` grows by them.
pub fn push_spans(found: &Vec<Vec<Option<String>>>, is_range: bool, spans: &mut Vec<(usize, usize)>)
    ensures
        final(spans)@ == old(spans)@ + spans_of(found_view(found@), is_range),
{
    let mut i: usize = 0;
    assert(found_view(found@).take(0) =~= Seq::empty());
    assert(spans@ =~= old(spans)@ + spans_of(found_view(found@).take(0), is_range));
    while i < found.len()
        invariant
            i <= found.len(),
            spans@ == old(spans)@ + spans_of(found_view(found@).take(i as int), is_range),
        decreases found.len() - i,
    {
        let row = &found[i];
        proof {
            let all = found_view(found@);
            assert(all.take(i + 1).drop_last() =~= all.take(i as int));
            assert(all.take(i + 1).last() == all[i as int]);
            assert(all[i as int] == row@.map_values(|g: Option<String>| group_text(g)));
        }
        let ghost before = spans@;
        let one = if is_range {
            if row.len() > 2 {
                span(&row[1], &row[2])
            } else {
                None
            }
        } else {
            if row.len() > 0 {
                span(&row[0], &row[0])
            } else {
                None
            }
        };
        match one {
            Some(s) => {
                spans.push(s);
                assert(spans@ =~= old(spans)@ + spans_of(
                    found_view(found@).take(i + 1),
                    is_range,
                ));
            },
            None => {},
        }
        i += 1;
    }
    assert(found_view(found@).take(i as int) =~= found_view(found@));
}

/// Some span holds `place`.
pub open spec fn in_spans(spans: Seq<(usize, usize)>, place: usize) -> bool {
    exists|k: int| 0 <= k < spans.len() && (#[trigger] spans[k]).0 <= place <= spans[k].1
}

/// The places below `n` that some span holds, in ascending order.
pub open spec fn places_upto(spans: Seq<(usize, usize)>, n: int) -> Seq<usize>
    decreases n,
{
    if n <= 0 {
        Seq::empty()
    } else {
        let rest = places_upto(spans, n - 1);
        if in_spans(spans, (n - 1) as usize) {
            rest.push((n - 1) as usize)
        } else {
            rest
        }
    }
}

fn holds(spans: &Vec<(usize, usize)>, place: usize) -> (r: bool)
    ensures
        r == in_spans(spans@, place),
{
    let mut k: usize = 0;
    while k < spans.len()
        invariant
            k <= spans.len(),
            forall|j: int| 0 <= j < k ==> !((#[trigger] spans@[j]).0 <= place <= spans@[j].1),
        decreases spans.len() - k,
    {
        if spans[k].0 <= place && place <= spans[k].1 {
            return true;
        }
        k += 1;
    }
    false
}

/// The places below `limit` that the spans hold: each once, in ascending
/// order.
pub fn places_within(spans: &Vec<(usize, usize)>, limit: usize) -> (places: Vec<usize>)
    ensures
        places@ == places_upto(spans@, limit as int),
{
    let mut places: Vec<usize> = Vec::new();
    let mut n: usize = 0;
    while n < limit
        invariant
            n <= limit,
            places@ == places_upto(spans@, n as int),
        decreases limit - n,
    {
        if holds(spans, n) {
            places.push(n);
        }
        n += 1;
    }
    places
}

/// Whether a text holds a hyphen.
pub fn has_hyphen(text: &str) -> (r: bool)
    ensures
        r == text@.contains('-'),
{
    let chars = to_chars(text);
    let mut i: usize = 0;
    while i < chars.len()
        invariant
            i <= chars.len(),
            chars@ == text@,
            forall|j: int| 0 <= j < i ==> text@[j] != '-',
        decreases chars.len() - i,
    {
        if chars[i] == '-' {
            return true;
        }
        i += 1;
    }
    false
}

/// The spans that one item of an index list stands for: an item with a
/// hyphen by its ranges, another item by its single places. `None` stands
/// for a pattern that was not accepted.
pub open spec fn item_spans(item: Seq<char>) -> Option<Seq<(usize, usize)>> {
    let is_range = item.contains('-');
    match regex_captures(
        if is_range {
            range_pattern()
        } else {
            single_pattern()
        },
        item,
    ) {
        Some(found) => Some(spans_of(found, is_range)),
        None => None,
    }
}

/// The spans of all items, in order; `None` if one of them has none.
pub open spec fn list_spans(items: Seq<Seq<char>>) -> Option<Seq<(usize, usize)>>
    decreases items.len(),
{
    if items.len() == 0 {
        Some(Seq::empty())
    } else {
        match (list_spans(items.drop_last()), item_spans(items.last())) {
            (Some(earlier), Some(spans)) => Some(earlier + spans),
            _ => None,
        }
    }
}

/// Reads a list of indexes as the user writes them, counted from one:
/// single places and ranges such as `3-7`. What comes back are the places
/// counted from zero that lie below `limit`, each once and in ascending
/// order. A number that is 0 or too large to hold names no place.
pub fn get_indexes_by_parameter(parameter: Vec<String>, limit: usize) -> (r: NSResult<Vec<usize>>)
    ensures
        match r {
            Ok(indexes) => list_spans(texts(parameter@)) matches Some(spans) && indexes@
                == places_upto(spans, limit as int),
            Err(e) => list_spans(texts(parameter@)) is None && e@.fatal,
        },
{
    let mut spans: Vec<(usize, usize)> = Vec::new();
    let mut i: usize = 0;
    assert(texts(parameter@).take(0) =~= Seq::empty());
    while i < parameter.len()
        invariant
            i <= parameter.len(),
            list_spans(texts(parameter@).take(i as int)) == Some(spans@),
        decreases parameter.len() - i,
    {
        let item = parameter[i].as_str();
        proof {
            let all = texts(parameter@);
            assert(all.take(i + 1).drop_last() =~= all.take(i as int));
            assert(all.take(i + 1).last() == item@);
        }
        let is_range = has_hyphen(item);
        let found = if is_range {
            captures("([0-9]+)-([0-9]+)", item)
        } else {
            captures("\\d+", item)
        };
        match found {
            Ok(found) => {
                push_spans(&found, is_range, &mut spans);
            },
            Err(e) => {
                proof {
                    lemma_list_spans_none(texts(parameter@), i as int);
                }
                return Err(NSError::from(e));
            },
        }
        i += 1;
    }
    assert(texts(parameter@).take(i as int) =~= texts(parameter@));
    Ok(places_within(&spans, limit))
}

/// Where one item has no spans, the list has none.
pub proof fn lemma_list_spans_none(items: Seq<Seq<char>>, i: int)
    requires
        0 <= i < items.len(),
        item_spans(items[i]) is None,
    ensures
        list_spans(items) is None,
    decreases items.len(),
{
    if i < items.len() - 1 {
        lemma_list_spans_none(items.drop_last(), i);
    }
}

} // verus!
