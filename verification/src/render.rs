//! How records and lists of records are shown as text.
use vstd::prelude::*;
use vstd::string::*;
use crate::output_manager::Severity;
use crate::save_infos::{AllInfos, Record, SingleSave};

verus! {

/// The decimal digit for a number below ten.
pub open spec fn digit_char(d: int) -> char {
    (48 + d) as char
}

/// A number in decimal, without leading zeros.
pub open spec fn decimal(n: nat) -> Seq<char>
    decreases n,
{
    if n < 10 {
        seq![digit_char(n as int)]
    } else {
        decimal(n / 10).push(digit_char((n % 10) as int))
    }
}

/// `n` copies of `c`.
pub open spec fn repeated(c: char, n: nat) -> Seq<char> {
    Seq::new(n, |i: int| c)
}

/// The width in columns that a text takes on a terminal, as
/// `unicode_width` computes it.
pub uninterp spec fn display_width(text: Seq<char>) -> usize;

/// `unicode_width::UnicodeWidthStr::width`. The contract gives the result
/// its name; the rules behind it fill pages.
#[verifier::external_body]
fn width_of(text: &str) -> (w: usize)
    ensures
        w == display_width(text@),
{
    unicode_width::UnicodeWidthStr::width(text)
}

/// A text of width `w` set in the middle of `width` columns between
/// dashes; where it does not fit, the text alone. Of an odd number of
/// dashes the right side gets one more.
pub open spec fn centered(text: Seq<char>, w: usize, width: usize) -> Seq<char> {
    if w >= width {
        text
    } else {
        let n = (width - w) as nat;
        repeated('-', n / 2) + text + repeated('-', n / 2 + n % 2)
    }
}

/// A text of width `w` filled up with blanks on the right to `width`
/// columns; where it does not fit, the text alone.
pub open spec fn padded(text: Seq<char>, w: usize, width: usize) -> Seq<char> {
    if w >= width {
        text
    } else {
        text + repeated(' ', (width - w) as nat)
    }
}

/// The line that lists one record: its place counted from one, its name
/// and its note.
pub open spec fn entry_line(index: usize, record: Record) -> Seq<char> {
    "["@ + decimal((index + 1) as nat) + "]  "@ + record.name + "\t\t"@ + record.note + "\n"@
}

/// The lines for the records at `indexes`, in that order; an index that
/// leads nowhere gives no line.
pub open spec fn listing(saves: Seq<Record>, indexes: Seq<usize>) -> Seq<char>
    decreases indexes.len(),
{
    if indexes.len() == 0 {
        Seq::empty()
    } else {
        listing(saves, indexes.drop_last()) + if indexes.last() < saves.len() {
            entry_line(indexes.last(), saves[indexes.last() as int])
        } else {
            Seq::empty()
        }
    }
}

/// One record as a line of text: date, time, name and note.
pub open spec fn save_text(record: Record) -> Seq<char> {
    record.date + "  "@ + record.time + "\t"@ + record.name + "\t\t\t"@ + record.note
}

/// The line of the log for the record at `index`.
pub open spec fn log_text(index: usize, record: Record) -> Seq<char> {
    "["@ + decimal((index + 1) as nat) + "] "@ + save_text(record) + "\n"@
}

/// Appends `n` in decimal.
pub fn push_decimal(n: u128, out: &mut String)
    ensures
        final(out)@ == old(out)@ + decimal(n as nat),
    decreases n,
{
    if n >= 10 {
        push_decimal(n / 10, out);
    }
    let digit: u8 = (n % 10) as u8;
    out.push((digit + 48u8) as char);
    assert(out@ =~= old(out)@ + decimal(n as nat));
}

/// Appends `n` copies of `c`.
pub fn push_repeated(c: char, n: usize, out: &mut String)
    ensures
        final(out)@ == old(out)@ + repeated(c, n as nat),
{
    let mut i: usize = 0;
    assert(out@ =~= old(out)@ + repeated(c, 0));
    while i < n
        invariant
            i <= n,
            out@ == old(out)@ + repeated(c, i as nat),
        decreases n - i,
    {
        out.push(c);
        i += 1;
        assert(out@ =~= old(out)@ + repeated(c, i as nat));
    }
}

/// Sets `s`, which takes `w` columns, in the middle of `width` columns.
pub fn pad_centered(s: &str, w: usize, width: usize) -> (text: String)
    ensures
        text@ == centered(s@, w, width),
{
    if w >= width {
        String::from_str(s)
    } else {
        let n = width - w;
        let mut text = String::new();
        push_repeated('-', n / 2, &mut text);
        text.append(s);
        push_repeated('-', n / 2 + n % 2, &mut text);
        assert(text@ =~= centered(s@, w, width));
        text
    }
}

/// Fills `s`, which takes `w` columns, up to `width` columns.
pub fn pad_right(s: &str, w: usize, width: usize) -> (text: String)
    ensures
        text@ == padded(s@, w, width),
{
    let mut text = String::from_str(s);
    if w < width {
        push_repeated(' ', width - w, &mut text);
    }
    text
}

/// Sets `s` in the middle of `width` columns between dashes, going by the
/// width that it takes on a terminal.
pub fn format_with_pad_centered(s: &str, width: usize) -> (text: String)
    ensures
        text@ == centered(s@, display_width(s@), width),
{
    pad_centered(s, width_of(s), width)
}

/// The text that `print_with_pad` shows: `s` filled up with blanks to
/// `width` columns, going by the width that it takes on a terminal.
pub fn with_pad(s: &str, width: usize) -> (text: String)
    ensures
        text@ == padded(s@, display_width(s@), width),
{
    pad_right(s, width_of(s), width)
}

/// The line that lists `save`, which stands at `index`.
pub fn entry(index: usize, save: &SingleSave) -> (text: String)
    ensures
        text@ == entry_line(index, save@),
{
    let mut text = String::from_str("[");
    push_decimal(index as u128 + 1, &mut text);
    text.append("]  ");
    text.append(save.get_name());
    text.append("\t\t");
    text.append(save.get_note());
    text.append("\n");
    text
}

/// The lines that list the records at `indexes`, as they are shown before
/// a deletion and after locking.
pub fn list_entries(infos: &AllInfos, indexes: &Vec<usize>) -> (text: String)
    ensures
        text@ == listing(infos@.saves, indexes@),
{
    let mut text = String::new();
    let mut i: usize = 0;
    assert(indexes@.take(0) =~= Seq::<usize>::empty());
    while i < indexes.len()
        invariant
            i <= indexes.len(),
            text@ == listing(infos@.saves, indexes@.take(i as int)),
        decreases indexes.len() - i,
    {
        assert(indexes@.take(i + 1).drop_last() =~= indexes@.take(i as int));
        match infos.get(indexes[i]) {
            Some(save) => {
                let line = entry(indexes[i], save);
                text.append(line.as_str());
            },
            None => {
                assert(text@ + Seq::<char>::empty() =~= text@);
            },
        }
        i += 1;
    }
    assert(indexes@.take(i as int) =~= indexes@);
    text
}

/// `save` as a line of text.
pub fn save_to_text(save: &SingleSave) -> (text: String)
    ensures
        text@ == save_text(save@),
{
    let mut text = String::from_str(save.get_date());
    text.append("  ");
    text.append(save.get_time());
    text.append("\t");
    text.append(save.get_name());
    text.append("\t\t\t");
    text.append(save.get_note());
    text
}

/// The line of the log for `save`, which stands at `index`. A locked
/// record is shown as a success, the others as information.
pub fn log_line(index: usize, save: &SingleSave) -> (line: (Severity, String))
    ensures
        line.0 == if save@.locked {
            Severity::Success
        } else {
            Severity::Info
        },
        line.1@ == log_text(index, save@),
{
    let mut text = String::from_str("[");
    push_decimal(index as u128 + 1, &mut text);
    text.append("] ");
    let shown = save_to_text(save);
    text.append(shown.as_str());
    text.append("\n");
    let severity = if save.is_locked() {
        Severity::Success
    } else {
        Severity::Info
    };
    (severity, text)
}

/// Where the short log begins: it shows the last six records.
pub fn short_log_start(len: usize) -> (start: usize)
    ensures
        start == if len >= 6 {
            len - 6
        } else {
            0
        },
{
    if len >= 6 {
        len - 6
    } else {
        0
    }
}

} // verus!
