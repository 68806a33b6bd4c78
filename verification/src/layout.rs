//! Text layout: fixed-width truncation with an ellipsis, and word wrapping
//! that keeps paragraph breaks and hanging bullet indents.

use vstd::prelude::*;
use crate::text::{
    all_whitespace, append_chars, chars_of, is_blank, lines_of, spaces, split_lines, split_words,
    string_of, string_of_range, string_views, trim_end, trimmed_end, vec_views, words_from,
    words_of,
};

use crate::words::words_of_lines;
use crate::wrap_laws::{
    lemma_wrapped_keeps_words, lemma_wrapped_line_count, lemma_wrapped_lines_within,
    within_or_single_word,
};

verus! {

/// The character that marks truncated text.
pub const ELLIPSIS: char = '…';

/// The narrowest column width that wrapping works with.
pub const MIN_WRAP_WIDTH: usize = 10;

/// `text` cut to at most `max_width` characters. Text that fits is left
/// alone; longer text keeps its first `max_width - 1` characters, followed
/// by an ellipsis.
pub open spec fn clamped(text: Seq<char>, max_width: nat) -> Seq<char> {
    if text.len() <= max_width {
        text
    } else if max_width == 0 {
        seq![ELLIPSIS]
    } else {
        text.take(max_width - 1).push(ELLIPSIS)
    }
}

/// The first ten characters of `date`, or all of it if it is shorter.
pub open spec fn date_prefix(date: Seq<char>) -> Seq<char> {
    if date.len() >= 10 {
        date.take(10)
    } else {
        date
    }
}

/// Greedy packing. `current` is the output line being filled and `words`
/// are the words still to be placed: a word joins the current line, after
/// one space, while the line stays within `width`; otherwise the line is
/// finished and the word starts the next one, after `indent`.
pub open spec fn pack_words(
    words: Seq<Seq<char>>,
    current: Seq<char>,
    width: nat,
    indent: Seq<char>,
) -> Seq<Seq<char>>
    decreases words.len(),
{
    if words.len() == 0 {
        seq![current]
    } else if current.len() + 1 + words[0].len() <= width {
        pack_words(words.drop_first(), current + seq![' '] + words[0], width, indent)
    } else {
        seq![current] + pack_words(words.drop_first(), indent + words[0], width, indent)
    }
}

/// The output lines for `words`: the first starts with `prefix`, the later
/// ones with as many spaces as `prefix` has characters. Without any word the
/// output is the one line `prefix`.
pub open spec fn wrapped_words(words: Seq<Seq<char>>, width: nat, prefix: Seq<char>) -> Seq<
    Seq<char>,
> {
    if words.len() == 0 {
        seq![prefix]
    } else {
        pack_words(words.drop_first(), prefix + words[0], width, spaces(prefix.len()))
    }
}

/// The output lines for the words of `text` (see [`wrapped_words`]).
pub open spec fn wrapped_line(text: Seq<char>, width: nat, prefix: Seq<char>) -> Seq<Seq<char>> {
    wrapped_words(split_words(text), width, prefix)
}

/// Whether `line` starts with a bullet marker: `"- "` or `"* "`.
pub open spec fn is_bullet(line: Seq<char>) -> bool {
    line.len() >= 2 && (line[0] == '-' || line[0] == '*') && line[1] == ' '
}

/// The output lines for one source line. A blank line gives one empty line.
/// A line that, without its trailing white space, starts with a bullet
/// marker is wrapped behind the marker; any other line is wrapped plainly.
pub open spec fn wrapped_source_line(raw: Seq<char>, width: nat) -> Seq<Seq<char>> {
    if is_blank(raw) {
        seq![Seq::<char>::empty()]
    } else {
        let line = trim_end(raw);
        if is_bullet(line) {
            wrapped_line(line.skip(2), width, line.take(2))
        } else {
            wrapped_line(line, width, Seq::<char>::empty())
        }
    }
}

/// The output lines for a sequence of source lines, in order.
pub open spec fn wrapped_lines(lines: Seq<Seq<char>>, width: nat) -> Seq<Seq<char>>
    decreases lines.len(),
{
    if lines.len() == 0 {
        Seq::empty()
    } else {
        wrapped_lines(lines.drop_last(), width) + wrapped_source_line(lines.last(), width)
    }
}

/// The width that wrapping uses for a requested `width`.
pub open spec fn wrap_width(width: nat) -> nat {
    if width < MIN_WRAP_WIDTH {
        MIN_WRAP_WIDTH as nat
    } else {
        width
    }
}

/// The display lines of `text` at `width` columns.
pub open spec fn wrapped(text: Seq<char>, width: nat) -> Seq<Seq<char>> {
    wrapped_lines(split_lines(text), wrap_width(width))
}

/// Cuts `text` to at most `max_width` characters, ending in an ellipsis if
/// anything was cut.
pub fn clamp_text(text: &str, max_width: usize) -> (out: String)
    ensures
        out@ == clamped(text@, max_width as nat),
        text@.len() <= max_width ==> out@ == text@,
        max_width >= 1 ==> out@.len() <= max_width,
        text@.len() > max_width >= 1 ==> out@.len() == max_width && out@.last() == ELLIPSIS
            && out@.drop_last() == text@.take(max_width - 1),
{
    let chars = chars_of(text);
    if chars.len() <= max_width {
        string_of(&chars)
    } else {
        let keep: usize = if max_width == 0 {
            0
        } else {
            max_width - 1
        };
        let mut cut: Vec<char> = Vec::new();
        let mut i: usize = 0;
        while i < keep
            invariant
                i <= keep < chars.len(),
                cut@ == chars@.take(i as int),
            decreases keep - i,
        {
            cut.push(chars[i]);
            i += 1;
        }
        cut.push(ELLIPSIS);
        string_of(&cut)
    }
}

/// The leading ten characters of a date, or the whole of a shorter one.
pub fn format_date(date: &str) -> (out: String)
    ensures
        out@ == date_prefix(date@),
{
    let chars = chars_of(date);
    if chars.len() >= 10 {
        string_of_range(&chars, 0, 10)
    } else {
        string_of(&chars)
    }
}

/// A vector of `n` spaces.
fn blank_chars(n: usize) -> (v: Vec<char>)
    ensures
        v@ == spaces(n as nat),
{
    let mut v: Vec<char> = Vec::new();
    let mut i: usize = 0;
    while i < n
        invariant
            i <= n,
            v@ == spaces(i as nat),
        decreases n - i,
    {
        v.push(' ');
        i += 1;
    }
    v
}

/// Packs `words` into lines of at most `width` characters behind `prefix`.
fn wrap_words(words: &Vec<Vec<char>>, width: usize, prefix: &Vec<char>) -> (lines: Vec<String>)
    ensures
        string_views(lines@) == wrapped_words(vec_views(words@), width as nat, prefix@),
{
    let mut lines: Vec<String> = Vec::new();
    let ghost all = vec_views(words@);
    if words.len() == 0 {
        lines.push(string_of(prefix));
        return lines;
    }
    let indent = blank_chars(prefix.len());
    let mut current: Vec<char> = Vec::new();
    append_chars(&mut current, prefix);
    append_chars(&mut current, &words[0]);
    let mut k: usize = 1;
    while k < words.len()
        invariant
            1 <= k <= words.len(),
            all == vec_views(words@),
            indent@ == spaces(prefix@.len()),
            string_views(lines@) + pack_words(all.skip(k as int), current@, width as nat, indent@)
                == wrapped_words(all, width as nat, prefix@),
        decreases words.len() - k,
    {
        let word = &words[k];
        let ghost rest = all.skip(k as int);
        let ghost before = current@;
        assert(rest.drop_first() =~= all.skip(k + 1));
        if word.len() < width && current.len() <= width - 1 - word.len() {
            current.push(' ');
            append_chars(&mut current, word);
            assert(current@ =~= before + seq![' '] + word@);
        } else {
            lines.push(string_of(&current));
            current = Vec::new();
            append_chars(&mut current, &indent);
            append_chars(&mut current, word);
        }
        k += 1;
    }
    lines.push(string_of(&current));
    lines
}

/// Wraps the words of `text` into lines of at most `width` characters. The
/// first line starts with `prefix`, each later one with spaces of the same
/// length. A word too long for a line stands alone on its line. Text without
/// words gives the one line `prefix`.
pub fn wrap_line(text: &str, width: usize, prefix: &str) -> (lines: Vec<String>)
    ensures
        string_views(lines@) == wrapped_line(text@, width as nat, prefix@),
{
    let chars = chars_of(text);
    let words = words_of(&chars);
    let prefix_chars = chars_of(prefix);
    wrap_words(&words, width, &prefix_chars)
}

/// Wraps one source line (see [`wrapped_source_line`]) and appends the
/// output lines to `out`.
fn wrap_source_line(raw: &Vec<char>, width: usize, out: &mut Vec<String>)
    ensures
        string_views(final(out)@) == string_views(old(out)@) + wrapped_source_line(
            raw@,
            width as nat,
        ),
{
    if all_whitespace(raw) {
        out.push(String::new());
        return ;
    }
    let end = trimmed_end(raw);
    let mut line: Vec<char> = Vec::new();
    let mut i: usize = 0;
    while i < end
        invariant
            i <= end <= raw.len(),
            line@ == raw@.take(i as int),
        decreases end - i,
    {
        line.push(raw[i]);
        i += 1;
    }
    let bullet = line.len() >= 2 && (line[0] == '-' || line[0] == '*') && line[1] == ' ';
    let mut wrapped_now: Vec<String>;
    if bullet {
        let words = words_from(&line, 2);
        let mut prefix: Vec<char> = Vec::new();
        prefix.push(line[0]);
        prefix.push(line[1]);
        assert(prefix@ =~= line@.take(2));
        wrapped_now = wrap_words(&words, width, &prefix);
    } else {
        let words = words_of(&line);
        let prefix: Vec<char> = Vec::new();
        wrapped_now = wrap_words(&words, width, &prefix);
    }
    out.append(&mut wrapped_now);
}

/// Lays out `text` for a pane `width` columns wide (at least ten are used).
/// The text is taken line by line: a blank line stays as one empty line, a
/// line that starts with `"- "` or `"* "` keeps the marker on its first
/// output line and is indented by two spaces on the following ones, any other
/// line is wrapped without indent.
///
/// No output line is longer than the width in use, unless it holds a single
/// word; the words of the output lines are the words of the text, in
/// order; and there are no more lines than the text has characters.
pub fn wrap_markdown(text: &str, width: usize) -> (lines: Vec<String>)
    ensures
        string_views(lines@) == wrapped(text@, width as nat),
        forall|j: int|
            0 <= j < lines@.len() ==> within_or_single_word(
                #[trigger] lines@[j]@,
                wrap_width(width as nat),
            ),
        words_of_lines(string_views(lines@)) == split_words(text@),
        lines@.len() <= text@.len(),
{
    proof {
        lemma_wrapped_lines_within(text@, width as nat);
        lemma_wrapped_keeps_words(text@, width as nat);
        lemma_wrapped_line_count(text@, width as nat);
    }
    let width: usize = if width < MIN_WRAP_WIDTH {
        MIN_WRAP_WIDTH
    } else {
        width
    };
    let chars = chars_of(text);
    let source = lines_of(&chars);
    let ghost all = vec_views(source@);
    let mut lines: Vec<String> = Vec::new();
    let mut i: usize = 0;
    while i < source.len()
        invariant
            i <= source.len(),
            all == vec_views(source@),
            string_views(lines@) == wrapped_lines(all.take(i as int), width as nat),
        decreases source.len() - i,
    {
        wrap_source_line(&source[i], width, &mut lines);
        assert(all.take(i + 1).drop_last() =~= all.take(i as int));
        i += 1;
    }
    assert(all.take(i as int) =~= all);
    assert forall|j: int| 0 <= j < lines@.len() implies within_or_single_word(
        #[trigger] lines@[j]@,
        wrap_width(width as nat),
    ) by {
        assert(string_views(lines@)[j] == lines@[j]@);
    }
    lines
}

} // verus!
