//! What holds of wrapped text: how long its lines can get, that it keeps
//! the words of the text, and that wrapping a wrapped line again changes
//! nothing.

use vstd::prelude::*;
use crate::layout::{
    is_bullet, pack_words, wrap_width, wrapped, wrapped_line, wrapped_lines, wrapped_source_line,
};
use crate::text::{
    is_blank, is_space, lemma_line_len_bounds, lemma_word_len_bounds, line_len, spaced, spaces,
    split_lines, split_words, strip_cr, trim_end, word_len,
};
use crate::words::{
    all_words, is_word, lemma_no_words_iff_blank, lemma_split_lines_of_one_line,
    lemma_split_words_are_words, lemma_split_words_concat, lemma_split_words_of_blank,
    lemma_split_words_of_word, lemma_split_words_spaced, lemma_split_words_trim_end,
    lemma_words_of_lines_concat, lemma_words_of_one_line, lemma_words_of_split_lines,
    words_of_lines,
};

verus! {

/// Whether an output line behind `prefix` keeps to `width`: it is no longer
/// than `width`, or it is the bare prefix, or it holds a single word behind
/// the prefix or behind as many spaces.
pub open spec fn line_within(line: Seq<char>, width: nat, prefix: Seq<char>) -> bool {
    let p = prefix.len() as int;
    ||| line.len() <= width
    ||| line == prefix
    ||| (line.len() > p && is_word(line.skip(p)) && (line.take(p) == prefix || line.take(p)
        == spaces(prefix.len())))
}

/// Whether a display line keeps to `width`: it is no longer than `width`,
/// or it is a single word, alone or behind a bullet marker or a two-space
/// indent.
pub open spec fn within_or_single_word(line: Seq<char>, width: nat) -> bool {
    ||| line.len() <= width
    ||| is_word(line)
    ||| (line.len() > 2 && is_word(line.skip(2)) && (is_bullet(line) || line.take(2) == spaces(2)))
}

/// All but the first of some words are words.
proof fn lemma_all_words_tail(words: Seq<Seq<char>>)
    requires
        all_words(words),
        words.len() > 0,
    ensures
        all_words(words.drop_first()),
        is_word(words[0]),
{
}

/// Packing keeps every line within the width, unless it holds one word.
proof fn lemma_pack_lines_within(
    words: Seq<Seq<char>>,
    current: Seq<char>,
    width: nat,
    prefix: Seq<char>,
)
    requires
        all_words(words),
        line_within(current, width, prefix),
    ensures
        forall|j: int|
            0 <= j < pack_words(words, current, width, spaces(prefix.len())).len()
                ==> line_within(
                #[trigger] pack_words(words, current, width, spaces(prefix.len()))[j],
                width,
                prefix,
            ),
    decreases words.len(),
{
    let indent = spaces(prefix.len());
    if words.len() > 0 {
        lemma_all_words_tail(words);
        let w = words[0];
        let rest = words.drop_first();
        if current.len() + 1 + w.len() <= width {
            let next = current + seq![' '] + w;
            lemma_pack_lines_within(rest, next, width, prefix);
            assert(pack_words(words, current, width, indent) == pack_words(
                rest,
                next,
                width,
                indent,
            ));
        } else {
            let next = indent + w;
            let p = prefix.len() as int;
            assert(next.take(p) =~= indent);
            lemma_pack_lines_within(rest, next, width, prefix);
            assert(pack_words(words, current, width, indent) == seq![current] + pack_words(
                rest,
                next,
                width,
                indent,
            ));
        }
    }
}

/// Line lengths of a wrapped line: every output line of
/// [`wrapped_line`] is at most `width` characters long, unless it is the
/// bare prefix or holds, behind the prefix or the indent, a single word.
pub proof fn lemma_wrapped_line_within(text: Seq<char>, width: nat, prefix: Seq<char>)
    ensures
        wrapped_line(text, width, prefix).len() >= 1,
        forall|j: int|
            0 <= j < wrapped_line(text, width, prefix).len() ==> line_within(
                #[trigger] wrapped_line(text, width, prefix)[j],
                width,
                prefix,
            ),
{
    let words = split_words(text);
    lemma_split_words_are_words(text);
    if words.len() > 0 {
        lemma_all_words_tail(words);
        let first = prefix + words[0];
        let p = prefix.len() as int;
        assert(first.take(p) =~= prefix);
        lemma_pack_lines_within(words.drop_first(), first, width, prefix);
        lemma_pack_single_line(words.drop_first(), first, width, spaces(prefix.len()));
    }
}

/// Packing gives one line exactly if the words all fit behind the current
/// line, and that line is then the current line followed by the words, each
/// behind one space.
pub proof fn lemma_pack_single_line(
    words: Seq<Seq<char>>,
    current: Seq<char>,
    width: nat,
    indent: Seq<char>,
)
    ensures
        pack_words(words, current, width, indent).len() >= 1,
        (words.len() == 0 || current.len() + spaced(words).len() <= width) ==> pack_words(
            words,
            current,
            width,
            indent,
        ) == seq![current + spaced(words)],
        pack_words(words, current, width, indent).len() == 1 ==> (words.len() == 0 || current.len()
            + spaced(words).len() <= width),
    decreases words.len(),
{
    if words.len() > 0 {
        let w = words[0];
        let rest = words.drop_first();
        if current.len() + 1 + w.len() <= width {
            let next = current + seq![' '] + w;
            lemma_pack_single_line(rest, next, width, indent);
            assert(next + spaced(rest) =~= current + spaced(words));
        } else {
            lemma_pack_single_line(rest, indent + w, width, indent);
        }
    }
}

/// Packing keeps the words of the current line and the words to place.
proof fn lemma_pack_keeps_words(
    words: Seq<Seq<char>>,
    current: Seq<char>,
    width: nat,
    indent: Seq<char>,
)
    requires
        all_words(words),
        is_blank(indent),
    ensures
        words_of_lines(pack_words(words, current, width, indent)) == split_words(current) + words,
    decreases words.len(),
{
    if words.len() == 0 {
        lemma_words_of_one_line(current);
    } else {
        lemma_all_words_tail(words);
        let w = words[0];
        let rest = words.drop_first();
        lemma_split_words_of_word(w);
        if current.len() + 1 + w.len() <= width {
            let next = current + seq![' '] + w;
            let joint = seq![' '] + w;
            assert(next =~= current + joint);
            lemma_split_words_concat(current, joint);
            assert(joint.drop_first() =~= w);
            lemma_pack_keeps_words(rest, next, width, indent);
        } else {
            let next = indent + w;
            lemma_split_words_concat(indent, w);
            lemma_split_words_of_blank(indent);
            lemma_pack_keeps_words(rest, next, width, indent);
            lemma_words_of_one_line(current);
            lemma_words_of_lines_concat(seq![current], pack_words(rest, next, width, indent));
        }
    }
}

/// Words of a wrapped line: behind a prefix that is empty or ends in white
/// space, the output lines hold the words of the prefix and then the words
/// of the text, in order, and nothing else.
pub proof fn lemma_wrapped_line_keeps_words(text: Seq<char>, width: nat, prefix: Seq<char>)
    requires
        prefix.len() == 0 || is_space(prefix.last()),
    ensures
        words_of_lines(wrapped_line(text, width, prefix)) == split_words(prefix) + split_words(
            text,
        ),
{
    let words = split_words(text);
    lemma_split_words_are_words(text);
    if words.len() == 0 {
        lemma_words_of_one_line(prefix);
    } else {
        lemma_all_words_tail(words);
        let w = words[0];
        lemma_split_words_concat(prefix, w);
        lemma_split_words_of_word(w);
        lemma_pack_keeps_words(words.drop_first(), prefix + w, width, spaces(prefix.len()));
    }
}

/// Line lengths and words of the output for one source line.
proof fn lemma_source_line(raw: Seq<char>, width: nat)
    requires
        width >= 2,
    ensures
        wrapped_source_line(raw, width).len() >= 1,
        forall|j: int|
            0 <= j < wrapped_source_line(raw, width).len() ==> within_or_single_word(
                #[trigger] wrapped_source_line(raw, width)[j],
                width,
            ),
        words_of_lines(wrapped_source_line(raw, width)) == split_words(raw),
{
    let out = wrapped_source_line(raw, width);
    if is_blank(raw) {
        lemma_words_of_one_line(Seq::<char>::empty());
        lemma_split_words_of_blank(raw);
    } else {
        let line = trim_end(raw);
        lemma_split_words_trim_end(raw);
        if is_bullet(line) {
            let marker = line.take(2);
            let body = line.skip(2);
            lemma_wrapped_line_within(body, width, marker);
            lemma_wrapped_line_keeps_words(body, width, marker);
            assert(line =~= marker + body);
            lemma_split_words_concat(marker, body);
        } else {
            let none = Seq::<char>::empty();
            lemma_wrapped_line_within(line, width, none);
            lemma_wrapped_line_keeps_words(line, width, none);
            assert forall|j: int| 0 <= j < out.len() implies within_or_single_word(
                #[trigger] out[j],
                width,
            ) by {
                let l = out[j];
                assert(l.skip(0) =~= l);
            }
        }
    }
}

/// Line lengths and words of the output for source lines.
proof fn lemma_source_lines(lines: Seq<Seq<char>>, width: nat)
    requires
        width >= 2,
    ensures
        wrapped_lines(lines, width).len() >= lines.len(),
        forall|j: int|
            0 <= j < wrapped_lines(lines, width).len() ==> within_or_single_word(
                #[trigger] wrapped_lines(lines, width)[j],
                width,
            ),
        words_of_lines(wrapped_lines(lines, width)) == words_of_lines(lines),
    decreases lines.len(),
{
    if lines.len() > 0 {
        let before = wrapped_lines(lines.drop_last(), width);
        let last = wrapped_source_line(lines.last(), width);
        lemma_source_lines(lines.drop_last(), width);
        lemma_source_line(lines.last(), width);
        lemma_words_of_lines_concat(before, last);
    }
}

/// The room that `lines` take: the sum of their lengths, an empty line
/// counted as one character.
pub open spec fn room(lines: Seq<Seq<char>>) -> nat
    decreases lines.len(),
{
    if lines.len() == 0 {
        0
    } else {
        room(lines.drop_last()) + if lines.last().len() == 0 {
            1
        } else {
            lines.last().len()
        }
    }
}

/// The room of a line followed by lines.
proof fn lemma_room_behind(first: Seq<char>, rest: Seq<Seq<char>>)
    ensures
        room(seq![first] + rest) == room(seq![first]) + room(rest),
        room(seq![first]) == if first.len() == 0 {
            1
        } else {
            first.len()
        },
    decreases rest.len(),
{
    assert(room(seq![first].drop_last()) == 0);
    if rest.len() > 0 {
        assert((seq![first] + rest).drop_last() =~= seq![first] + rest.drop_last());
        lemma_room_behind(first, rest.drop_last());
    }
}

/// The lines of a text take no more room than the text has characters.
proof fn lemma_split_lines_room(s: Seq<char>)
    ensures
        room(split_lines(s)) <= s.len(),
    decreases s.len(),
{
    if s.len() > 0 {
        let n = line_len(s) as int;
        lemma_line_len_bounds(s);
        if n == s.len() {
            lemma_room_behind(s, Seq::empty());
        } else {
            let rest = s.skip(n + 1);
            lemma_split_lines_room(rest);
            lemma_room_behind(strip_cr(s.take(n)), split_lines(rest));
        }
    }
}

/// A text has no more words than characters.
proof fn lemma_split_words_count(s: Seq<char>)
    ensures
        split_words(s).len() <= s.len(),
    decreases s.len(),
{
    if s.len() == 0 {
    } else if is_space(s[0]) {
        lemma_split_words_count(s.drop_first());
    } else {
        lemma_word_len_bounds(s);
        lemma_split_words_count(s.skip(word_len(s) as int));
    }
}

/// Packing gives at most one line more than there are words to place.
proof fn lemma_pack_count(
    words: Seq<Seq<char>>,
    current: Seq<char>,
    width: nat,
    indent: Seq<char>,
)
    ensures
        pack_words(words, current, width, indent).len() <= words.len() + 1,
    decreases words.len(),
{
    if words.len() > 0 {
        let w = words[0];
        if current.len() + 1 + w.len() <= width {
            lemma_pack_count(words.drop_first(), current + seq![' '] + w, width, indent);
        } else {
            lemma_pack_count(words.drop_first(), indent + w, width, indent);
        }
    }
}

/// A source line gives no more output lines than it has characters, or
/// one if it is empty.
proof fn lemma_source_line_count(raw: Seq<char>, width: nat)
    ensures
        wrapped_source_line(raw, width).len() <= if raw.len() == 0 {
            1
        } else {
            raw.len()
        },
{
    if !is_blank(raw) {
        let line = trim_end(raw);
        lemma_split_words_trim_end(raw);
        let body = if is_bullet(line) {
            line.skip(2)
        } else {
            line
        };
        let prefix = if is_bullet(line) {
            line.take(2)
        } else {
            Seq::<char>::empty()
        };
        let words = split_words(body);
        lemma_split_words_count(body);
        if words.len() > 0 {
            lemma_pack_count(words.drop_first(), prefix + words[0], width, spaces(prefix.len()));
        }
    }
}

/// Source lines give no more output lines than they take room.
proof fn lemma_source_lines_count(lines: Seq<Seq<char>>, width: nat)
    ensures
        wrapped_lines(lines, width).len() <= room(lines),
    decreases lines.len(),
{
    if lines.len() > 0 {
        lemma_source_lines_count(lines.drop_last(), width);
        lemma_source_line_count(lines.last(), width);
    }
}

/// The number of display lines is bounded by the text: there are at most as
/// many as the text has characters.
pub proof fn lemma_wrapped_line_count(text: Seq<char>, width: nat)
    ensures
        wrapped(text, width).len() <= text.len(),
{
    lemma_source_lines_count(split_lines(text), wrap_width(width));
    lemma_split_lines_room(text);
}

/// Line lengths: every display line is at most as long as the width that
/// wrapping uses, unless it holds a single word, alone or behind a bullet
/// marker or a two-space indent.
pub proof fn lemma_wrapped_lines_within(text: Seq<char>, width: nat)
    ensures
        forall|j: int|
            0 <= j < wrapped(text, width).len() ==> within_or_single_word(
                #[trigger] wrapped(text, width)[j],
                wrap_width(width),
            ),
{
    lemma_source_lines(split_lines(text), wrap_width(width));
}

/// Words are kept: the words of the display lines, one line after the
/// other, are the words of the text, in order.
pub proof fn lemma_wrapped_keeps_words(text: Seq<char>, width: nat)
    ensures
        words_of_lines(wrapped(text, width)) == split_words(text),
{
    lemma_source_lines(split_lines(text), wrap_width(width));
    lemma_words_of_split_lines(text);
}

/// A wrapped line wraps to itself: a line made of words with one space
/// between them, behind a bullet marker or behind nothing, is one source
/// line and gives itself as the only output line, if it fits the width or
/// holds a single word.
pub proof fn lemma_wrapped_line_is_fixed(
    line: Seq<char>,
    width: nat,
    first: Seq<char>,
    rest: Seq<Seq<char>>,
    marker: Seq<char>,
)
    requires
        width >= 2,
        is_word(first),
        all_words(rest),
        marker.len() == 0 || is_bullet(marker) && marker.len() == 2,
        line == marker + first + spaced(rest),
        rest.len() == 0 || line.len() <= width,
    ensures
        wrapped_source_line(line, width) == seq![line],
        split_lines(line) == seq![line],
        width >= 10 ==> wrapped(line, width) == seq![line],
{
    assert(wrapped_lines(seq![line], width) =~= wrapped_source_line(line, width)) by {
        assert(wrapped_lines(seq![line].drop_last(), width) =~= Seq::<Seq<char>>::empty());
    }
    let tail = first + spaced(rest);
    let words = seq![first] + rest;
    lemma_split_words_spaced(first, rest);
    lemma_split_words_of_word(first);
    // the line ends in a character of a word
    // no character of the line is a line feed
    lemma_split_lines_of_one_line(line);
    assert(words.drop_first() =~= rest);
    if marker.len() == 2 {
        assert(line.skip(2) =~= tail);
        assert(line.take(2) =~= marker);
        lemma_pack_single_line(rest, marker + first, width, spaces(2));
    } else {
        if is_bullet(line) {
            // the first word is the marker's sign, the second follows it
            lemma_all_words_tail(rest);
            let second = rest[0];
            let others = rest.drop_first();
            lemma_split_words_spaced(second, others);
            lemma_split_words_of_word(second);
            assert(line.skip(2) =~= second + spaced(others));
            assert(seq![second] + others =~= rest);
            lemma_pack_single_line(others, line.take(2) + second, width, spaces(2));
            assert(line.take(2) + second + spaced(others) =~= line);
        } else {
            lemma_pack_single_line(rest, marker + first, width, spaces(0));
        }
    }
}

/// Wrapping again changes nothing: if text wraps to a single line that is
/// not empty, that line wraps, at the same width, to itself.
pub proof fn lemma_wrapping_twice(text: Seq<char>, width: nat)
    requires
        wrapped(text, width).len() == 1,
        wrapped(text, width)[0].len() > 0,
    ensures
        wrapped(wrapped(text, width)[0], width) == wrapped(text, width),
{
    let w = wrap_width(width);
    let lines = split_lines(text);
    let out = wrapped(text, width);
    let result = out[0];
    lemma_source_lines(lines, w);
    let raw = lines[0];
    let line = trim_end(raw);
    lemma_split_words_trim_end(raw);
    let marker = if is_bullet(line) {
        line.take(2)
    } else {
        Seq::<char>::empty()
    };
    let body = if is_bullet(line) {
        line.skip(2)
    } else {
        line
    };
    let words = split_words(body);
    lemma_split_words_are_words(body);
    // the body of the line has a word
    if is_bullet(line) {
        assert(body.last() == line.last());
    }
    lemma_no_words_iff_blank(body);
    lemma_all_words_tail(words);
    let first = words[0];
    let rest = words.drop_first();
    lemma_pack_single_line(rest, marker + first, w, spaces(marker.len()));
    lemma_wrapped_line_is_fixed(result, w, first, rest, marker);
}

} // verus!
