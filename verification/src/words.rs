//! Facts about words and lines: how splitting into words behaves under
//! concatenation, trimming and splitting into lines.

use vstd::prelude::*;
use crate::text::{
    is_blank, is_space, lemma_line_len_bounds, lemma_word_len_bounds, line_len, spaced, spaces,
    split_lines, split_words, strip_cr, trim_end, word_len,
};

verus! {

/// Whether `s` is a word: not empty and free of white space.
pub open spec fn is_word(s: Seq<char>) -> bool {
    s.len() > 0 && forall|i: int| 0 <= i < s.len() ==> !is_space(#[trigger] s[i])
}

/// Whether every element of `words` is a word.
pub open spec fn all_words(words: Seq<Seq<char>>) -> bool {
    forall|i: int| 0 <= i < words.len() ==> is_word(#[trigger] words[i])
}

/// The words of all of `lines`, in order.
pub open spec fn words_of_lines(lines: Seq<Seq<char>>) -> Seq<Seq<char>>
    decreases lines.len(),
{
    if lines.len() == 0 {
        Seq::empty()
    } else {
        words_of_lines(lines.drop_last()) + split_words(lines.last())
    }
}

/// The first word of `a + b` ends where the first word of `a` ends, unless
/// that word runs up to the end of `a` and on into `b`.
pub proof fn lemma_word_len_concat(a: Seq<char>, b: Seq<char>)
    requires
        word_len(a) < a.len() || b.len() == 0 || is_space(b[0]),
    ensures
        word_len(a + b) == word_len(a),
    decreases a.len(),
{
    if a.len() > 0 && !is_space(a[0]) {
        assert((a + b).drop_first() =~= a.drop_first() + b);
        lemma_word_len_concat(a.drop_first(), b);
    }
}

/// Splitting into words distributes over a concatenation whose seam lies
/// at white space or at an end.
pub proof fn lemma_split_words_concat(a: Seq<char>, b: Seq<char>)
    requires
        a.len() == 0 || b.len() == 0 || is_space(a.last()) || is_space(b[0]),
    ensures
        split_words(a + b) == split_words(a) + split_words(b),
    decreases a.len(),
{
    if a.len() == 0 {
    } else if is_space(a[0]) {
        assert((a + b).drop_first() =~= a.drop_first() + b);
        lemma_split_words_concat(a.drop_first(), b);
    } else {
        let n = word_len(a) as int;
        lemma_word_len_bounds(a);
        lemma_word_len_concat(a, b);
        assert((a + b).take(n) =~= a.take(n));
        assert((a + b).skip(n) =~= a.skip(n) + b);
        lemma_split_words_concat(a.skip(n), b);
    }
}

/// A word splits into itself.
pub proof fn lemma_split_words_of_word(w: Seq<char>)
    requires
        is_word(w),
    ensures
        split_words(w) == seq![w],
        word_len(w) == w.len(),
{
    lemma_word_len_bounds(w);
    let n = word_len(w) as int;
    assert(w.take(n) =~= w);
    assert(split_words(w.skip(n)) =~= Seq::<Seq<char>>::empty());
}

/// Blank text has no words.
pub proof fn lemma_split_words_of_blank(s: Seq<char>)
    requires
        is_blank(s),
    ensures
        split_words(s) == Seq::<Seq<char>>::empty(),
    decreases s.len(),
{
    if s.len() > 0 {
        lemma_split_words_of_blank(s.drop_first());
    }
}

/// What splitting gives are words.
pub proof fn lemma_split_words_are_words(s: Seq<char>)
    ensures
        all_words(split_words(s)),
    decreases s.len(),
{
    if s.len() > 0 && is_space(s[0]) {
        lemma_split_words_are_words(s.drop_first());
    } else if s.len() > 0 {
        let n = word_len(s) as int;
        lemma_word_len_bounds(s);
        lemma_split_words_are_words(s.skip(n));
    }
}

/// Text has no words exactly if it is blank.
pub proof fn lemma_no_words_iff_blank(s: Seq<char>)
    ensures
        split_words(s).len() == 0 <==> is_blank(s),
    decreases s.len(),
{
    if s.len() > 0 && is_space(s[0]) {
        lemma_no_words_iff_blank(s.drop_first());
        if is_blank(s.drop_first()) {
            assert forall|i: int| 0 <= i < s.len() implies is_space(#[trigger] s[i]) by {
                if i > 0 {
                    assert(s[i] == s.drop_first()[i - 1]);
                }
            }
        }
    }
}

/// Trailing white space changes no word.
pub proof fn lemma_split_words_trim_end(s: Seq<char>)
    ensures
        split_words(trim_end(s)) == split_words(s),
        trim_end(s).len() <= s.len(),
        trim_end(s).len() > 0 ==> !is_space(trim_end(s).last()),
        trim_end(s) == s.take(trim_end(s).len() as int),
        is_blank(s) <==> trim_end(s).len() == 0,
    decreases s.len(),
{
    if s.len() > 0 && is_space(s.last()) {
        let t = s.drop_last();
        lemma_split_words_trim_end(t);
        assert(s =~= t + seq![s.last()]);
        lemma_split_words_concat(t, seq![s.last()]);
        assert(split_words(seq![s.last()]) =~= Seq::<Seq<char>>::empty()) by {
            lemma_split_words_of_blank(seq![s.last()]);
        }
    }
}

/// The words of lines put one after the other.
pub proof fn lemma_words_of_lines_concat(a: Seq<Seq<char>>, b: Seq<Seq<char>>)
    ensures
        words_of_lines(a + b) == words_of_lines(a) + words_of_lines(b),
    decreases b.len(),
{
    if b.len() > 0 {
        assert((a + b).drop_last() =~= a + b.drop_last());
        lemma_words_of_lines_concat(a, b.drop_last());
    }
}

/// The words of a single line.
pub proof fn lemma_words_of_one_line(line: Seq<char>)
    ensures
        words_of_lines(seq![line]) == split_words(line),
{
    assert(words_of_lines(seq![line].drop_last()) =~= Seq::<Seq<char>>::empty());
}

/// Splitting text into lines and the lines into words gives the words of
/// the text.
pub proof fn lemma_words_of_split_lines(s: Seq<char>)
    ensures
        words_of_lines(split_lines(s)) == split_words(s),
    decreases s.len(),
{
    if s.len() > 0 {
        let n = line_len(s) as int;
        lemma_line_len_bounds(s);
        if n == s.len() {
            lemma_words_of_one_line(s);
        } else {
            let head = s.take(n);
            let rest = s.skip(n + 1);
            let break_and_rest = s.skip(n);
            assert(s =~= head + break_and_rest);
            lemma_split_words_concat(head, break_and_rest);
            assert(break_and_rest.drop_first() =~= rest);
            // a carriage return before the line feed is white space
            if head.len() > 0 && head.last() == '\r' {
                assert(head =~= head.drop_last() + seq!['\r']);
                lemma_split_words_concat(head.drop_last(), seq!['\r']);
                lemma_split_words_of_blank(seq!['\r']);
            }
            lemma_words_of_split_lines(rest);
            lemma_words_of_one_line(strip_cr(head));
            lemma_words_of_lines_concat(seq![strip_cr(head)], split_lines(rest));
        }
    }
}

/// The words of a word followed by spaced words.
pub proof fn lemma_split_words_spaced(first: Seq<char>, words: Seq<Seq<char>>)
    requires
        first.len() == 0 || is_word(first),
        all_words(words),
    ensures
        split_words(first + spaced(words)) == split_words(first) + words,
        words.len() > 0 ==> spaced(words).len() > 0 && is_space(spaced(words)[0]) && !is_space(
            spaced(words).last(),
        ),
        forall|i: int| 0 <= i < spaced(words).len() ==> #[trigger] spaced(words)[i] != '\n',
    decreases words.len(),
{
    if words.len() > 0 {
        let w = words[0];
        let rest = words.drop_first();
        lemma_split_words_spaced(w, rest);
        let tail = spaced(words);
        lemma_split_words_concat(first, tail);
        assert(tail.drop_first() =~= w + spaced(rest));
        lemma_split_words_of_word(w);
    }
}

/// Text without a line feed is one line, or none if it is empty.
pub proof fn lemma_split_lines_of_one_line(s: Seq<char>)
    requires
        s.len() > 0,
        forall|i: int| 0 <= i < s.len() ==> #[trigger] s[i] != '\n',
    ensures
        split_lines(s) == seq![s],
{
    lemma_line_len_bounds(s);
}

} // verus!
