//! Characters and strings as sequences of `char`: white space, trimming,
//! words and lines.

use vstd::prelude::*;

verus! {

/// Whether `c` has the Unicode `White_Space` property: the space, the
/// controls from tab to carriage return, next line, the no-break spaces,
/// the Ogham space mark, the spaces from en quad to hair space, the line and
/// paragraph separators, the medium mathematical space and the ideographic
/// space.
pub open spec fn is_space(c: char) -> bool {
    ||| c == ' '
    ||| ('\u{9}' <= c && c <= '\u{D}')
    ||| c == '\u{85}'
    ||| c == '\u{A0}'
    ||| c == '\u{1680}'
    ||| ('\u{2000}' <= c && c <= '\u{200A}')
    ||| c == '\u{2028}'
    ||| c == '\u{2029}'
    ||| c == '\u{202F}'
    ||| c == '\u{205F}'
    ||| c == '\u{3000}'
}

/// Whether every character of `s` is white space (an empty `s` is blank).
pub open spec fn is_blank(s: Seq<char>) -> bool {
    forall|i: int| 0 <= i < s.len() ==> is_space(#[trigger] s[i])
}

/// `s` without its leading white space.
pub open spec fn trim_start(s: Seq<char>) -> Seq<char>
    decreases s.len(),
{
    if s.len() > 0 && is_space(s[0]) {
        trim_start(s.drop_first())
    } else {
        s
    }
}

/// `s` without its trailing white space.
pub open spec fn trim_end(s: Seq<char>) -> Seq<char>
    decreases s.len(),
{
    if s.len() > 0 && is_space(s.last()) {
        trim_end(s.drop_last())
    } else {
        s
    }
}

/// `s` without leading and trailing white space.
pub open spec fn trim(s: Seq<char>) -> Seq<char> {
    trim_start(trim_end(s))
}

/// The number of characters before the first white space of `s`
/// (all of them if there is none).
pub open spec fn word_len(s: Seq<char>) -> nat
    decreases s.len(),
{
    if s.len() == 0 || is_space(s[0]) {
        0
    } else {
        1 + word_len(s.drop_first())
    }
}

/// The maximal runs of characters of `s` that are not white space, in order.
pub open spec fn split_words(s: Seq<char>) -> Seq<Seq<char>>
    decreases s.len(),
{
    if s.len() == 0 {
        Seq::empty()
    } else if is_space(s[0]) {
        split_words(s.drop_first())
    } else {
        let n = word_len(s) as int;
        proof {
            lemma_word_len_bounds(s);
        }
        seq![s.take(n)] + split_words(s.skip(n))
    }
}

/// The number of characters before the first line feed of `s`
/// (all of them if there is none).
pub open spec fn line_len(s: Seq<char>) -> nat
    decreases s.len(),
{
    if s.len() == 0 || s[0] == '\n' {
        0
    } else {
        1 + line_len(s.drop_first())
    }
}

/// `s` without one trailing carriage return.
pub open spec fn strip_cr(s: Seq<char>) -> Seq<char> {
    if s.len() > 0 && s.last() == '\r' {
        s.drop_last()
    } else {
        s
    }
}

/// The lines of `s`. A line ends at a line feed, or at a carriage return
/// directly followed by one; neither belongs to the line. What follows the
/// last line feed is a line only if it is not empty.
pub open spec fn split_lines(s: Seq<char>) -> Seq<Seq<char>>
    decreases s.len(),
{
    if s.len() == 0 {
        Seq::empty()
    } else {
        let n = line_len(s) as int;
        if n == s.len() {
            seq![s]
        } else {
            proof {
                lemma_line_len_bounds(s);
            }
            seq![strip_cr(s.take(n))] + split_lines(s.skip(n + 1))
        }
    }
}

/// The views of a sequence of character vectors.
pub open spec fn vec_views(v: Seq<Vec<char>>) -> Seq<Seq<char>> {
    v.map_values(|w: Vec<char>| w@)
}

/// The views of a sequence of strings.
pub open spec fn string_views(v: Seq<String>) -> Seq<Seq<char>> {
    v.map_values(|s: String| s@)
}

/// `n` space characters.
pub open spec fn spaces(n: nat) -> Seq<char> {
    Seq::new(n, |i: int| ' ')
}

/// The text made of each of `words` behind one space.
pub open spec fn spaced(words: Seq<Seq<char>>) -> Seq<char>
    decreases words.len(),
{
    if words.len() == 0 {
        Seq::empty()
    } else {
        seq![' '] + words[0] + spaced(words.drop_first())
    }
}

/// `words` with one space between each two: the text that splits into
/// them again.
pub open spec fn join_words(words: Seq<Seq<char>>) -> Seq<char> {
    if words.len() == 0 {
        Seq::empty()
    } else {
        words[0] + spaced(words.drop_first())
    }
}

/// The position of the first occurrence of `pattern` in `text` at or after
/// `from`, if there is one.
pub open spec fn find_from(text: Seq<char>, pattern: Seq<char>, from: nat) -> Option<nat>
    decreases text.len() - from,
{
    if from + pattern.len() > text.len() {
        None
    } else if text.subrange(from as int, (from + pattern.len()) as int) == pattern {
        Some(from)
    } else if from >= text.len() {
        None
    } else {
        find_from(text, pattern, from + 1)
    }
}

/// The position of the first occurrence of the character `c` in `text` at
/// or after `from`, if there is one.
pub open spec fn find_char_from(text: Seq<char>, c: char, from: nat) -> Option<nat>
    decreases text.len() - from,
{
    if from >= text.len() {
        None
    } else if text[from as int] == c {
        Some(from)
    } else {
        find_char_from(text, c, from + 1)
    }
}

/// The decimal digit for `d`, which is below ten.
pub open spec fn digit_char(d: nat) -> char {
    if d == 0 {
        '0'
    } else if d == 1 {
        '1'
    } else if d == 2 {
        '2'
    } else if d == 3 {
        '3'
    } else if d == 4 {
        '4'
    } else if d == 5 {
        '5'
    } else if d == 6 {
        '6'
    } else if d == 7 {
        '7'
    } else if d == 8 {
        '8'
    } else {
        '9'
    }
}

/// `n` written in decimal, without leading zeros.
pub open spec fn decimal(n: nat) -> Seq<char>
    decreases n,
{
    if n < 10 {
        seq![digit_char(n)]
    } else {
        decimal(n / 10).push(digit_char(n % 10))
    }
}

/// The first word of `s` is free of white space and ends at white space
/// or at the end of `s`.
pub proof fn lemma_word_len_bounds(s: Seq<char>)
    ensures
        word_len(s) <= s.len(),
        forall|i: int| 0 <= i < word_len(s) ==> !is_space(#[trigger] s[i]),
        word_len(s) < s.len() ==> is_space(s[word_len(s) as int]),
    decreases s.len(),
{
    if s.len() > 0 && !is_space(s[0]) {
        let t = s.drop_first();
        lemma_word_len_bounds(t);
        assert forall|i: int| 0 <= i < word_len(s) implies !is_space(#[trigger] s[i]) by {
            if i > 0 {
                assert(s[i] == t[i - 1]);
            }
        }
    }
}

/// The first line of `s` is free of line feeds and ends at a line feed or
/// at the end of `s`.
pub proof fn lemma_line_len_bounds(s: Seq<char>)
    ensures
        line_len(s) <= s.len(),
        forall|i: int| 0 <= i < line_len(s) ==> #[trigger] s[i] != '\n',
        line_len(s) < s.len() ==> s[line_len(s) as int] == '\n',
    decreases s.len(),
{
    if s.len() > 0 && s[0] != '\n' {
        let t = s.drop_first();
        lemma_line_len_bounds(t);
        assert forall|i: int| 0 <= i < line_len(s) implies #[trigger] s[i] != '\n' by {
            if i > 0 {
                assert(s[i] == t[i - 1]);
            }
        }
    }
}

/// Tells whether a character is white space.
pub fn is_whitespace(c: char) -> (b: bool)
    ensures
        b == is_space(c),
{
    if c == ' ' {
        true
    } else if '\u{85}' > c {
        '\u{9}' <= c && c <= '\u{D}'
    } else if '\u{2000}' > c {
        c == '\u{85}' || c == '\u{A0}' || c == '\u{1680}'
    } else if c <= '\u{200A}' {
        true
    } else {
        c == '\u{2028}' || c == '\u{2029}' || c == '\u{202F}' || c == '\u{205F}' || c == '\u{3000}'
    }
}

/// The characters of a string slice, in order.
pub fn chars_of(s: &str) -> (v: Vec<char>)
    ensures
        v@ == s@,
{
    let mut v: Vec<char> = Vec::new();
    for c in it: s.chars()
        invariant
            it.seq() == s@,
            v@ == it.seq().take(it.index() as int),
    {
        v.push(c);
    }
    v
}

/// `String::push`: the string afterwards is the string before followed by
/// the one character `c`.
#[verifier::external_body]
fn push_char(s: &mut String, c: char)
    ensures
        final(s)@ == old(s)@.push(c),
{
    s.push(c);
}

/// The string made of the characters `v[from..to]`.
pub(crate) fn string_of_range(v: &Vec<char>, from: usize, to: usize) -> (s: String)
    requires
        from <= to <= v.len(),
    ensures
        s@ == v@.subrange(from as int, to as int),
{
    let mut s: String = String::new();
    let mut i: usize = from;
    while i < to
        invariant
            from <= i <= to <= v.len(),
            s@ == v@.subrange(from as int, i as int),
        decreases to - i,
    {
        push_char(&mut s, v[i]);
        i += 1;
    }
    s
}

/// The string made of the characters of `v`.
pub fn string_of(v: &Vec<char>) -> (s: String)
    ensures
        s@ == v@,
{
    let s = string_of_range(v, 0, v.len());
    s
}

/// Appends the characters of `src` to `dst`.
pub fn append_chars(dst: &mut Vec<char>, src: &Vec<char>)
    ensures
        final(dst)@ == old(dst)@ + src@,
{
    let mut i: usize = 0;
    while i < src.len()
        invariant
            i <= src.len(),
            dst@ == old(dst)@ + src@.take(i as int),
        decreases src.len() - i,
    {
        dst.push(src[i]);
        i += 1;
    }
}

/// Appends the characters of the string slice `src` to `dst`.
pub fn append_str(dst: &mut Vec<char>, src: &str)
    ensures
        final(dst)@ == old(dst)@ + src@,
{
    let chars = chars_of(src);
    append_chars(dst, &chars);
}

/// Whether `a[from..]` starts with `pattern`.
pub(crate) fn starts_with_at(a: &Vec<char>, from: usize, pattern: &Vec<char>) -> (b: bool)
    requires
        from <= a.len(),
    ensures
        b == (from + pattern.len() <= a.len() && a@.subrange(from as int, from + pattern.len())
            == pattern@),
{
    if pattern.len() > a.len() - from {
        return false;
    }
    let mut i: usize = 0;
    while i < pattern.len()
        invariant
            i <= pattern.len(),
            from + pattern.len() <= a.len(),
            a@.subrange(from as int, from + i) == pattern@.take(i as int),
        decreases pattern.len() - i,
    {
        if a[from + i] != pattern[i] {
            return false;
        }
        i += 1;
    }
    assert(pattern@.take(pattern.len() as int) =~= pattern@);
    true
}

/// Whether two character vectors hold the same text.
pub fn same_chars(a: &Vec<char>, b: &Vec<char>) -> (same: bool)
    ensures
        same == (a@ == b@),
{
    if a.len() != b.len() {
        return false;
    }
    let same = starts_with_at(a, 0, b);
    assert(a@.subrange(0, a.len() as int) =~= a@);
    same
}

/// The first occurrence of `pattern` in `text` at or after `from`.
pub fn find_in(text: &Vec<char>, pattern: &Vec<char>, from: usize) -> (found: Option<usize>)
    ensures
        match found {
            Some(at) => find_from(text@, pattern@, from as nat) == Some(at as nat) && from <= at
                && at + pattern.len() <= text.len(),
            None => find_from(text@, pattern@, from as nat) is None,
        },
{
    if from > text.len() {
        return None;
    }
    let mut i: usize = from;
    while i <= text.len()
        invariant
            from <= i <= text.len() + 1,
            i <= text.len() ==> find_from(text@, pattern@, from as nat) == find_from(
                text@,
                pattern@,
                i as nat,
            ),
            i > text.len() ==> find_from(text@, pattern@, from as nat) is None,
        decreases text.len() + 1 - i,
    {
        if starts_with_at(text, i, pattern) {
            return Some(i);
        }
        if i == text.len() {
            return None;
        }
        i += 1;
    }
    None
}

/// The first occurrence of the character `c` in `text` at or after `from`.
pub fn find_char_in(text: &Vec<char>, c: char, from: usize) -> (found: Option<usize>)
    ensures
        match found {
            Some(at) => find_char_from(text@, c, from as nat) == Some(at as nat) && from <= at
                < text.len() && text@[at as int] == c,
            None => find_char_from(text@, c, from as nat) is None,
        },
{
    let mut i: usize = from;
    while i < text.len()
        invariant
            from <= i,
            find_char_from(text@, c, from as nat) == find_char_from(text@, c, i as nat),
        decreases text.len() - i,
    {
        if text[i] == c {
            return Some(i);
        }
        i += 1;
    }
    None
}

/// The text of `words` with one space between each two.
pub fn join_with_spaces(words: &Vec<Vec<char>>) -> (out: Vec<char>)
    ensures
        out@ == join_words(vec_views(words@)),
{
    let mut out: Vec<char> = Vec::new();
    if words.len() == 0 {
        return out;
    }
    let ghost all = vec_views(words@);
    append_chars(&mut out, &words[0]);
    let mut i: usize = 1;
    while i < words.len()
        invariant
            1 <= i <= words.len(),
            all == vec_views(words@),
            out@ + spaced(all.skip(i as int)) == join_words(all),
        decreases words.len() - i,
    {
        let ghost rest = all.skip(i as int);
        out.push(' ');
        append_chars(&mut out, &words[i]);
        proof {
            assert(rest.drop_first() =~= all.skip(i + 1));
        }
        i += 1;
    }
    out
}

/// The digit character for `d`.
fn digit_of(d: u128) -> (c: char)
    requires
        d < 10,
    ensures
        c == digit_char(d as nat),
{
    if d == 0 {
        '0'
    } else if d == 1 {
        '1'
    } else if d == 2 {
        '2'
    } else if d == 3 {
        '3'
    } else if d == 4 {
        '4'
    } else if d == 5 {
        '5'
    } else if d == 6 {
        '6'
    } else if d == 7 {
        '7'
    } else if d == 8 {
        '8'
    } else {
        '9'
    }
}

/// Appends `n`, written in decimal, to `dst`.
pub fn append_decimal(dst: &mut Vec<char>, n: u128)
    ensures
        final(dst)@ == old(dst)@ + decimal(n as nat),
    decreases n,
{
    if n < 10 {
        dst.push(digit_of(n));
    } else {
        append_decimal(dst, n / 10);
        dst.push(digit_of(n % 10));
    }
}

/// Whether every character of `v` is white space.
pub fn all_whitespace(v: &Vec<char>) -> (b: bool)
    ensures
        b == is_blank(v@),
{
    let mut i: usize = 0;
    while i < v.len()
        invariant
            i <= v.len(),
            forall|j: int| 0 <= j < i ==> is_space(#[trigger] v@[j]),
        decreases v.len() - i,
    {
        if !is_whitespace(v[i]) {
            return false;
        }
        i += 1;
    }
    true
}

/// The length of `v` without its trailing white space.
pub fn trimmed_end(v: &Vec<char>) -> (n: usize)
    ensures
        n <= v.len(),
        v@.take(n as int) == trim_end(v@),
{
    let mut n: usize = v.len();
    assert(v@.take(n as int) =~= v@);
    while n > 0 && is_whitespace(v[n - 1])
        invariant
            n <= v.len(),
            trim_end(v@.take(n as int)) == trim_end(v@),
        decreases n,
    {
        assert(v@.take(n as int).drop_last() =~= v@.take(n - 1));
        n -= 1;
    }
    n
}

/// The index of the first character of `v[..end]` that is not white space
/// (`end` if there is none).
pub(crate) fn trimmed_start(v: &Vec<char>, end: usize) -> (n: usize)
    requires
        end <= v.len(),
    ensures
        n <= end,
        v@.subrange(n as int, end as int) == trim_start(v@.take(end as int)),
{
    let mut n: usize = 0;
    while n < end && is_whitespace(v[n])
        invariant
            n <= end <= v.len(),
            trim_start(v@.subrange(n as int, end as int)) == trim_start(v@.take(end as int)),
        decreases end - n,
    {
        assert(v@.subrange(n as int, end as int).drop_first() =~= v@.subrange(
            n + 1,
            end as int,
        ));
        n += 1;
    }
    n
}

/// The characters `v[from..to]` without white space around them.
pub(crate) fn trimmed_range(v: &Vec<char>, from: usize, to: usize) -> (out: Vec<char>)
    requires
        from <= to <= v.len(),
    ensures
        out@ == trim(v@.subrange(from as int, to as int)),
{
    let mut part: Vec<char> = Vec::new();
    let mut i: usize = from;
    while i < to
        invariant
            from <= i <= to <= v.len(),
            part@ == v@.subrange(from as int, i as int),
        decreases to - i,
    {
        part.push(v[i]);
        i += 1;
    }
    let end: usize = trimmed_end(&part);
    let start: usize = trimmed_start(&part, end);
    let mut out: Vec<char> = Vec::new();
    let mut k: usize = start;
    while k < end
        invariant
            start <= k <= end <= part.len(),
            out@ == part@.subrange(start as int, k as int),
        decreases end - k,
    {
        out.push(part[k]);
        k += 1;
    }
    out
}

/// The characters of `v` without white space around them.
pub fn trimmed(v: &Vec<char>) -> (out: Vec<char>)
    ensures
        out@ == trim(v@),
{
    assert(v@.subrange(0, v.len() as int) =~= v@);
    trimmed_range(v, 0, v.len())
}

/// The words of `v[from..]`: its maximal runs without white space.
pub(crate) fn words_from(v: &Vec<char>, from: usize) -> (words: Vec<Vec<char>>)
    requires
        from <= v.len(),
    ensures
        vec_views(words@) == split_words(v@.skip(from as int)),
{
    let mut words: Vec<Vec<char>> = Vec::new();
    let mut i: usize = from;
    while i < v.len()
        invariant
            from <= i <= v.len(),
            vec_views(words@) + split_words(v@.skip(i as int)) == split_words(
                v@.skip(from as int),
            ),
        decreases v.len() - i,
    {
        let ghost rest = v@.skip(i as int);
        if is_whitespace(v[i]) {
            assert(rest.drop_first() =~= v@.skip(i + 1));
            i += 1;
        } else {
            let mut word: Vec<char> = Vec::new();
            let start: usize = i;
            proof {
                lemma_word_len_bounds(rest);
            }
            while i < v.len() && !is_whitespace(v[i])
                invariant
                    start <= i <= v.len(),
                    rest == v@.skip(start as int),
                    i - start <= word_len(rest),
                    word_len(rest) <= rest.len(),
                    forall|j: int| 0 <= j < word_len(rest) ==> !is_space(#[trigger] rest[j]),
                    word_len(rest) < rest.len() ==> is_space(rest[word_len(rest) as int]),
                    word@ == v@.subrange(start as int, i as int),
                decreases v.len() - i,
            {
                word.push(v[i]);
                i += 1;
            }
            proof {
                let n = word_len(rest) as int;
                if i - start < n {
                    assert(rest[i - start] == v@[i as int]);
                }
                assert(word@ =~= rest.take(n));
                assert(rest.skip(n) =~= v@.skip(i as int));
            }
            words.push(word);
        }
    }
    words
}

/// The words of `v`: its maximal runs without white space.
pub fn words_of(v: &Vec<char>) -> (words: Vec<Vec<char>>)
    ensures
        vec_views(words@) == split_words(v@),
{
    assert(v@.skip(0) =~= v@);
    words_from(v, 0)
}

/// The lines of `v` (see [`split_lines`]).
pub fn lines_of(v: &Vec<char>) -> (lines: Vec<Vec<char>>)
    ensures
        vec_views(lines@) == split_lines(v@),
{
    let mut lines: Vec<Vec<char>> = Vec::new();
    let mut i: usize = 0;
    assert(v@.skip(0) =~= v@);
    while i < v.len()
        invariant
            i <= v.len(),
            vec_views(lines@) + split_lines(v@.skip(i as int)) == split_lines(v@),
        decreases v.len() - i,
    {
        let ghost rest = v@.skip(i as int);
        let mut line: Vec<char> = Vec::new();
        let start: usize = i;
        proof {
            lemma_line_len_bounds(rest);
        }
        while i < v.len() && v[i] != '\n'
            invariant
                start <= i <= v.len(),
                rest == v@.skip(start as int),
                i - start <= line_len(rest),
                line_len(rest) <= rest.len(),
                forall|j: int| 0 <= j < line_len(rest) ==> #[trigger] rest[j] != '\n',
                line_len(rest) < rest.len() ==> rest[line_len(rest) as int] == '\n',
                line@ == v@.subrange(start as int, i as int),
            decreases v.len() - i,
        {
            line.push(v[i]);
            i += 1;
        }
        proof {
            let n = line_len(rest) as int;
            if i - start < n {
                assert(rest[i - start] == v@[i as int]);
            }
            assert(line@ =~= rest.take(n));
        }
        if i < v.len() {
            // a line feed ends this line
            let len: usize = line.len();
            if len > 0 && line[len - 1] == '\r' {
                line.pop();
            }
            i += 1;
            proof {
                let n = line_len(rest) as int;
                assert(rest.skip(n + 1) =~= v@.skip(i as int));
            }
            lines.push(line);
        } else {
            lines.push(line);
        }
    }
    lines
}

} // verus!
