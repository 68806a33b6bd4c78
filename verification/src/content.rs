//! Turning loaded files into content: front matter, titles and dates from
//! file names, and plain text from markup.

use vstd::prelude::*;
use crate::text::{
    append_chars, chars_of, find_char_from, find_char_in, find_from, find_in, join_with_spaces,
    join_words, split_words, string_of, string_of_range, trim, trimmed, trimmed_range, vec_views,
    words_of,
};

verus! {

/// The upper-case form of `c` as Unicode's case mapping gives it: one or
/// more characters.
pub uninterp spec fn uppercase_of(c: char) -> Seq<char>;

/// `char::to_uppercase`: the characters that the upper-case mapping of `c`
/// yields, in order.
#[verifier::external_body]
fn to_uppercase(c: char) -> (upper: Vec<char>)
    ensures
        upper@ == uppercase_of(c),
{
    c.to_uppercase().collect()
}

/// Whether `c` is a quotation mark, double or single.
pub open spec fn is_quote(c: char) -> bool {
    c == '"' || c == '\''
}

/// `value` without white space around it and, if what is left stands
/// between two double or two single quotation marks, without those.
pub open spec fn unquoted(value: Seq<char>) -> Seq<char> {
    let t = trim(value);
    if t.len() >= 2 && is_quote(t[0]) && t.last() == t[0] {
        t.subrange(1, t.len() - 1)
    } else {
        t
    }
}

/// Whether `c` can stand in a date that is a file name: a digit, a hyphen
/// or an underscore.
pub open spec fn is_date_char(c: char) -> bool {
    ('0' <= c && c <= '9') || c == '-' || c == '_'
}

/// The date that a file name stands for: a name of ten or more digits,
/// hyphens and underscores, with hyphens for its underscores.
pub open spec fn slug_date(slug: Seq<char>) -> Option<Seq<char>> {
    if slug.len() >= 10 && forall|i: int| 0 <= i < slug.len() ==> is_date_char(#[trigger] slug[i]) {
        Some(
            slug.map_values(
                |c: char|
                    if c == '_' {
                        '-'
                    } else {
                        c
                    },
            ),
        )
    } else {
        None
    }
}

/// `word` with `first` in place of its first character; an empty word
/// stays empty.
pub open spec fn with_first(word: Seq<char>, first: Seq<char>) -> Seq<char> {
    if word.len() == 0 {
        word
    } else {
        first + word.drop_first()
    }
}

/// `word` with its first character in upper case.
pub open spec fn capitalized(word: Seq<char>) -> Seq<char> {
    if word.len() == 0 {
        word
    } else {
        with_first(word, uppercase_of(word[0]))
    }
}

/// The title that a file name stands for: its words, taken apart at
/// hyphens, underscores and white space, each capitalized, with one space
/// between them.
pub open spec fn slug_title(slug: Seq<char>) -> Seq<char> {
    join_words(
        split_words(
            slug.map_values(
                |c: char|
                    if c == '-' || c == '_' {
                        ' '
                    } else {
                        c
                    },
            ),
        ).map_values(|w: Seq<char>| capitalized(w)),
    )
}

/// `s` without its tags. A tag runs from a `<` to the next `>`; a `>`
/// outside a tag is dropped too. `in_tag` says whether `s` starts inside
/// a tag.
pub open spec fn untagged(s: Seq<char>, in_tag: bool) -> Seq<char>
    decreases s.len(),
{
    if s.len() == 0 {
        Seq::empty()
    } else if s[0] == '<' {
        untagged(s.drop_first(), true)
    } else if s[0] == '>' {
        untagged(s.drop_first(), false)
    } else if in_tag {
        untagged(s.drop_first(), true)
    } else {
        seq![s[0]] + untagged(s.drop_first(), false)
    }
}

/// The text of `s` without its tags, with one space between its words.
pub open spec fn plain_text(s: Seq<char>) -> Seq<char> {
    join_words(split_words(untagged(s, false)))
}

/// The position of the first quotation mark in `text` at or after `from`.
pub open spec fn find_quote_from(text: Seq<char>, from: nat) -> Option<nat>
    decreases text.len() - from,
{
    if from >= text.len() {
        None
    } else if is_quote(text[from as int]) {
        Some(from)
    } else {
        find_quote_from(text, from + 1)
    }
}

/// The value that follows the first `marker` in `contents`: what stands
/// between the first quotation mark after the marker and the next mark of
/// the same kind, without white space around it. There is none if the
/// marker or either mark is missing.
pub open spec fn quoted_value(contents: Seq<char>, marker: Seq<char>) -> Option<Seq<char>> {
    match find_from(contents, marker, 0) {
        None => None,
        Some(index) => match find_quote_from(contents, index + marker.len()) {
            None => None,
            Some(open) => match find_char_from(contents, contents[open as int], open + 1) {
                None => None,
                Some(close) => Some(trim(contents.subrange((open + 1) as int, close as int))),
            },
        },
    }
}

/// Takes the white space and one pair of quotation marks off a front
/// matter value.
pub fn clean_frontmatter_value(value: &str) -> (out: String)
    ensures
        out@ == unquoted(value@),
{
    let chars = chars_of(value);
    let t = trimmed(&chars);
    let n: usize = t.len();
    if n >= 2 && (t[0] == '"' || t[0] == '\'') && t[n - 1] == t[0] {
        string_of_range(&t, 1, n - 1)
    } else {
        string_of(&t)
    }
}

/// The date in a file name, if the name is one (see [`slug_date`]).
pub fn date_from_slug(slug: &str) -> (date: Option<String>)
    ensures
        match date {
            Some(d) => slug_date(slug@) == Some(d@),
            None => slug_date(slug@) is None,
        },
{
    let chars = chars_of(slug);
    if chars.len() < 10 {
        return None;
    }
    let mut out: Vec<char> = Vec::new();
    let mut i: usize = 0;
    while i < chars.len()
        invariant
            i <= chars.len(),
            chars@ == slug@,
            out@.len() == i,
            forall|j: int| 0 <= j < i ==> is_date_char(#[trigger] chars@[j]),
            forall|j: int|
                0 <= j < i ==> #[trigger] out@[j] == if chars@[j] == '_' {
                    '-'
                } else {
                    chars@[j]
                },
        decreases chars.len() - i,
    {
        let c: char = chars[i];
        if !(('0' <= c && c <= '9') || c == '-' || c == '_') {
            return None;
        }
        out.push(
            if c == '_' {
                '-'
            } else {
                c
            },
        );
        i += 1;
    }
    Some(string_of(&out))
}

/// `word` with `first` in place of its first character.
fn replace_first_chars(word: &Vec<char>, first: &Vec<char>) -> (out: Vec<char>)
    ensures
        out@ == with_first(word@, first@),
{
    let mut out: Vec<char> = Vec::new();
    if word.len() == 0 {
        return out;
    }
    append_chars(&mut out, first);
    let mut i: usize = 1;
    while i < word.len()
        invariant
            1 <= i <= word.len(),
            out@ == first@ + word@.drop_first().take(i - 1),
        decreases word.len() - i,
    {
        out.push(word[i]);
        i += 1;
    }
    out
}

/// Puts `first` in the place of the first character of `word`; an empty
/// word stays empty.
pub fn replace_first(word: &str, first: &str) -> (out: String)
    ensures
        out@ == with_first(word@, first@),
{
    let out = replace_first_chars(&chars_of(word), &chars_of(first));
    string_of(&out)
}

/// `word` with its first character in upper case.
fn capitalize_chars(word: &Vec<char>) -> (out: Vec<char>)
    ensures
        out@ == capitalized(word@),
{
    if word.len() == 0 {
        let out: Vec<char> = Vec::new();
        return out;
    }
    let upper = to_uppercase(word[0]);
    replace_first_chars(word, &upper)
}

/// Puts the first character of `word` in upper case.
pub fn capitalize(word: &str) -> (out: String)
    ensures
        out@ == capitalized(word@),
{
    let out = capitalize_chars(&chars_of(word));
    string_of(&out)
}

/// The title for a file name (see [`slug_title`]).
pub fn title_from_slug(slug: &str) -> (title: String)
    ensures
        title@ == slug_title(slug@),
{
    let chars = chars_of(slug);
    let mut spaced_out: Vec<char> = Vec::new();
    let mut i: usize = 0;
    let ghost replaced = slug@.map_values(
        |c: char|
            if c == '-' || c == '_' {
                ' '
            } else {
                c
            },
    );
    while i < chars.len()
        invariant
            i <= chars.len(),
            chars@ == slug@,
            replaced == slug@.map_values(
                |c: char|
                    if c == '-' || c == '_' {
                        ' '
                    } else {
                        c
                    },
            ),
            spaced_out@ == replaced.take(i as int),
        decreases chars.len() - i,
    {
        let c: char = chars[i];
        spaced_out.push(
            if c == '-' || c == '_' {
                ' '
            } else {
                c
            },
        );
        i += 1;
    }
    assert(replaced.take(chars.len() as int) =~= replaced);
    let words = words_of(&spaced_out);
    let ghost plain = vec_views(words@);
    let mut capital: Vec<Vec<char>> = Vec::new();
    let mut k: usize = 0;
    while k < words.len()
        invariant
            k <= words.len(),
            plain == vec_views(words@),
            vec_views(capital@) == plain.take(k as int).map_values(|w: Seq<char>| capitalized(w)),
        decreases words.len() - k,
    {
        let word = capitalize_chars(&words[k]);
        let ghost before = vec_views(capital@);
        capital.push(word);
        assert(vec_views(capital@) =~= before.push(capitalized(plain[k as int])));
        k += 1;
    }
    assert(plain.take(words.len() as int) =~= plain);
    let title = join_with_spaces(&capital);
    string_of(&title)
}

/// Takes the tags out of `input` and puts one space between its words.
pub fn strip_html_tags(input: &str) -> (out: String)
    ensures
        out@ == plain_text(input@),
{
    let chars = chars_of(input);
    let mut kept: Vec<char> = Vec::new();
    let mut in_tag = false;
    let mut i: usize = 0;
    assert(chars@.skip(0) =~= chars@);
    while i < chars.len()
        invariant
            i <= chars.len(),
            kept@ + untagged(chars@.skip(i as int), in_tag) == untagged(chars@, false),
        decreases chars.len() - i,
    {
        let c: char = chars[i];
        let ghost rest = chars@.skip(i as int);
        assert(rest.drop_first() =~= chars@.skip(i + 1));
        if c == '<' {
            in_tag = true;
        } else if c == '>' {
            in_tag = false;
        } else if !in_tag {
            kept.push(c);
        }
        i += 1;
    }
    let words = words_of(&kept);
    let out = join_with_spaces(&words);
    string_of(&out)
}

/// The first quotation mark in `text` at or after `from`.
fn find_quote(text: &Vec<char>, from: usize) -> (found: Option<usize>)
    requires
        from <= text.len(),
    ensures
        match found {
            Some(at) => find_quote_from(text@, from as nat) == Some(at as nat) && from <= at
                < text.len(),
            None => find_quote_from(text@, from as nat) is None,
        },
{
    let mut i: usize = from;
    while i < text.len()
        invariant
            from <= i <= text.len(),
            find_quote_from(text@, from as nat) == find_quote_from(text@, i as nat),
        decreases text.len() - i,
    {
        if text[i] == '"' || text[i] == '\'' {
            return Some(i);
        }
        i += 1;
    }
    None
}

/// Finds the quoted value behind `marker` (see [`quoted_value`]).
pub fn extract_quoted_value(contents: &str, marker: &str) -> (value: Option<String>)
    ensures
        match value {
            Some(v) => quoted_value(contents@, marker@) == Some(v@),
            None => quoted_value(contents@, marker@) is None,
        },
{
    let text = chars_of(contents);
    let pattern = chars_of(marker);
    let index: usize = match find_in(&text, &pattern, 0) {
        Some(index) => index,
        None => {
            return None;
        },
    };
    let open: usize = match find_quote(&text, index + pattern.len()) {
        Some(open) => open,
        None => {
            return None;
        },
    };
    let close: usize = match find_char_in(&text, text[open], open + 1) {
        Some(close) => close,
        None => {
            return None;
        },
    };
    let value = trimmed_range(&text, open + 1, close);
    Some(string_of(&value))
}

} // verus!
