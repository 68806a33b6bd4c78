//! Front matter: the block of `key: value` lines between two `---` lines at
//! the head of a file.

use vstd::prelude::*;
use crate::content::{clean_frontmatter_value, unquoted};
use crate::text::{
    chars_of, find_char_from, find_char_in, is_whitespace, lines_of, same_chars, split_lines,
    string_of, string_of_range, trim, trim_end, trimmed_start, vec_views,
};

verus! {

/// The entries of a front matter block, in the order of their lines.
#[derive(Clone, Debug, PartialEq, Eq)]
pub struct Frontmatter {
    pub entries: Vec<(String, String)>,
}

/// The views of a sequence of entries.
pub open spec fn entry_views(entries: Seq<(String, String)>) -> Seq<(Seq<char>, Seq<char>)> {
    entries.map_values(|e: (String, String)| (e.0@, e.1@))
}

impl View for Frontmatter {
    type V = Seq<(Seq<char>, Seq<char>)>;

    open spec fn view(&self) -> Seq<(Seq<char>, Seq<char>)> {
        entry_views(self.entries@)
    }
}

/// The value of `key`: that of the last entry with this key, if there is
/// one.
pub open spec fn value_of(entries: Seq<(Seq<char>, Seq<char>)>, key: Seq<char>) -> Option<
    Seq<char>,
>
    decreases entries.len(),
{
    if entries.len() == 0 {
        None
    } else if entries.last().0 == key {
        Some(entries.last().1)
    } else {
        value_of(entries.drop_last(), key)
    }
}

/// The line that opens and closes a block.
pub open spec fn fence() -> Seq<char> {
    seq!['-', '-', '-']
}

/// The index of the first fence among `lines` at or after `from`; the
/// number of lines if there is none.
pub open spec fn fence_index(lines: Seq<Seq<char>>, from: nat) -> nat
    decreases lines.len() - from,
{
    if from >= lines.len() {
        lines.len()
    } else if lines[from as int] == fence() {
        from
    } else {
        fence_index(lines, from + 1)
    }
}

/// The entry that a line stands for, if it has a colon: the key is what
/// stands before the first colon, the value what follows it, both without
/// white space around them and the value without quotation marks.
pub open spec fn entry_of(line: Seq<char>) -> Option<(Seq<char>, Seq<char>)> {
    match find_char_from(line, ':', 0) {
        None => None,
        Some(at) => Some((trim(line.take(at as int)), unquoted(line.skip((at + 1) as int)))),
    }
}

/// The entries of `lines`, in order; lines without a colon have none.
pub open spec fn entries_of(lines: Seq<Seq<char>>) -> Seq<(Seq<char>, Seq<char>)>
    decreases lines.len(),
{
    if lines.len() == 0 {
        Seq::empty()
    } else {
        match entry_of(lines.last()) {
            Some(entry) => entries_of(lines.drop_last()).push(entry),
            None => entries_of(lines.drop_last()),
        }
    }
}

/// The number of characters that `lines` take up, each with one line
/// break.
pub open spec fn extent(lines: Seq<Seq<char>>) -> nat
    decreases lines.len(),
{
    if lines.len() == 0 {
        0
    } else {
        extent(lines.drop_last()) + lines.last().len() + 1
    }
}

/// A file taken apart into its front matter and its body. Front matter is
/// there if the first line is a fence; it runs up to the next fence, or to
/// the end of the file if there is none. The body is what follows the
/// lines of the block, each counted with one line break.
pub open spec fn front_matter(contents: Seq<char>) -> (Seq<(Seq<char>, Seq<char>)>, Seq<char>) {
    let lines = split_lines(contents);
    if lines.len() == 0 || lines[0] != fence() {
        (Seq::empty(), contents)
    } else {
        let close = fence_index(lines, 1);
        let used = if close < lines.len() {
            (close + 1) as int
        } else {
            close as int
        };
        let offset = extent(lines.take(used));
        (
            entries_of(lines.subrange(1, close as int)),
            if offset <= contents.len() {
                contents.skip(offset as int)
            } else {
                Seq::empty()
            },
        )
    }
}

impl Frontmatter {
    /// The value of `key`, if the block has an entry for it.
    pub fn get(&self, key: &str) -> (value: Option<String>)
        ensures
            match value {
                Some(v) => value_of(self@, key@) == Some(v@),
                None => value_of(self@, key@) is None,
            },
    {
        let wanted = chars_of(key);
        let mut i: usize = self.entries.len();
        assert(self@.take(i as int) =~= self@);
        while i > 0
            invariant
                i <= self.entries.len(),
                wanted@ == key@,
                value_of(self@, key@) == value_of(self@.take(i as int), key@),
            decreases i,
        {
            let entry = &self.entries[i - 1];
            let ghost upto = self@.take(i as int);
            assert(upto.drop_last() =~= self@.take(i - 1));
            let name = chars_of(entry.0.as_str());
            if same_chars(&name, &wanted) {
                return Some(entry.1.clone());
            }
            i -= 1;
        }
        None
    }
}

/// Whether `line` is a fence.
fn is_fence(line: &Vec<char>) -> (b: bool)
    ensures
        b == (line@ == fence()),
{
    let b = line.len() == 3 && line[0] == '-' && line[1] == '-' && line[2] == '-';
    if b {
        assert(line@ =~= fence());
    }
    b
}

/// The entry of a line (see [`entry_of`]).
fn parse_entry(line: &Vec<char>) -> (entry: Option<(String, String)>)
    ensures
        match entry {
            Some(e) => entry_of(line@) == Some((e.0@, e.1@)),
            None => entry_of(line@) is None,
        },
{
    match find_char_in(line, ':', 0) {
        None => None,
        Some(at) => {
            let end: usize = trimmed_end_of(line, at);
            let start: usize = trimmed_start(line, end);
            let key = string_of_range(line, start, end);
            let value_text = string_of_range(line, at + 1, line.len());
            let value = clean_frontmatter_value(value_text.as_str());
            Some((key, value))
        },
    }
}

/// The length of `v[..to]` without its trailing white space.
fn trimmed_end_of(v: &Vec<char>, to: usize) -> (n: usize)
    requires
        to <= v.len(),
    ensures
        n <= to,
        v@.take(n as int) == trim_end(v@.take(to as int)),
{
    let mut n: usize = to;
    while n > 0 && is_whitespace(v[n - 1])
        invariant
            n <= to <= v.len(),
            trim_end(v@.take(n as int)) == trim_end(v@.take(to as int)),
        decreases n,
    {
        assert(v@.take(n as int).drop_last() =~= v@.take(n - 1));
        n -= 1;
    }
    n
}

/// Takes a file apart into its front matter and its body (see
/// [`front_matter`]).
pub fn split_frontmatter(contents: &str) -> (parts: (Frontmatter, String))
    ensures
        parts.0@ == front_matter(contents@).0,
        parts.1@ == front_matter(contents@).1,
{
    let chars = chars_of(contents);
    let lines = lines_of(&chars);
    let ghost all = vec_views(lines@);
    let mut entries: Vec<(String, String)> = Vec::new();
    if lines.len() == 0 || !is_fence(&lines[0]) {
        return (Frontmatter { entries }, string_of(&chars));
    }
    // how far the block reaches: `fits` as long as that is inside the file
    let mut offset: usize = 0;
    let mut fits: bool = true;
    let mut i: usize = 0;
    let mut closed: bool = false;
    while i < lines.len() && !closed
        invariant
            i <= lines.len(),
            lines.len() > 0,
            all == vec_views(lines@),
            all[0] == fence(),
            chars@ == contents@,
            fits ==> offset == extent(all.take(i as int)) && offset <= chars.len(),
            !fits ==> extent(all.take(i as int)) > chars.len(),
            i == 0 ==> !closed && entries@.len() == 0,
            i >= 1 && !closed ==> fence_index(all, 1) == fence_index(all, i as nat) && entry_views(
                entries@,
            ) == entries_of(all.subrange(1, i as int)),
            closed ==> i >= 2 && fence_index(all, 1) == i - 1 && entry_views(entries@)
                == entries_of(all.subrange(1, i - 1)),
        decreases lines.len() - i,
    {
        let line = &lines[i];
        proof {
            assert(all.take(i + 1).drop_last() =~= all.take(i as int));
        }
        if fits && line.len() < chars.len() - offset {
            offset = offset + line.len() + 1;
        } else {
            fits = false;
        }
        if i >= 1 {
            if is_fence(line) {
                closed = true;
            } else {
                proof {
                    assert(all.subrange(1, i + 1).drop_last() =~= all.subrange(1, i as int));
                }
                match parse_entry(line) {
                    Some(entry) => {
                        entries.push(entry);
                    },
                    None => {},
                }
            }
        }
        i += 1;
    }
    let body = if fits {
        let body = string_of_range(&chars, offset, chars.len());
        body
    } else {
        String::new()
    };
    (Frontmatter { entries }, body)
}

} // verus!
