//! From loaded files to the posts of a tab: one post for each file, newest
//! first.

use vstd::prelude::*;
use crate::content::{date_from_slug, slug_date, slug_title, title_from_slug};
use crate::frontmatter::{front_matter, split_frontmatter, value_of, Frontmatter};
use crate::model::{post_views, Post, PostView};
use crate::text::{
    append_chars, append_decimal, append_str, chars_of, decimal, same_chars, string_of, trim,
    trimmed,
};

verus! {

/// The lower-case form of `s` as Unicode's case mapping gives it.
pub uninterp spec fn lowercase_of(s: Seq<char>) -> Seq<char>;

/// `str::to_lowercase`: the lower-case form of the whole string.
#[verifier::external_body]
fn to_lowercase(s: &str) -> (lower: String)
    ensures
        lower@ == lowercase_of(s@),
{
    s.to_lowercase()
}

/// A Markdown file: its name without the extension, and what it holds.
#[derive(Clone, Debug, PartialEq, Eq)]
pub struct SourceFile {
    pub slug: String,
    pub content: String,
}

/// An image of the gallery: the file's name without the extension, the
/// extension, the whole path, and when it was last changed, in seconds
/// since 1970, if that is known.
#[derive(Clone, Debug, PartialEq, Eq)]
pub struct ImageFile {
    pub stem: String,
    pub extension: String,
    pub path: String,
    pub modified_secs: Option<u64>,
}

/// An image file as plain values.
pub struct ImageFileView {
    pub stem: Seq<char>,
    pub extension: Seq<char>,
    pub path: Seq<char>,
    pub modified_secs: Option<u64>,
}

impl View for ImageFile {
    type V = ImageFileView;

    open spec fn view(&self) -> ImageFileView {
        ImageFileView {
            stem: self.stem@,
            extension: self.extension@,
            path: self.path@,
            modified_secs: self.modified_secs,
        }
    }
}

/// The views of a sequence of source files: name and contents.
pub open spec fn file_views(files: Seq<SourceFile>) -> Seq<(Seq<char>, Seq<char>)> {
    files.map_values(|f: SourceFile| (f.slug@, f.content@))
}

/// The views of a sequence of image files.
pub open spec fn image_views(files: Seq<ImageFile>) -> Seq<ImageFileView> {
    files.map_values(|f: ImageFile| f@)
}

/// `a` comes before `b`, or is equal to it, in the order of strings:
/// character by character, by code point, a prefix before its extensions.
pub open spec fn lex_le(a: Seq<char>, b: Seq<char>) -> bool
    decreases a.len(),
{
    if a.len() == 0 {
        true
    } else if b.len() == 0 {
        false
    } else if a[0] != b[0] {
        a[0] < b[0]
    } else {
        lex_le(a.drop_first(), b.drop_first())
    }
}

/// `post` put into `sorted` before the first post whose key is not greater
/// than its own.
pub open spec fn inserted(post: PostView, sorted: Seq<PostView>) -> Seq<PostView>
    decreases sorted.len(),
{
    if sorted.len() == 0 {
        seq![post]
    } else if lex_le(sorted[0].sort_key, post.sort_key) {
        seq![post] + sorted
    } else {
        seq![sorted[0]] + inserted(post, sorted.drop_first())
    }
}

/// `posts` in descending order of their keys; posts with equal keys stay in
/// the order they had.
pub open spec fn newest_first(posts: Seq<PostView>) -> Seq<PostView>
    decreases posts.len(),
{
    if posts.len() == 0 {
        Seq::empty()
    } else {
        inserted(posts[0], newest_first(posts.drop_first()))
    }
}

/// Whether each post's key is at least that of every post after it.
pub open spec fn is_descending(posts: Seq<PostView>) -> bool {
    forall|i: int, j: int|
        0 <= i < j < posts.len() ==> lex_le(
            (#[trigger] posts[j]).sort_key,
            (#[trigger] posts[i]).sort_key,
        )
}

/// `s` without the characters `c` at its end.
pub open spec fn without_trailing(s: Seq<char>, c: char) -> Seq<char>
    decreases s.len(),
{
    if s.len() > 0 && s.last() == c {
        without_trailing(s.drop_last(), c)
    } else {
        s
    }
}

/// `value`, or `fallback` if there is none.
pub open spec fn or_else(value: Option<Seq<char>>, fallback: Seq<char>) -> Seq<char> {
    match value {
        Some(v) => v,
        None => fallback,
    }
}

/// Whether a post is left out: only published posts are wanted, and its
/// `published` entry, in lower case, is there and is not `true`.
pub open spec fn is_hidden(published_only: bool, published: Option<Seq<char>>) -> bool {
    published_only && match published {
        Some(lowered) => lowered != "true"@,
        None => false,
    }
}

/// The post for a file named `slug` with the front matter `entries` and
/// the text `body` behind it.
///
/// The date is the `created_at` entry or, without one, the date that the
/// file name stands for; the title is the `title` entry or the one that
/// the file name stands for. The body is the text without white space
/// around it, or the `description` entry if the text is blank. The address
/// is the file name behind `base_url`, without the slashes at its end, and
/// one slash. Posts are ordered by their date, those without by their file
/// name.
pub open spec fn post_from(
    slug: Seq<char>,
    entries: Seq<(Seq<char>, Seq<char>)>,
    body: Seq<char>,
    base_url: Seq<char>,
) -> PostView {
    let date = match value_of(entries, "created_at"@) {
        Some(date) => Some(date),
        None => slug_date(slug),
    };
    let description = or_else(value_of(entries, "description"@), Seq::empty());
    let text = trim(body);
    PostView {
        title: or_else(value_of(entries, "title"@), slug_title(slug)),
        date: or_else(date, Seq::empty()),
        body: if text.len() == 0 && description.len() > 0 {
            description
        } else {
            text
        },
        url: without_trailing(base_url, '/') + seq!['/'] + slug,
        sort_key: or_else(date, slug),
    }
}

/// The post that a file stands for (see [`post_from`]), or `None` if it
/// is left out: only published posts are wanted and its front matter says
/// `published:` with anything but `true`, in any case of letters.
pub open spec fn post_of(
    slug: Seq<char>,
    content: Seq<char>,
    base_url: Seq<char>,
    published_only: bool,
) -> Option<PostView> {
    let (entries, body) = front_matter(content);
    let published = match value_of(entries, "published"@) {
        Some(published) => Some(lowercase_of(published)),
        None => None,
    };
    if is_hidden(published_only, published) {
        None
    } else {
        Some(post_from(slug, entries, body, base_url))
    }
}

/// The posts of `files`, in the order of the files.
pub open spec fn posts_of(
    files: Seq<(Seq<char>, Seq<char>)>,
    base_url: Seq<char>,
    published_only: bool,
) -> Seq<PostView>
    decreases files.len(),
{
    if files.len() == 0 {
        Seq::empty()
    } else {
        let before = posts_of(files.drop_last(), base_url, published_only);
        match post_of(files.last().0, files.last().1, base_url, published_only) {
            Some(post) => before.push(post),
            None => before,
        }
    }
}

/// Whether `lowered` is one of the extensions of images: `jpg`, `jpeg`,
/// `png` or `webp`.
pub open spec fn is_image_name(lowered: Seq<char>) -> bool {
    lowered == "jpg"@ || lowered == "jpeg"@ || lowered == "png"@ || lowered == "webp"@
}

/// Whether a file with this extension is an image of the gallery: its
/// extension is one of those of images, in any case of letters.
pub open spec fn is_image_extension(extension: Seq<char>) -> bool {
    is_image_name(lowercase_of(extension))
}

/// `n` in decimal, with zeros in front up to `width` digits.
pub open spec fn zero_padded(n: nat, width: nat) -> Seq<char> {
    let digits = decimal(n);
    if digits.len() >= width {
        digits
    } else {
        Seq::new((width - digits.len()) as nat, |i: int| '0') + digits
    }
}

/// The number of digits of a gallery key.
pub const KEY_DIGITS: usize = 20;

/// The gallery's post for an image: named by the file, without a date,
/// opened by its path, and ordered by the time of its last change, or by
/// its name if that time is not known.
pub open spec fn image_post(file: ImageFileView) -> PostView {
    PostView {
        title: file.stem,
        date: Seq::empty(),
        body: "Image file: "@ + file.path,
        url: file.path,
        sort_key: match file.modified_secs {
            Some(secs) => zero_padded(secs as nat, KEY_DIGITS as nat),
            None => file.stem,
        },
    }
}

/// The gallery's posts for those of `files` that are images, in the order
/// of the files.
pub open spec fn image_posts(files: Seq<ImageFileView>) -> Seq<PostView>
    decreases files.len(),
{
    if files.len() == 0 {
        Seq::empty()
    } else if is_image_extension(files.last().extension) {
        image_posts(files.drop_last()).push(image_post(files.last()))
    } else {
        image_posts(files.drop_last())
    }
}

/// The order of strings is total.
pub proof fn lemma_lex_le_total(a: Seq<char>, b: Seq<char>)
    ensures
        lex_le(a, b) || lex_le(b, a),
    decreases a.len(),
{
    if a.len() > 0 && b.len() > 0 {
        if a[0] == b[0] {
            lemma_lex_le_total(a.drop_first(), b.drop_first());
        }
    }
}

/// Every string is at most itself.
pub proof fn lemma_lex_le_reflexive(a: Seq<char>)
    ensures
        lex_le(a, a),
    decreases a.len(),
{
    if a.len() > 0 {
        lemma_lex_le_reflexive(a.drop_first());
    }
}

/// The order of strings is transitive.
pub proof fn lemma_lex_le_transitive(a: Seq<char>, b: Seq<char>, c: Seq<char>)
    requires
        lex_le(a, b),
        lex_le(b, c),
    ensures
        lex_le(a, c),
    decreases a.len(),
{
    if a.len() > 0 && b.len() > 0 && c.len() > 0 && a[0] == b[0] && b[0] == c[0] {
        lemma_lex_le_transitive(a.drop_first(), b.drop_first(), c.drop_first());
    }
}

/// Whether no post of `posts` has a key greater than `bound`.
pub open spec fn keys_at_most(posts: Seq<PostView>, bound: Seq<char>) -> bool {
    forall|i: int| 0 <= i < posts.len() ==> lex_le((#[trigger] posts[i]).sort_key, bound)
}

/// Inserting a post under a bound on the keys keeps the bound.
proof fn lemma_inserted_bounded(post: PostView, sorted: Seq<PostView>, bound: Seq<char>)
    requires
        keys_at_most(sorted, bound),
        lex_le(post.sort_key, bound),
    ensures
        keys_at_most(inserted(post, sorted), bound),
    decreases sorted.len(),
{
    if sorted.len() > 0 && !lex_le(sorted[0].sort_key, post.sort_key) {
        lemma_inserted_bounded(post, sorted.drop_first(), bound);
    }
}

/// Inserting a post into posts in descending order keeps the order, and
/// adds the post and nothing else.
proof fn lemma_inserted(post: PostView, sorted: Seq<PostView>)
    requires
        is_descending(sorted),
    ensures
        is_descending(inserted(post, sorted)),
        inserted(post, sorted).len() == sorted.len() + 1,
        inserted(post, sorted).to_multiset() == sorted.to_multiset().insert(post),
    decreases sorted.len(),
{
    broadcast use vstd::multiset::group_multiset_axioms;

    let out = inserted(post, sorted);
    if sorted.len() == 0 {
        vstd::seq_lib::to_multiset_build(Seq::<PostView>::empty(), post);
        assert(sorted =~= Seq::<PostView>::empty());
    } else if lex_le(sorted[0].sort_key, post.sort_key) {
        assert(out =~= sorted.insert(0, post));
        vstd::seq_lib::to_multiset_insert(sorted, 0, post);
        assert forall|i: int, j: int| 0 <= i < j < out.len() implies lex_le(
            (#[trigger] out[j]).sort_key,
            (#[trigger] out[i]).sort_key,
        ) by {
            if i == 0 {
                let other = sorted[j - 1];
                if j == 1 {
                    lemma_lex_le_reflexive(other.sort_key);
                }
                lemma_lex_le_transitive(other.sort_key, sorted[0].sort_key, post.sort_key);
            }
        }
    } else {
        let first = sorted[0];
        let rest = sorted.drop_first();
        lemma_inserted(post, rest);
        let tail = inserted(post, rest);
        assert(out =~= tail.insert(0, first));
        vstd::seq_lib::to_multiset_insert(tail, 0, first);
        assert(sorted =~= rest.insert(0, first));
        vstd::seq_lib::to_multiset_insert(rest, 0, first);
        // nothing in the tail is greater than the first post
        lemma_lex_le_total(first.sort_key, post.sort_key);
        lemma_inserted_bounded(post, rest, first.sort_key);
    }
}

/// What [`newest_first`] gives is in descending order of the keys and
/// holds the same posts, each as often as before.
pub proof fn lemma_newest_first_sorted(posts: Seq<PostView>)
    ensures
        is_descending(newest_first(posts)),
        newest_first(posts).to_multiset() == posts.to_multiset(),
        newest_first(posts).len() == posts.len(),
    decreases posts.len(),
{
    broadcast use vstd::multiset::group_multiset_axioms;

    if posts.len() == 0 {
        assert(posts =~= Seq::<PostView>::empty());
    } else {
        let rest = posts.drop_first();
        lemma_newest_first_sorted(rest);
        lemma_inserted(posts[0], newest_first(rest));
        assert(posts =~= rest.insert(0, posts[0]));
        vstd::seq_lib::to_multiset_insert(rest, 0, posts[0]);
    }
}

/// Whether two strings hold the same text.
fn same_text(a: &str, b: &str) -> (same: bool)
    ensures
        same == (a@ == b@),
{
    let x = chars_of(a);
    let y = chars_of(b);
    same_chars(&x, &y)
}

/// Whether `a` comes before `b` or is equal to it (see [`lex_le`]).
fn key_le(a: &Vec<char>, b: &Vec<char>) -> (le: bool)
    ensures
        le == lex_le(a@, b@),
{
    let mut i: usize = 0;
    assert(a@.skip(0) =~= a@);
    assert(b@.skip(0) =~= b@);
    while i < a.len() && i < b.len()
        invariant
            i <= a.len(),
            i <= b.len(),
            lex_le(a@, b@) == lex_le(a@.skip(i as int), b@.skip(i as int)),
        decreases a.len() - i,
    {
        let x: char = a[i];
        let y: char = b[i];
        if x != y {
            return x < y;
        }
        assert(a@.skip(i as int).drop_first() =~= a@.skip(i + 1));
        assert(b@.skip(i as int).drop_first() =~= b@.skip(i + 1));
        i += 1;
    }
    i == a.len()
}

/// Sorts posts by their keys, greatest first; posts with equal keys stay
/// in the order they had.
pub fn sort_posts(posts: Vec<Post>) -> (sorted: Vec<Post>)
    ensures
        post_views(sorted@) == newest_first(post_views(posts@)),
        is_descending(post_views(sorted@)),
        post_views(sorted@).to_multiset() == post_views(posts@).to_multiset(),
{
    let mut rest = posts;
    let mut sorted: Vec<Post> = Vec::new();
    let ghost all = post_views(posts@);
    assert(post_views(rest@) =~= all.take(all.len() as int));
    while rest.len() > 0
        invariant
            rest@.len() <= all.len(),
            post_views(rest@) == all.take(rest@.len() as int),
            post_views(sorted@) == newest_first(all.skip(rest@.len() as int)),
        decreases rest.len(),
    {
        let ghost n = rest@.len() as int;
        let ghost before = post_views(sorted@);
        let ghost held = post_views(rest@);
        let post = rest.pop().unwrap();
        proof {
            assert(held[n - 1] == post@);
            assert(all.skip(n - 1).drop_first() =~= all.skip(n));
        }
        let key = chars_of(post.sort_key.as_str());
        let mut j: usize = 0;
        assert(before.skip(0) =~= before);
        while j < sorted.len() && !key_le(&chars_of(sorted[j].sort_key.as_str()), &key)
            invariant
                j <= sorted.len(),
                before == post_views(sorted@),
                key@ == post@.sort_key,
                inserted(post@, before) == before.take(j as int) + inserted(
                    post@,
                    before.skip(j as int),
                ),
            decreases sorted.len() - j,
        {
            proof {
                let tail = before.skip(j as int);
                assert(tail.drop_first() =~= before.skip(j + 1));
            }
            j += 1;
        }
        sorted.insert(j, post);
    }
    proof {
        lemma_newest_first_sorted(all);
    }
    sorted
}

/// `s` without the slashes at its end.
fn without_trailing_slashes(s: &Vec<char>) -> (n: usize)
    ensures
        n <= s.len(),
        s@.take(n as int) == without_trailing(s@, '/'),
{
    let mut n: usize = s.len();
    assert(s@.take(n as int) =~= s@);
    while n > 0 && s[n - 1] == '/'
        invariant
            n <= s.len(),
            without_trailing(s@.take(n as int), '/') == without_trailing(s@, '/'),
        decreases n,
    {
        assert(s@.take(n as int).drop_last() =~= s@.take(n - 1));
        n -= 1;
    }
    n
}

/// Tells whether a post is left out, from its `published` entry in lower
/// case (see [`is_hidden`]).
pub fn hides(published_only: bool, published: Option<&str>) -> (hidden: bool)
    ensures
        hidden == is_hidden(
            published_only,
            match published {
                Some(lowered) => Some(lowered@),
                None => None,
            },
        ),
{
    match published {
        Some(lowered) => published_only && !same_text(lowered, "true"),
        None => false,
    }
}

/// The post for a file from its name, its front matter and the text
/// behind the front matter (see [`post_from`]).
pub fn build_post(slug: &str, frontmatter: &Frontmatter, body: &str, base_url: &str) -> (post: Post)
    ensures
        post@ == post_from(slug@, frontmatter@, body@, base_url@),
{
    let date: Option<String> = match frontmatter.get("created_at") {
        Some(date) => Some(date),
        None => date_from_slug(slug),
    };
    let title: String = match frontmatter.get("title") {
        Some(title) => title,
        None => title_from_slug(slug),
    };
    let description: String = match frontmatter.get("description") {
        Some(description) => description,
        None => String::new(),
    };
    let text = trimmed(&chars_of(body));
    let body: String = if text.len() == 0 && !description.as_str().is_empty() {
        description
    } else {
        string_of(&text)
    };
    let sort_key: String = match &date {
        Some(date) => date.clone(),
        None => slug.to_owned(),
    };
    let base = chars_of(base_url);
    let keep: usize = without_trailing_slashes(&base);
    let mut url: Vec<char> = Vec::new();
    let mut i: usize = 0;
    while i < keep
        invariant
            i <= keep <= base.len(),
            url@ == base@.take(i as int),
        decreases keep - i,
    {
        url.push(base[i]);
        i += 1;
    }
    url.push('/');
    append_str(&mut url, slug);
    assert(url@ =~= without_trailing(base_url@, '/') + seq!['/'] + slug@);
    let date: String = match date {
        Some(date) => date,
        None => String::new(),
    };
    Post { title, date, body, url: string_of(&url), sort_key }
}

/// The post for a file, unless it is left out (see [`post_of`]).
pub fn post_from_file(file: &SourceFile, base_url: &str, published_only: bool) -> (post: Option<
    Post,
>)
    ensures
        match post {
            Some(p) => post_of(file.slug@, file.content@, base_url@, published_only) == Some(p@),
            None => post_of(file.slug@, file.content@, base_url@, published_only) is None,
        },
{
    let (frontmatter, body) = split_frontmatter(file.content.as_str());
    let hidden = match frontmatter.get("published") {
        Some(published) => {
            let lowered = to_lowercase(published.as_str());
            hides(published_only, Some(lowered.as_str()))
        },
        None => hides(published_only, None),
    };
    if hidden {
        None
    } else {
        Some(build_post(file.slug.as_str(), &frontmatter, body.as_str(), base_url))
    }
}

/// The posts of a tab from its files: one for each file that is not
/// hidden (see [`post_of`]), newest first.
pub fn load_posts(files: &Vec<SourceFile>, base_url: &str, published_only: bool) -> (posts: Vec<
    Post,
>)
    ensures
        post_views(posts@) == newest_first(
            posts_of(file_views(files@), base_url@, published_only),
        ),
        is_descending(post_views(posts@)),
{
    let mut posts: Vec<Post> = Vec::new();
    let ghost all = file_views(files@);
    let mut i: usize = 0;
    while i < files.len()
        invariant
            i <= files.len(),
            all == file_views(files@),
            post_views(posts@) == posts_of(all.take(i as int), base_url@, published_only),
        decreases files.len() - i,
    {
        proof {
            assert(all.take(i + 1).drop_last() =~= all.take(i as int));
        }
        match post_from_file(&files[i], base_url, published_only) {
            Some(post) => {
                posts.push(post);
            },
            None => {},
        }
        i += 1;
    }
    assert(all.take(files.len() as int) =~= all);
    sort_posts(posts)
}

/// Whether `lowered` is one of the extensions of images.
pub fn names_image(lowered: &str) -> (b: bool)
    ensures
        b == is_image_name(lowered@),
{
    same_text(lowered, "jpg") || same_text(lowered, "jpeg") || same_text(lowered, "png")
        || same_text(lowered, "webp")
}

/// Whether a file with this extension is an image of the gallery.
pub fn is_image(extension: &str) -> (b: bool)
    ensures
        b == is_image_extension(extension@),
{
    let lowered = to_lowercase(extension);
    names_image(lowered.as_str())
}

/// The key of an image that was last changed at `secs`.
fn padded_key(secs: u64) -> (key: String)
    ensures
        key@ == zero_padded(secs as nat, KEY_DIGITS as nat),
{
    let mut digits: Vec<char> = Vec::new();
    append_decimal(&mut digits, secs as u128);
    if digits.len() >= KEY_DIGITS {
        return string_of(&digits);
    }
    let missing: usize = KEY_DIGITS - digits.len();
    let mut key: Vec<char> = Vec::new();
    let mut i: usize = 0;
    while i < missing
        invariant
            i <= missing,
            key@ == Seq::new(i as nat, |k: int| '0'),
        decreases missing - i,
    {
        key.push('0');
        i += 1;
    }
    append_chars(&mut key, &digits);
    string_of(&key)
}

/// The gallery's post for an image (see [`image_post`]).
pub fn gallery_post(file: &ImageFile) -> (post: Post)
    ensures
        post@ == image_post(file@),
{
    let mut body: Vec<char> = Vec::new();
    append_str(&mut body, "Image file: ");
    append_str(&mut body, file.path.as_str());
    let sort_key: String = match file.modified_secs {
        Some(secs) => padded_key(secs),
        None => file.stem.clone(),
    };
    Post {
        title: file.stem.clone(),
        date: String::new(),
        body: string_of(&body),
        url: file.path.clone(),
        sort_key,
    }
}

/// The posts of the gallery from the files of its directory: one for each
/// image, newest first.
pub fn load_gallery(files: &Vec<ImageFile>) -> (posts: Vec<Post>)
    ensures
        post_views(posts@) == newest_first(image_posts(image_views(files@))),
        is_descending(post_views(posts@)),
{
    let mut posts: Vec<Post> = Vec::new();
    let ghost all = image_views(files@);
    let mut i: usize = 0;
    while i < files.len()
        invariant
            i <= files.len(),
            all == image_views(files@),
            post_views(posts@) == image_posts(all.take(i as int)),
        decreases files.len() - i,
    {
        proof {
            assert(all.take(i + 1).drop_last() =~= all.take(i as int));
        }
        if is_image(files[i].extension.as_str()) {
            let post = gallery_post(&files[i]);
            posts.push(post);
        }
        i += 1;
    }
    assert(all.take(files.len() as int) =~= all);
    sort_posts(posts)
}

} // verus!
