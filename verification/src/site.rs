//! The fixed parts of the site: the header's defaults, the about page, and
//! the tabs in their order.

use vstd::prelude::*;
use crate::content::{extract_quoted_value, plain_text, quoted_value, strip_html_tags};
use crate::model::{
    post_views, AboutData, AppData, AppDataView, ContentTab, HeaderData, HeaderView, Link,
    LinkView, Post, PostView, TabData, TabView,
};
use crate::nav::text_view;
use crate::posts::is_descending;

verus! {

/// The title if nothing else is given.
pub open spec fn default_title() -> Seq<char> {
    "John Jeong"@
}

/// The subtitle if nothing else is given.
pub open spec fn default_subtitle() -> Seq<char> {
    "Co-founder & Co-CEO at Hyprnote"@
}

/// The status when the content directory was not found.
pub open spec fn missing_content_status() -> Seq<char> {
    "Content directory not found. Set JOHNJEONG_CONTENT_DIR to your part-of-my-brain path."@
}

/// `value`, or `fallback` if there is none.
pub open spec fn or_text(value: Option<Seq<char>>, fallback: Seq<char>) -> Seq<char> {
    match value {
        Some(v) => v,
        None => fallback,
    }
}

/// The header. The title is the quoted value behind `title =` in the
/// site's header source, if that source is there and has one; else the
/// title from the environment, if set; else the default. The subtitle
/// is found the same way behind `subtitle =`, and loses its tags.
pub open spec fn header_of(
    title: Option<Seq<char>>,
    subtitle: Option<Seq<char>>,
    source: Option<Seq<char>>,
) -> HeaderView {
    let found_title = match source {
        Some(contents) => quoted_value(contents, "title ="@),
        None => None,
    };
    let found_subtitle = match source {
        Some(contents) => match quoted_value(contents, "subtitle ="@) {
            Some(value) => Some(plain_text(value)),
            None => None,
        },
        None => None,
    };
    HeaderView {
        title: or_text(found_title, or_text(title, default_title())),
        subtitle: or_text(found_subtitle, or_text(subtitle, default_subtitle())),
    }
}

/// The about page.
pub open spec fn about_view() -> TabView {
    TabView::About {
        tagline: "I like simple & intuitive stuff."@,
        links: seq![
            LinkView { label: "LinkedIn"@, url: "https://www.linkedin.com/in/johntopia/"@ },
            LinkView { label: "X (Twitter)"@, url: "https://x.com/computeless"@ },
            LinkView { label: "GitHub"@, url: "https://github.com/ComputelessComputer"@ },
            LinkView { label: "Email"@, url: "mailto:john@hyprnote.com"@ },
        ],
    }
}

/// The posts of a listing that was loaded, or none if it was not.
pub open spec fn loaded(posts: Option<Vec<Post>>) -> Seq<PostView> {
    match posts {
        Some(posts) => post_views(posts@),
        None => Seq::empty(),
    }
}

/// The tabs in their order: the about page, then essays, daily logs,
/// inspirations, lessons and the gallery.
pub open spec fn site_tabs(
    essays: Seq<PostView>,
    journals: Seq<PostView>,
    inspirations: Seq<PostView>,
    lessons: Seq<PostView>,
    gallery: Seq<PostView>,
) -> Seq<TabView> {
    seq![
        about_view(),
        TabView::Content { name: "Essays"@, description: "Long-form writing."@, posts: essays },
        TabView::Content {
            name: "Daily Logs"@,
            description: "Daily notes and logs."@,
            posts: journals,
        },
        TabView::Content {
            name: "Inspirations"@,
            description: "Talks, podcasts, and ideas that shaped me."@,
            posts: inspirations,
        },
        TabView::Content {
            name: "Lessons"@,
            description: "Learning notes and highlights."@,
            posts: lessons,
        },
        TabView::Content { name: "Gallery"@, description: "Photos I took."@, posts: gallery },
    ]
}

/// Whether the posts of every listing are in descending order of their
/// keys.
pub open spec fn listings_sorted(data: AppDataView) -> bool {
    forall|i: int|
        0 <= i < data.tabs.len() ==> match #[trigger] data.tabs[i] {
            TabView::Content { posts, .. } => is_descending(posts),
            TabView::About { .. } => true,
        }
}

/// The header from what was found outside: the title and the subtitle
/// from the environment, and the text of the site's header source (see
/// [`header_of`]).
pub fn load_header_data(title: Option<String>, subtitle: Option<String>, source: Option<&str>) -> (header:
    HeaderData)
    ensures
        header@ == header_of(
            text_view(title),
            text_view(subtitle),
            match source {
                Some(contents) => Some(contents@),
                None => None,
            },
        ),
{
    let mut title: String = match title {
        Some(title) => title,
        None => "John Jeong".to_owned(),
    };
    let mut subtitle: String = match subtitle {
        Some(subtitle) => subtitle,
        None => "Co-founder & Co-CEO at Hyprnote".to_owned(),
    };
    match source {
        Some(contents) => {
            match extract_quoted_value(contents, "title =") {
                Some(value) => {
                    title = value;
                },
                None => {},
            }
            match extract_quoted_value(contents, "subtitle =") {
                Some(value) => {
                    subtitle = strip_html_tags(value.as_str());
                },
                None => {},
            }
        },
        None => {},
    }
    HeaderData { title, subtitle }
}

/// A link.
fn link(label: &str, url: &str) -> (link: Link)
    ensures
        link@ == (LinkView { label: label@, url: url@ }),
{
    Link { label: label.to_owned(), url: url.to_owned() }
}

/// A listing.
fn listing(name: &str, description: &str, posts: Option<Vec<Post>>) -> (tab: TabData)
    ensures
        tab@ == (TabView::Content {
            name: name@,
            description: description@,
            posts: loaded(posts),
        }),
{
    let posts: Vec<Post> = match posts {
        Some(posts) => posts,
        None => {
            let none: Vec<Post> = Vec::new();
            assert(post_views(none@) =~= Seq::<PostView>::empty());
            none
        },
    };
    TabData::Content(
        ContentTab { name: name.to_owned(), description: description.to_owned(), posts },
    )
}

/// Puts the content together: the header, and the six tabs in their order
/// (see [`site_tabs`]). A listing that could not be loaded is `None` and
/// becomes an empty tab; if the essays are missing, the status says that
/// the content directory was not found.
pub fn build_app_data(
    header: HeaderData,
    essays: Option<Vec<Post>>,
    journals: Option<Vec<Post>>,
    inspirations: Option<Vec<Post>>,
    lessons: Option<Vec<Post>>,
    gallery: Option<Vec<Post>>,
) -> (built: (AppData, Option<String>))
    ensures
        built.0@ == (AppDataView {
            header: header@,
            tabs: site_tabs(
                loaded(essays),
                loaded(journals),
                loaded(inspirations),
                loaded(lessons),
                loaded(gallery),
            ),
        }),
        built.0.tabs@.len() == 6,
        is_descending(loaded(essays)) && is_descending(loaded(journals)) && is_descending(
            loaded(inspirations),
        ) && is_descending(loaded(lessons)) && is_descending(loaded(gallery))
            ==> listings_sorted(built.0@),
        text_view(built.1) == if essays is None {
            Some(missing_content_status())
        } else {
            None
        },
{
    let status: Option<String> = if essays.is_none() {
        Some(
            "Content directory not found. Set JOHNJEONG_CONTENT_DIR to your part-of-my-brain path.".to_owned(),
        )
    } else {
        None
    };
    let mut links: Vec<Link> = Vec::new();
    links.push(link("LinkedIn", "https://www.linkedin.com/in/johntopia/"));
    links.push(link("X (Twitter)", "https://x.com/computeless"));
    links.push(link("GitHub", "https://github.com/ComputelessComputer"));
    links.push(link("Email", "mailto:john@hyprnote.com"));
    let about = AboutData { tagline: "I like simple & intuitive stuff.".to_owned(), links };
    assert(about@ =~= about_view()) by {
        assert(about@->links =~= about_view()->links);
    }
    let ghost expected = site_tabs(
        loaded(essays),
        loaded(journals),
        loaded(inspirations),
        loaded(lessons),
        loaded(gallery),
    );
    let mut tabs: Vec<TabData> = Vec::new();
    tabs.push(TabData::About(about));
    tabs.push(listing("Essays", "Long-form writing.", essays));
    tabs.push(listing("Daily Logs", "Daily notes and logs.", journals));
    tabs.push(listing("Inspirations", "Talks, podcasts, and ideas that shaped me.", inspirations));
    tabs.push(listing("Lessons", "Learning notes and highlights.", lessons));
    tabs.push(listing("Gallery", "Photos I took.", gallery));
    let data = AppData { header, tabs };
    assert(data@.tabs =~= expected);
    (data, status)
}

} // verus!
