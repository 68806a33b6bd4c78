//! The content model: a header and an ordered list of tabs, each either the
//! about page with its links or a listing of posts.

use vstd::prelude::*;
use crate::text::{append_decimal, append_str, decimal, string_of};

verus! {

/// A labelled address on the about page.
#[derive(Clone, Debug, PartialEq, Eq)]
pub struct Link {
    pub label: String,
    pub url: String,
}

/// The about page: a tagline and links.
#[derive(Clone, Debug, PartialEq, Eq)]
pub struct AboutData {
    pub tagline: String,
    pub links: Vec<Link>,
}

/// One entry of a listing: a post or a gallery image.
#[derive(Clone, Debug, PartialEq, Eq)]
pub struct Post {
    pub title: String,
    pub date: String,
    pub body: String,
    pub url: String,
    pub sort_key: String,
}

/// A listing: a named tab with its posts, newest first.
#[derive(Clone, Debug, PartialEq, Eq)]
pub struct ContentTab {
    pub name: String,
    pub description: String,
    pub posts: Vec<Post>,
}

/// A top-level section.
#[derive(Clone, Debug, PartialEq, Eq)]
pub enum TabData {
    About(AboutData),
    Content(ContentTab),
}

/// The two lines at the top of the screen.
#[derive(Clone, Debug, PartialEq, Eq)]
pub struct HeaderData {
    pub title: String,
    pub subtitle: String,
}

/// Everything that is shown; built once and then only read.
#[derive(Clone, Debug, PartialEq, Eq)]
pub struct AppData {
    pub header: HeaderData,
    pub tabs: Vec<TabData>,
}

/// A link as plain values.
pub struct LinkView {
    pub label: Seq<char>,
    pub url: Seq<char>,
}

/// A post as plain values.
pub struct PostView {
    pub title: Seq<char>,
    pub date: Seq<char>,
    pub body: Seq<char>,
    pub url: Seq<char>,
    pub sort_key: Seq<char>,
}

/// A tab as plain values: the about page or a listing.
pub enum TabView {
    About { tagline: Seq<char>, links: Seq<LinkView> },
    Content { name: Seq<char>, description: Seq<char>, posts: Seq<PostView> },
}

/// The header as plain values.
pub struct HeaderView {
    pub title: Seq<char>,
    pub subtitle: Seq<char>,
}

/// The content as plain values.
pub struct AppDataView {
    pub header: HeaderView,
    pub tabs: Seq<TabView>,
}

impl View for Link {
    type V = LinkView;

    open spec fn view(&self) -> LinkView {
        LinkView { label: self.label@, url: self.url@ }
    }
}

impl View for Post {
    type V = PostView;

    open spec fn view(&self) -> PostView {
        PostView {
            title: self.title@,
            date: self.date@,
            body: self.body@,
            url: self.url@,
            sort_key: self.sort_key@,
        }
    }
}

/// The views of a sequence of links.
pub open spec fn link_views(links: Seq<Link>) -> Seq<LinkView> {
    links.map_values(|l: Link| l@)
}

/// The views of a sequence of posts.
pub open spec fn post_views(posts: Seq<Post>) -> Seq<PostView> {
    posts.map_values(|p: Post| p@)
}

impl View for AboutData {
    type V = TabView;

    open spec fn view(&self) -> TabView {
        TabView::About { tagline: self.tagline@, links: link_views(self.links@) }
    }
}

impl View for ContentTab {
    type V = TabView;

    open spec fn view(&self) -> TabView {
        TabView::Content {
            name: self.name@,
            description: self.description@,
            posts: post_views(self.posts@),
        }
    }
}

impl View for TabData {
    type V = TabView;

    open spec fn view(&self) -> TabView {
        match self {
            TabData::About(about) => about@,
            TabData::Content(tab) => tab@,
        }
    }
}

/// The views of a sequence of tabs.
pub open spec fn tab_views(tabs: Seq<TabData>) -> Seq<TabView> {
    tabs.map_values(|t: TabData| t@)
}

impl View for HeaderData {
    type V = HeaderView;

    open spec fn view(&self) -> HeaderView {
        HeaderView { title: self.title@, subtitle: self.subtitle@ }
    }
}

impl View for AppData {
    type V = AppDataView;

    open spec fn view(&self) -> AppDataView {
        AppDataView { header: self.header@, tabs: tab_views(self.tabs@) }
    }
}

impl TabView {
    /// The number of links or posts of the tab.
    pub open spec fn item_count(self) -> nat {
        match self {
            TabView::About { links, .. } => links.len(),
            TabView::Content { posts, .. } => posts.len(),
        }
    }

    /// The name shown in the tab bar.
    pub open spec fn name(self) -> Seq<char> {
        match self {
            TabView::About { .. } => "About"@,
            TabView::Content { name, .. } => name,
        }
    }

    /// The tab bar's text for the tab at position `index`: its number,
    /// counted from one, a full stop, a space and its name.
    pub open spec fn label(self, index: nat) -> Seq<char> {
        decimal(index + 1) + seq!['.', ' '] + self.name()
    }
}

impl AppDataView {
    /// The number of items of the tab at `tab_index`; zero if there is no
    /// such tab.
    pub open spec fn item_count(self, tab_index: nat) -> nat {
        if tab_index < self.tabs.len() {
            self.tabs[tab_index as int].item_count()
        } else {
            0
        }
    }
}

/// The number of items of the tab at `tab_index`; zero if there is no such
/// tab.
pub fn list_length(data: &AppData, tab_index: usize) -> (n: usize)
    ensures
        n == data@.item_count(tab_index as nat),
{
    if tab_index < data.tabs.len() {
        match &data.tabs[tab_index] {
            TabData::About(about) => about.links.len(),
            TabData::Content(tab) => tab.posts.len(),
        }
    } else {
        0
    }
}

/// The name of a tab as the tab bar shows it.
pub fn tab_name(tab: &TabData) -> (name: &str)
    ensures
        name@ == tab@.name(),
{
    match tab {
        TabData::About(_) => "About",
        TabData::Content(tab) => tab.name.as_str(),
    }
}

/// The tab bar's text for `tab` at position `index`.
pub fn tab_label(index: usize, tab: &TabData) -> (label: String)
    ensures
        label@ == tab@.label(index as nat),
{
    let mut chars: Vec<char> = Vec::new();
    append_decimal(&mut chars, index as u128 + 1);
    chars.push('.');
    chars.push(' ');
    append_str(&mut chars, tab_name(tab));
    string_of(&chars)
}

} // verus!
