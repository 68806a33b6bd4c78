//! The render planner: from the content, the navigation state and the size
//! of the terminal to the list of positioned, styled texts that make up a
//! frame. Planning a frame also brings the list window over the selection
//! and recomputes the detail pane's scroll bound.

use vstd::prelude::*;
use crate::layout::{clamp_text, clamped, date_prefix, format_date, wrap_markdown, wrapped};
use crate::model::{
    tab_label, AboutData, AppData, AppDataView, ContentTab, HeaderView, LinkView, Post, PostView,
    TabData, TabView,
};
use crate::nav::{
    clamp_scroll, lemma_moves_in_empty_list, lemma_moves_stay_in_list, moved_all,
    set_content_bound, AppState, AppStateView,
};
use crate::text::{append_str, chars_of, string_of, string_views};

verus! {

/// How a piece of text is drawn.
#[derive(Clone, Copy, PartialEq, Eq, Debug)]
pub enum Style {
    /// The terminal's defaults.
    Plain,
    /// Bold.
    Bold,
    /// Underlined.
    Underlined,
    /// Dark grey on the default background.
    Dim,
    /// Black on white: the selected row of a list.
    Selected,
    /// White on the default background: the other rows of a list.
    Unselected,
}

/// One write to the terminal: `text` in `style`, starting at column `x` of
/// row `y`.
#[derive(Clone, Debug, PartialEq, Eq)]
pub struct DrawOp {
    pub x: u16,
    pub y: u16,
    pub style: Style,
    pub text: String,
}

/// A draw operation as plain values.
pub struct DrawOpView {
    pub x: nat,
    pub y: nat,
    pub style: Style,
    pub text: Seq<char>,
}

impl View for DrawOp {
    type V = DrawOpView;

    open spec fn view(&self) -> DrawOpView {
        DrawOpView { x: self.x as nat, y: self.y as nat, style: self.style, text: self.text@ }
    }
}

/// The views of a sequence of draw operations.
pub open spec fn op_views(ops: Seq<DrawOp>) -> Seq<DrawOpView> {
    ops.map_values(|op: DrawOp| op@)
}

/// A planned frame: what to draw, in order, and the navigation state after
/// planning it.
pub struct Frame {
    pub ops: Seq<DrawOpView>,
    pub state: AppStateView,
}

/// Columns left free at the left edge.
pub const MARGIN: u16 = 2;

/// Columns that the frame leaves unused, both edges together.
pub const SIDE_COLUMNS: u16 = 4;

/// The row of the title.
pub const TITLE_ROW: u16 = 1;

/// The row of the subtitle.
pub const SUBTITLE_ROW: u16 = 2;

/// The row of the tab bar.
pub const NAV_ROW: u16 = 4;

/// The first row of the tab's own content.
pub const CONTENT_TOP: u16 = 6;

/// The first row of the about page's links.
pub const ABOUT_LIST_ROW: u16 = 8;

/// The column of the about page's links.
pub const ABOUT_LIST_COLUMN: u16 = 4;

/// The first row of a listing's posts.
pub const POST_LIST_ROW: u16 = 9;

/// Rows kept free below a list.
pub const ROWS_BELOW_LIST: u16 = 3;

/// Rows kept free below the detail pane, for the status and help lines.
pub const ROWS_BELOW_DETAIL: u16 = 2;

/// The narrowest list pane.
pub const MIN_LIST_WIDTH: usize = 24;

/// The widest list pane.
pub const MAX_LIST_WIDTH: usize = 38;

/// The share of the usable width that the list pane takes, in percent.
pub const LIST_PERCENT: usize = 33;

/// Columns between the list pane and the detail pane.
pub const GUTTER: usize = 2;

/// The narrowest detail pane.
pub const MIN_DETAIL_WIDTH: usize = 10;

/// The glyph in front of the selected row.
pub const SELECTION_MARK: char = '›';

/// The key summary in the last line but one.
pub open spec fn help_line() -> Seq<char> {
    "↑/↓ or j/k move  •  o/enter open  •  pgup/pgdn scroll  •  1-6 tabs (g gallery)  •  q quit"@
}

/// `a - b`, or zero if that would be negative.
pub open spec fn minus(a: nat, b: nat) -> nat {
    if a >= b {
        (a - b) as nat
    } else {
        0
    }
}

/// The smaller of two numbers.
pub open spec fn least(a: nat, b: nat) -> nat {
    if a <= b {
        a
    } else {
        b
    }
}

/// The width in which text is laid out on a terminal `cols` columns wide.
pub open spec fn usable_width(cols: nat) -> nat {
    minus(cols, SIDE_COLUMNS as nat)
}

/// The width of the list pane: a third of the usable width, but at least
/// 24 and at most 38 columns.
pub open spec fn list_width(max_width: nat) -> nat {
    let third = max_width * LIST_PERCENT as nat / 100;
    if third < MIN_LIST_WIDTH {
        MIN_LIST_WIDTH as nat
    } else if third > MAX_LIST_WIDTH {
        MAX_LIST_WIDTH as nat
    } else {
        third
    }
}

/// The column at which the detail pane starts.
pub open spec fn detail_column(max_width: nat) -> nat {
    least(MARGIN as nat + list_width(max_width) + GUTTER as nat, max_width)
}

/// The width of the detail pane: what is left of the usable width, but at
/// least ten columns.
pub open spec fn detail_width(max_width: nat) -> nat {
    let rest = minus(max_width, detail_column(max_width) + 1);
    if rest < MIN_DETAIL_WIDTH {
        MIN_DETAIL_WIDTH as nat
    } else {
        rest
    }
}

/// The number of list rows drawn: those from `scroll` on, at most `height`.
pub open spec fn visible_rows(scroll: nat, height: nat, total: nat) -> nat {
    least(minus(total, scroll), height)
}

/// The style of a list row.
pub open spec fn row_style(selected: bool) -> Style {
    if selected {
        Style::Selected
    } else {
        Style::Unselected
    }
}

/// The text of a list row: the selection mark or a space, a space, and the
/// row's label.
pub open spec fn row_text(selected: bool, label: Seq<char>) -> Seq<char> {
    seq![
        if selected {
            SELECTION_MARK
        } else {
            ' '
        },
        ' ',
    ] + label
}

/// The label of a post in the list: its date, cut to ten characters and
/// followed by a space, if it has one, and its title.
pub open spec fn post_label(post: PostView) -> Seq<char> {
    if post.date.len() == 0 {
        post.title
    } else {
        date_prefix(post.date) + seq![' '] + post.title
    }
}

/// The title and the subtitle.
pub open spec fn header_ops(header: HeaderView) -> Seq<DrawOpView> {
    seq![
        DrawOpView {
            x: MARGIN as nat,
            y: TITLE_ROW as nat,
            style: Style::Bold,
            text: header.title,
        },
        DrawOpView {
            x: MARGIN as nat,
            y: SUBTITLE_ROW as nat,
            style: Style::Dim,
            text: header.subtitle,
        },
    ]
}

/// The column of the tab bar's entry for the tab at `index`: each entry
/// starts three columns after the end of the one before it. Columns stop
/// at the largest that a terminal can have.
pub open spec fn nav_column(tabs: Seq<TabView>, index: nat) -> nat
    decreases index,
{
    if index == 0 {
        MARGIN as nat
    } else {
        let before = (index - 1) as nat;
        least(nav_column(tabs, before) + tabs[before as int].label(before).len() + 3, u16::MAX as nat)
    }
}

/// The tab bar's entry for the tab at `index`, underlined if it is the
/// active tab.
pub open spec fn nav_op(tabs: Seq<TabView>, index: nat, tab_index: nat) -> DrawOpView {
    DrawOpView {
        x: nav_column(tabs, index),
        y: NAV_ROW as nat,
        style: if index == tab_index {
            Style::Underlined
        } else {
            Style::Plain
        },
        text: tabs[index as int].label(index),
    }
}

/// The tab bar: one entry for each tab, in order.
pub open spec fn nav_ops(tabs: Seq<TabView>, tab_index: nat) -> Seq<DrawOpView> {
    Seq::new(tabs.len(), |i: int| nav_op(tabs, i as nat, tab_index))
}

/// The row of the about page's list that shows the link at `index`.
pub open spec fn link_row(links: Seq<LinkView>, state: AppStateView, index: nat) -> DrawOpView {
    DrawOpView {
        x: ABOUT_LIST_COLUMN as nat,
        y: (ABOUT_LIST_ROW + index - state.list_scroll) as nat,
        style: row_style(index == state.list_index),
        text: row_text(index == state.list_index, links[index as int].label),
    }
}

/// The number of rows of the about page's list on a terminal of `rows`.
pub open spec fn about_list_height(rows: nat) -> nat {
    minus(rows, (ABOUT_LIST_ROW + ROWS_BELOW_LIST) as nat)
}

/// The about page: its tagline and the visible links. The list window is
/// brought over the selection first.
pub open spec fn about_frame(
    state: AppStateView,
    tagline: Seq<char>,
    links: Seq<LinkView>,
    max_width: nat,
    rows: nat,
) -> Frame {
    let height = about_list_height(rows);
    let after = state.windowed(height, links.len());
    Frame {
        state: after,
        ops: seq![
            DrawOpView {
                x: MARGIN as nat,
                y: CONTENT_TOP as nat,
                style: Style::Plain,
                text: clamped(tagline, max_width),
            },
        ] + Seq::new(
            visible_rows(after.list_scroll, height, links.len()),
            |k: int| link_row(links, after, (after.list_scroll + k) as nat),
        ),
    }
}

/// The row of a listing's list that shows the post at `index`.
pub open spec fn post_row(
    posts: Seq<PostView>,
    state: AppStateView,
    max_width: nat,
    index: nat,
) -> DrawOpView {
    DrawOpView {
        x: MARGIN as nat,
        y: (POST_LIST_ROW + index - state.list_scroll) as nat,
        style: row_style(index == state.list_index),
        text: row_text(
            index == state.list_index,
            clamped(post_label(posts[index as int]), (list_width(max_width) - 2) as nat),
        ),
    }
}

/// The number of rows of a listing's list on a terminal of `rows`.
pub open spec fn post_list_height(rows: nat) -> nat {
    minus(rows, (POST_LIST_ROW + ROWS_BELOW_LIST) as nat)
}

/// The list pane of a listing: its caption, and the visible posts or a
/// note that there are none.
pub open spec fn list_pane_ops(
    posts: Seq<PostView>,
    state: AppStateView,
    max_width: nat,
    rows: nat,
) -> Seq<DrawOpView> {
    seq![
        DrawOpView {
            x: MARGIN as nat,
            y: (POST_LIST_ROW - 1) as nat,
            style: Style::Dim,
            text: "Posts"@,
        },
    ] + if posts.len() == 0 {
        seq![
            DrawOpView {
                x: MARGIN as nat,
                y: POST_LIST_ROW as nat,
                style: Style::Dim,
                text: "No posts found."@,
            },
        ]
    } else {
        Seq::new(
            visible_rows(state.list_scroll, post_list_height(rows), posts.len()),
            |k: int| post_row(posts, state, max_width, (state.list_scroll + k) as nat),
        )
    }
}

/// The row at which the body of `post` starts in the detail pane: below
/// the title, and below the date if there is one.
pub open spec fn body_row(post: PostView) -> nat {
    if post.date.len() == 0 {
        POST_LIST_ROW as nat
    } else {
        (POST_LIST_ROW + 1) as nat
    }
}

/// The number of body lines that fit into the detail pane.
pub open spec fn body_height(post: PostView, rows: nat) -> nat {
    minus(rows, body_row(post) + ROWS_BELOW_DETAIL as nat)
}

/// The title of the selected post and, if it has one, its date.
pub open spec fn detail_head_ops(post: PostView, max_width: nat) -> Seq<DrawOpView> {
    seq![
        DrawOpView {
            x: detail_column(max_width),
            y: (POST_LIST_ROW - 1) as nat,
            style: Style::Bold,
            text: clamped(post.title, detail_width(max_width)),
        },
    ] + if post.date.len() == 0 {
        Seq::<DrawOpView>::empty()
    } else {
        seq![
            DrawOpView {
                x: detail_column(max_width),
                y: POST_LIST_ROW as nat,
                style: Style::Dim,
                text: post.date,
            },
        ]
    }
}

/// The `k`-th visible line of the body of `post`, for a detail pane that is
/// scrolled by `scroll` lines.
pub open spec fn body_op(post: PostView, scroll: nat, max_width: nat, k: nat) -> DrawOpView {
    DrawOpView {
        x: detail_column(max_width),
        y: body_row(post) + k,
        style: Style::Plain,
        text: clamped(
            wrapped(post.body, detail_width(max_width))[(scroll + k) as int],
            detail_width(max_width),
        ),
    }
}

/// The detail pane. With a selected post: its title, its date and as much
/// of its wrapped body as fits, from the scroll position on; the scroll
/// bound is set to the number of lines that do not fit. Without one: a
/// note, and a bound of zero.
pub open spec fn detail_frame(
    state: AppStateView,
    posts: Seq<PostView>,
    max_width: nat,
    rows: nat,
) -> Frame {
    if state.list_index < posts.len() {
        let post = posts[state.list_index as int];
        let lines = wrapped(post.body, detail_width(max_width));
        let after = state.bounded(lines.len(), body_height(post, rows));
        Frame {
            state: after,
            ops: detail_head_ops(post, max_width) + Seq::new(
                least(minus(lines.len(), after.content_scroll), body_height(post, rows)),
                |k: int| body_op(post, after.content_scroll, max_width, k as nat),
            ),
        }
    } else {
        Frame {
            state: state.bounded(0, 0),
            ops: seq![
                DrawOpView {
                    x: detail_column(max_width),
                    y: POST_LIST_ROW as nat,
                    style: Style::Dim,
                    text: "Select a post to read."@,
                },
            ],
        }
    }
}

/// A listing: its name and description, the list pane and the detail pane.
/// The list window is brought over the selection first.
pub open spec fn listing_frame(
    state: AppStateView,
    name: Seq<char>,
    description: Seq<char>,
    posts: Seq<PostView>,
    max_width: nat,
    rows: nat,
) -> Frame {
    let windowed = state.windowed(post_list_height(rows), posts.len());
    let detail = detail_frame(windowed, posts, max_width, rows);
    Frame {
        state: detail.state,
        ops: seq![
            DrawOpView {
                x: MARGIN as nat,
                y: CONTENT_TOP as nat,
                style: Style::Bold,
                text: name,
            },
            DrawOpView {
                x: MARGIN as nat,
                y: (CONTENT_TOP + 1) as nat,
                style: Style::Plain,
                text: clamped(description, max_width),
            },
        ] + list_pane_ops(posts, windowed, max_width, rows) + detail.ops,
    }
}

/// The content of the active tab; nothing if there is no such tab.
pub open spec fn tab_frame(data: AppDataView, state: AppStateView, max_width: nat, rows: nat) -> Frame {
    if state.tab_index < data.tabs.len() {
        match data.tabs[state.tab_index as int] {
            TabView::About { tagline, links } => about_frame(state, tagline, links, max_width, rows),
            TabView::Content { name, description, posts } => listing_frame(
                state,
                name,
                description,
                posts,
                max_width,
                rows,
            ),
        }
    } else {
        Frame { state, ops: Seq::empty() }
    }
}

/// The status line, if there is a status, and the help line.
pub open spec fn footer_ops(status: Option<Seq<char>>, max_width: nat, rows: nat) -> Seq<
    DrawOpView,
> {
    (match status {
        Some(text) => seq![
            DrawOpView {
                x: MARGIN as nat,
                y: minus(rows, 3),
                style: Style::Dim,
                text: clamped(text, max_width),
            },
        ],
        None => Seq::<DrawOpView>::empty(),
    }) + seq![
        DrawOpView { x: MARGIN as nat, y: minus(rows, 2), style: Style::Dim, text: help_line() },
    ]
}

/// The whole frame for a terminal of `cols` by `rows`: header, tab bar,
/// the active tab, status and help.
pub open spec fn frame(data: AppDataView, state: AppStateView, cols: nat, rows: nat) -> Frame {
    let max_width = usable_width(cols);
    let tab = tab_frame(data, state, max_width, rows);
    Frame {
        state: tab.state,
        ops: header_ops(data.header) + nav_ops(data.tabs, state.tab_index) + tab.ops + footer_ops(
            state.status,
            max_width,
            rows,
        ),
    }
}

/// The number of rows of the active tab's list on a terminal of `rows`.
pub open spec fn list_height(data: AppDataView, tab_index: nat, rows: nat) -> nat {
    if tab_index < data.tabs.len() && data.tabs[tab_index as int] is About {
        about_list_height(rows)
    } else {
        post_list_height(rows)
    }
}

/// List-scroll invariant: after any moves of the selection and a frame,
/// the selected row lies inside the list window, if the list has at least
/// one row and does not fit into its rows; a list that fits is not
/// scrolled. The selection itself is not changed by the frame.
pub proof fn lemma_frame_shows_selection(
    data: AppDataView,
    state: AppStateView,
    deltas: Seq<int>,
    cols: nat,
    rows: nat,
)
    requires
        state.wf(data),
        list_height(data, state.tab_index, rows) > 0,
    ensures
        ({
            let total = data.item_count(state.tab_index);
            let height = list_height(data, state.tab_index, rows);
            let moved = moved_all(state, deltas, total);
            let after = frame(data, moved, cols, rows).state;
            &&& after.list_index == moved.list_index
            &&& after.window_ok(height, total)
            &&& total > height ==> after.list_scroll <= after.list_index < after.list_scroll
                + height
        }),
{
    let total = data.item_count(state.tab_index);
    if total > 0 {
        lemma_moves_stay_in_list(state, deltas, total);
    } else {
        lemma_moves_in_empty_list(state, deltas);
    }
}

/// A draw operation.
fn op(x: u16, y: u16, style: Style, text: String) -> (op: DrawOp)
    ensures
        op@ == (DrawOpView { x: x as nat, y: y as nat, style, text: text@ }),
{
    DrawOp { x, y, style, text }
}

/// The text of a list row.
fn mark_row(selected: bool, label: &str) -> (text: String)
    ensures
        text@ == row_text(selected, label@),
{
    let mut chars: Vec<char> = Vec::new();
    chars.push(
        if selected {
            SELECTION_MARK
        } else {
            ' '
        },
    );
    chars.push(' ');
    append_str(&mut chars, label);
    string_of(&chars)
}

/// The number of list rows to draw (see [`visible_rows`]).
fn visible_count(scroll: usize, height: usize, total: usize) -> (count: usize)
    ensures
        count == visible_rows(scroll as nat, height as nat, total as nat),
{
    if scroll >= total {
        0
    } else if total - scroll <= height {
        total - scroll
    } else {
        height
    }
}

/// The tab bar (see [`nav_ops`]).
pub fn render_nav(data: &AppData, state: &AppState) -> (ops: Vec<DrawOp>)
    ensures
        op_views(ops@) == nav_ops(data@.tabs, state.tab_index as nat),
{
    let mut ops: Vec<DrawOp> = Vec::new();
    let mut x: u16 = MARGIN;
    let mut i: usize = 0;
    let ghost tabs = data@.tabs;
    while i < data.tabs.len()
        invariant
            i <= data.tabs.len(),
            tabs == data@.tabs,
            x == nav_column(tabs, i as nat),
            op_views(ops@) =~= Seq::new(
                i as nat,
                |k: int| nav_op(tabs, k as nat, state.tab_index as nat),
            ),
        decreases data.tabs.len() - i,
    {
        let label = tab_label(i, &data.tabs[i]);
        let width: usize = chars_of(label.as_str()).len();
        let ghost before = op_views(ops@);
        let style = if i == state.tab_index {
            Style::Underlined
        } else {
            Style::Plain
        };
        let entry = op(x, NAV_ROW, style, label);
        ops.push(entry);
        assert(op_views(ops@) =~= before.push(nav_op(tabs, i as nat, state.tab_index as nat)));
        let next: u128 = x as u128 + width as u128 + 3;
        x = if next > u16::MAX as u128 {
            u16::MAX
        } else {
            next as u16
        };
        i += 1;
    }
    ops
}

/// The about page (see [`about_frame`]).
pub fn render_about(state: &mut AppState, about: &AboutData, max_width: usize, rows: u16) -> (ops:
    Vec<DrawOp>)
    ensures
        op_views(ops@) == about_frame(
            old(state)@,
            about.tagline@,
            about@->links,
            max_width as nat,
            rows as nat,
        ).ops,
        final(state)@ == about_frame(
            old(state)@,
            about.tagline@,
            about@->links,
            max_width as nat,
            rows as nat,
        ).state,
{
    let mut ops: Vec<DrawOp> = Vec::new();
    ops.push(op(MARGIN, CONTENT_TOP, Style::Plain, clamp_text(about.tagline.as_str(), max_width)));
    let height: usize = rows.saturating_sub(ABOUT_LIST_ROW + ROWS_BELOW_LIST) as usize;
    let total: usize = about.links.len();
    state.list_scroll = clamp_scroll(state.list_scroll, state.list_index, height, total);
    let ghost links = about@->links;
    let ghost after = state@;
    let ghost head = op_views(ops@);
    let scroll: usize = state.list_scroll;
    let count: usize = visible_count(scroll, height, total);
    let mut k: usize = 0;
    while k < count
        invariant
            k <= count,
            count == visible_rows(scroll as nat, height as nat, total as nat),
            total == about.links.len(),
            links == about@->links,
            after == state@,
            scroll == state.list_scroll,
            height + ABOUT_LIST_ROW + ROWS_BELOW_LIST <= rows || height == 0,
            op_views(ops@) == head + Seq::new(
                k as nat,
                |j: int| link_row(links, after, (after.list_scroll + j) as nat),
            ),
        decreases count - k,
    {
        let index: usize = scroll + k;
        let selected = index == state.list_index;
        let y: u16 = ABOUT_LIST_ROW + k as u16;
        let row = op(
            ABOUT_LIST_COLUMN,
            y,
            if selected {
                Style::Selected
            } else {
                Style::Unselected
            },
            mark_row(selected, about.links[index].label.as_str()),
        );
        let ghost before = op_views(ops@);
        ops.push(row);
        assert(op_views(ops@) =~= before.push(row@));
        k += 1;
    }
    ops
}

/// The label of a post in the list (see [`post_label`]).
fn label_of(post: &Post) -> (label: String)
    ensures
        label@ == post_label(post@),
{
    let mut chars: Vec<char> = Vec::new();
    if chars_of(post.date.as_str()).len() > 0 {
        let date = format_date(post.date.as_str());
        append_str(&mut chars, date.as_str());
        chars.push(' ');
    }
    append_str(&mut chars, post.title.as_str());
    string_of(&chars)
}

/// The width of the list pane (see [`list_width`]).
fn list_pane_width(max_width: usize) -> (width: usize)
    ensures
        width == list_width(max_width as nat),
        MIN_LIST_WIDTH <= width <= MAX_LIST_WIDTH,
{
    let third: u128 = max_width as u128 * LIST_PERCENT as u128 / 100;
    if third < MIN_LIST_WIDTH as u128 {
        MIN_LIST_WIDTH
    } else if third > MAX_LIST_WIDTH as u128 {
        MAX_LIST_WIDTH
    } else {
        third as usize
    }
}

/// The column of the detail pane (see [`detail_column`]).
fn detail_pane_column(max_width: usize) -> (x: u16)
    ensures
        x == detail_column(max_width as nat),
{
    let x: usize = MARGIN as usize + list_pane_width(max_width) + GUTTER;
    if x <= max_width {
        x as u16
    } else {
        max_width as u16
    }
}

/// The width of the detail pane (see [`detail_width`]).
fn detail_pane_width(max_width: usize) -> (width: usize)
    ensures
        width == detail_width(max_width as nat),
        width >= MIN_DETAIL_WIDTH,
{
    let x: usize = detail_pane_column(max_width) as usize;
    let rest: usize = max_width.saturating_sub(x + 1);
    if rest < MIN_DETAIL_WIDTH {
        MIN_DETAIL_WIDTH
    } else {
        rest
    }
}

/// The list pane of a listing (see [`list_pane_ops`]), for a state whose
/// list window was already brought over the selection.
fn render_list_pane(state: &AppState, tab: &ContentTab, max_width: usize, rows: u16) -> (ops: Vec<
    DrawOp,
>)
    ensures
        op_views(ops@) == list_pane_ops(tab@->posts, state@, max_width as nat, rows as nat),
{
    let mut ops: Vec<DrawOp> = Vec::new();
    ops.push(op(MARGIN, POST_LIST_ROW - 1, Style::Dim, "Posts".to_owned()));
    let ghost posts = tab@->posts;
    let ghost head = op_views(ops@);
    let total: usize = tab.posts.len();
    if total == 0 {
        ops.push(op(MARGIN, POST_LIST_ROW, Style::Dim, "No posts found.".to_owned()));
        return ops;
    }
    let height: usize = rows.saturating_sub(POST_LIST_ROW + ROWS_BELOW_LIST) as usize;
    let label_width: usize = list_pane_width(max_width) - 2;
    let scroll: usize = state.list_scroll;
    let count: usize = visible_count(scroll, height, total);
    let mut k: usize = 0;
    while k < count
        invariant
            k <= count,
            count == visible_rows(scroll as nat, height as nat, total as nat),
            total == tab.posts.len(),
            posts == tab@->posts,
            scroll == state.list_scroll,
            label_width == list_width(max_width as nat) - 2,
            height + POST_LIST_ROW + ROWS_BELOW_LIST <= rows || height == 0,
            op_views(ops@) == head + Seq::new(
                k as nat,
                |j: int| post_row(posts, state@, max_width as nat, (state@.list_scroll + j) as nat),
            ),
        decreases count - k,
    {
        let index: usize = scroll + k;
        let selected = index == state.list_index;
        let y: u16 = POST_LIST_ROW + k as u16;
        let label = clamp_text(label_of(&tab.posts[index]).as_str(), label_width);
        let row = op(
            MARGIN,
            y,
            if selected {
                Style::Selected
            } else {
                Style::Unselected
            },
            mark_row(selected, label.as_str()),
        );
        let ghost before = op_views(ops@);
        ops.push(row);
        assert(op_views(ops@) =~= before.push(row@));
        k += 1;
    }
    ops
}

/// The detail pane of a listing (see [`detail_frame`]).
fn render_detail(state: &mut AppState, tab: &ContentTab, max_width: usize, rows: u16) -> (ops: Vec<
    DrawOp,
>)
    ensures
        op_views(ops@) == detail_frame(old(state)@, tab@->posts, max_width as nat, rows as nat).ops,
        final(state)@ == detail_frame(
            old(state)@,
            tab@->posts,
            max_width as nat,
            rows as nat,
        ).state,
{
    let mut ops: Vec<DrawOp> = Vec::new();
    let x: u16 = detail_pane_column(max_width);
    let width: usize = detail_pane_width(max_width);
    let ghost posts = tab@->posts;
    if state.list_index >= tab.posts.len() {
        set_content_bound(state, 0, 0);
        ops.push(op(x, POST_LIST_ROW, Style::Dim, "Select a post to read.".to_owned()));
        return ops;
    }
    let post = &tab.posts[state.list_index];
    let mut y: u16 = POST_LIST_ROW - 1;
    ops.push(op(x, y, Style::Bold, clamp_text(post.title.as_str(), width)));
    y += 1;
    if chars_of(post.date.as_str()).len() > 0 {
        ops.push(op(x, y, Style::Dim, post.date.clone()));
        y += 1;
    }
    let lines = wrap_markdown(post.body.as_str(), width);
    let available: usize = rows.saturating_sub(y + ROWS_BELOW_DETAIL) as usize;
    set_content_bound(state, lines.len(), available);
    let scroll: usize = state.content_scroll;
    let count: usize = visible_count(scroll, available, lines.len());
    let ghost head = op_views(ops@);
    let ghost all = string_views(lines@);
    let mut k: usize = 0;
    while k < count
        invariant
            k <= count,
            count == visible_rows(scroll as nat, available as nat, lines.len() as nat),
            all == string_views(lines@),
            all == wrapped(post@.body, detail_width(max_width as nat)),
            width == detail_width(max_width as nat),
            x == detail_column(max_width as nat),
            y == body_row(post@),
            available + y + ROWS_BELOW_DETAIL <= rows || available == 0,
            op_views(ops@) == head + Seq::new(
                k as nat,
                |j: int| body_op(post@, scroll as nat, max_width as nat, j as nat),
            ),
        decreases count - k,
    {
        let line = &lines[scroll + k];
        let row = op(x, y + k as u16, Style::Plain, clamp_text(line.as_str(), width));
        let ghost before = op_views(ops@);
        ops.push(row);
        assert(op_views(ops@) =~= before.push(row@));
        k += 1;
    }
    ops
}

/// A listing (see [`listing_frame`]): heading, list pane and detail pane.
/// Brings the list window over the selection and sets the detail pane's
/// scroll bound.
pub fn render_content_tab(state: &mut AppState, tab: &ContentTab, max_width: usize, rows: u16) -> (ops:
    Vec<DrawOp>)
    ensures
        op_views(ops@) == listing_frame(
            old(state)@,
            tab.name@,
            tab.description@,
            tab@->posts,
            max_width as nat,
            rows as nat,
        ).ops,
        final(state)@ == listing_frame(
            old(state)@,
            tab.name@,
            tab.description@,
            tab@->posts,
            max_width as nat,
            rows as nat,
        ).state,
{
    let mut ops: Vec<DrawOp> = Vec::new();
    ops.push(op(MARGIN, CONTENT_TOP, Style::Bold, tab.name.clone()));
    ops.push(
        op(
            MARGIN,
            CONTENT_TOP + 1,
            Style::Plain,
            clamp_text(tab.description.as_str(), max_width),
        ),
    );
    let height: usize = rows.saturating_sub(POST_LIST_ROW + ROWS_BELOW_LIST) as usize;
    state.list_scroll = clamp_scroll(state.list_scroll, state.list_index, height, tab.posts.len());
    let mut list = render_list_pane(state, tab, max_width, rows);
    ops.append(&mut list);
    let mut detail = render_detail(state, tab, max_width, rows);
    ops.append(&mut detail);
    ops
}

/// The status line and the help line (see [`footer_ops`]).
fn render_footer(state: &AppState, max_width: usize, rows: u16) -> (ops: Vec<DrawOp>)
    ensures
        op_views(ops@) == footer_ops(state@.status, max_width as nat, rows as nat),
{
    let mut ops: Vec<DrawOp> = Vec::new();
    match &state.status {
        Some(text) => {
            ops.push(
                op(
                    MARGIN,
                    rows.saturating_sub(3),
                    Style::Dim,
                    clamp_text(text.as_str(), max_width),
                ),
            );
        },
        None => {},
    }
    ops.push(
        op(
            MARGIN,
            rows.saturating_sub(2),
            Style::Dim,
            "↑/↓ or j/k move  •  o/enter open  •  pgup/pgdn scroll  •  1-6 tabs (g gallery)  •  q quit".to_owned(),
        ),
    );
    ops
}

/// Plans a frame for a terminal of `cols` columns and `rows` rows: what to
/// draw, in order, on a cleared screen. Before the lists are drawn the list
/// window is brought over the selection, and for a listing the detail pane's
/// scroll bound is set from the wrapped body of the selected post; these
/// are the only changes to `state`. No size is too small: what does not fit
/// is left out or cut.
pub fn render(data: &AppData, state: &mut AppState, cols: u16, rows: u16) -> (ops: Vec<DrawOp>)
    ensures
        op_views(ops@) == frame(data@, old(state)@, cols as nat, rows as nat).ops,
        final(state)@ == frame(data@, old(state)@, cols as nat, rows as nat).state,
        final(state)@.tab_index == old(state)@.tab_index,
        final(state)@.list_index == old(state)@.list_index,
        final(state)@.status == old(state)@.status,
        old(state)@.wf(data@) ==> final(state)@.wf(data@),
        old(state)@.wf(data@) ==> final(state)@.window_ok(
            list_height(data@, old(state)@.tab_index, rows as nat),
            data@.item_count(old(state)@.tab_index),
        ) || list_height(data@, old(state)@.tab_index, rows as nat) == 0,
{
    let max_width: usize = cols.saturating_sub(SIDE_COLUMNS) as usize;
    let mut ops: Vec<DrawOp> = Vec::new();
    ops.push(op(MARGIN, TITLE_ROW, Style::Bold, data.header.title.clone()));
    ops.push(op(MARGIN, SUBTITLE_ROW, Style::Dim, data.header.subtitle.clone()));
    let mut nav = render_nav(data, state);
    ops.append(&mut nav);
    let ghost tab_part: Seq<DrawOpView>;
    if state.tab_index < data.tabs.len() {
        match &data.tabs[state.tab_index] {
            TabData::About(about) => {
                let mut part = render_about(state, about, max_width, rows);
                proof {
                    tab_part = op_views(part@);
                }
                ops.append(&mut part);
            },
            TabData::Content(tab) => {
                let mut part = render_content_tab(state, tab, max_width, rows);
                proof {
                    tab_part = op_views(part@);
                }
                ops.append(&mut part);
            },
        }
    } else {
        proof {
            tab_part = Seq::empty();
        }
    }
    let mut footer = render_footer(state, max_width, rows);
    ops.append(&mut footer);
    ops
}

} // verus!
