//! The navigation state and its transitions: which tab is active, which
//! entry is selected, and how far the list and the detail pane are scrolled.

use vstd::prelude::*;
use crate::model::{list_length, AppData, AppDataView, TabData, TabView};
use crate::text::{append_str, string_of};

verus! {

/// Where the reader is.
#[derive(Clone, Debug, PartialEq, Eq)]
pub struct AppState {
    pub tab_index: usize,
    pub list_index: usize,
    pub list_scroll: usize,
    pub content_scroll: usize,
    pub content_scroll_max: usize,
    pub status: Option<String>,
}

/// The navigation state as plain values.
pub struct AppStateView {
    pub tab_index: nat,
    pub list_index: nat,
    pub list_scroll: nat,
    pub content_scroll: nat,
    pub content_scroll_max: nat,
    pub status: Option<Seq<char>>,
}

/// What the open action asks the outside world to open, and the name under
/// which the outcome is reported.
#[derive(Clone, Debug, PartialEq, Eq)]
pub struct OpenRequest {
    pub url: String,
    pub label: String,
}

/// An open request as plain values.
pub struct OpenRequestView {
    pub url: Seq<char>,
    pub label: Seq<char>,
}

impl View for OpenRequest {
    type V = OpenRequestView;

    open spec fn view(&self) -> OpenRequestView {
        OpenRequestView { url: self.url@, label: self.label@ }
    }
}

/// The view of an optional string.
pub open spec fn text_view(text: Option<String>) -> Option<Seq<char>> {
    match text {
        Some(s) => Some(s@),
        None => None,
    }
}

/// The view of an optional open request.
pub open spec fn request_view(request: Option<OpenRequest>) -> Option<OpenRequestView> {
    match request {
        Some(r) => Some(r@),
        None => None,
    }
}

impl View for AppState {
    type V = AppStateView;

    open spec fn view(&self) -> AppStateView {
        AppStateView {
            tab_index: self.tab_index as nat,
            list_index: self.list_index as nat,
            list_scroll: self.list_scroll as nat,
            content_scroll: self.content_scroll as nat,
            content_scroll_max: self.content_scroll_max as nat,
            status: text_view(self.status),
        }
    }
}

/// The index selected after a move by `delta` in a list of `count` items:
/// one step past either end comes back in at the other end.
pub open spec fn next_index(list_index: nat, delta: int, count: nat) -> nat {
    if count == 0 {
        0
    } else if list_index + delta < 0 {
        (count - 1) as nat
    } else if list_index + delta >= count {
        0
    } else {
        (list_index + delta) as nat
    }
}

/// `value` moved by `delta` and kept within `0..=max`.
pub open spec fn clamp_between(value: nat, delta: int, max: nat) -> nat {
    if value + delta < 0 {
        0
    } else if value + delta > max {
        max
    } else {
        (value + delta) as nat
    }
}

/// The first visible row of a list of `total` rows shown `height` rows at a
/// time, given the previous first row `scroll` and the selected row `index`.
/// A list that fits is not scrolled. Otherwise a selection above the window
/// becomes its first row, one below it becomes its last row, and a window
/// that already shows the selection only moves back so as not to run past
/// the end of the list.
pub open spec fn scroll_window(scroll: nat, index: nat, height: nat, total: nat) -> nat {
    if total <= height {
        0
    } else if index < scroll {
        index
    } else if index >= scroll + height {
        if height == 0 {
            index
        } else {
            (index - (height - 1)) as nat
        }
    } else if scroll <= total - height {
        scroll
    } else {
        (total - height) as nat
    }
}

/// The status line after an attempt to open `label`: `outcome` is `None`
/// if it was opened, or the reason why not.
pub open spec fn open_status(label: Seq<char>, outcome: Option<Seq<char>>) -> Seq<char> {
    match outcome {
        None => "Opened "@ + label,
        Some(error) => "Failed to open "@ + label + " ("@ + error + ")"@,
    }
}

impl AppStateView {
    /// The state in which a session starts.
    pub open spec fn initial(status: Option<Seq<char>>) -> AppStateView {
        AppStateView {
            tab_index: 0,
            list_index: 0,
            list_scroll: 0,
            content_scroll: 0,
            content_scroll_max: 0,
            status,
        }
    }

    /// The invariant of the state with respect to the content: the active
    /// tab exists, the selection is an item of it (or zero if it has none),
    /// and the detail pane is scrolled no further than its bound.
    pub open spec fn wf(self, data: AppDataView) -> bool {
        &&& self.tab_index < data.tabs.len()
        &&& if data.item_count(self.tab_index) == 0 {
            self.list_index == 0
        } else {
            self.list_index < data.item_count(self.tab_index)
        }
        &&& self.content_scroll <= self.content_scroll_max
    }

    /// Whether the selection lies inside the list window of `height` rows
    /// over `total` items; a list that fits is not scrolled at all.
    pub open spec fn window_ok(self, height: nat, total: nat) -> bool {
        if total <= height {
            self.list_scroll == 0
        } else {
            self.list_scroll <= self.list_index < self.list_scroll + height
        }
    }

    /// After a request to show the tab at `index` out of `total` tabs.
    pub open spec fn switched(self, index: nat, total: nat) -> AppStateView {
        if index >= total {
            self
        } else {
            AppStateView {
                tab_index: index,
                list_index: 0,
                list_scroll: 0,
                content_scroll: 0,
                content_scroll_max: 0,
                status: None,
            }
        }
    }

    /// After moving the selection by `delta` in a tab of `count` items.
    pub open spec fn moved(self, delta: int, count: nat) -> AppStateView {
        if count == 0 {
            AppStateView { list_index: 0, ..self }
        } else {
            AppStateView {
                list_index: next_index(self.list_index, delta, count),
                content_scroll: 0,
                content_scroll_max: 0,
                ..self
            }
        }
    }

    /// After scrolling the detail pane by `delta` lines.
    pub open spec fn scrolled(self, delta: int) -> AppStateView {
        AppStateView {
            content_scroll: clamp_between(self.content_scroll, delta, self.content_scroll_max),
            ..self
        }
    }

    /// After jumping to the top of the detail pane.
    pub open spec fn at_top(self) -> AppStateView {
        AppStateView { content_scroll: 0, ..self }
    }

    /// After jumping to the bottom of the detail pane.
    pub open spec fn at_bottom(self) -> AppStateView {
        AppStateView { content_scroll: self.content_scroll_max, ..self }
    }

    /// After the list window was brought over the selection.
    pub open spec fn windowed(self, height: nat, total: nat) -> AppStateView {
        AppStateView {
            list_scroll: scroll_window(self.list_scroll, self.list_index, height, total),
            ..self
        }
    }

    /// After the detail pane's bound was set for `line_count` lines of which
    /// `available` fit: the bound is the number of lines that do not fit,
    /// and the scroll position is brought back within it.
    pub open spec fn bounded(self, line_count: nat, available: nat) -> AppStateView {
        let max = if line_count > available {
            (line_count - available) as nat
        } else {
            0
        };
        AppStateView {
            content_scroll_max: max,
            content_scroll: if self.content_scroll > max {
                max
            } else {
                self.content_scroll
            },
            ..self
        }
    }

    /// After an attempt to open `label` ended with `outcome`.
    pub open spec fn reported(self, label: Seq<char>, outcome: Option<Seq<char>>) -> AppStateView {
        AppStateView { status: Some(open_status(label, outcome)), ..self }
    }
}

impl AppDataView {
    /// What the open action opens in state `state`: the selected link of
    /// the about page or the selected post of a listing, if there is one.
    pub open spec fn open_target(self, state: AppStateView) -> Option<OpenRequestView> {
        if state.tab_index < self.tabs.len() {
            match self.tabs[state.tab_index as int] {
                TabView::About { links, .. } => if state.list_index < links.len() {
                    let link = links[state.list_index as int];
                    Some(OpenRequestView { url: link.url, label: link.label })
                } else {
                    None
                },
                TabView::Content { posts, .. } => if state.list_index < posts.len() {
                    let post = posts[state.list_index as int];
                    Some(OpenRequestView { url: post.url, label: post.title })
                } else {
                    None
                },
            }
        } else {
            None
        }
    }
}

impl AppState {
    /// The state in which a session starts: the first tab, nothing
    /// scrolled, and the status the content was loaded with.
    pub fn new(status: Option<String>) -> (state: AppState)
        ensures
            state@ == AppStateView::initial(text_view(status)),
            forall|data: AppDataView| data.tabs.len() > 0 ==> state@.wf(data),
    {
        AppState {
            tab_index: 0,
            list_index: 0,
            list_scroll: 0,
            content_scroll: 0,
            content_scroll_max: 0,
            status,
        }
    }
}

/// Shows the tab at `index` if there is one among the `total` tabs, with
/// selection, scroll positions and status cleared; otherwise changes nothing.
pub fn switch_tab(state: &mut AppState, index: usize, total: usize)
    ensures
        final(state)@ == old(state)@.switched(index as nat, total as nat),
        index >= total ==> *final(state) == *old(state),
{
    if index >= total {
        return ;
    }
    state.tab_index = index;
    state.list_index = 0;
    state.list_scroll = 0;
    state.content_scroll = 0;
    state.content_scroll_max = 0;
    state.status = None;
}

/// Moves the selection of the active tab by `delta`, wrapping round at both
/// ends, and forgets the detail pane's scroll position and bound. In a tab
/// without items the selection is set to zero and nothing else changes.
pub fn move_selection(data: &AppData, state: &mut AppState, delta: i32)
    ensures
        final(state)@ == old(state)@.moved(
            delta as int,
            data@.item_count(old(state).tab_index as nat),
        ),
        old(state)@.wf(data@) ==> final(state)@.wf(data@),
{
    let count: usize = list_length(data, state.tab_index);
    if count == 0 {
        state.list_index = 0;
        return ;
    }
    let target: i128 = state.list_index as i128 + delta as i128;
    if target < 0 {
        state.list_index = count - 1;
    } else if target >= count as i128 {
        state.list_index = 0;
    } else {
        state.list_index = target as usize;
    }
    state.content_scroll = 0;
    state.content_scroll_max = 0;
}

/// Scrolls the detail pane by `delta` lines, staying within its bound.
pub fn scroll_content(state: &mut AppState, delta: i32)
    ensures
        final(state)@ == old(state)@.scrolled(delta as int),
        final(state).content_scroll <= final(state).content_scroll_max,
        final(state).content_scroll_max == old(state).content_scroll_max,
{
    let target: i128 = state.content_scroll as i128 + delta as i128;
    if target < 0 {
        state.content_scroll = 0;
    } else if target > state.content_scroll_max as i128 {
        state.content_scroll = state.content_scroll_max;
    } else {
        state.content_scroll = target as usize;
    }
}

/// Scrolls the detail pane to its first line.
pub fn jump_to_top(state: &mut AppState)
    ensures
        final(state)@ == old(state)@.at_top(),
{
    state.content_scroll = 0;
}

/// Scrolls the detail pane as far down as its bound allows.
pub fn jump_to_bottom(state: &mut AppState)
    ensures
        final(state)@ == old(state)@.at_bottom(),
{
    state.content_scroll = state.content_scroll_max;
}

/// The first visible row of a list (see [`scroll_window`]).
pub fn clamp_scroll(scroll: usize, index: usize, height: usize, total: usize) -> (first: usize)
    ensures
        first == scroll_window(scroll as nat, index as nat, height as nat, total as nat),
        total <= height ==> first == 0,
        total > height ==> first <= index,
        total > height && height > 0 && index < total ==> index < first + height,
{
    if total <= height {
        return 0;
    }
    if index < scroll {
        return index;
    }
    if index - scroll >= height {
        return if height == 0 {
            index
        } else {
            index - (height - 1)
        };
    }
    if scroll <= total - height {
        scroll
    } else {
        total - height
    }
}

/// Sets the detail pane's bound for `line_count` wrapped lines of which
/// `available` fit on the screen, and brings the scroll position within it.
pub fn set_content_bound(state: &mut AppState, line_count: usize, available: usize)
    ensures
        final(state)@ == old(state)@.bounded(line_count as nat, available as nat),
        final(state).content_scroll <= final(state).content_scroll_max,
{
    state.content_scroll_max = if line_count > available {
        line_count - available
    } else {
        0
    };
    if state.content_scroll > state.content_scroll_max {
        state.content_scroll = state.content_scroll_max;
    }
}

/// Resolves what the open action is to open: the address and the name of
/// the selected link or post, or `None` if nothing is selected. The state
/// is left as it is; the outcome is recorded by [`report_open`].
pub fn open_selected(data: &AppData, state: &AppState) -> (request: Option<OpenRequest>)
    ensures
        request_view(request) == data@.open_target(state@),
{
    if state.tab_index >= data.tabs.len() {
        return None;
    }
    match &data.tabs[state.tab_index] {
        TabData::About(about) => {
            if state.list_index < about.links.len() {
                let link = &about.links[state.list_index];
                Some(OpenRequest { url: link.url.clone(), label: link.label.clone() })
            } else {
                None
            }
        },
        TabData::Content(tab) => {
            if state.list_index < tab.posts.len() {
                let post = &tab.posts[state.list_index];
                Some(OpenRequest { url: post.url.clone(), label: post.title.clone() })
            } else {
                None
            }
        },
    }
}

/// Records in the status line how an attempt to open `label` ended:
/// `Ok` if it was opened, or `Err` with the reason. Nothing else changes.
pub fn report_open(state: &mut AppState, label: &str, outcome: Result<(), String>)
    ensures
        final(state)@ == old(state)@.reported(
            label@,
            match outcome {
                Ok(_) => None,
                Err(error) => Some(error@),
            },
        ),
{
    let mut chars: Vec<char> = Vec::new();
    match outcome {
        Ok(_) => {
            append_str(&mut chars, "Opened ");
            append_str(&mut chars, label);
        },
        Err(error) => {
            append_str(&mut chars, "Failed to open ");
            append_str(&mut chars, label);
            append_str(&mut chars, " (");
            append_str(&mut chars, error.as_str());
            append_str(&mut chars, ")");
        },
    }
    state.status = Some(string_of(&chars));
}

/// The selection after `steps` moves by `delta`, starting from
/// `list_index`, in a list of `count` items.
pub open spec fn index_after(list_index: nat, delta: int, count: nat, steps: nat) -> nat
    decreases steps,
{
    if steps == 0 {
        list_index
    } else {
        next_index(index_after(list_index, delta, count, (steps - 1) as nat), delta, count)
    }
}

/// The state after the moves `deltas`, one after the other, in a tab of
/// `count` items.
pub open spec fn moved_all(state: AppStateView, deltas: Seq<int>, count: nat) -> AppStateView
    decreases deltas.len(),
{
    if deltas.len() == 0 {
        state
    } else {
        moved_all(state, deltas.drop_last(), count).moved(deltas.last(), count)
    }
}

/// The state after scrolling the detail pane by each of `deltas` in turn.
pub open spec fn scrolled_all(state: AppStateView, deltas: Seq<int>) -> AppStateView
    decreases deltas.len(),
{
    if deltas.len() == 0 {
        state
    } else {
        scrolled_all(state, deltas.drop_last()).scrolled(deltas.last())
    }
}

/// A single step of the selection is a step modulo the number of items.
pub proof fn lemma_next_index_is_modular(list_index: nat, delta: int, count: nat)
    requires
        list_index < count,
        delta == 1 || delta == -1,
    ensures
        next_index(list_index, delta, count) == (list_index + delta) % (count as int),
{
    let c = count as int;
    if list_index + delta < 0 {
        assert((-1int) % c == c - 1) by (nonlinear_arith)
            requires
                c > 0,
        ;
    } else if list_index + delta >= count {
        assert(c % c == 0) by (nonlinear_arith)
            requires
                c > 0,
        ;
    } else {
        let x = list_index + delta;
        assert(x % c == x) by (nonlinear_arith)
            requires
                0 <= x < c,
        ;
    }
}

/// Where the selection is after some steps forward, at most once round.
proof fn lemma_steps_forward(list_index: nat, count: nat, steps: nat)
    requires
        list_index < count,
        steps <= count,
    ensures
        list_index + steps < count ==> index_after(list_index, 1, count, steps) == list_index
            + steps,
        list_index + steps >= count ==> index_after(list_index, 1, count, steps) == list_index
            + steps - count,
    decreases steps,
{
    if steps > 0 {
        lemma_steps_forward(list_index, count, (steps - 1) as nat);
    }
}

/// Selection wraparound: in a list of `count` items, `count` moves forward
/// bring the selection back to where it started, and one move back from the
/// first item selects the last.
pub proof fn lemma_selection_wraps(list_index: nat, count: nat)
    requires
        count > 0,
        list_index < count,
    ensures
        index_after(list_index, 1, count, count) == list_index,
        next_index(0, -1, count) == count - 1,
{
    lemma_steps_forward(list_index, count, count);
}

/// Moving the selection keeps it inside the list, however often it is done.
pub proof fn lemma_moves_stay_in_list(state: AppStateView, deltas: Seq<int>, count: nat)
    requires
        count > 0,
        state.list_index < count,
    ensures
        moved_all(state, deltas, count).list_index < count,
        moved_all(state, deltas, count).tab_index == state.tab_index,
        moved_all(state, deltas, count).list_scroll == state.list_scroll,
    decreases deltas.len(),
{
    if deltas.len() > 0 {
        lemma_moves_stay_in_list(state, deltas.drop_last(), count);
    }
}

/// Moving the selection in an empty list leaves it at zero.
pub proof fn lemma_moves_in_empty_list(state: AppStateView, deltas: Seq<int>)
    requires
        state.list_index == 0,
    ensures
        moved_all(state, deltas, 0).list_index == 0,
        moved_all(state, deltas, 0).tab_index == state.tab_index,
        moved_all(state, deltas, 0).list_scroll == state.list_scroll,
    decreases deltas.len(),
{
    if deltas.len() > 0 {
        lemma_moves_in_empty_list(state, deltas.drop_last());
    }
}

/// Scroll clamp: whatever the scroll actions, the detail pane's position
/// stays within its bound, and the bound stays what it was.
pub proof fn lemma_scrolling_stays_in_bounds(state: AppStateView, deltas: Seq<int>)
    requires
        state.content_scroll <= state.content_scroll_max,
    ensures
        0 <= scrolled_all(state, deltas).content_scroll <= state.content_scroll_max,
        scrolled_all(state, deltas).content_scroll_max == state.content_scroll_max,
    decreases deltas.len(),
{
    if deltas.len() > 0 {
        lemma_scrolling_stays_in_bounds(state, deltas.drop_last());
    }
}

/// List-scroll invariant: after any moves of the selection, bringing the
/// list window over the selection leaves the selected row visible, for a
/// window of at least one row over a list that does not fit in it.
pub proof fn lemma_window_shows_selection(
    state: AppStateView,
    deltas: Seq<int>,
    height: nat,
    total: nat,
)
    requires
        state.list_index < total,
        total > height,
        height > 0,
    ensures
        ({
            let after = moved_all(state, deltas, total).windowed(height, total);
            &&& after.list_scroll <= after.list_index < after.list_scroll + height
            &&& after.window_ok(height, total)
        }),
{
    lemma_moves_stay_in_list(state, deltas, total);
}

/// Tab switch resets: going to another tab and back leaves nothing of the
/// selection and scroll positions that the first tab had.
pub proof fn lemma_switch_and_back_resets(state: AppStateView, a: nat, b: nat, total: nat)
    requires
        a < total,
        b < total,
        state.tab_index == a,
    ensures
        ({
            let back = state.switched(b, total).switched(a, total);
            &&& back.tab_index == a
            &&& back.list_index == 0
            &&& back.list_scroll == 0
            &&& back.content_scroll == 0
            &&& back.content_scroll_max == 0
            &&& back.status is None
        }),
{
}

/// Every transition keeps a well-formed state well-formed.
pub proof fn lemma_transitions_keep_wf(
    state: AppStateView,
    data: AppDataView,
    index: nat,
    delta: int,
    height: nat,
    line_count: nat,
    available: nat,
    label: Seq<char>,
    outcome: Option<Seq<char>>,
)
    requires
        state.wf(data),
    ensures
        state.switched(index, data.tabs.len()).wf(data),
        state.moved(delta, data.item_count(state.tab_index)).wf(data),
        state.scrolled(delta).wf(data),
        state.at_top().wf(data),
        state.at_bottom().wf(data),
        state.windowed(height, data.item_count(state.tab_index)).wf(data),
        state.bounded(line_count, available).wf(data),
        state.reported(label, outcome).wf(data),
{
}

} // verus!
