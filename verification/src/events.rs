//! From input events to navigation: the key table, and what the event loop
//! is to do after each event.

use vstd::prelude::*;
use crate::model::{AppData, AppDataView};
use crate::nav::{
    jump_to_bottom, jump_to_top, move_selection, open_selected, scroll_content, switch_tab,
    AppState, AppStateView, OpenRequest, OpenRequestView,
};

verus! {

/// The keys that the reader tells apart.
#[derive(Clone, Copy, PartialEq, Eq, Debug)]
pub enum KeyCode {
    Char(char),
    Esc,
    Enter,
    Up,
    Down,
    PageUp,
    PageDown,
    Home,
    /// Any other key.
    Other,
}

/// A key press: the key, and whether the control key was held.
#[derive(Clone, Copy, PartialEq, Eq, Debug)]
pub struct KeyEvent {
    pub code: KeyCode,
    pub ctrl: bool,
}

/// What comes in from the terminal.
#[derive(Clone, Copy, PartialEq, Eq, Debug)]
pub enum Event {
    Key(KeyEvent),
    /// The terminal has a new size.
    Resize,
    /// Anything else.
    Other,
}

/// What a key press asks for.
#[derive(Clone, Copy, PartialEq, Eq, Debug)]
pub enum Action {
    Quit,
    /// Show the tab at this index.
    SwitchTab(usize),
    /// Show the last tab.
    LastTab,
    /// Select the entry before the selected one.
    SelectPrevious,
    /// Select the entry after the selected one.
    SelectNext,
    /// Scroll the detail pane up by a page.
    PageUp,
    /// Scroll the detail pane down by a page.
    PageDown,
    JumpToTop,
    JumpToBottom,
    /// Open the selected link or post.
    OpenSelected,
    /// The key is not bound.
    Nothing,
}

/// What the event loop does after an event.
#[derive(Clone, Debug, PartialEq, Eq)]
pub enum Step {
    /// Leave the loop.
    Quit,
    /// Draw the next frame.
    Redraw,
    /// Try to open the request, report the outcome with
    /// [`crate::nav::report_open`], and draw the next frame.
    Open(OpenRequest),
    /// Wait for the next event.
    Idle,
}

/// A step as plain values.
pub enum StepView {
    Quit,
    Redraw,
    Open(OpenRequestView),
    Idle,
}

impl View for Step {
    type V = StepView;

    open spec fn view(&self) -> StepView {
        match self {
            Step::Quit => StepView::Quit,
            Step::Redraw => StepView::Redraw,
            Step::Open(request) => StepView::Open(request@),
            Step::Idle => StepView::Idle,
        }
    }
}

/// The number of lines that a page key scrolls.
pub const PAGE_LINES: i32 = 10;

/// The key table. `q`, escape and control-c quit; `1` to `6` show a tab and
/// `g` the last one; the arrows, `k` and `j` move the selection; the page
/// keys scroll the detail pane, `t` and home jump to its top and `G` to its
/// bottom; `o` and enter open the selection.
pub open spec fn key_action(key: KeyEvent) -> Action {
    match key.code {
        KeyCode::Esc => Action::Quit,
        KeyCode::Enter => Action::OpenSelected,
        KeyCode::Up => Action::SelectPrevious,
        KeyCode::Down => Action::SelectNext,
        KeyCode::PageUp => Action::PageUp,
        KeyCode::PageDown => Action::PageDown,
        KeyCode::Home => Action::JumpToTop,
        KeyCode::Other => Action::Nothing,
        KeyCode::Char(c) => if c == 'q' {
            Action::Quit
        } else if c == 'c' && key.ctrl {
            Action::Quit
        } else if c == '1' {
            Action::SwitchTab(0)
        } else if c == '2' {
            Action::SwitchTab(1)
        } else if c == '3' {
            Action::SwitchTab(2)
        } else if c == '4' {
            Action::SwitchTab(3)
        } else if c == '5' {
            Action::SwitchTab(4)
        } else if c == '6' {
            Action::SwitchTab(5)
        } else if c == 'g' {
            Action::LastTab
        } else if c == 'k' {
            Action::SelectPrevious
        } else if c == 'j' {
            Action::SelectNext
        } else if c == 't' {
            Action::JumpToTop
        } else if c == 'G' {
            Action::JumpToBottom
        } else if c == 'o' {
            Action::OpenSelected
        } else {
            Action::Nothing
        },
    }
}

impl AppStateView {
    /// The state after `action`. Quitting, opening and unbound keys leave
    /// it as it is.
    pub open spec fn applied(self, data: AppDataView, action: Action) -> AppStateView {
        match action {
            Action::SwitchTab(index) => self.switched(index as nat, data.tabs.len()),
            Action::LastTab => if data.tabs.len() == 0 {
                self
            } else {
                self.switched((data.tabs.len() - 1) as nat, data.tabs.len())
            },
            Action::SelectPrevious => self.moved(-1, data.item_count(self.tab_index)),
            Action::SelectNext => self.moved(1, data.item_count(self.tab_index)),
            Action::PageUp => self.scrolled(-PAGE_LINES),
            Action::PageDown => self.scrolled(PAGE_LINES as int),
            Action::JumpToTop => self.at_top(),
            Action::JumpToBottom => self.at_bottom(),
            Action::Quit | Action::OpenSelected | Action::Nothing => self,
        }
    }
}

/// What the event loop does after `action` in state `state`: it leaves on
/// quit, opens the selection if there is one, and draws a frame after any
/// other key.
pub open spec fn step_after(data: AppDataView, state: AppStateView, action: Action) -> StepView {
    match action {
        Action::Quit => StepView::Quit,
        Action::OpenSelected => match data.open_target(state) {
            Some(request) => StepView::Open(request),
            None => StepView::Redraw,
        },
        _ => StepView::Redraw,
    }
}

/// Looks a key press up in the key table.
pub fn action_for(key: KeyEvent) -> (action: Action)
    ensures
        action == key_action(key),
{
    match key.code {
        KeyCode::Esc => Action::Quit,
        KeyCode::Enter => Action::OpenSelected,
        KeyCode::Up => Action::SelectPrevious,
        KeyCode::Down => Action::SelectNext,
        KeyCode::PageUp => Action::PageUp,
        KeyCode::PageDown => Action::PageDown,
        KeyCode::Home => Action::JumpToTop,
        KeyCode::Other => Action::Nothing,
        KeyCode::Char(c) => {
            if c == 'q' {
                Action::Quit
            } else if c == 'c' && key.ctrl {
                Action::Quit
            } else if c == '1' {
                Action::SwitchTab(0)
            } else if c == '2' {
                Action::SwitchTab(1)
            } else if c == '3' {
                Action::SwitchTab(2)
            } else if c == '4' {
                Action::SwitchTab(3)
            } else if c == '5' {
                Action::SwitchTab(4)
            } else if c == '6' {
                Action::SwitchTab(5)
            } else if c == 'g' {
                Action::LastTab
            } else if c == 'k' {
                Action::SelectPrevious
            } else if c == 'j' {
                Action::SelectNext
            } else if c == 't' {
                Action::JumpToTop
            } else if c == 'G' {
                Action::JumpToBottom
            } else if c == 'o' {
                Action::OpenSelected
            } else {
                Action::Nothing
            }
        },
    }
}

/// Applies `action` to the state and says what the event loop does next.
pub fn apply_action(action: Action, data: &AppData, state: &mut AppState) -> (step: Step)
    ensures
        final(state)@ == old(state)@.applied(data@, action),
        step@ == step_after(data@, old(state)@, action),
        old(state)@.wf(data@) ==> final(state)@.wf(data@),
{
    match action {
        Action::Quit => {
            return Step::Quit;
        },
        Action::SwitchTab(index) => {
            switch_tab(state, index, data.tabs.len());
        },
        Action::LastTab => {
            let total: usize = data.tabs.len();
            if total > 0 {
                switch_tab(state, total - 1, total);
            }
        },
        Action::SelectPrevious => {
            move_selection(data, state, -1);
        },
        Action::SelectNext => {
            move_selection(data, state, 1);
        },
        Action::PageUp => {
            scroll_content(state, -PAGE_LINES);
        },
        Action::PageDown => {
            scroll_content(state, PAGE_LINES);
        },
        Action::JumpToTop => {
            jump_to_top(state);
        },
        Action::JumpToBottom => {
            jump_to_bottom(state);
        },
        Action::OpenSelected => {
            match open_selected(data, state) {
                Some(request) => {
                    return Step::Open(request);
                },
                None => {},
            }
        },
        Action::Nothing => {},
    }
    Step::Redraw
}

/// Handles a key press: applies what the key table says and tells the event
/// loop what to do next.
pub fn handle_key(key: KeyEvent, data: &AppData, state: &mut AppState) -> (step: Step)
    ensures
        final(state)@ == old(state)@.applied(data@, key_action(key)),
        step@ == step_after(data@, old(state)@, key_action(key)),
        old(state)@.wf(data@) ==> final(state)@.wf(data@),
{
    apply_action(action_for(key), data, state)
}

/// Handles an event. A key press is handled as [`handle_key`] says; a new
/// terminal size asks for a frame and changes nothing; anything else is
/// ignored.
pub fn handle_event(event: Event, data: &AppData, state: &mut AppState) -> (step: Step)
    ensures
        match event {
            Event::Key(key) => final(state)@ == old(state)@.applied(data@, key_action(key)) && step@
                == step_after(data@, old(state)@, key_action(key)),
            Event::Resize => final(state)@ == old(state)@ && step@ == StepView::Redraw,
            Event::Other => final(state)@ == old(state)@ && step@ == StepView::Idle,
        },
        old(state)@.wf(data@) ==> final(state)@.wf(data@),
{
    match event {
        Event::Key(key) => handle_key(key, data, state),
        Event::Resize => Step::Redraw,
        Event::Other => Step::Idle,
    }
}

} // verus!
