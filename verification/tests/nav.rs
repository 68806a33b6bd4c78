use termfolio::model::{
    list_length, tab_label, tab_name, AboutData, AppData, ContentTab, HeaderData, Link, Post,
    TabData,
};
use termfolio::nav::{
    clamp_scroll, jump_to_bottom, jump_to_top, move_selection, open_selected, report_open,
    scroll_content, set_content_bound, switch_tab, AppState, OpenRequest,
};

fn post(date: &str, title: &str) -> Post {
    Post {
        title: title.to_string(),
        date: date.to_string(),
        body: format!("Body of {}", title),
        url: format!("https://example.org/{}", title.to_lowercase()),
        sort_key: date.to_string(),
    }
}

fn link(label: &str) -> Link {
    Link { label: label.to_string(), url: format!("https://example.org/{}", label) }
}

fn sample() -> AppData {
    AppData {
        header: HeaderData { title: "Title".to_string(), subtitle: "Subtitle".to_string() },
        tabs: vec![
            TabData::About(AboutData {
                tagline: "Tagline".to_string(),
                links: vec![link("a"), link("b"), link("c"), link("d")],
            }),
            TabData::Content(ContentTab {
                name: "Essays".to_string(),
                description: "Long-form writing.".to_string(),
                posts: vec![post("2024-01-01", "Alpha"), post("2023-05-05", "Beta")],
            }),
            TabData::Content(ContentTab {
                name: "Empty".to_string(),
                description: "Nothing here.".to_string(),
                posts: Vec::new(),
            }),
        ],
    }
}

fn selected_title(data: &AppData, state: &AppState) -> String {
    match &data.tabs[state.tab_index] {
        TabData::Content(tab) => tab.posts[state.list_index].title.clone(),
        TabData::About(about) => about.links[state.list_index].label.clone(),
    }
}

#[test]
fn a_session_starts_at_the_first_tab() {
    let state = AppState::new(Some("loaded".to_string()));
    assert_eq!(
        state,
        AppState {
            tab_index: 0,
            list_index: 0,
            list_scroll: 0,
            content_scroll: 0,
            content_scroll_max: 0,
            status: Some("loaded".to_string()),
        }
    );
}

#[test]
fn selection_steps_through_a_listing_and_wraps() {
    let data = sample();
    let mut state = AppState::new(None);
    switch_tab(&mut state, 1, data.tabs.len());
    assert_eq!(selected_title(&data, &state), "Alpha");
    move_selection(&data, &mut state, 1);
    assert_eq!(selected_title(&data, &state), "Beta");
    move_selection(&data, &mut state, 1);
    assert_eq!(selected_title(&data, &state), "Alpha");
}

#[test]
fn selection_returns_after_as_many_steps_as_items() {
    let data = sample();
    for start in 0..4usize {
        let mut state = AppState::new(None);
        state.list_index = start;
        for _ in 0..4 {
            move_selection(&data, &mut state, 1);
        }
        assert_eq!(state.list_index, start);
    }
}

#[test]
fn selection_moves_back_from_the_first_to_the_last() {
    let data = sample();
    let mut state = AppState::new(None);
    move_selection(&data, &mut state, -1);
    assert_eq!(state.list_index, 3);
    move_selection(&data, &mut state, -1);
    assert_eq!(state.list_index, 2);
}

#[test]
fn moving_the_selection_forgets_the_content_scroll() {
    let data = sample();
    let mut state = AppState::new(None);
    state.content_scroll = 3;
    state.content_scroll_max = 7;
    state.list_scroll = 1;
    move_selection(&data, &mut state, 1);
    assert_eq!((state.list_index, state.content_scroll, state.content_scroll_max), (1, 0, 0));
    assert_eq!(state.list_scroll, 1);
}

#[test]
fn selection_in_an_empty_tab_is_zero() {
    let data = sample();
    let mut state = AppState::new(None);
    switch_tab(&mut state, 2, data.tabs.len());
    state.list_index = 5;
    state.content_scroll = 2;
    state.content_scroll_max = 4;
    move_selection(&data, &mut state, 1);
    assert_eq!((state.list_index, state.content_scroll, state.content_scroll_max), (0, 2, 4));
}

#[test]
fn large_steps_come_back_in_at_the_ends() {
    let data = sample();
    let mut state = AppState::new(None);
    move_selection(&data, &mut state, 9);
    assert_eq!(state.list_index, 0);
    move_selection(&data, &mut state, 2);
    assert_eq!(state.list_index, 2);
    move_selection(&data, &mut state, i32::MIN);
    assert_eq!(state.list_index, 3);
    move_selection(&data, &mut state, i32::MAX);
    assert_eq!(state.list_index, 0);
}

#[test]
fn scrolling_stays_within_the_bound() {
    let mut state = AppState::new(None);
    state.content_scroll_max = 25;
    for delta in [10, 10, 10, 10, -10, 3, -30, i32::MAX, i32::MIN, -1, 1] {
        scroll_content(&mut state, delta);
        assert!(state.content_scroll <= state.content_scroll_max);
        assert_eq!(state.content_scroll_max, 25);
    }
    assert_eq!(state.content_scroll, 1);
}

#[test]
fn scrolling_by_pages() {
    let mut state = AppState::new(None);
    state.content_scroll_max = 25;
    scroll_content(&mut state, 10);
    assert_eq!(state.content_scroll, 10);
    scroll_content(&mut state, 10);
    assert_eq!(state.content_scroll, 20);
    scroll_content(&mut state, 10);
    assert_eq!(state.content_scroll, 25);
    scroll_content(&mut state, -10);
    assert_eq!(state.content_scroll, 15);
    scroll_content(&mut state, -20);
    assert_eq!(state.content_scroll, 0);
}

#[test]
fn jumps_go_to_the_ends() {
    let mut state = AppState::new(None);
    state.content_scroll_max = 12;
    state.content_scroll = 5;
    jump_to_bottom(&mut state);
    assert_eq!(state.content_scroll, 12);
    jump_to_top(&mut state);
    assert_eq!(state.content_scroll, 0);
}

#[test]
fn switching_tabs_resets_the_state() {
    let data = sample();
    let mut state = AppState::new(Some("status".to_string()));
    state.list_index = 3;
    state.list_scroll = 2;
    state.content_scroll = 4;
    state.content_scroll_max = 9;
    switch_tab(&mut state, 1, data.tabs.len());
    assert_eq!(state, AppState { tab_index: 1, ..AppState::new(None) });
}

#[test]
fn switching_away_and_back_keeps_nothing() {
    let data = sample();
    let mut state = AppState::new(None);
    state.list_index = 3;
    state.list_scroll = 2;
    state.content_scroll = 4;
    state.content_scroll_max = 9;
    switch_tab(&mut state, 1, data.tabs.len());
    switch_tab(&mut state, 0, data.tabs.len());
    assert_eq!(state, AppState::new(None));
}

#[test]
fn switching_to_a_missing_tab_changes_nothing() {
    let data = sample();
    let mut state = AppState::new(Some("status".to_string()));
    state.list_index = 2;
    state.content_scroll = 1;
    state.content_scroll_max = 1;
    let before = state.clone();
    switch_tab(&mut state, 3, data.tabs.len());
    assert_eq!(state, before);
    switch_tab(&mut state, usize::MAX, data.tabs.len());
    assert_eq!(state, before);
}

#[test]
fn list_window_follows_the_selection() {
    // four links, two rows: selecting the last shows the last two
    assert_eq!(clamp_scroll(0, 3, 2, 4), 2);
    // everything fits
    assert_eq!(clamp_scroll(5, 1, 10, 4), 0);
    assert_eq!(clamp_scroll(5, 1, 4, 4), 0);
    // selection above the window
    assert_eq!(clamp_scroll(3, 1, 2, 10), 1);
    // selection inside the window
    assert_eq!(clamp_scroll(3, 4, 2, 10), 3);
    // selection just below the window
    assert_eq!(clamp_scroll(3, 5, 2, 10), 4);
    // the window does not run past the end
    assert_eq!(clamp_scroll(9, 9, 3, 10), 7);
    // no rows at all
    assert_eq!(clamp_scroll(0, 3, 0, 10), 3);
    // sizes near the limit
    assert_eq!(clamp_scroll(usize::MAX, usize::MAX, 2, usize::MAX), usize::MAX - 2);
    assert_eq!(clamp_scroll(usize::MAX - 1, usize::MAX, usize::MAX - 1, usize::MAX), 1);
}

#[test]
fn list_window_shows_the_selection() {
    for total in 1..7usize {
        for height in 1..total {
            for index in 0..total {
                for scroll in 0..total + 2 {
                    let first = clamp_scroll(scroll, index, height, total);
                    assert!(first <= index && index < first + height);
                }
            }
        }
    }
}

#[test]
fn content_bound_is_what_does_not_fit() {
    let mut state = AppState::new(None);
    state.content_scroll = 8;
    set_content_bound(&mut state, 30, 25);
    assert_eq!((state.content_scroll_max, state.content_scroll), (5, 5));
    set_content_bound(&mut state, 30, 10);
    assert_eq!((state.content_scroll_max, state.content_scroll), (20, 5));
    set_content_bound(&mut state, 3, 10);
    assert_eq!((state.content_scroll_max, state.content_scroll), (0, 0));
}

#[test]
fn open_resolves_the_selected_link_or_post() {
    let data = sample();
    let mut state = AppState::new(None);
    state.list_index = 2;
    assert_eq!(
        open_selected(&data, &state),
        Some(OpenRequest { url: "https://example.org/c".to_string(), label: "c".to_string() })
    );
    switch_tab(&mut state, 1, data.tabs.len());
    state.list_index = 1;
    assert_eq!(
        open_selected(&data, &state),
        Some(OpenRequest {
            url: "https://example.org/beta".to_string(),
            label: "Beta".to_string()
        })
    );
    switch_tab(&mut state, 2, data.tabs.len());
    assert_eq!(open_selected(&data, &state), None);
    state.tab_index = 7;
    assert_eq!(open_selected(&data, &state), None);
}

#[test]
fn open_outcome_becomes_the_status() {
    let mut state = AppState::new(None);
    state.list_index = 1;
    state.content_scroll_max = 3;
    let before = state.clone();
    report_open(&mut state, "GitHub", Ok(()));
    assert_eq!(state, AppState { status: Some("Opened GitHub".to_string()), ..before.clone() });
    report_open(&mut state, "GitHub", Err("No such file or directory (os error 2)".to_string()));
    assert_eq!(
        state,
        AppState {
            status: Some(
                "Failed to open GitHub (No such file or directory (os error 2))".to_string()
            ),
            ..before
        }
    );
}

#[test]
fn tabs_have_lengths_names_and_labels() {
    let data = sample();
    assert_eq!(list_length(&data, 0), 4);
    assert_eq!(list_length(&data, 1), 2);
    assert_eq!(list_length(&data, 2), 0);
    assert_eq!(list_length(&data, 3), 0);
    assert_eq!(tab_name(&data.tabs[0]), "About");
    assert_eq!(tab_name(&data.tabs[1]), "Essays");
    assert_eq!(tab_label(0, &data.tabs[0]), "1. About");
    assert_eq!(tab_label(1, &data.tabs[1]), "2. Essays");
    assert_eq!(tab_label(9, &data.tabs[2]), "10. Empty");
    assert_eq!(tab_label(usize::MAX, &data.tabs[2]), format!("{}. Empty", usize::MAX as u128 + 1));
}
