use termfolio::model::{AboutData, AppData, ContentTab, HeaderData, Link, Post, TabData};
use termfolio::nav::{move_selection, scroll_content, switch_tab, AppState};
use termfolio::render::{render, render_about, render_content_tab, render_nav, DrawOp, Style};

const HELP: &str =
    "↑/↓ or j/k move  •  o/enter open  •  pgup/pgdn scroll  •  1-6 tabs (g gallery)  •  q quit";

fn op(x: u16, y: u16, style: Style, text: &str) -> DrawOp {
    DrawOp { x, y, style, text: text.to_string() }
}

fn post(date: &str, title: &str, body: &str) -> Post {
    Post {
        title: title.to_string(),
        date: date.to_string(),
        body: body.to_string(),
        url: format!("https://example.org/{}", title),
        sort_key: date.to_string(),
    }
}

fn about() -> AboutData {
    AboutData {
        tagline: "I like simple things.".to_string(),
        links: ["LinkedIn", "X (Twitter)", "GitHub", "Email"]
            .iter()
            .map(|l| Link { label: l.to_string(), url: format!("https://example.org/{}", l) })
            .collect(),
    }
}

fn essays() -> ContentTab {
    ContentTab {
        name: "Essays".to_string(),
        description: "Long-form writing.".to_string(),
        posts: vec![
            post(
                "2024-01-01T09:00:00Z",
                "Alpha",
                "First paragraph of the first post.\n\n- a point\n- another point",
            ),
            post("2023-05-05", "Beta", "one two three four five six seven eight nine ten"),
            post("", "Undated", ""),
        ],
    }
}

fn sample() -> AppData {
    AppData {
        header: HeaderData { title: "Jane Doe".to_string(), subtitle: "Writer".to_string() },
        tabs: vec![
            TabData::About(about()),
            TabData::Content(essays()),
            TabData::Content(ContentTab {
                name: "Gallery".to_string(),
                description: "Photos.".to_string(),
                posts: Vec::new(),
            }),
        ],
    }
}

#[test]
fn frame_of_the_about_page() {
    let data = sample();
    let mut state = AppState::new(Some("Ready".to_string()));
    let frame = render(&data, &mut state, 80, 24);
    assert_eq!(
        frame,
        vec![
            op(2, 1, Style::Bold, "Jane Doe"),
            op(2, 2, Style::Dim, "Writer"),
            op(2, 4, Style::Underlined, "1. About"),
            op(13, 4, Style::Plain, "2. Essays"),
            op(25, 4, Style::Plain, "3. Gallery"),
            op(2, 6, Style::Plain, "I like simple things."),
            op(4, 8, Style::Selected, "› LinkedIn"),
            op(4, 9, Style::Unselected, "  X (Twitter)"),
            op(4, 10, Style::Unselected, "  GitHub"),
            op(4, 11, Style::Unselected, "  Email"),
            op(2, 21, Style::Dim, "Ready"),
            op(2, 22, Style::Dim, HELP),
        ]
    );
    assert_eq!(state, AppState::new(Some("Ready".to_string())));
}

#[test]
fn frame_of_a_listing() {
    let data = sample();
    let mut state = AppState::new(None);
    switch_tab(&mut state, 1, data.tabs.len());
    let frame = render(&data, &mut state, 80, 24);
    assert_eq!(
        frame,
        vec![
            op(2, 1, Style::Bold, "Jane Doe"),
            op(2, 2, Style::Dim, "Writer"),
            op(2, 4, Style::Plain, "1. About"),
            op(13, 4, Style::Underlined, "2. Essays"),
            op(25, 4, Style::Plain, "3. Gallery"),
            op(2, 6, Style::Bold, "Essays"),
            op(2, 7, Style::Plain, "Long-form writing."),
            op(2, 8, Style::Dim, "Posts"),
            op(2, 9, Style::Selected, "› 2024-01-01 Alpha"),
            op(2, 10, Style::Unselected, "  2023-05-05 Beta"),
            op(2, 11, Style::Unselected, "  Undated"),
            op(29, 8, Style::Bold, "Alpha"),
            op(29, 9, Style::Dim, "2024-01-01T09:00:00Z"),
            op(29, 10, Style::Plain, "First paragraph of the first post."),
            op(29, 11, Style::Plain, ""),
            op(29, 12, Style::Plain, "- a point"),
            op(29, 13, Style::Plain, "- another point"),
            op(2, 22, Style::Dim, HELP),
        ]
    );
    assert_eq!(state.content_scroll_max, 0);
}

#[test]
fn frame_of_an_empty_listing() {
    let data = sample();
    let mut state = AppState::new(None);
    switch_tab(&mut state, 2, data.tabs.len());
    state.content_scroll = 4;
    state.content_scroll_max = 9;
    let frame = render(&data, &mut state, 80, 24);
    assert_eq!(
        frame[5..],
        [
            op(2, 6, Style::Bold, "Gallery"),
            op(2, 7, Style::Plain, "Photos."),
            op(2, 8, Style::Dim, "Posts"),
            op(2, 9, Style::Dim, "No posts found."),
            op(29, 9, Style::Dim, "Select a post to read."),
            op(2, 22, Style::Dim, HELP),
        ]
    );
    assert_eq!((state.content_scroll, state.content_scroll_max), (0, 0));
}

#[test]
fn undated_post_has_no_date_line() {
    let mut state = AppState::new(None);
    state.list_index = 2;
    let ops = render_content_tab(&mut state, &essays(), 76, 24);
    assert_eq!(
        ops[3..],
        [
            op(2, 9, Style::Unselected, "  2024-01-01 Alpha"),
            op(2, 10, Style::Unselected, "  2023-05-05 Beta"),
            op(2, 11, Style::Selected, "› Undated"),
            op(29, 8, Style::Bold, "Undated"),
        ]
    );
}

#[test]
fn about_list_scrolls_to_the_selection() {
    // thirteen rows leave two for the list
    let mut state = AppState::new(None);
    state.list_index = 3;
    let ops = render_about(&mut state, &about(), 76, 13);
    assert_eq!(state.list_scroll, 2);
    assert_eq!(
        ops,
        vec![
            op(2, 6, Style::Plain, "I like simple things."),
            op(4, 8, Style::Unselected, "  GitHub"),
            op(4, 9, Style::Selected, "› Email"),
        ]
    );
}

#[test]
fn list_window_holds_after_moves_and_a_frame() {
    let data = sample();
    for rows in 12u16..18 {
        let mut state = AppState::new(None);
        for step in 0..12 {
            move_selection(&data, &mut state, if step % 5 == 4 { -1 } else { 1 });
            render(&data, &mut state, 80, rows);
            let height = rows.saturating_sub(11) as usize;
            if 4 > height {
                assert!(state.list_scroll <= state.list_index);
                assert!(state.list_index < state.list_scroll + height);
            } else {
                assert_eq!(state.list_scroll, 0);
            }
        }
    }
}

#[test]
fn body_scrolls_within_its_bound() {
    let body: Vec<String> = (0..40).map(|i| format!("line {}", i)).collect();
    let tab = ContentTab {
        name: "Logs".to_string(),
        description: "Daily.".to_string(),
        posts: vec![post("2024-02-02", "Long", &body.join("\n"))],
    };
    let mut state = AppState::new(None);
    // rows 10 to 21 hold the body: twelve lines
    let ops = render_content_tab(&mut state, &tab, 76, 24);
    assert_eq!(state.content_scroll_max, 28);
    assert_eq!(ops.len(), 4 + 2 + 12);
    assert_eq!(ops[6], op(29, 10, Style::Plain, "line 0"));
    assert_eq!(ops[17], op(29, 21, Style::Plain, "line 11"));
    scroll_content(&mut state, 10);
    let ops = render_content_tab(&mut state, &tab, 76, 24);
    assert_eq!(ops[6], op(29, 10, Style::Plain, "line 10"));
    scroll_content(&mut state, 100);
    assert_eq!(state.content_scroll, 28);
    let ops = render_content_tab(&mut state, &tab, 76, 24);
    assert_eq!(ops[6], op(29, 10, Style::Plain, "line 28"));
    assert_eq!(ops[17], op(29, 21, Style::Plain, "line 39"));
    // a taller terminal shows more and brings the scroll position back
    let ops = render_content_tab(&mut state, &tab, 76, 40);
    assert_eq!((state.content_scroll_max, state.content_scroll), (12, 12));
    assert_eq!(ops.len(), 4 + 2 + 28);
}

#[test]
fn long_texts_are_cut() {
    let tab = ContentTab {
        name: "Essays".to_string(),
        description: "A description that is far too long for a narrow terminal".to_string(),
        posts: vec![post(
            "2024-03-03",
            "A title that is much longer than the list pane is wide",
            "body",
        )],
    };
    let mut state = AppState::new(None);
    let ops = render_content_tab(&mut state, &tab, 40, 24);
    assert_eq!(ops[1], op(2, 7, Style::Plain, "A description that is far too long for …"));
    // the list pane is 24 wide, its labels 22
    assert_eq!(ops[3], op(2, 9, Style::Selected, "› 2024-03-03 A title th…"));
    // the detail pane starts at 28 and is eleven wide
    assert_eq!(ops[4], op(28, 8, Style::Bold, "A title th…"));
    assert_eq!(ops[5], op(28, 9, Style::Dim, "2024-03-03"));
    assert_eq!(ops[6], op(28, 10, Style::Plain, "body"));
}

#[test]
fn status_is_cut_to_the_width() {
    let data = sample();
    let mut state = AppState::new(Some("A status that does not fit".to_string()));
    let frame = render(&data, &mut state, 14, 24);
    assert_eq!(frame[frame.len() - 2], op(2, 21, Style::Dim, "A status …"));
}

#[test]
fn tab_bar_marks_the_active_tab() {
    let data = sample();
    let mut state = AppState::new(None);
    state.tab_index = 2;
    assert_eq!(
        render_nav(&data, &state),
        vec![
            op(2, 4, Style::Plain, "1. About"),
            op(13, 4, Style::Plain, "2. Essays"),
            op(25, 4, Style::Underlined, "3. Gallery"),
        ]
    );
}

#[test]
fn tab_bar_columns_stop_at_the_last_column() {
    let long = "x".repeat(40_000);
    let tab = |name: &str| {
        TabData::Content(ContentTab {
            name: name.to_string(),
            description: String::new(),
            posts: Vec::new(),
        })
    };
    let data = AppData {
        header: HeaderData { title: String::new(), subtitle: String::new() },
        tabs: vec![tab(&long), tab(&long), tab("end")],
    };
    let ops = render_nav(&data, &AppState::new(None));
    assert_eq!(ops[0].x, 2);
    assert_eq!(ops[1].x, 40_008);
    assert_eq!(ops[2].x, u16::MAX);
}

#[test]
fn tiny_terminals_are_handled() {
    let data = sample();
    for tab in 0..4usize {
        for (cols, rows) in [(0u16, 0u16), (1, 1), (3, 9), (5, 12), (80, 11), (80, 12), (4, 24)] {
            let mut state = AppState::new(Some("status".to_string()));
            state.tab_index = tab;
            state.list_index = 1;
            state.list_scroll = 9;
            state.content_scroll = 9;
            state.content_scroll_max = 9;
            let frame = render(&data, &mut state, cols, rows);
            assert!(frame.len() >= 7);
            assert!(state.content_scroll <= state.content_scroll_max);
            assert_eq!(frame[frame.len() - 1].y, rows.saturating_sub(2));
            assert_eq!(frame[frame.len() - 2].y, rows.saturating_sub(3));
        }
    }
}

#[test]
fn a_missing_tab_draws_only_the_frame() {
    let data = sample();
    let mut state = AppState::new(None);
    state.tab_index = 9;
    let frame = render(&data, &mut state, 80, 24);
    assert_eq!(frame.len(), 2 + 3 + 1);
    assert_eq!(frame[5], op(2, 22, Style::Dim, HELP));
}

#[test]
fn list_pane_takes_a_third_of_the_width() {
    let tab = ContentTab {
        name: String::new(),
        description: String::new(),
        posts: vec![post("", "t", "")],
    };
    let mut width: usize = 42;
    while width <= 70_000 {
        let mut state = AppState::new(None);
        let ops = render_content_tab(&mut state, &tab, width, 24);
        let third = (((width as f32) * 0.33) as usize).clamp(24, 38);
        assert_eq!(ops[4].x as usize, (2 + third + 2).min(65_535), "width {}", width);
        width += if width < 200 { 1 } else { 997 };
    }
}
