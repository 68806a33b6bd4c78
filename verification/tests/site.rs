use termfolio::model::{AboutData, AppData, ContentTab, HeaderData, Link, Post, TabData};
use termfolio::site::{build_app_data, load_header_data};

fn post(title: &str) -> Post {
    Post {
        title: title.to_string(),
        date: String::new(),
        body: String::new(),
        url: String::new(),
        sort_key: title.to_string(),
    }
}

fn header() -> HeaderData {
    HeaderData { title: "T".to_string(), subtitle: "S".to_string() }
}

fn listing(name: &str, description: &str, posts: Vec<Post>) -> TabData {
    TabData::Content(ContentTab {
        name: name.to_string(),
        description: description.to_string(),
        posts,
    })
}

fn link(label: &str, url: &str) -> Link {
    Link { label: label.to_string(), url: url.to_string() }
}

#[test]
fn the_site_has_six_tabs_in_order() {
    let (data, status) = build_app_data(
        header(),
        Some(vec![post("e1"), post("e2")]),
        Some(vec![post("j")]),
        None,
        Some(Vec::new()),
        Some(vec![post("g")]),
    );
    assert_eq!(status, None);
    assert_eq!(
        data,
        AppData {
            header: header(),
            tabs: vec![
                TabData::About(AboutData {
                    tagline: "I like simple & intuitive stuff.".to_string(),
                    links: vec![
                        link("LinkedIn", "https://www.linkedin.com/in/johntopia/"),
                        link("X (Twitter)", "https://x.com/computeless"),
                        link("GitHub", "https://github.com/ComputelessComputer"),
                        link("Email", "mailto:john@hyprnote.com"),
                    ],
                }),
                listing("Essays", "Long-form writing.", vec![post("e1"), post("e2")]),
                listing("Daily Logs", "Daily notes and logs.", vec![post("j")]),
                listing("Inspirations", "Talks, podcasts, and ideas that shaped me.", Vec::new()),
                listing("Lessons", "Learning notes and highlights.", Vec::new()),
                listing("Gallery", "Photos I took.", vec![post("g")]),
            ],
        }
    );
}

#[test]
fn missing_essays_are_reported() {
    let (data, status) = build_app_data(header(), None, None, None, None, None);
    assert_eq!(
        status,
        Some(
            "Content directory not found. Set JOHNJEONG_CONTENT_DIR to your part-of-my-brain path."
                .to_string()
        )
    );
    assert_eq!(data.tabs.len(), 6);
    let (_, status) = build_app_data(header(), Some(Vec::new()), None, None, None, None);
    assert_eq!(status, None);
}

#[test]
fn header_defaults() {
    assert_eq!(
        load_header_data(None, None, None),
        HeaderData {
            title: "John Jeong".to_string(),
            subtitle: "Co-founder & Co-CEO at Hyprnote".to_string()
        }
    );
    assert_eq!(
        load_header_data(Some("A".to_string()), Some("B".to_string()), None),
        HeaderData { title: "A".to_string(), subtitle: "B".to_string() }
    );
}

#[test]
fn header_from_the_site_source() {
    let source = "---\nconst title = \"Jane Doe\";\nconst subtitle = 'Writer at <a href=\"x\">Acme</a>';\n---\n";
    assert_eq!(
        load_header_data(Some("A".to_string()), None, Some(source)),
        HeaderData { title: "Jane Doe".to_string(), subtitle: "Writer at Acme".to_string() }
    );
    assert_eq!(
        load_header_data(Some("A".to_string()), Some("B".to_string()), Some("nothing here")),
        HeaderData { title: "A".to_string(), subtitle: "B".to_string() }
    );
}
