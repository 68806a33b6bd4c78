use termfolio::model::Post;
use termfolio::frontmatter::Frontmatter;
use termfolio::posts::{
    build_post, gallery_post, hides, is_image, load_gallery, load_posts, names_image,
    post_from_file, sort_posts, ImageFile, SourceFile,
};

fn file(slug: &str, content: &str) -> SourceFile {
    SourceFile { slug: slug.to_string(), content: content.to_string() }
}

fn keyed(key: &str, title: &str) -> Post {
    Post {
        title: title.to_string(),
        date: String::new(),
        body: String::new(),
        url: String::new(),
        sort_key: key.to_string(),
    }
}

fn image(stem: &str, extension: &str, modified_secs: Option<u64>) -> ImageFile {
    ImageFile {
        stem: stem.to_string(),
        extension: extension.to_string(),
        path: format!("/photos/{}.{}", stem, extension),
        modified_secs,
    }
}

#[test]
fn post_from_front_matter() {
    let post = post_from_file(
        &file(
            "hello-world",
            "---\ntitle: \"Hello, World\"\ncreated_at: 2024-02-03\npublished: true\n---\n\n  The body.\n\n",
        ),
        "https://example.org/essays/",
        true,
    );
    assert_eq!(
        post,
        Some(Post {
            title: "Hello, World".to_string(),
            date: "2024-02-03".to_string(),
            body: "The body.".to_string(),
            url: "https://example.org/essays/hello-world".to_string(),
            sort_key: "2024-02-03".to_string(),
        })
    );
}

#[test]
fn post_from_the_file_name() {
    let post = post_from_file(&file("2024_01_15", "Some notes."), "https://example.org/j", false);
    assert_eq!(
        post,
        Some(Post {
            title: "2024 01 15".to_string(),
            date: "2024-01-15".to_string(),
            body: "Some notes.".to_string(),
            url: "https://example.org/j/2024_01_15".to_string(),
            sort_key: "2024-01-15".to_string(),
        })
    );
    let post = post_from_file(&file("on-writing", ""), "https://example.org/j///", false);
    assert_eq!(
        post,
        Some(Post {
            title: "On Writing".to_string(),
            date: String::new(),
            body: String::new(),
            url: "https://example.org/j/on-writing".to_string(),
            sort_key: "on-writing".to_string(),
        })
    );
}

#[test]
fn description_stands_in_for_an_empty_body() {
    let post = post_from_file(
        &file("talk", "---\ndescription: A talk worth hearing.\n---\n  \n"),
        "",
        false,
    )
    .unwrap();
    assert_eq!(post.body, "A talk worth hearing.");
    assert_eq!(post.url, "/talk");
    let post = post_from_file(
        &file("talk", "---\ndescription: A talk worth hearing.\n---\nOwn text."),
        "",
        false,
    )
    .unwrap();
    assert_eq!(post.body, "Own text.");
}

#[test]
fn unpublished_posts_are_hidden_where_asked() {
    let draft = file("draft", "---\npublished: false\n---\ntext");
    assert_eq!(post_from_file(&draft, "u", true), None);
    assert!(post_from_file(&draft, "u", false).is_some());
    for (value, shown) in [("true", true), ("TRUE", true), ("True", true), ("yes", false), ("", false)]
    {
        let f = file("p", &format!("---\npublished: {}\n---\ntext", value));
        assert_eq!(post_from_file(&f, "u", true).is_some(), shown, "{:?}", value);
    }
    assert!(post_from_file(&file("p", "no front matter"), "u", true).is_some());
}

#[test]
fn only_true_is_published() {
    assert!(!hides(true, None));
    assert!(!hides(true, Some("true")));
    assert!(hides(true, Some("false")));
    assert!(hides(true, Some("")));
    assert!(hides(true, Some("TRUE")));
    assert!(!hides(false, Some("false")));
    assert!(!hides(false, None));
}

#[test]
fn post_from_its_parts() {
    let front = Frontmatter {
        entries: vec![
            ("title".to_string(), "Old".to_string()),
            ("description".to_string(), "About it.".to_string()),
            ("title".to_string(), "New".to_string()),
        ],
    };
    assert_eq!(
        build_post("2020-02-02", &front, " \n", "https://example.org//"),
        Post {
            title: "New".to_string(),
            date: "2020-02-02".to_string(),
            body: "About it.".to_string(),
            url: "https://example.org/2020-02-02".to_string(),
            sort_key: "2020-02-02".to_string(),
        }
    );
}

#[test]
fn image_extensions_in_lower_case() {
    assert!(names_image("jpg"));
    assert!(names_image("jpeg"));
    assert!(names_image("png"));
    assert!(names_image("webp"));
    assert!(!names_image("JPG"));
    assert!(!names_image(""));
}

#[test]
fn posts_are_sorted_newest_first() {
    let sorted = sort_posts(vec![
        keyed("2023-05-05", "b"),
        keyed("2024-01-01", "a"),
        keyed("2022-12-31", "c"),
        keyed("2024-01-01", "a again"),
        keyed("2024-01-01T10", "latest"),
        keyed("", "empty"),
    ]);
    let titles: Vec<&str> = sorted.iter().map(|p| p.title.as_str()).collect();
    assert_eq!(titles, vec!["latest", "a", "a again", "b", "c", "empty"]);
    assert_eq!(sort_posts(Vec::new()), Vec::new());
}

#[test]
fn sorting_agrees_with_a_stable_sort() {
    let keys = ["b", "a", "é", "ab", "", "a", "B", "z", "ab", "日本", "a\u{10FFFF}", "b"];
    let posts: Vec<Post> =
        keys.iter().enumerate().map(|(i, k)| keyed(k, &format!("{}", i))).collect();
    let mut expected = posts.clone();
    expected.sort_by(|a, b| b.sort_key.cmp(&a.sort_key));
    assert_eq!(sort_posts(posts), expected);
}

#[test]
fn a_tab_is_loaded_from_its_files() {
    let files = vec![
        file("2023-01-01", "old"),
        file("draft", "---\npublished: false\n---\nhidden"),
        file("2024-06-01", "new"),
        file("undated", "---\ntitle: Zed\n---\nnotes"),
    ];
    let posts = load_posts(&files, "https://example.org/essays", true);
    let titles: Vec<&str> = posts.iter().map(|p| p.title.as_str()).collect();
    assert_eq!(titles, vec!["Zed", "2024 06 01", "2023 01 01"]);
    let posts = load_posts(&files, "https://example.org/essays", false);
    let keys: Vec<&str> = posts.iter().map(|p| p.sort_key.as_str()).collect();
    assert_eq!(keys, vec!["undated", "draft", "2024-06-01", "2023-01-01"]);
    assert_eq!(load_posts(&Vec::new(), "u", true), Vec::new());
}

#[test]
fn images_are_known_by_their_extension() {
    for ext in ["jpg", "JPG", "jpeg", "Jpeg", "png", "PNG", "webp", "WebP"] {
        assert!(is_image(ext), "{}", ext);
    }
    for ext in ["", "gif", "md", "jpg ", "jpe", "pngx"] {
        assert!(!is_image(ext), "{}", ext);
    }
}

#[test]
fn gallery_post_of_an_image() {
    assert_eq!(
        gallery_post(&image("sunset", "jpg", Some(1_700_000_000))),
        Post {
            title: "sunset".to_string(),
            date: String::new(),
            body: "Image file: /photos/sunset.jpg".to_string(),
            url: "/photos/sunset.jpg".to_string(),
            sort_key: "00000000001700000000".to_string(),
        }
    );
    assert_eq!(gallery_post(&image("a", "png", None)).sort_key, "a");
    assert_eq!(gallery_post(&image("a", "png", Some(0))).sort_key, "00000000000000000000");
    assert_eq!(gallery_post(&image("a", "png", Some(u64::MAX))).sort_key, "18446744073709551615");
}

#[test]
fn gallery_shows_the_latest_image_first() {
    let files = vec![
        image("old", "jpg", Some(100)),
        image("notes", "txt", Some(500)),
        image("new", "PNG", Some(2_000)),
        image("mid", "webp", Some(999)),
        image("unknown", "jpeg", None),
    ];
    let posts = load_gallery(&files);
    let titles: Vec<&str> = posts.iter().map(|p| p.title.as_str()).collect();
    assert_eq!(titles, vec!["unknown", "new", "mid", "old"]);
}
