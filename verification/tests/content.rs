use termfolio::content::{
    capitalize, clean_frontmatter_value, date_from_slug, extract_quoted_value, replace_first,
    strip_html_tags, title_from_slug,
};
use termfolio::frontmatter::{split_frontmatter, Frontmatter};

fn entries(pairs: &[(&str, &str)]) -> Vec<(String, String)> {
    pairs.iter().map(|(k, v)| (k.to_string(), v.to_string())).collect()
}

#[test]
fn quoted_value_behind_a_marker() {
    let source = "const title = \"Jane Doe\";\nconst subtitle = ' Writer <b>and</b> reader ';\n";
    assert_eq!(extract_quoted_value(source, "title ="), Some("Jane Doe".to_string()));
    assert_eq!(
        extract_quoted_value(source, "subtitle ="),
        Some("Writer <b>and</b> reader".to_string())
    );
    assert_eq!(extract_quoted_value(source, "author ="), None);
}

#[test]
fn quoted_value_needs_both_marks() {
    assert_eq!(extract_quoted_value("title = Jane", "title ="), None);
    assert_eq!(extract_quoted_value("title = \"Jane", "title ="), None);
    assert_eq!(extract_quoted_value("title = \"Jane'", "title ="), None);
    assert_eq!(extract_quoted_value("title = 'it\"s'", "title ="), Some("it\"s".to_string()));
    assert_eq!(extract_quoted_value("title = ''", "title ="), Some(String::new()));
    assert_eq!(extract_quoted_value("'a' title =", "title ="), None);
    assert_eq!(extract_quoted_value("", ""), None);
    assert_eq!(extract_quoted_value("x 'y'", ""), Some("y".to_string()));
}

#[test]
fn quoted_value_takes_the_first_marker() {
    // the marker is also found inside a longer name
    let source = "subtitle = 'first'\ntitle = 'second'";
    assert_eq!(extract_quoted_value(source, "title ="), Some("first".to_string()));
}

#[test]
fn tags_are_taken_out() {
    assert_eq!(strip_html_tags("Co-founder at <a href=\"x\">Acme</a>"), "Co-founder at Acme");
    assert_eq!(strip_html_tags("  a <br/>  b\n<i>c</i>  "), "a b c");
    assert_eq!(strip_html_tags("1 > 0 and <b>bold"), "1 0 and bold");
    assert_eq!(strip_html_tags("open <tag never closes"), "open");
    assert_eq!(strip_html_tags("<<a>>b"), "b");
    assert_eq!(strip_html_tags(""), "");
}

#[test]
fn front_matter_values_lose_their_quotes() {
    assert_eq!(clean_frontmatter_value("  \"Hello World\" "), "Hello World");
    assert_eq!(clean_frontmatter_value("'single'"), "single");
    assert_eq!(clean_frontmatter_value("plain"), "plain");
    assert_eq!(clean_frontmatter_value("\"mixed'"), "\"mixed'");
    assert_eq!(clean_frontmatter_value("\"\""), "");
    assert_eq!(clean_frontmatter_value("\" inner \""), " inner ");
    assert_eq!(clean_frontmatter_value("\""), "\"");
    assert_eq!(clean_frontmatter_value("   "), "");
}

#[test]
fn titles_from_file_names() {
    assert_eq!(title_from_slug("my-first_post"), "My First Post");
    assert_eq!(title_from_slug("--already  Spaced__"), "Already Spaced");
    assert_eq!(title_from_slug("2024-01-01"), "2024 01 01");
    assert_eq!(title_from_slug("ßeta-émile"), "SSeta Émile");
    assert_eq!(title_from_slug(""), "");
}

#[test]
fn first_letters_in_upper_case() {
    assert_eq!(capitalize("word"), "Word");
    assert_eq!(capitalize("Word"), "Word");
    assert_eq!(capitalize("élan"), "Élan");
    assert_eq!(capitalize("ßig"), "SSig");
    assert_eq!(capitalize("1st"), "1st");
    assert_eq!(capitalize(""), "");
}

#[test]
fn first_characters_are_replaced() {
    assert_eq!(replace_first("word", "W"), "Word");
    assert_eq!(replace_first("ßig", "SS"), "SSig");
    assert_eq!(replace_first("x", ""), "");
    assert_eq!(replace_first("", "W"), "");
}

#[test]
fn dates_from_file_names() {
    assert_eq!(date_from_slug("2024-01-01"), Some("2024-01-01".to_string()));
    assert_eq!(date_from_slug("2024_01_01"), Some("2024-01-01".to_string()));
    assert_eq!(date_from_slug("2024-01-01-2"), Some("2024-01-01-2".to_string()));
    assert_eq!(date_from_slug("2024-1-1"), None);
    assert_eq!(date_from_slug("2024-01-01-notes"), None);
    assert_eq!(date_from_slug("٢٠٢٤-٠١-٠١"), None);
    assert_eq!(date_from_slug(""), None);
}

#[test]
fn file_with_front_matter() {
    let (front, body) = split_frontmatter(
        "---\ntitle: \"Hello\"\ncreated_at: 2024-01-01\nnot an entry\nurl: https://example.org\n---\n\nThe body.\n",
    );
    assert_eq!(
        front,
        Frontmatter {
            entries: entries(&[
                ("title", "Hello"),
                ("created_at", "2024-01-01"),
                ("url", "https://example.org"),
            ])
        }
    );
    assert_eq!(body, "\nThe body.\n");
    assert_eq!(front.get("title"), Some("Hello".to_string()));
    assert_eq!(front.get("missing"), None);
}

#[test]
fn file_without_front_matter() {
    for text in ["", "Just text.\n---\n", "----\ntitle: x\n---\n", " ---\na: b\n---\n", "---\r"] {
        let (front, body) = split_frontmatter(text);
        assert_eq!(front, Frontmatter { entries: Vec::new() }, "{:?}", text);
        assert_eq!(body, text);
    }
}

#[test]
fn front_matter_without_a_closing_fence() {
    let (front, body) = split_frontmatter("---\ntitle: x\ndate: y\n");
    assert_eq!(front, Frontmatter { entries: entries(&[("title", "x"), ("date", "y")]) });
    assert_eq!(body, "");
    let (front, body) = split_frontmatter("---\ntitle: x");
    assert_eq!(front, Frontmatter { entries: entries(&[("title", "x")]) });
    assert_eq!(body, "");
    let (front, body) = split_frontmatter("---");
    assert_eq!(front, Frontmatter { entries: Vec::new() });
    assert_eq!(body, "");
    let (front, body) = split_frontmatter("---\n---");
    assert_eq!(front, Frontmatter { entries: Vec::new() });
    assert_eq!(body, "");
    let (front, body) = split_frontmatter("---\n---\n");
    assert_eq!(front, Frontmatter { entries: Vec::new() });
    assert_eq!(body, "");
}

#[test]
fn later_entries_win() {
    let (front, body) = split_frontmatter("---\na: 1\nb: 2\na: 3\n---\nrest");
    assert_eq!(front.get("a"), Some("3".to_string()));
    assert_eq!(front.get("b"), Some("2".to_string()));
    assert_eq!(body, "rest");
}

#[test]
fn entries_are_cut_at_the_first_colon() {
    let (front, _) = split_frontmatter("---\n  key  :  'a: b'  \n: empty key\nnovalue:\n---\n");
    assert_eq!(
        front,
        Frontmatter { entries: entries(&[("key", "a: b"), ("", "empty key"), ("novalue", "")]) }
    );
}

#[test]
fn carriage_returns_shift_the_body() {
    // each line is counted with one character for its line break
    let (front, body) = split_frontmatter("---\r\ntitle: x\r\n---\r\nbody");
    assert_eq!(front, Frontmatter { entries: entries(&[("title", "x")]) });
    assert_eq!(body, "-\r\nbody");
}
