use termfolio::layout::{clamp_text, format_date, wrap_line, wrap_markdown};

/// The same layout written with the standard library's own splitting, for
/// text in which every character takes one byte.
fn wrap_line_with_std(text: &str, width: usize, prefix: &str) -> Vec<String> {
    let mut lines = Vec::new();
    let indent = " ".repeat(prefix.len());
    let mut current = String::new();
    for word in text.split_whitespace() {
        if current.is_empty() {
            current = format!("{}{}", prefix, word);
            continue;
        }
        if current.len() + 1 + word.len() <= width {
            current.push(' ');
            current.push_str(word);
        } else {
            lines.push(current);
            current = format!("{}{}", indent, word);
        }
    }
    if !current.is_empty() {
        lines.push(current);
    }
    if lines.is_empty() {
        lines.push(prefix.to_string());
    }
    lines
}

fn wrap_with_std(text: &str, width: usize) -> Vec<String> {
    let mut lines = Vec::new();
    let width = width.max(10);
    for raw in text.lines() {
        if raw.trim().is_empty() {
            lines.push(String::new());
            continue;
        }
        let trimmed = raw.trim_end();
        if trimmed.starts_with("- ") || trimmed.starts_with("* ") {
            lines.extend(wrap_line_with_std(trimmed[2..].trim(), width, &trimmed[..2]));
        } else {
            lines.extend(wrap_line_with_std(trimmed, width, ""));
        }
    }
    lines
}

const SAMPLES: [&str; 14] = [
    "",
    "hello",
    "- one two three",
    "* star bullet with quite a few words in it to be wrapped",
    "The quick brown fox jumps over the lazy dog.\n\nA second paragraph, after a break.",
    "  - indented marker is ordinary text",
    "-  \n- \n-\n*",
    "a_very_long_word_that_does_not_fit_anywhere short",
    "- supercalifragilisticexpialidocious and more",
    "line one\r\nline two\r\n\r\n- item\r\n",
    "   \n\t\n",
    "trailing spaces   \n   leading spaces",
    "- - nested marker",
    "word\u{b}with\u{c}odd separators",
];

#[test]
fn wrap_keeps_bullet_indent() {
    assert_eq!(wrap_markdown("- one two three", 10), vec!["- one two", "  three"]);
}

#[test]
fn wrap_agrees_with_std_splitting() {
    for text in SAMPLES {
        for width in [0usize, 1, 9, 10, 11, 12, 20, 40, 80, 1000] {
            assert_eq!(
                wrap_markdown(text, width),
                wrap_with_std(text, width),
                "{:?} at {}",
                text,
                width
            );
        }
    }
}

#[test]
fn wrap_line_agrees_with_std_splitting() {
    for text in ["", "  ", "one", "one two three four five six", "a  b\tc"] {
        for prefix in ["", "- ", "* ", "> ", "12345678901234567890"] {
            for width in [0usize, 3, 10, 14, 30] {
                assert_eq!(
                    wrap_line(text, width, prefix),
                    wrap_line_with_std(text, width, prefix),
                    "{:?} {:?} at {}",
                    text,
                    prefix,
                    width
                );
            }
        }
    }
}

#[test]
fn wrap_line_without_words_is_the_prefix() {
    assert_eq!(wrap_line("", 20, "- "), vec!["- "]);
    assert_eq!(wrap_line("   ", 20, ""), vec![""]);
}

#[test]
fn wrap_floors_the_width_at_ten() {
    assert_eq!(wrap_markdown("aaa bbb ccc ddd", 0), vec!["aaa bbb", "ccc ddd"]);
    assert_eq!(wrap_markdown("aaa bbb ccc ddd", 3), wrap_markdown("aaa bbb ccc ddd", 10));
}

#[test]
fn wrap_keeps_paragraph_breaks() {
    assert_eq!(wrap_markdown("one\n\ntwo", 40), vec!["one", "", "two"]);
    assert_eq!(wrap_markdown("one\n   \ntwo\n", 40), vec!["one", "", "two"]);
    assert_eq!(wrap_markdown("", 40), Vec::<String>::new());
    assert_eq!(wrap_markdown("\n", 40), vec![""]);
}

#[test]
fn wrap_puts_a_long_word_on_its_own_line() {
    assert_eq!(
        wrap_markdown("tiny extraordinarily-long-word tiny", 10),
        vec!["tiny", "extraordinarily-long-word", "tiny"]
    );
    assert_eq!(
        wrap_markdown("- extraordinarily-long-word x", 10),
        vec!["- extraordinarily-long-word", "  x"]
    );
}

#[test]
fn wrap_counts_characters() {
    // ten characters, more than ten bytes
    assert_eq!(wrap_markdown("ééééé éééé", 10), vec!["ééééé éééé"]);
    assert_eq!(wrap_markdown("ééééé ééééé", 10), vec!["ééééé", "ééééé"]);
}

#[test]
fn wrap_lines_stay_within_the_width() {
    for text in SAMPLES {
        for width in [10usize, 12, 20, 40] {
            for line in wrap_markdown(text, width) {
                let rest: String = line.chars().skip(2).collect();
                let single = !line.is_empty() && !line.contains(char::is_whitespace)
                    || !rest.is_empty() && !rest.contains(char::is_whitespace);
                assert!(line.chars().count() <= width || single, "{:?} at {}", line, width);
            }
        }
    }
}

#[test]
fn wrap_keeps_the_words() {
    for text in SAMPLES {
        for width in [10usize, 12, 20, 40] {
            let out = wrap_markdown(text, width);
            let got: Vec<&str> = out.iter().flat_map(|l| l.split_whitespace()).collect();
            let expected: Vec<&str> = text.split_whitespace().collect();
            assert_eq!(got, expected, "{:?} at {}", text, width);
        }
    }
}

#[test]
fn wrapping_a_wrapped_line_changes_nothing() {
    for text in ["hello world", "- item one", "  - x y", "-\u{a0}x", "* a", "solo", "- a b c d e"] {
        for width in [10usize, 12, 40] {
            let once = wrap_markdown(text, width);
            if once.len() == 1 && !once[0].is_empty() {
                assert_eq!(wrap_markdown(&once[0], width), once, "{:?} at {}", text, width);
            }
        }
    }
}

#[test]
fn clamp_text_cuts_with_ellipsis() {
    assert_eq!(clamp_text("hello world", 5), "hell…");
    assert_eq!(clamp_text("hello", 5), "hello");
    assert_eq!(clamp_text("hello", 4), "hel…");
    assert_eq!(clamp_text("hello", 1), "…");
    assert_eq!(clamp_text("", 0), "");
    assert_eq!(clamp_text("hello", 0), "…");
    assert_eq!(clamp_text("ééééé", 5), "ééééé");
    assert_eq!(clamp_text("éééééé", 5), "éééé…");
}

#[test]
fn clamp_text_never_exceeds_the_width() {
    for text in ["", "a", "abc", "abcdefghij", "…", "日本語のテキスト"] {
        for width in 1usize..12 {
            let out = clamp_text(text, width);
            let n = text.chars().count();
            assert!(out.chars().count() <= width);
            if n <= width {
                assert_eq!(out, text);
            } else {
                assert!(out.ends_with('…'));
                let kept: String = text.chars().take(width - 1).collect();
                assert_eq!(out, format!("{}…", kept));
            }
        }
    }
}

#[test]
fn format_date_keeps_ten_characters() {
    assert_eq!(format_date("2024-01-01T10:00:00Z"), "2024-01-01");
    assert_eq!(format_date("2024-01-01"), "2024-01-01");
    assert_eq!(format_date("2024"), "2024");
    assert_eq!(format_date(""), "");
}
