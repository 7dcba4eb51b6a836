use antarctica_cli::components::markdown::{style_lines, MarkdownRenderer, MarkdownSpan, SpanStyle};

fn span(text: &str, fg: Option<&str>) -> MarkdownSpan {
    MarkdownSpan {
        content: text.to_string(),
        style: SpanStyle {
            fg: fg.map(|s| s.to_string()),
            bg: None,
            bold: false,
            italic: false,
            underlined: false,
        },
    }
}

fn line_text(line: &[MarkdownSpan]) -> String {
    line.iter().map(|s| s.content.as_str()).collect::<Vec<_>>().join("")
}

#[test]
fn test_render_markdown() {
    let markdown = r#"**Blod**, `block`

# This is h1
## This is h2
### This is h3
#### This is h4

[Link](https://example.com)"#;

    let text = MarkdownRenderer::render(markdown);

    println!("Rendered {} lines", text.len());
    for (i, line) in text.iter().enumerate() {
        println!("Line {}: {} spans", i, line.len());
        for (j, span) in line.iter().enumerate() {
            let style = &span.style;
            println!("  Span {}: '{}' fg={:?} bg={:?}", j, span.content, style.fg, style.bg);
        }
    }
}

#[test]
fn render_keeps_plain_text() {
    let lines = MarkdownRenderer::render("hello world");
    assert_eq!(lines.len(), 1);
    assert_eq!(line_text(&lines[0]), "hello world");
}

#[test]
fn heading_text_takes_the_level_colour() {
    let lines = MarkdownRenderer::render("# Title one\n\n## Title two\n\n##### Five");
    let h1 = lines.iter().find(|l| !l.is_empty() && l[0].content == "# ").expect("h1 line");
    assert!(h1.len() >= 2);
    assert_eq!(h1[1].content, "Title one");
    assert_eq!(h1[1].style.fg.as_deref(), Some("Yellow"));
    assert!(h1[1].style.bold);
    let h2 = lines.iter().find(|l| !l.is_empty() && l[0].content == "## ").expect("h2 line");
    assert_eq!(h2[1].style.fg.as_deref(), Some("Green"));
    let h5 = lines.iter().find(|l| !l.is_empty() && l[0].content == "##### ").expect("h5 line");
    assert_eq!(h5[1].style.fg.as_deref(), Some("LightYellow"));
}

#[test]
fn table_rows_are_green_and_following_rows_white() {
    let parsed = vec![
        vec![span("plain", Some("Red"))],
        vec![span("| a ", None), span("| b |", None)],
        vec![span("| x", Some("Blue"))],
        vec![span("after", Some("Red"))],
        vec![span("later", Some("Red"))],
    ];
    let out = style_lines(parsed);
    assert_eq!(out.len(), 5);
    assert_eq!(out[0][0].style.fg.as_deref(), Some("Red"));
    assert_eq!(out[1][0].style.fg.as_deref(), Some("LightGreen"));
    assert_eq!(out[1][1].style.fg.as_deref(), Some("LightGreen"));
    assert_eq!(out[2][0].style.fg.as_deref(), Some("White"));
    assert_eq!(out[3][0].style.fg.as_deref(), Some("White"));
    assert_eq!(out[4][0].style.fg.as_deref(), Some("Red"));
    assert_eq!(out[1][0].content, "| a ");
}

#[test]
fn heading_marks_keep_their_style() {
    let parsed = vec![vec![span("### ", Some("Cyan")), span("Three", None), span(" more", None)]];
    let out = style_lines(parsed);
    assert_eq!(out[0][0].style.fg.as_deref(), Some("Cyan"));
    assert_eq!(out[0][1].style.fg.as_deref(), Some("LightBlue"));
    assert!(out[0][1].style.bold);
    assert_eq!(out[0][2].style.fg.as_deref(), Some("LightBlue"));
}

#[test]
fn deep_headings_are_not_bold() {
    let parsed = vec![vec![span("###### ", None), span("Six", None)], vec![span("####### ", None), span("Seven", None)]];
    let out = style_lines(parsed);
    assert_eq!(out[0][1].style.fg.as_deref(), Some("LightCyan"));
    assert!(!out[0][1].style.bold);
    assert_eq!(out[1][1].style.fg, None);
}
