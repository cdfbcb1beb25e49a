use kore::entry::first_line_of;
use kore::markdown::parse_md;
use kore::routes::{content_type_for, page_offset, ContentType};
use kore::{Entry, FrontMatter, PreviewFilter};

#[test]
fn parse_simple_md() {
    let markdown_input = "Hello world, this is a ~~complicated~~ *very simple* example.";
    let html = parse_md(markdown_input);
    let expected_html =
        "<p>Hello world, this is a <del>complicated</del> <em>very simple</em> example.</p>\n";
    assert_eq!(expected_html, html);
}

#[test]
fn render_heading() {
    assert_eq!(parse_md("# Title\n"), "<h1>Title</h1>\n");
}

fn entry(html: &str) -> Entry {
    Entry {
        fm: FrontMatter { title: "T".to_string(), slug: "s".to_string(), date: "d".to_string() },
        html: html.to_string(),
    }
}

#[test]
fn preview_is_first_line() {
    assert_eq!(entry("<p>one</p>\n<p>two</p>\n").get_preview(), "<p>one</p>");
    assert_eq!(entry("only").get_preview(), "only");
    assert_eq!(entry("a\r\nb").get_preview(), "a");
    assert_eq!(entry("\nb").get_preview(), "");
}

#[test]
fn first_line_keeps_lone_carriage_return() {
    assert_eq!(first_line_of("a\r"), "a\r");
    assert_eq!(first_line_of(""), "");
}

#[test]
fn preview_filter_matches_lines() {
    let f = PreviewFilter;
    assert_eq!(f.evaluate("x\ny"), "x\ny".lines().next().unwrap());
}

#[test]
fn content_types_by_extension() {
    assert_eq!(content_type_for("css"), ContentType::Css);
    assert_eq!(content_type_for("jpeg"), ContentType::Jpeg);
    assert_eq!(content_type_for("png"), ContentType::Png);
    assert_eq!(content_type_for("svg"), ContentType::Svg);
    assert_eq!(content_type_for("js"), ContentType::Javascript);
    assert_eq!(content_type_for("wasm"), ContentType::Wasm);
    assert_eq!(content_type_for("jpg"), ContentType::ByteStream);
    assert_eq!(content_type_for(""), ContentType::ByteStream);
}

#[test]
fn page_offsets() {
    assert_eq!(page_offset(0), Some(0));
    assert_eq!(page_offset(3), Some(6));
    assert_eq!(page_offset(u64::MAX / 2), Some(u64::MAX - 1));
    assert_eq!(page_offset(u64::MAX / 2 + 1), None);
}
