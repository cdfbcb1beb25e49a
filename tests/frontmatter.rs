use kore::decode::decode_front_matter;
use kore::frontmatter::split;
use kore::{FrontMatter, ParseError};

const EXAMPLE: &str = "slug = \"/a/b\"\ntitle = \"Test\"\ndate = \"2020-09-03 07:48:00\"\n";

fn example_frontmatter() -> FrontMatter {
    decode_front_matter("\n            slug = \"/a/b\"\n            title = \"Test\"\n            date = \"2020-09-03 07:48:00\"\n            ").unwrap()
}

#[test]
fn deserialize_page_config() {
    let frontmatter = example_frontmatter();
    assert_eq!(frontmatter.slug, "/a/b");
    assert_eq!(frontmatter.title, "Test");
    assert_eq!(frontmatter.date, "2020-09-03 07:48:00");
}

#[test]
fn valid_parse() {
    let expected_frontmatter = example_frontmatter();
    let content = "slug = \"/a/b\"\ntitle = \"Test\"\ndate = \"2020-09-03 07:48:00\"\n===\nMarkdown begins\n";
    let (frontmatter, offset) = FrontMatter::parse("test", content).unwrap();
    assert_eq!(expected_frontmatter, frontmatter);
    assert_eq!(&content[offset..], "Markdown begins\n")
}

#[test]
fn split_returns_block_and_body_start() {
    let content = format!("{}===\nMarkdown begins\n", EXAMPLE);
    let (meta, offset) = split(&content).unwrap();
    assert_eq!(meta, EXAMPLE);
    assert_eq!(&content[offset..], "Markdown begins\n");
}

#[test]
fn split_well_formed_document() {
    let (meta, offset) = split("a = 1\nb = 2\n===\nbody\nmore").unwrap();
    assert_eq!(meta, "a = 1\nb = 2\n");
    assert_eq!(offset, 16);
}

#[test]
fn split_counts_characters() {
    let text = "t = \"é\"\n===\nbody";
    let (meta, offset) = split(text).unwrap();
    assert_eq!(meta, "t = \"é\"\n");
    assert_eq!(offset, 12);
    let body: String = text.chars().skip(offset).collect();
    assert_eq!(body, "body");
}

#[test]
fn split_empty_input_is_eof() {
    assert_eq!(split(""), Err(ParseError::UnexpectedEndOfInput));
}

#[test]
fn split_without_delimiter_is_eof() {
    assert_eq!(split("a = 1\nb = 2\n"), Err(ParseError::UnexpectedEndOfInput));
    assert_eq!(split("a = 1 === 2\n"), Err(ParseError::UnexpectedEndOfInput));
}

#[test]
fn split_truncated_delimiter_is_eof() {
    assert_eq!(split("a = 1\n=="), Err(ParseError::UnexpectedEndOfInput));
    assert_eq!(split("a = 1\n==="), Err(ParseError::UnexpectedEndOfInput));
}

#[test]
fn split_short_delimiter_is_malformed() {
    assert_eq!(split("a = 1\n==\nbody"), Err(ParseError::MalformedDelimiterLine));
}

#[test]
fn split_long_delimiter_is_malformed() {
    assert_eq!(split("a = 1\n====\nbody"), Err(ParseError::MalformedDelimiterLine));
}

#[test]
fn split_delimiter_followed_by_text_is_malformed() {
    assert_eq!(split("a = 1\n===x\nbody"), Err(ParseError::MalformedDelimiterLine));
}

#[test]
fn split_delimiter_at_start() {
    assert_eq!(split("===\nbody"), Ok((String::new(), 4)));
}

#[test]
fn split_is_repeatable() {
    let text = "a = 1\n===\nbody";
    assert_eq!(split(text), split(text));
    let bad = "a = 1\n=x";
    assert_eq!(split(bad), split(bad));
}

#[test]
fn parse_reports_decode_error_with_path() {
    let r = FrontMatter::parse("posts/x.md", "title = \"T\"\n===\nbody");
    assert_eq!(r, Err(ParseError::Decode("posts/x.md".to_string())));
    let r = FrontMatter::parse("posts/y.md", "not toml at all\n===\nbody");
    assert_eq!(r, Err(ParseError::Decode("posts/y.md".to_string())));
}

#[test]
fn parse_reports_split_errors() {
    assert_eq!(FrontMatter::parse("p", "title = \"T\"\n"), Err(ParseError::UnexpectedEndOfInput));
    assert_eq!(FrontMatter::parse("p", "title = \"T\"\n=*=\n"), Err(ParseError::MalformedDelimiterLine));
}

#[test]
fn decode_needs_string_fields() {
    assert!(decode_front_matter("title = \"T\"\nslug = \"s\"\ndate = 2020-01-01\n").is_none());
    assert!(decode_front_matter("title = \"T\"\nslug = \"s\"\n").is_none());
    assert!(decode_front_matter("title = \"T\"\nslug = \"s\"\ndate = \"d\"\nextra = 3\n").is_some());
}

#[test]
fn equality_ignores_date() {
    let a = FrontMatter { title: "T".to_string(), slug: "s".to_string(), date: "1".to_string() };
    let b = FrontMatter { title: "T".to_string(), slug: "s".to_string(), date: "2".to_string() };
    let c = FrontMatter { title: "U".to_string(), slug: "s".to_string(), date: "1".to_string() };
    assert_eq!(a, b);
    assert_ne!(a, c);
}

#[test]
fn decode_then_encode_keeps_fields() {
    let (meta, _) = split(&format!("{}===\nbody\n", EXAMPLE)).unwrap();
    let fm = decode_front_matter(&meta).unwrap();
    let mut table = toml::Table::new();
    table.insert("title".to_string(), toml::Value::String(fm.title.clone()));
    table.insert("slug".to_string(), toml::Value::String(fm.slug.clone()));
    table.insert("date".to_string(), toml::Value::String(fm.date.clone()));
    let encoded = toml::to_string(&table).unwrap();
    let again = decode_front_matter(&encoded).unwrap();
    assert_eq!(again.title, "Test");
    assert_eq!(again.slug, "/a/b");
    assert_eq!(again.date, "2020-09-03 07:48:00");
}
