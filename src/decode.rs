//! Decoding a metadata block, written in TOML, into a [`FrontMatter`].
use vstd::prelude::*;
use crate::frontmatter::FrontMatter;

verus! {

#[verifier::external_type_specification]
#[verifier::external_body]
#[verifier::reject_recursive_types(K)]
#[verifier::reject_recursive_types(V)]
pub struct ExTomlMap<K, V>(toml::map::Map<K, V>);

#[verifier::external_type_specification]
#[verifier::external_body]
pub struct ExTomlValue(toml::Value);

#[verifier::external_type_specification]
#[verifier::external_body]
pub struct ExTomlError(toml::de::Error);

/// The string-valued entries of a TOML table, keyed by their names.
pub uninterp spec fn string_entries(t: toml::map::Map<String, toml::Value>) -> Map<Seq<char>, Seq<char>>;

/// The string-valued entries of the table that a TOML text decodes to, or
/// `None` where the text is not a valid TOML document.
pub uninterp spec fn toml_strings(text: Seq<char>) -> Option<Map<Seq<char>, Seq<char>>>;

/// Relies on `<toml::Table as FromStr>::from_str` (that is, `toml::from_str`):
/// it succeeds exactly on valid TOML documents, and the table it returns
/// depends on the text alone.
#[verifier::external_body]
fn parse_table(text: &str) -> (r: Result<toml::map::Map<String, toml::Value>, toml::de::Error>)
    ensures
        r is Ok <==> toml_strings(text@) is Some,
        r is Ok ==> toml_strings(text@) == Some(string_entries(r->Ok_0)),
{
    text.parse::<toml::Table>()
}

/// Relies on `toml::map::Map::get`: the value stored under `key`, kept here
/// where it is a string.
#[verifier::external_body]
fn table_string(t: &toml::map::Map<String, toml::Value>, key: &str) -> (r: Option<String>)
    ensures
        r is Some <==> string_entries(*t).contains_key(key@),
        r is Some ==> r->Some_0@ == string_entries(*t)[key@],
{
    match t.get(key) {
        Some(toml::Value::String(s)) => Some(s.clone()),
        _ => None,
    }
}

/// The metadata record that a table's string entries describe: it needs a
/// string `title`, `slug` and `date`.
pub open spec fn record_of(m: Map<Seq<char>, Seq<char>>) -> Option<(Seq<char>, Seq<char>, Seq<char>)> {
    if m.contains_key("title"@) && m.contains_key("slug"@) && m.contains_key("date"@) {
        Some((m["title"@], m["slug"@], m["date"@]))
    } else {
        None
    }
}

/// The metadata record that a TOML text decodes to, if any.
pub open spec fn decode_spec(text: Seq<char>) -> Option<(Seq<char>, Seq<char>, Seq<char>)> {
    match toml_strings(text) {
        None => None,
        Some(m) => record_of(m),
    }
}

/// The record as a triple of title, slug and date.
pub open spec fn fields_of(fm: FrontMatter) -> (Seq<char>, Seq<char>, Seq<char>) {
    (fm.title@, fm.slug@, fm.date@)
}

/// Decodes a TOML metadata block into a record; `None` where the text is not
/// TOML or lacks a string `title`, `slug` or `date`.
pub fn decode_front_matter(text: &str) -> (r: Option<FrontMatter>)
    ensures
        r is Some <==> decode_spec(text@) is Some,
        r is Some ==> decode_spec(text@) == Some(fields_of(r->Some_0)),
{
    let table = match parse_table(text) {
        Ok(t) => t,
        Err(_) => {
            return None;
        },
    };
    let title = table_string(&table, "title");
    let slug = table_string(&table, "slug");
    let date = table_string(&table, "date");
    match (title, slug, date) {
        (Some(title), Some(slug), Some(date)) => Some(FrontMatter { title, slug, date }),
        _ => None,
    }
}

} // verus!
