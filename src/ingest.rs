//! Turning documents into entries, numbered in the order they come.
use vstd::prelude::*;
use vstd::string::StrSliceExecFns;
use crate::decode::{decode_spec, fields_of};
use crate::entry::Entry;
use crate::frontmatter::{split_spec, FrontMatter, ParseError};
use crate::markdown::{markdown_html, parse_md};

verus! {

/// Whether `r` is what parsing the document at `path`, whose text is `s`,
/// gives: its metadata and its body rendered to HTML; or the error met first.
pub open spec fn entry_outcome(path: Seq<char>, s: Seq<char>, r: Result<Entry, ParseError>) -> bool {
    match split_spec(s) {
        Err(e) => r == Err::<Entry, ParseError>(e),
        Ok((meta, offset)) => match decode_spec(meta) {
            None => r is Err && r->Err_0 is Decode && r->Err_0->Decode_0@ == path,
            Some(fields) => r is Ok && fields_of(r->Ok_0.fm) == fields && r->Ok_0.html@
                == markdown_html(s.skip(offset)),
        },
    }
}

/// Parses the document at `file_path`, whose text is `input`, into an entry.
pub fn parse_file(file_path: &str, input: &str) -> (r: Result<Entry, ParseError>)
    ensures
        entry_outcome(file_path@, input@, r),
{
    let (fm, offset) = match FrontMatter::parse(file_path, input) {
        Ok(parts) => parts,
        Err(e) => {
            return Err(e);
        },
    };
    let n = input.unicode_len();
    let body = input.substring_char(offset, n);
    assert(body@ =~= input@.skip(offset as int));
    let html = parse_md(body);
    Ok(Entry { fm, html })
}

/// Whether the document whose text is `s` parses: it splits, and its
/// metadata block decodes.
pub open spec fn parses(s: Seq<char>) -> bool {
    match split_spec(s) {
        Err(_) => false,
        Ok((meta, _)) => decode_spec(meta) is Some,
    }
}

/// Parses each document, given as its path and its text, in order. The
/// entry at position `i` is the one with content id `i`. The first document
/// that fails to parse stops the whole run, and its error is returned.
pub fn ingest(docs: &Vec<(String, String)>) -> (r: Result<Vec<Entry>, ParseError>)
    ensures
        r is Ok <==> forall|i: int| 0 <= i < docs@.len() ==> parses(#[trigger] docs@[i].1@),
        r is Ok ==> r->Ok_0@.len() == docs@.len() && forall|i: int|
            0 <= i < docs@.len() ==> entry_outcome(
                #[trigger] docs@[i].0@,
                docs@[i].1@,
                Ok(r->Ok_0@[i]),
            ),
        r is Err ==> exists|i: int|
            0 <= i < docs@.len() && !parses(#[trigger] docs@[i].1@) && (forall|j: int|
                0 <= j < i ==> parses(#[trigger] docs@[j].1@)) && entry_outcome(
                docs@[i].0@,
                docs@[i].1@,
                Err(r->Err_0),
            ),
{
    let mut entries: Vec<Entry> = Vec::new();
    let mut i: usize = 0;
    while i < docs.len()
        invariant
            i <= docs@.len(),
            entries@.len() == i,
            forall|j: int| 0 <= j < i ==> parses(#[trigger] docs@[j].1@),
            forall|j: int|
                0 <= j < i ==> entry_outcome(#[trigger] docs@[j].0@, docs@[j].1@, Ok(entries@[j])),
        decreases docs@.len() - i,
    {
        let doc = &docs[i];
        match parse_file(doc.0.as_str(), doc.1.as_str()) {
            Ok(e) => {
                entries.push(e);
            },
            Err(e) => {
                assert(!parses(docs@[i as int].1@));
                return Err(e);
            },
        }
        i = i + 1;
    }
    Ok(entries)
}

} // verus!
