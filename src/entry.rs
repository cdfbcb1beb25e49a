//! Entries: a document's metadata together with its rendered body.
use vstd::prelude::*;
use vstd::string::StrSliceExecFns;
use vstd::std_specs::iter::IteratorSpec;
use crate::frontmatter::FrontMatter;

verus! {

broadcast use vstd::string::next_postcondition;

/// A document after ingestion: its metadata and its body as HTML.
#[derive(Debug)]
pub struct Entry {
    pub fm: FrontMatter,
    pub html: String,
}

/// The position of the first newline in `s` at or after `i`, if any.
pub open spec fn newline_from(s: Seq<char>, i: int) -> Option<int>
    decreases s.len() - i,
{
    if i >= s.len() || i < 0 {
        None
    } else if s[i] == '\n' {
        Some(i)
    } else {
        newline_from(s, i + 1)
    }
}

/// The first line of `s`, without its line ending (`\n` or `\r\n`).
pub open spec fn first_line(s: Seq<char>) -> Seq<char> {
    match newline_from(s, 0) {
        None => s,
        Some(k) => if k > 0 && s[k - 1] == '\r' {
            s.take(k - 1)
        } else {
            s.take(k)
        },
    }
}

proof fn lemma_newline_skip(s: Seq<char>, i: int)
    requires
        0 <= i < s.len(),
        s[i] != '\n',
    ensures
        newline_from(s, i) == newline_from(s, i + 1),
{
}

/// The first line of `text`, without its line ending.
pub fn first_line_of(text: &str) -> (r: &str)
    ensures
        r@ == first_line(text@),
{
    let ghost s = text@;
    let n = text.unicode_len();
    let mut chars = text.chars();
    let mut i: usize = 0;
    while i < n
        invariant
            s == text@,
            n == s.len(),
            i <= n,
            chars.remaining() == s.skip(i as int),
            newline_from(s, 0) == newline_from(s, i as int),
        decreases n - i,
    {
        let c = match chars.next() {
            Some(c) => c,
            None => {
                return text.substring_char(0, n);
            },
        };
        assert(c == s[i as int]);
        if c == '\n' {
            if i > 0 && text.get_char(i - 1) == '\r' {
                return text.substring_char(0, i - 1);
            }
            return text.substring_char(0, i);
        }
        proof {
            lemma_newline_skip(s, i as int);
        }
        i = i + 1;
    }
    text.substring_char(0, n)
}

impl Entry {
    /// The preview of the entry: the first line of its HTML. An entry whose
    /// HTML is empty has no line, so it has no preview.
    pub fn get_preview(&self) -> (r: &str)
        requires
            self.html@.len() > 0,
        ensures
            r@ == first_line(self.html@),
    {
        first_line_of(self.html.as_str())
    }
}

/// A template filter named `preview`, as it is declared for the template engine.
pub struct Preview;

/// The `preview` template filter: it turns a text into its first line.
#[derive(Debug, Default)]
pub struct PreviewFilter;

impl PreviewFilter {
    /// The first line of `input`, without its line ending.
    pub fn evaluate<'a>(&self, input: &'a str) -> (r: &'a str)
        ensures
            r@ == first_line(input@),
    {
        first_line_of(input)
    }
}

} // verus!
