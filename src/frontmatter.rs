//! Splitting a document into its metadata block and its body.
//!
//! A document starts with a metadata block that ends right before a line
//! made of exactly three `=` characters; the body starts after that line.
use vstd::prelude::*;
use vstd::string::StrSliceExecFns;
use vstd::std_specs::iter::IteratorSpec;
use crate::decode::{decode_front_matter, decode_spec, fields_of};

verus! {

broadcast use vstd::string::next_postcondition;

/// The character that makes up the delimiter line.
pub const DELIMITER: char = '=';

/// Why a document could not be split or decoded.
#[derive(Debug, PartialEq, Eq)]
pub enum ParseError {
    /// The text ended before a complete delimiter line was read.
    UnexpectedEndOfInput,
    /// A delimiter line held something other than three `=` and a newline.
    MalformedDelimiterLine,
    /// The metadata block of the named document did not decode into a record.
    Decode(String),
}

/// Whether position `i` of `s` is the first character of a line.
pub open spec fn at_line_start(s: Seq<char>, i: int) -> bool {
    i == 0 || s[i - 1] == '\n'
}

/// Whether a delimiter line may start at position `i` of `s`.
pub open spec fn opens_delimiter(s: Seq<char>, i: int) -> bool {
    0 <= i < s.len() && s[i] == DELIMITER && at_line_start(s, i)
}

/// The first position at or after `i` where a delimiter line starts.
pub open spec fn first_delimiter_from(s: Seq<char>, i: int) -> Option<int>
    decreases s.len() - i,
{
    if i >= s.len() || i < 0 {
        None
    } else if opens_delimiter(s, i) {
        Some(i)
    } else {
        first_delimiter_from(s, i + 1)
    }
}

/// What follows a delimiter line's first character at position `p`: the
/// metadata block and the position of the body, or the error met first.
pub open spec fn delimiter_tail(s: Seq<char>, p: int) -> Result<(Seq<char>, int), ParseError> {
    if p + 1 >= s.len() {
        Err(ParseError::UnexpectedEndOfInput)
    } else if s[p + 1] != DELIMITER {
        Err(ParseError::MalformedDelimiterLine)
    } else if p + 2 >= s.len() {
        Err(ParseError::UnexpectedEndOfInput)
    } else if s[p + 2] != DELIMITER {
        Err(ParseError::MalformedDelimiterLine)
    } else if p + 3 >= s.len() {
        Err(ParseError::UnexpectedEndOfInput)
    } else if s[p + 3] != '\n' {
        Err(ParseError::MalformedDelimiterLine)
    } else {
        Ok((s.take(p), p + 4))
    }
}

/// The split of a document: its metadata block and the position (counted in
/// characters) where its body starts.
pub open spec fn split_spec(s: Seq<char>) -> Result<(Seq<char>, int), ParseError> {
    match first_delimiter_from(s, 0) {
        None => Err(ParseError::UnexpectedEndOfInput),
        Some(p) => delimiter_tail(s, p),
    }
}

/// A result of [`split`] as the metadata block's characters and the body's
/// position.
pub open spec fn split_view(r: Result<(String, usize), ParseError>) -> Result<(Seq<char>, int), ParseError> {
    match r {
        Ok((meta, offset)) => Ok((meta@, offset as int)),
        Err(e) => Err(e),
    }
}

/// The state of the splitter's automaton.
enum SplitState {
    /// Reading the metadata block; whether the next character starts a line.
    Metadata { new_line: bool },
    /// Reading the delimiter line, which started at `start`; `count` of its
    /// characters have been read.
    Marker { start: usize, count: usize },
    /// The three delimiter characters starting at `start` have been read; a
    /// newline must follow.
    Newline { start: usize },
}

proof fn lemma_first_delimiter_skip(s: Seq<char>, i: int)
    requires
        0 <= i < s.len(),
        !opens_delimiter(s, i),
    ensures
        first_delimiter_from(s, i) == first_delimiter_from(s, i + 1),
{
}

/// Splits `input` into its metadata block and the position, in characters,
/// of the first character of its body.
pub fn split(input: &str) -> (r: Result<(String, usize), ParseError>)
    ensures
        split_view(r) == split_spec(input@),
{
    let ghost s = input@;
    let n = input.unicode_len();
    let mut chars = input.chars();
    let mut state = SplitState::Metadata { new_line: true };
    let mut i: usize = 0;
    loop
        invariant
            s == input@,
            n == s.len(),
            i <= n,
            chars.remaining() == s.skip(i as int),
            match state {
                SplitState::Metadata { new_line } => {
                    &&& first_delimiter_from(s, 0) == first_delimiter_from(s, i as int)
                    &&& new_line == at_line_start(s, i as int)
                },
                SplitState::Marker { start, count } => {
                    &&& first_delimiter_from(s, 0) == Some(start as int)
                    &&& 1 <= count < 3
                    &&& start + count == i
                    &&& forall|k: int| start < k < i ==> s[k] == DELIMITER
                },
                SplitState::Newline { start } => {
                    &&& first_delimiter_from(s, 0) == Some(start as int)
                    &&& start + 3 == i
                    &&& s[start + 1] == DELIMITER
                    &&& s[start + 2] == DELIMITER
                },
            },
        decreases n - i,
    {
        let c = match chars.next() {
            Some(c) => c,
            None => {
                proof {
                    assert(i == n);
                }
                return Err(ParseError::UnexpectedEndOfInput);
            },
        };
        assert(c == s[i as int]);
        match state {
            SplitState::Metadata { new_line } => {
                if c == DELIMITER && new_line {
                    state = SplitState::Marker { start: i, count: 1 };
                } else {
                    proof {
                        lemma_first_delimiter_skip(s, i as int);
                    }
                    state = SplitState::Metadata { new_line: c == '\n' };
                }
            },
            SplitState::Marker { start, count } => {
                if c != DELIMITER {
                    return Err(ParseError::MalformedDelimiterLine);
                }
                if count + 1 == 3 {
                    state = SplitState::Newline { start };
                } else {
                    state = SplitState::Marker { start, count: count + 1 };
                }
            },
            SplitState::Newline { start } => {
                if c != '\n' {
                    return Err(ParseError::MalformedDelimiterLine);
                }
                let meta = input.substring_char(0, start);
                return Ok((meta.to_owned(), i + 1));
            },
        }
        i = i + 1;
    }
}

} // verus!

verus! {

/// The metadata of a document. Two records are equal when their slugs and
/// titles are; the date takes no part in equality.
#[derive(Debug, Clone)]
pub struct FrontMatter {
    pub title: String,
    pub slug: String,
    pub date: String,
}

impl PartialEq for FrontMatter {
    fn eq(&self, other: &FrontMatter) -> (r: bool) {
        self.slug == other.slug && self.title == other.title
    }
}

impl vstd::std_specs::cmp::PartialEqSpecImpl for FrontMatter {
    open spec fn obeys_eq_spec() -> bool {
        true
    }

    open spec fn eq_spec(&self, other: &FrontMatter) -> bool {
        self.slug@ == other.slug@ && self.title@ == other.title@
    }
}

impl Eq for FrontMatter {}

} // verus!

verus! {

/// Whether `r` is what parsing the front matter of the document at `path`,
/// whose text is `s`, gives: the decoded record and the position of the body;
/// or the error met first, a decoding error naming the document.
pub open spec fn parse_outcome(
    path: Seq<char>,
    s: Seq<char>,
    r: Result<(FrontMatter, usize), ParseError>,
) -> bool {
    match split_spec(s) {
        Err(e) => r == Err::<(FrontMatter, usize), ParseError>(e),
        Ok((meta, offset)) => match decode_spec(meta) {
            None => r is Err && r->Err_0 is Decode && r->Err_0->Decode_0@ == path,
            Some(fields) => r is Ok && fields_of(r->Ok_0.0) == fields && r->Ok_0.1 == offset,
        },
    }
}

impl FrontMatter {
    /// Parses the front matter of the document at `path`, whose text is
    /// `input`: the decoded metadata and the position, in characters, where
    /// the body starts.
    pub fn parse(path: &str, input: &str) -> (r: Result<(FrontMatter, usize), ParseError>)
        ensures
            parse_outcome(path@, input@, r),
    {
        let (meta, offset) = match split(input) {
            Ok(parts) => parts,
            Err(e) => {
                return Err(e);
            },
        };
        match decode_front_matter(meta.as_str()) {
            Some(fm) => Ok((fm, offset)),
            None => Err(ParseError::Decode(path.to_owned())),
        }
    }
}

} // verus!
