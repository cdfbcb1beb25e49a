//! What holds of splitting for every document.
use vstd::prelude::*;
use crate::frontmatter::{
    at_line_start, first_delimiter_from, opens_delimiter, split_spec, split_view, ParseError,
    DELIMITER,
};

verus! {

/// The delimiter line `===` followed by a newline.
pub open spec fn delimiter_line() -> Seq<char> {
    seq!['=', '=', '=', '\n']
}

/// Whether no line of `meta` starts with the delimiter character.
pub open spec fn no_delimiter_at_line_start(meta: Seq<char>) -> bool {
    forall|i: int| 0 <= i < meta.len() && at_line_start(meta, i) ==> meta[i] != DELIMITER
}

/// Where no position from `i` on opens a delimiter line, none is found.
proof fn lemma_none_from(s: Seq<char>, i: int)
    requires
        0 <= i,
        forall|j: int| i <= j < s.len() ==> !opens_delimiter(s, j),
    ensures
        first_delimiter_from(s, i) is None,
    decreases s.len() - i,
{
    if i < s.len() {
        lemma_none_from(s, i + 1);
    }
}

/// In `meta + ['\n'] + rest` with `rest` starting with the delimiter
/// character, the first delimiter line starts right after `meta`'s newline.
proof fn lemma_first_after_meta(meta: Seq<char>, rest: Seq<char>, i: int)
    requires
        no_delimiter_at_line_start(meta),
        rest.len() > 0,
        rest[0] == DELIMITER,
        0 <= i <= meta.len() + 1,
    ensures
        first_delimiter_from(meta.push('\n') + rest, i) == Some(meta.len() + 1 as int),
    decreases meta.len() + 1 - i,
{
    let s = meta.push('\n') + rest;
    if i < meta.len() + 1 {
        if i < meta.len() {
            assert(s[i] == meta[i]);
            if i > 0 {
                assert(s[i - 1] == meta[i - 1]);
            }
            assert(!opens_delimiter(s, i));
        } else {
            assert(s[i] == '\n');
        }
        lemma_first_after_meta(meta, rest, i + 1);
    } else {
        assert(s[i] == rest[0]);
        assert(s[i - 1] == '\n');
    }
}

/// A document `meta`, a newline, the delimiter line and a body, where no line
/// of `meta` starts with the delimiter character, splits into `meta` with its
/// newline, and the body starts right after the delimiter line.
pub proof fn lemma_split_well_formed(meta: Seq<char>, body: Seq<char>)
    requires
        no_delimiter_at_line_start(meta),
    ensures
        split_spec(meta.push('\n') + delimiter_line() + body) == Ok::<(Seq<char>, int), ParseError>(
            (meta.push('\n'), meta.len() + 5 as int),
        ),
        (meta.push('\n') + delimiter_line() + body).skip(meta.len() + 5 as int) == body,
{
    let rest = delimiter_line() + body;
    let s = meta.push('\n') + rest;
    assert(meta.push('\n') + delimiter_line() + body =~= s);
    lemma_first_after_meta(meta, rest, 0);
    let p = meta.len() + 1 as int;
    assert(s[p + 1] == '=' && s[p + 2] == '=' && s[p + 3] == '\n');
    assert(s.take(p) =~= meta.push('\n'));
    assert(s.skip(meta.len() + 5 as int) =~= body);
}

/// A document in which no line starts with the delimiter character, or which
/// ends inside its first delimiter line before that line is complete, fails
/// to split with `UnexpectedEndOfInput`.
pub proof fn lemma_split_eof(s: Seq<char>)
    requires
        (forall|i: int| 0 <= i < s.len() ==> !opens_delimiter(s, i)) || (exists|p: int|
            first_delimiter_from(s, 0) == Some(p) && s.len() <= p + 3 && forall|k: int|
                p < k < s.len() ==> s[k] == DELIMITER),
    ensures
        split_spec(s) == Err::<(Seq<char>, int), ParseError>(ParseError::UnexpectedEndOfInput),
{
    if forall|i: int| 0 <= i < s.len() ==> !opens_delimiter(s, i) {
        lemma_none_from(s, 0);
    } else {
        let p = choose|p: int|
            first_delimiter_from(s, 0) == Some(p) && s.len() <= p + 3 && forall|k: int|
                p < k < s.len() ==> s[k] == DELIMITER;
        if p + 1 < s.len() {
            assert(s[p + 1] == DELIMITER);
        }
        if p + 2 < s.len() {
            assert(s[p + 2] == DELIMITER);
        }
    }
}

/// A document whose first delimiter line holds three delimiter characters
/// followed by something other than a newline fails to split with
/// `MalformedDelimiterLine`.
pub proof fn lemma_split_malformed(s: Seq<char>, p: int)
    requires
        first_delimiter_from(s, 0) == Some(p),
        p + 3 < s.len(),
        s[p + 1] == DELIMITER,
        s[p + 2] == DELIMITER,
        s[p + 3] != '\n',
    ensures
        split_spec(s) == Err::<(Seq<char>, int), ParseError>(ParseError::MalformedDelimiterLine),
{
}

/// Splitting depends on the text alone: two results of [`split`] on the same
/// text are the same.
pub proof fn lemma_split_deterministic(
    s: Seq<char>,
    r1: Result<(String, usize), ParseError>,
    r2: Result<(String, usize), ParseError>,
)
    requires
        split_view(r1) == split_spec(s),
        split_view(r2) == split_spec(s),
    ensures
        split_view(r1) == split_view(r2),
{
}

} // verus!
