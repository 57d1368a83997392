//! Streaming search: the lines of a byte stream are read one at a time,
//! decoded, tested, and the matching ones collected with their numbers.

use vstd::prelude::*;
use vstd::utf8::{decode_utf8, valid_utf8};
use crate::error::SearchError;
use crate::matcher::Matcher;
use crate::text::decode;

verus! {

#[verifier::external_type_specification]
#[verifier::external_body]
#[verifier::reject_recursive_types(R)]
pub struct ExBufReader<R: ?Sized>(std::io::BufReader<R>);

pub assume_specification<R: std::io::Read>[ std::io::BufReader::<R>::new ](inner: R) -> std::io::BufReader<R>;

/// The byte that ends a line.
pub const NEWLINE: u8 = 10;

/// The byte that may stand before `NEWLINE` as part of the terminator.
pub const CARRIAGE_RETURN: u8 = 13;

/// One line of the input that matched, with its 1-based number and its text
/// without the line terminator.
#[derive(Debug, Clone, PartialEq, Eq)]
pub struct SearchMatch {
    pub line_number: usize,
    pub content: String,
}

impl View for SearchMatch {
    type V = (nat, Seq<char>);

    open spec fn view(&self) -> (nat, Seq<char>) {
        (self.line_number as nat, self.content@)
    }
}

/// The records that a sequence of matches stands for.
pub open spec fn records(found: Seq<SearchMatch>) -> Seq<(nat, Seq<char>)> {
    found.map_values(|s: SearchMatch| s@)
}

/// A line as a buffered reader hands it out: at least one byte, and no
/// newline but possibly the last byte.
pub open spec fn is_raw_line(raw: Seq<u8>) -> bool {
    &&& raw.len() > 0
    &&& forall|i: int| 0 <= i < raw.len() - 1 ==> raw[i] != NEWLINE
}

/// Every line in `lines` is a raw line.
pub open spec fn all_raw_lines(lines: Seq<Seq<u8>>) -> bool {
    forall|i: int| 0 <= i < lines.len() ==> is_raw_line(#[trigger] lines[i])
}

/// The bytes of a raw line without its terminator: a final `\n`, together
/// with a `\r` just before it.
pub open spec fn line_body(raw: Seq<u8>) -> Seq<u8> {
    if raw.len() > 0 && raw.last() == NEWLINE {
        let rest = raw.drop_last();
        if rest.len() > 0 && rest.last() == CARRIAGE_RETURN {
            rest.drop_last()
        } else {
            rest
        }
    } else {
        raw
    }
}

/// The outcome of searching the raw lines `lines` in order: the number and
/// text of each line that `m` accepts, or the number of the first line that
/// is not valid UTF-8.
pub open spec fn scan(m: Matcher, lines: Seq<Seq<u8>>) -> Result<Seq<(nat, Seq<char>)>, nat>
    decreases lines.len(),
{
    if lines.len() == 0 {
        Ok(seq![])
    } else {
        match scan(m, lines.drop_last()) {
            Err(n) => Err(n),
            Ok(found) => {
                let body = line_body(lines.last());
                if !valid_utf8(body) {
                    Err(lines.len())
                } else if m.spec_is_match(decode_utf8(body)) {
                    Ok(found.push((lines.len(), decode_utf8(body))))
                } else {
                    Ok(found)
                }
            },
        }
    }
}

/// Handles the raw line numbered `line_number`: strips its terminator,
/// decodes it, and appends it to `found` when `matcher` accepts it. Fails,
/// leaving `found` as it was, when the line is not valid UTF-8.
pub fn scan_line(matcher: &Matcher, line_number: usize, raw: Vec<u8>, found: &mut Vec<SearchMatch>) -> (r: Result<(), SearchError>)
    ensures
        r is Err <==> !valid_utf8(line_body(raw@)),
        r matches Err(e) ==> e matches SearchError::InvalidEncoding { line_number: n } && n == line_number,
        r is Err ==> final(found)@ == old(found)@,
        r is Ok ==> records(final(found)@) == if matcher.spec_is_match(decode_utf8(line_body(raw@))) {
            records(old(found)@).push((line_number as nat, decode_utf8(line_body(raw@))))
        } else {
            records(old(found)@)
        },
{
    let mut body = raw;
    let len = body.len();
    if len > 0 && body[len - 1] == NEWLINE {
        body.pop();
        let len = body.len();
        if len > 0 && body[len - 1] == CARRIAGE_RETURN {
            body.pop();
        }
    }
    assert(body@ =~= line_body(raw@));
    match decode(body) {
        None => Err(SearchError::InvalidEncoding { line_number }),
        Some(content) => {
            if matcher.is_match(content.as_str()) {
                found.push(SearchMatch { line_number, content });
                assert(records(found@) =~= records(old(found)@).push(
                    (line_number as nat, decode_utf8(line_body(raw@))),
                ));
            }
            Ok(())
        },
    }
}

/// Searches `reader` line by line, reading through a buffer rather than all
/// at once, and returns the lines that `matcher` accepts, numbered from 1, in
/// the order they appear.
///
/// The result is the search of the lines the stream handed out: on success
/// those lines all decoded and `found` holds the accepted ones; an encoding
/// failure names the first line that did not decode. Reading failures come
/// back as `IoFailure`, with whatever was found discarded.
pub fn search_lines<R: std::io::Read>(reader: R, matcher: &Matcher) -> (r: Result<Vec<SearchMatch>, SearchError>)
    ensures
        r matches Ok(found) ==> exists|lines: Seq<Seq<u8>>|
            all_raw_lines(lines) && #[trigger] scan(*matcher, lines) == Ok::<_, nat>(records(found@)),
        r matches Err(SearchError::InvalidEncoding { line_number }) ==> exists|lines: Seq<Seq<u8>>|
            all_raw_lines(lines) && #[trigger] scan(*matcher, lines) == Err::<Seq<(nat, Seq<char>)>, _>(line_number as nat),
        !(r matches Err(SearchError::InvalidPattern(_))),
{
    let mut input = std::io::BufReader::new(reader);
    let mut found: Vec<SearchMatch> = Vec::new();
    let mut count: usize = 0;
    let ghost mut lines: Seq<Seq<u8>> = seq![];
    assert(records(found@) =~= seq![]);
    loop
        invariant
            lines.len() == count,
            all_raw_lines(lines),
            scan(*matcher, lines) == Ok::<_, nat>(records(found@)),
        decreases usize::MAX - count,
    {
        let raw = match read_raw_line(&mut input) {
            Ok(raw) => raw,
            Err(e) => return Err(SearchError::IoFailure(e)),
        };
        if raw.len() == 0 {
            return Ok(found);
        }
        if count == usize::MAX {
            return Err(SearchError::IoFailure(other_io_error("too many lines to number")));
        }
        count = count + 1;
        let ghost before = lines;
        proof {
            lines = lines.push(raw@);
            assert(lines.drop_last() == before);
        }
        match scan_line(matcher, count, raw, &mut found) {
            Ok(()) => {},
            Err(e) => return Err(e),
        }
    }
}

/// Relies on `BufRead::read_until` with a newline delimiter: the bytes read
/// run up to and including the next newline, or up to the end of the stream;
/// none at all at the end of the stream.
#[verifier::external_body]
fn read_raw_line<R: std::io::Read>(input: &mut std::io::BufReader<R>) -> (r: Result<Vec<u8>, std::io::Error>)
    ensures
        r matches Ok(raw) ==> raw@.len() == 0 || is_raw_line(raw@),
{
    let mut raw = Vec::new();
    match std::io::BufRead::read_until(input, NEWLINE, &mut raw) {
        Ok(_) => Ok(raw),
        Err(e) => Err(e),
    }
}

/// Relies on `std::io::Error::other`: an error of kind `Other` with this message.
#[verifier::external_body]
fn other_io_error(message: &str) -> (r: std::io::Error) {
    std::io::Error::other(message)
}

/// Searching no lines finds nothing and does not fail.
pub proof fn lemma_empty_input(m: Matcher)
    ensures
        scan(m, seq![]) == Ok::<_, nat>(Seq::<(nat, Seq<char>)>::empty()),
{
}

/// In a successful search every line decoded; the line numbers start at 1,
/// strictly increase, and each names the line whose text it carries, which
/// the matcher accepts; and every line the matcher accepts is there.
pub proof fn lemma_line_numbering(m: Matcher, lines: Seq<Seq<u8>>, found: Seq<(nat, Seq<char>)>)
    requires
        scan(m, lines) == Ok::<_, nat>(found),
    ensures
        forall|k: int| 0 <= k < lines.len() ==> valid_utf8(line_body(#[trigger] lines[k])),
        forall|i: int| 0 <= i < found.len() ==> 1 <= #[trigger] found[i].0 <= lines.len(),
        forall|i: int, j: int| 0 <= i < j < found.len() ==> found[i].0 < found[j].0,
        forall|i: int|
            0 <= i < found.len() ==> #[trigger] found[i].1 == decode_utf8(
                line_body(lines[found[i].0 - 1]),
            ) && m.spec_is_match(found[i].1),
        forall|k: int|
            0 <= k < lines.len() && m.spec_is_match(decode_utf8(line_body(#[trigger] lines[k])))
                ==> exists|i: int| 0 <= i < found.len() && found[i].0 == k + 1,
    decreases lines.len(),
{
    if lines.len() > 0 {
        let prefix = lines.drop_last();
        let before = scan(m, prefix)->Ok_0;
        lemma_line_numbering(m, prefix, before);
        assert forall|k: int| 0 <= k < prefix.len() implies #[trigger] lines[k] == prefix[k] by {}
        let n = lines.len() - 1;
        if m.spec_is_match(decode_utf8(line_body(lines[n]))) {
            assert(found == before.push((lines.len(), decode_utf8(line_body(lines[n])))));
            assert(found[found.len() - 1].0 == n + 1);
        }
        assert forall|k: int|
            0 <= k < lines.len() && m.spec_is_match(
                decode_utf8(line_body(#[trigger] lines[k])),
            ) implies exists|i: int| 0 <= i < found.len() && found[i].0 == k + 1 by {
            if k < n {
                let i = choose|i: int| 0 <= i < before.len() && before[i].0 == k + 1;
                assert(found[i] == before[i]);
            } else {
                assert(found[found.len() - 1].0 == k + 1);
            }
        }
    }
}

/// Searching the same lines with the same matcher, or with any matcher that
/// answers alike on every line, gives the same result, in the same order.
pub proof fn lemma_search_repeatable(m: Matcher, other: Matcher, lines: Seq<Seq<u8>>)
    requires
        forall|line: Seq<char>| m.spec_is_match(line) == other.spec_is_match(line),
    ensures
        scan(m, lines) == scan(other, lines),
    decreases lines.len(),
{
    if lines.len() > 0 {
        lemma_search_repeatable(m, other, lines.drop_last());
    }
}

} // verus!
