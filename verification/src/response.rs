//! Decoding a response from the lines that a transport read.

use vstd::prelude::*;
use vstd::string::*;
use crate::error::RequestError;
use crate::fields::{keys_distinct, lemma_put, put, Entries, StringMap};
use crate::grammar::{
    header_fields, is_digit, is_status_line, lemma_status_line_shape, parse_header_line,
    parse_status_line, status_digits, status_version,
};
use crate::text::{join, lemma_join_push};

verus! {

/// Every line of the block is a header line.
pub open spec fn all_headers(block: Seq<Seq<char>>) -> bool {
    forall|i: int| 0 <= i < block.len() ==> (#[trigger] header_fields(block[i])) is Some
}

/// The headers that a block of header lines writes, line after line: a key
/// that comes again takes the later value.
pub open spec fn collect_headers(block: Seq<Seq<char>>) -> Entries
    decreases block.len(),
{
    if block.len() == 0 {
        Seq::empty()
    } else {
        match header_fields(block.last()) {
            Some((key, value)) => put(collect_headers(block.drop_last()), key, value),
            None => collect_headers(block.drop_last()),
        }
    }
}

/// The lines between the status line and the first empty line; all lines
/// after the status line where none is empty.
pub open spec fn header_block(lines: Seq<Seq<char>>) -> Seq<Seq<char>> {
    let rest = lines.skip(1);
    match rest.index_of_first(Seq::<char>::empty()) {
        Some(blank) => rest.take(blank),
        None => rest,
    }
}

/// The lines after the first empty line; none where no line is empty.
pub open spec fn body_lines(lines: Seq<Seq<char>>) -> Seq<Seq<char>> {
    let rest = lines.skip(1);
    match rest.index_of_first(Seq::<char>::empty()) {
        Some(blank) => rest.skip(blank + 1),
        None => Seq::empty(),
    }
}

/// A response as specifications see it.
pub struct ResponseView {
    /// The protocol version of the status line.
    pub version: Seq<char>,
    /// The three digits of the status line.
    pub status_code: Seq<char>,
    /// The headers, in the order in which their keys first came.
    pub headers: Entries,
    /// The body lines with a line feed between neighbours.
    pub body: Seq<char>,
}

/// What the lines of a response decode to: the status line's version and
/// code, the headers of the header block, and the body lines joined by a
/// line feed. No lines, a first line that is no status line, or a line of
/// the header block that is no header line give the error that names it.
pub open spec fn decoded(lines: Seq<Seq<char>>) -> Result<ResponseView, RequestError> {
    if lines.len() == 0 {
        Err(RequestError::EmptyResponse)
    } else if !is_status_line(lines[0]) {
        Err(RequestError::MalformedStatusLine)
    } else if !all_headers(header_block(lines)) {
        Err(RequestError::MalformedHeader)
    } else {
        Ok(
            ResponseView {
                version: status_version(lines[0]),
                status_code: status_digits(lines[0]),
                headers: collect_headers(header_block(lines)),
                body: join(body_lines(lines), "\n"@),
            },
        )
    }
}

/// The headers that a block writes have distinct keys.
pub proof fn lemma_collected_keys_distinct(block: Seq<Seq<char>>)
    ensures
        keys_distinct(collect_headers(block)),
    decreases block.len(),
{
    if block.len() > 0 {
        lemma_collected_keys_distinct(block.drop_last());
        match header_fields(block.last()) {
            Some((key, value)) => {
                lemma_put(collect_headers(block.drop_last()), key, value);
            },
            None => {},
        }
    }
}

/// Every decoded response has a status code of three digits and no header
/// key twice.
pub proof fn lemma_decoded_shape(lines: Seq<Seq<char>>)
    requires
        decoded(lines) is Ok,
    ensures
        decoded(lines).unwrap().version.len() == 8,
        decoded(lines).unwrap().status_code.len() == 3,
        forall|i: int| 0 <= i < 3 ==> is_digit(#[trigger] decoded(lines).unwrap().status_code[i]),
        keys_distinct(decoded(lines).unwrap().headers),
{
    lemma_status_line_shape(lines[0]);
    lemma_collected_keys_distinct(header_block(lines));
}

/// The characters of each line.
pub open spec fn line_texts(lines: Seq<String>) -> Seq<Seq<char>> {
    Seq::new(lines.len(), |i: int| lines[i]@)
}

/// What the parser expects of the next line.
#[derive(Clone, Copy, Debug, PartialEq, Eq, Structural)]
pub enum ResponseLine {
    /// The status line.
    FirstLine,
    /// A header line, or the empty line that ends the header block.
    Headers,
    /// A line of the body.
    Body,
}

/// A decoded response.
#[derive(Debug)]
pub struct Response {
    /// The protocol version of the status line, such as `HTTP/1.1`.
    pub version: String,
    /// The three digits of the status line.
    pub status_code: String,
    /// The headers as they were received; of two with one key the later.
    pub headers: StringMap,
    /// The body lines with a line feed between neighbours.
    pub body: String,
}

impl View for Response {
    type V = ResponseView;

    open spec fn view(&self) -> ResponseView {
        ResponseView {
            version: self.version@,
            status_code: self.status_code@,
            headers: self.headers@,
            body: self.body@,
        }
    }
}

/// Where the header block ends, the block and the body are the lines on
/// either side of that place.
proof fn lemma_split_at_blank(lines: Seq<Seq<char>>, blank: int)
    requires
        1 <= blank <= lines.len(),
        forall|j: int| 1 <= j < blank ==> (#[trigger] lines[j]).len() > 0,
        blank < lines.len() ==> lines[blank].len() == 0,
    ensures
        header_block(lines) == lines.subrange(1, blank),
        body_lines(lines) == if blank < lines.len() {
            lines.subrange(blank + 1, lines.len() as int)
        } else {
            Seq::empty()
        },
{
    let rest = lines.skip(1);
    let empty = Seq::<char>::empty();
    rest.index_of_first_ensures(empty);
    assert forall|j: int| 0 <= j < blank - 1 implies rest[j] != empty by {
        assert(rest[j] == lines[j + 1]);
    }
    if blank < lines.len() {
        assert(rest[blank - 1] =~= empty);
        assert(rest.contains(empty));
        let first = rest.index_of_first(empty).unwrap();
        assert(first == blank - 1);
        assert(rest.take(first) =~= lines.subrange(1, blank));
        assert(rest.skip(first + 1) =~= lines.subrange(blank + 1, lines.len() as int));
    } else {
        assert(!rest.contains(empty));
        assert(rest =~= lines.subrange(1, blank));
    }
}

/// A line that no empty line precedes belongs to the header block.
proof fn lemma_in_header_block(lines: Seq<Seq<char>>, at: int)
    requires
        1 <= at < lines.len(),
        forall|j: int| 1 <= j <= at ==> (#[trigger] lines[j]).len() > 0,
    ensures
        at - 1 < header_block(lines).len(),
        header_block(lines)[at - 1] == lines[at],
{
    let rest = lines.skip(1);
    let empty = Seq::<char>::empty();
    rest.index_of_first_ensures(empty);
    match rest.index_of_first(empty) {
        Some(first) => {
            if first <= at - 1 {
                assert(rest[first] == lines[first + 1]);
            }
        },
        None => {},
    }
}

/// Decodes a response from all the lines that the transport read, line
/// ends taken off. The first line must be a status line. Header lines
/// follow up to the first empty line, and the rest is the body.
pub fn parse_response(lines: &Vec<String>) -> (outcome: Result<Response, RequestError>)
    ensures
        match decoded(line_texts(lines@)) {
            Ok(response) => outcome matches Ok(got) && got@ == response,
            Err(error) => outcome matches Err(got) && got == error,
        },
{
    let ghost texts = line_texts(lines@);
    let n = lines.len();
    let mut parsing = ResponseLine::FirstLine;
    let mut version = String::new();
    let mut status_code = String::new();
    let mut headers = StringMap::new();
    let mut body = String::new();
    let mut in_body = false;
    let ghost mut blank: int = 0;
    let mut i: usize = 0;
    while i < n
        invariant
            i <= n,
            n == lines@.len(),
            texts == line_texts(lines@),
            headers.wf(),
            parsing == ResponseLine::FirstLine <==> i == 0,
            i == 0 ==> headers@.len() == 0 && body@.len() == 0 && !in_body,
            i > 0 ==> is_status_line(texts[0]) && version@ == status_version(texts[0])
                && status_code@ == status_digits(texts[0]),
            parsing == ResponseLine::Headers ==> {
                &&& forall|j: int| 1 <= j < i ==> (#[trigger] texts[j]).len() > 0
                &&& all_headers(texts.subrange(1, i as int))
                &&& headers@ == collect_headers(texts.subrange(1, i as int))
                &&& body@.len() == 0
                &&& !in_body
            },
            parsing == ResponseLine::Body ==> {
                &&& 1 <= blank < i
                &&& texts[blank].len() == 0
                &&& forall|j: int| 1 <= j < blank ==> (#[trigger] texts[j]).len() > 0
                &&& all_headers(texts.subrange(1, blank))
                &&& headers@ == collect_headers(texts.subrange(1, blank))
                &&& body@ == join(texts.subrange(blank + 1, i as int), "\n"@)
                &&& in_body == (blank + 1 < i)
            },
        decreases n - i,
    {
        let line = lines[i].as_str();
        assert(line@ == texts[i as int]);
        match parsing {
            ResponseLine::FirstLine => {
                match parse_status_line(line) {
                    Ok(status) => {
                        version = status.version;
                        status_code = status.status_code;
                    },
                    Err(error) => {
                        return Err(error);
                    },
                }
                parsing = ResponseLine::Headers;
                assert(texts.subrange(1, 1) == Seq::<Seq<char>>::empty());
                assert(headers@ =~= Entries::empty());
            },
            ResponseLine::Headers => {
                if line.is_empty() {
                    parsing = ResponseLine::Body;
                    proof {
                        blank = i as int;
                        assert(texts.subrange(blank + 1, i + 1) == Seq::<Seq<char>>::empty());
                    }
                } else {
                    let ghost before = texts.subrange(1, i as int);
                    let ghost after = texts.subrange(1, i + 1);
                    proof {
                        assert(after.drop_last() == before);
                        assert(after.last() == texts[i as int]);
                    }
                    match parse_header_line(line) {
                        Ok((key, value)) => {
                            proof {
                                lemma_put(headers@, key@, value@);
                                assert forall|j: int| 0 <= j < after.len() implies (
                                #[trigger] header_fields(after[j])) is Some by {
                                    if j < before.len() {
                                        assert(after[j] == before[j]);
                                    }
                                }
                            }
                            headers.insert(key, value);
                        },
                        Err(error) => {
                            proof {
                                lemma_in_header_block(texts, i as int);
                            }
                            return Err(error);
                        },
                    }
                }
            },
            ResponseLine::Body => {
                let ghost done = texts.subrange(blank + 1, i as int);
                proof {
                    assert(texts.subrange(blank + 1, i + 1) == done.push(line@));
                    lemma_join_push(done, "\n"@, line@);
                }
                if in_body {
                    body.append("\n");
                }
                body.append(line);
                in_body = true;
            },
        }
        i += 1;
    }
    if n == 0 {
        return Err(RequestError::EmptyResponse);
    }
    proof {
        if parsing == ResponseLine::Headers {
            lemma_split_at_blank(texts, n as int);
            assert(body@ =~= Seq::<char>::empty());
        } else {
            lemma_split_at_blank(texts, blank);
        }
    }
    Ok(Response { version, status_code, headers, body })
}

} // verus!
