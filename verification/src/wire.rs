//! The text of a request on the wire: what it is, and the functions that
//! render it.

use vstd::prelude::*;
use vstd::string::*;
use crate::address::{ParsedUrl, UrlParts};
use crate::fields::{has_key, Entries, StringMap};
use crate::method::HttpMethod;
use crate::text::{join, lemma_join_push, lemma_terminated_push, terminated};

verus! {

/// The entries of an optional mapping.
pub open spec fn opt_entries(fields: Option<StringMap>) -> Option<Entries> {
    match fields {
        Some(fields) => Some(fields@),
        None => None,
    }
}

/// One pair of a query string: `key=value`, nothing escaped.
pub open spec fn query_pair(entry: (Seq<char>, Seq<char>)) -> Seq<char> {
    entry.0 + "="@ + entry.1
}

/// The pieces of the query string: the URL's own query first, where it has
/// one, then one piece for each entry of the mapping.
pub open spec fn query_segments(own: Option<Seq<char>>, query: Option<Entries>) -> Seq<Seq<char>> {
    let first = match own {
        Some(q) => seq![q],
        None => Seq::empty(),
    };
    let rest = match query {
        Some(entries) => Seq::new(entries.len(), |i: int| query_pair(entries[i])),
        None => Seq::empty(),
    };
    first + rest
}

/// What stands between the method and the protocol version: the path and,
/// where the URL has a query or a mapping was given, `?` and the pieces of
/// the query string with `&` between them.
pub open spec fn request_target(url: UrlParts, query: Option<Entries>) -> Seq<char> {
    if url.query is Some || query is Some {
        url.path + "?"@ + join(query_segments(url.query, query), "&"@)
    } else {
        url.path
    }
}

/// One header as it stands on a line, without the line's end.
pub open spec fn header_line(entry: (Seq<char>, Seq<char>)) -> Seq<char> {
    entry.0 + ": "@ + entry.1
}

/// The lines of the headers that the caller gave, in the mapping's order.
pub open spec fn supplied_lines(headers: Option<Entries>) -> Seq<Seq<char>> {
    match headers {
        Some(entries) => Seq::new(entries.len(), |i: int| header_line(entries[i])),
        None => Seq::empty(),
    }
}

/// Whether the caller gave a header whose key is exactly `Connection`.
pub open spec fn names_connection(headers: Option<Entries>) -> bool {
    headers matches Some(entries) && has_key(entries, "Connection"@)
}

/// The line that is added where the caller names no `Connection` header.
/// The value is the literal `keep-closed`; a caller who wants a standard
/// token names the header.
pub open spec fn connection_line() -> Seq<char> {
    "Connection: keep-closed"@
}

/// All header lines below the `Host` line: the caller's, then the added
/// `Connection` line unless the caller named that header.
pub open spec fn header_lines(headers: Option<Entries>) -> Seq<Seq<char>> {
    if names_connection(headers) {
        supplied_lines(headers)
    } else {
        supplied_lines(headers).push(connection_line())
    }
}

/// A header line that reads `Connection: keep-closed` has the key
/// `Connection`: no other header renders to the added line.
pub proof fn lemma_connection_line_key(entry: (Seq<char>, Seq<char>))
    requires
        header_line(entry) == connection_line(),
    ensures
        entry.0 == "Connection"@,
        entry.1 == "keep-closed"@,
{
    reveal_strlit("Connection: keep-closed");
    reveal_strlit("Connection");
    reveal_strlit(": ");
    reveal_strlit("keep-closed");
    let line = connection_line();
    let colon = entry.0.len() as int;
    assert(header_line(entry).len() == colon + 2 + entry.1.len());
    assert(header_line(entry)[colon] == ':');
    assert(colon == 10) by {
        assert(line[colon] == ':');
    }
    assert(entry.0 =~= line.subrange(0, 10));
    assert("Connection"@ =~= line.subrange(0, 10));
    assert(entry.1 =~= header_line(entry).subrange(12, 23));
    assert("keep-closed"@ =~= line.subrange(12, 23));
}

/// Where the caller names a `Connection` header, the header lines are the
/// caller's and nothing is added. Where the caller names none (no mapping,
/// an empty one, or one without that key), exactly one line is added, it
/// stands last, and it is the only line that reads `Connection: keep-closed`.
pub proof fn lemma_connection_line_added_once(headers: Option<Entries>)
    ensures
        names_connection(headers) ==> header_lines(headers) == supplied_lines(headers),
        !names_connection(headers) ==> header_lines(headers).len() == supplied_lines(
            headers,
        ).len() + 1,
        !names_connection(headers) ==> forall|i: int|
            0 <= i < header_lines(headers).len() ==> (#[trigger] header_lines(headers)[i]
                == connection_line() <==> i == header_lines(headers).len() - 1),
{
    if !names_connection(headers) {
        let lines = header_lines(headers);
        let supplied = supplied_lines(headers);
        assert forall|i: int| 0 <= i < lines.len() implies (#[trigger] lines[i] == connection_line()
            <==> i == lines.len() - 1) by {
            if i < supplied.len() {
                let entries = headers.unwrap();
                assert(lines[i] == header_line(entries[i]));
                if lines[i] == connection_line() {
                    lemma_connection_line_key(entries[i]);
                    assert(has_key(entries, "Connection"@));
                }
            }
        }
    }
}

/// The request as it goes on the wire: request line, `Host` line, header
/// lines, and the empty line that ends the header block. No body follows.
pub open spec fn wire_text(
    method: HttpMethod,
    url: UrlParts,
    host: Seq<char>,
    query: Option<Entries>,
    headers: Option<Entries>,
) -> Seq<char> {
    method.token() + " "@ + request_target(url, query) + " HTTP/1.1\r\n"@ + "Host: "@ + host
        + "\r\n"@ + terminated(header_lines(headers), "\r\n"@) + "\r\n"@
}

/// Renders the path and query of the request line.
pub fn render_target(url: &ParsedUrl, query: &Option<StringMap>) -> (target: String)
    ensures
        target@ == request_target(url@, opt_entries(*query)),
{
    let ghost segments = query_segments(url@.query, opt_entries(*query));
    let mut target = url.path.clone();
    if url.query.is_none() && query.is_none() {
        return target;
    }
    target.append("?");
    let mut started = false;
    match &url.query {
        Some(own) => {
            target.append(own.as_str());
            started = true;
            assert(segments.take(1) == seq![own@]);
        },
        None => {},
    }
    let ghost offset: int = if started { 1 } else { 0 };
    assert(segments.take(0) == Seq::<Seq<char>>::empty());
    assert(target@ == url@.path + "?"@ + join(segments.take(offset), "&"@));
    match query {
        Some(fields) => {
            let n = fields.len();
            let mut i: usize = 0;
            while i < n
                invariant
                    n == fields@.len(),
                    i <= n,
                    offset == 0 || offset == 1,
                    segments.len() == offset + n,
                    started == (offset + i > 0),
                    forall|j: int| 0 <= j < n ==> segments[offset + j] == query_pair(fields@[j]),
                    target@ == url@.path + "?"@ + join(segments.take(offset + i), "&"@),
                decreases n - i,
            {
                let (key, value) = fields.entry(i);
                let ghost before = target@;
                if started {
                    target.append("&");
                }
                target.append(key.as_str());
                target.append("=");
                target.append(value.as_str());
                proof {
                    let done = segments.take(offset + i);
                    let piece = query_pair(fields@[i as int]);
                    assert(segments.take(offset + i + 1) == done.push(piece));
                    lemma_join_push(done, "&"@, piece);
                    if started {
                        assert(target@ == before + "&"@ + key@ + "="@ + value@);
                        assert(target@ == url@.path + "?"@ + (join(done, "&"@) + "&"@ + piece));
                    } else {
                        assert(done.len() == 0);
                        assert(join(done, "&"@) == Seq::<char>::empty());
                        assert(target@ == before + key@ + "="@ + value@);
                        assert(target@ == url@.path + "?"@ + piece);
                    }
                }
                started = true;
                i += 1;
            }
            assert(segments.take(offset + n) == segments);
        },
        None => {
            assert(segments.take(offset) == segments);
        },
    }
    target
}

/// Renders the header lines below the `Host` line, each with its line end.
pub fn render_headers(headers: &Option<StringMap>) -> (block: String)
    ensures
        block@ == terminated(header_lines(opt_entries(*headers)), "\r\n"@),
{
    let ghost supplied = supplied_lines(opt_entries(*headers));
    let mut block = String::new();
    let mut found = false;
    assert(supplied.take(0) == Seq::<Seq<char>>::empty());
    match headers {
        Some(fields) => {
            found = fields.contains_key("Connection");
            let n = fields.len();
            let mut i: usize = 0;
            while i < n
                invariant
                    n == fields@.len(),
                    i <= n,
                    supplied.len() == n,
                    forall|j: int| 0 <= j < n ==> supplied[j] == header_line(fields@[j]),
                    block@ == terminated(supplied.take(i as int), "\r\n"@),
                decreases n - i,
            {
                let (key, value) = fields.entry(i);
                let ghost before = block@;
                block.append(key.as_str());
                block.append(": ");
                block.append(value.as_str());
                block.append("\r\n");
                proof {
                    let done = supplied.take(i as int);
                    let line = header_line(fields@[i as int]);
                    assert(supplied.take(i + 1) == done.push(line));
                    lemma_terminated_push(done, "\r\n"@, line);
                    assert(block@ == before + key@ + ": "@ + value@ + "\r\n"@);
                    assert(block@ == before + line + "\r\n"@);
                }
                i += 1;
            }
            assert(supplied.take(n as int) == supplied);
        },
        None => {},
    }
    assert(block@ == terminated(supplied, "\r\n"@));
    if !found {
        block.append("Connection: keep-closed");
        block.append("\r\n");
        proof {
            lemma_terminated_push(supplied, "\r\n"@, connection_line());
        }
    }
    block
}

} // verus!
