//! The two kinds of line that a response begins with: the status line and
//! the header line.

use vstd::prelude::*;
use vstd::string::*;
use crate::error::RequestError;
use crate::text::chars_of;
use crate::wire::header_line;

verus! {

/// An ASCII decimal digit.
pub open spec fn is_digit(c: char) -> bool {
    '0' <= c && c <= '9'
}

/// A status line begins with `HTTP/`, a major version `1` or `2`, a dot, a
/// digit, one space and three digits. What follows the code is not looked at.
pub open spec fn is_status_line(line: Seq<char>) -> bool {
    &&& line.len() >= 12
    &&& line.subrange(0, 5) == "HTTP/"@
    &&& (line[5] == '1' || line[5] == '2')
    &&& line[6] == '.'
    &&& is_digit(line[7])
    &&& line[8] == ' '
    &&& is_digit(line[9])
    &&& is_digit(line[10])
    &&& is_digit(line[11])
}

/// The protocol version of a status line, such as `HTTP/1.1`.
pub open spec fn status_version(line: Seq<char>) -> Seq<char> {
    line.subrange(0, 8)
}

/// The three digits of a status line.
pub open spec fn status_digits(line: Seq<char>) -> Seq<char> {
    line.subrange(9, 12)
}

/// The key and the value of a header line. The line is split at its first
/// colon, which a space must follow. The key is what stands before the
/// colon, the value all that stands after the space, further colons
/// included. Neither may be empty.
pub open spec fn header_fields(line: Seq<char>) -> Option<(Seq<char>, Seq<char>)> {
    match line.index_of_first(':') {
        Some(colon) => if 0 < colon && colon + 2 < line.len() && line[colon + 1] == ' ' {
            Some((line.subrange(0, colon), line.subrange(colon + 2, line.len() as int)))
        } else {
            None
        },
        None => None,
    }
}

/// A status line gives a version of eight characters and a code of three
/// digits.
pub proof fn lemma_status_line_shape(line: Seq<char>)
    requires
        is_status_line(line),
    ensures
        status_version(line).len() == 8,
        status_version(line).subrange(0, 5) == "HTTP/"@,
        status_digits(line).len() == 3,
        forall|i: int| 0 <= i < 3 ==> is_digit(#[trigger] status_digits(line)[i]),
{
    assert(status_version(line).subrange(0, 5) =~= line.subrange(0, 5));
}

/// A header that is rendered onto a line is read back from it as it was,
/// provided that its key is not empty and holds no colon and that its value
/// is not empty.
pub proof fn lemma_header_line_read_back(entry: (Seq<char>, Seq<char>))
    requires
        entry.0.len() > 0,
        !entry.0.contains(':'),
        entry.1.len() > 0,
    ensures
        header_fields(header_line(entry)) == Some(entry),
{
    reveal_strlit(": ");
    let line = header_line(entry);
    let colon = entry.0.len() as int;
    assert(line[colon] == ':');
    assert forall|j: int| 0 <= j < colon implies line[j] != ':' by {
        assert(line[j] == entry.0[j]);
        assert(entry.0.contains(entry.0[j]));
    }
    line.index_of_first_ensures(':');
    assert(line.contains(':'));
    assert(line.index_of_first(':') == Some(colon));
    assert(line[colon + 1] == ' ');
    assert(line.subrange(0, colon) =~= entry.0);
    assert(line.subrange(colon + 2, line.len() as int) =~= entry.1);
}

/// The version and the code that a status line gives.
#[derive(Debug)]
pub struct StatusLine {
    /// The protocol version, such as `HTTP/1.1`.
    pub version: String,
    /// The three digits of the status code.
    pub status_code: String,
}

fn digit(c: char) -> (yes: bool)
    ensures
        yes == is_digit(c),
{
    '0' <= c && c <= '9'
}

/// Reads the version and the code from a status line; `MalformedStatusLine`
/// for any other line.
pub fn parse_status_line(line: &str) -> (outcome: Result<StatusLine, RequestError>)
    ensures
        match outcome {
            Ok(status) => is_status_line(line@) && status.version@ == status_version(line@)
                && status.status_code@ == status_digits(line@),
            Err(error) => !is_status_line(line@) && error == RequestError::MalformedStatusLine,
        },
{
    proof {
        reveal_strlit("HTTP/");
    }
    let chars = chars_of(line);
    if chars.len() < 12 {
        return Err(RequestError::MalformedStatusLine);
    }
    let prefix = chars[0] == 'H' && chars[1] == 'T' && chars[2] == 'T' && chars[3] == 'P'
        && chars[4] == '/';
    assert(prefix == (line@.subrange(0, 5) == "HTTP/"@)) by {
        let head = line@.subrange(0, 5);
        assert(head[0] == line@[0] && head[1] == line@[1] && head[2] == line@[2] && head[3]
            == line@[3] && head[4] == line@[4]);
        if prefix {
            assert(head =~= "HTTP/"@);
        }
    }
    let shape = prefix && (chars[5] == '1' || chars[5] == '2') && chars[6] == '.' && digit(
        chars[7],
    ) && chars[8] == ' ' && digit(chars[9]) && digit(chars[10]) && digit(chars[11]);
    if !shape {
        return Err(RequestError::MalformedStatusLine);
    }
    let version = String::from_str(line.substring_char(0, 8));
    let status_code = String::from_str(line.substring_char(9, 12));
    Ok(StatusLine { version, status_code })
}

/// Reads the key and the value from a header line; `MalformedHeader` for
/// any other line.
pub fn parse_header_line(line: &str) -> (outcome: Result<(String, String), RequestError>)
    ensures
        match outcome {
            Ok(pair) => header_fields(line@) == Some((pair.0@, pair.1@)),
            Err(error) => header_fields(line@) is None && error == RequestError::MalformedHeader,
        },
{
    proof {
        line@.index_of_first_ensures(':');
    }
    let chars = chars_of(line);
    let n = chars.len();
    let mut colon: usize = 0;
    while colon < n && chars[colon] != ':'
        invariant
            colon <= n,
            n == chars@.len(),
            forall|j: int| 0 <= j < colon ==> chars@[j] != ':',
        decreases n - colon,
    {
        colon += 1;
    }
    if colon == n {
        assert(!line@.contains(':'));
        return Err(RequestError::MalformedHeader);
    }
    assert(line@.index_of_first(':') == Some(colon as int)) by {
        assert(line@.contains(':'));
        let first = line@.index_of_first(':').unwrap();
        if first < colon {
            assert(chars@[first] != ':');
        }
    }
    if colon == 0 || n - colon <= 2 || chars[colon + 1] != ' ' {
        return Err(RequestError::MalformedHeader);
    }
    let key = String::from_str(line.substring_char(0, colon));
    let value = String::from_str(line.substring_char(colon + 2, n));
    Ok((key, value))
}

} // verus!
