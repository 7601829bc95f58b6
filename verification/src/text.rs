//! Sequences of characters: how pieces are joined, and the executable helpers
//! that build them.

use vstd::prelude::*;
use vstd::string::*;
use vstd::std_specs::iter::IteratorSpec;

verus! {

/// The pieces of `parts`, in order, with `sep` between neighbours. Nothing
/// stands before the first piece or after the last.
pub open spec fn join(parts: Seq<Seq<char>>, sep: Seq<char>) -> Seq<char>
    decreases parts.len(),
{
    if parts.len() == 0 {
        Seq::empty()
    } else if parts.len() == 1 {
        parts[0]
    } else {
        join(parts.drop_last(), sep) + sep + parts.last()
    }
}

/// Each line of `lines`, in order, followed by `end`.
pub open spec fn terminated(lines: Seq<Seq<char>>, end: Seq<char>) -> Seq<char>
    decreases lines.len(),
{
    if lines.len() == 0 {
        Seq::empty()
    } else {
        terminated(lines.drop_last(), end) + lines.last() + end
    }
}

/// Joining one more piece onto a non-empty list adds the separator and the piece.
pub proof fn lemma_join_push(parts: Seq<Seq<char>>, sep: Seq<char>, piece: Seq<char>)
    ensures
        join(parts.push(piece), sep) == if parts.len() == 0 {
            piece
        } else {
            join(parts, sep) + sep + piece
        },
{
    let longer = parts.push(piece);
    assert(longer.drop_last() == parts);
    assert(longer.last() == piece);
}

/// One more terminated line appends the line and its end.
pub proof fn lemma_terminated_push(lines: Seq<Seq<char>>, end: Seq<char>, line: Seq<char>)
    ensures
        terminated(lines.push(line), end) == terminated(lines, end) + line + end,
{
    let longer = lines.push(line);
    assert(longer.drop_last() == lines);
    assert(longer.last() == line);
}

/// The characters of `line`, one element each.
pub fn chars_of(line: &str) -> (out: Vec<char>)
    ensures
        out@ == line@,
{
    let mut out: Vec<char> = Vec::new();
    for c in it: line.chars()
        invariant
            it.seq() == line@,
            out@ == line@.subrange(0, it.index() as int),
    {
        out.push(c);
    }
    out
}

/// Whether two strings hold the same characters.
pub fn same_text(a: &str, b: &str) -> (same: bool)
    ensures
        same == (a@ == b@),
{
    broadcast use vstd::string::group_string_axioms;

    let mut left = a.chars();
    let mut right = b.chars();
    let ghost mut at: int = 0;
    loop
        invariant
            0 <= at <= a@.len(),
            at <= b@.len(),
            left.remaining() == a@.skip(at),
            right.remaining() == b@.skip(at),
            a@.take(at) == b@.take(at),
        decreases a@.len() - at,
    {
        let x = left.next();
        let y = right.next();
        match (x, y) {
            (Some(c), Some(d)) => {
                if c != d {
                    assert(a@[at] != b@[at]);
                    return false;
                }
                proof {
                    assert(a@.take(at + 1) =~= a@.take(at).push(a@[at]));
                    assert(b@.take(at + 1) =~= b@.take(at).push(b@[at]));
                    assert(a@.skip(at).drop_first() =~= a@.skip(at + 1));
                    assert(b@.skip(at).drop_first() =~= b@.skip(at + 1));
                    at = at + 1;
                }
            },
            (None, None) => {
                assert(a@ =~= a@.take(at));
                assert(b@ =~= b@.take(at));
                return true;
            },
            _ => {
                assert(a@.len() != b@.len());
                return false;
            },
        }
    }
}

} // verus!
