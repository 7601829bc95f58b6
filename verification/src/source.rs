//! The lines of one response, as a transport hands them over.

use vstd::prelude::*;
use vstd::string::*;
use crate::error::RequestError;
use crate::response::{decoded, line_texts, parse_response, Response};

verus! {

/// A line source as specifications see it.
pub struct LineSourceView {
    /// All lines that the transport read, line ends taken off.
    pub lines: Seq<Seq<char>>,
    /// How many of them were handed out.
    pub taken: nat,
}

impl LineSourceView {
    /// No line was handed out yet.
    pub open spec fn fresh(self) -> bool {
        self.taken == 0
    }

    /// Every line was handed out.
    pub open spec fn exhausted(self) -> bool {
        self.taken == self.lines.len()
    }
}

/// The lines of one response, handed out in order and once each.
#[derive(Debug)]
pub struct LineSource {
    lines: Vec<String>,
    taken: usize,
}

impl View for LineSource {
    type V = LineSourceView;

    closed spec fn view(&self) -> LineSourceView {
        LineSourceView { lines: line_texts(self.lines@), taken: self.taken as nat }
    }
}

impl LineSource {
    /// No more lines are handed out than there are.
    #[verifier::type_invariant]
    pub open spec fn wf(&self) -> bool {
        self@.taken <= self@.lines.len()
    }

    /// A fresh source over the lines that the transport read.
    pub fn new(lines: Vec<String>) -> (source: LineSource)
        ensures
            source@.lines == line_texts(lines@),
            source@.fresh(),
    {
        LineSource { lines, taken: 0 }
    }

    /// Whether no line was handed out yet.
    pub fn is_fresh(&self) -> (fresh: bool)
        ensures
            fresh == self@.fresh(),
    {
        self.taken == 0
    }

    /// The next line, or nothing at the end of the source.
    pub fn read_line(&mut self) -> (line: Option<String>)
        ensures
            final(self)@.lines == old(self)@.lines,
            match line {
                Some(text) => old(self)@.taken < old(self)@.lines.len() && text@ == old(
                    self,
                )@.lines[old(self)@.taken as int] && final(self)@.taken == old(self)@.taken + 1,
                None => old(self)@.exhausted() && final(self)@.taken == old(self)@.taken,
            },
    {
        proof {
            use_type_invariant(&*self);
        }
        if self.taken < self.lines.len() {
            let text = self.lines[self.taken].clone();
            self.taken = self.taken + 1;
            Some(text)
        } else {
            None
        }
    }
}

impl Response {
    /// Decodes a response from a source that nothing was read from yet, and
    /// takes all its lines. A source that was read from gives `StaleSource`
    /// and is left as it is.
    pub fn read_from(source: &mut LineSource) -> (outcome: Result<Response, RequestError>)
        ensures
            final(source)@.lines == old(source)@.lines,
            !old(source)@.fresh() ==> final(source)@ == old(source)@ && (outcome matches Err(error)
                && error == RequestError::StaleSource),
            old(source)@.fresh() ==> final(source)@.exhausted() && match decoded(
                old(source)@.lines,
            ) {
                Ok(response) => outcome matches Ok(got) && got@ == response,
                Err(error) => outcome matches Err(got) && got == error,
            },
    {
        if !source.is_fresh() {
            return Err(RequestError::StaleSource);
        }
        let outcome = parse_response(&source.lines);
        source.taken = source.lines.len();
        outcome
    }
}

} // verus!
