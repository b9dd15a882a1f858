//! The span model: a text buffer and the ordered runs of formatting laid over it.

use crate::iterators::{span_items, TextSpanIter};
use vstd::prelude::*;

verus! {

/// A run of `span_length` characters sharing one formatting record.
#[derive(Clone, Debug, PartialEq, Eq)]
pub struct TextSpan<F> {
    pub span_length: usize,
    pub format: F,
}

impl<F> TextSpan<F> {
    pub fn new(span_length: usize, format: F) -> (r: Self)
        ensures
            r.span_length == span_length,
            r.format == format,
    {
        TextSpan { span_length, format }
    }

    /// The number of characters this run covers.
    pub fn span_length(&self) -> (r: usize)
        ensures
            r == self.span_length,
    {
        self.span_length
    }

    /// The formatting record carried by this run.
    pub fn format(&self) -> (r: &F)
        ensures
            *r == self.format,
    {
        &self.format
    }
}

/// Lengths of a list of runs, in order.
pub open spec fn span_lengths<F>(spans: Seq<TextSpan<F>>) -> Seq<nat> {
    spans.map_values(|s: TextSpan<F>| s.span_length as nat)
}

/// Sum of the first `n` lengths.
pub open spec fn sum_lengths(lens: Seq<nat>, n: nat) -> nat
    decreases n,
{
    if n == 0 || n > lens.len() {
        0
    } else {
        sum_lengths(lens, (n - 1) as nat) + lens[n - 1]
    }
}

/// A text buffer together with the runs of formatting that are meant to
/// partition it, left to right.
pub struct FormatSpans<F> {
    pub text: String,
    pub spans: Vec<TextSpan<F>>,
}

impl<F> FormatSpans<F> {
    /// The lengths of the runs, in order.
    pub open spec fn lengths(&self) -> Seq<nat> {
        span_lengths(self.spans@)
    }

    /// The runs cover the text exactly once, with no gap and no overlap.
    pub open spec fn is_partition(&self) -> bool {
        sum_lengths(self.lengths(), self.spans@.len()) == self.text@.len()
    }

    pub fn new(text: String, spans: Vec<TextSpan<F>>) -> (r: Self)
        ensures
            r.text@ == text@,
            r.spans@ == spans@,
    {
        FormatSpans { text, spans }
    }

    /// The full text.
    pub fn text(&self) -> (r: &str)
        ensures
            r@ == self.text@,
    {
        self.text.as_str()
    }

    /// The run at position `index`, or `None` past the end of the list.
    pub fn span(&self, index: usize) -> (r: Option<&TextSpan<F>>)
        ensures
            r is Some <==> index < self.spans@.len(),
            r matches Some(s) ==> *s == self.spans@[index as int],
            self.spans@.len() <= usize::MAX,
    {
        if index < self.spans.len() {
            Some(&self.spans[index])
        } else {
            None
        }
    }

    /// A fresh traversal over the runs, from the first.
    pub fn iter_spans(&self) -> (r: TextSpanIter<'_, F>)
        ensures
            r.wf(),
            r.base() == *self,
            r.position() == 0,
            r.remaining() == span_items(*self),
    {
        TextSpanIter::for_format_spans(self)
    }
}

} // verus!
