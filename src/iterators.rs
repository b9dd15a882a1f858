//! Traversal of a `FormatSpans`, one item per run, clamped to the text.

use crate::string_utils;
use crate::text_format::{sum_lengths, FormatSpans, TextSpan};
use vstd::prelude::*;

verus! {

pub open spec fn min_nat(a: nat, b: nat) -> nat {
    if a <= b {
        a
    } else {
        b
    }
}

/// The traversal cursor before run `i`: each run advances it by its length,
/// never past the end of the text (`text_len`).
pub open spec fn cursor_at(lens: Seq<nat>, text_len: nat, i: nat) -> nat
    decreases i,
{
    if i == 0 || i > lens.len() {
        0
    } else {
        min_nat(cursor_at(lens, text_len, (i - 1) as nat) + lens[i - 1], text_len)
    }
}

/// Where run `i` starts once clamped to the text.
pub open spec fn run_start(lens: Seq<nat>, text_len: nat, i: nat) -> nat {
    min_nat(cursor_at(lens, text_len, i), text_len)
}

/// Where run `i` ends once clamped to the text.
pub open spec fn run_end(lens: Seq<nat>, text_len: nat, i: nat) -> nat {
    min_nat(cursor_at(lens, text_len, i) + lens[i as int], text_len)
}

/// The item that run `i` of `fs` yields: its clamped range and the text it covers.
pub open spec fn span_item<F>(fs: FormatSpans<F>, i: nat) -> (nat, nat, Seq<char>) {
    let s = run_start(fs.lengths(), fs.text@.len(), i);
    let e = run_end(fs.lengths(), fs.text@.len(), i);
    (s, e, fs.text@.subrange(s as int, e as int))
}

/// Every item a full traversal of `fs` yields, in order.
pub open spec fn span_items<F>(fs: FormatSpans<F>) -> Seq<(nat, nat, Seq<char>)> {
    Seq::new(fs.spans@.len(), |i: int| span_item(fs, i as nat))
}

/// An item as it is handed out, seen through its range and its text.
pub open spec fn item_view<F>(t: (usize, usize, &str, &TextSpan<F>)) -> (nat, nat, Seq<char>) {
    (t.0 as nat, t.1 as nat, t.2@)
}

/// Single-pass traversal over the runs of a `FormatSpans`.
pub struct TextSpanIter<'a, F> {
    start_pos: usize,
    base: &'a FormatSpans<F>,
    index: usize,
}

impl<'a, F> TextSpanIter<'a, F> {
    /// The spans being traversed.
    pub closed spec fn base(&self) -> FormatSpans<F> {
        *self.base
    }

    /// How many runs have been consumed.
    pub closed spec fn position(&self) -> nat {
        self.index as nat
    }

    /// The character offset where the next run starts, before clamping.
    pub closed spec fn cursor(&self) -> nat {
        self.start_pos as nat
    }

    pub open spec fn wf(&self) -> bool {
        &&& self.position() <= self.base().spans@.len()
        &&& self.cursor() == cursor_at(
            self.base().lengths(),
            self.base().text@.len(),
            self.position(),
        )
    }

    /// What the traversal has still to yield.
    pub open spec fn remaining(&self) -> Seq<(nat, nat, Seq<char>)> {
        span_items(self.base()).subrange(self.position() as int, self.base().spans@.len() as int)
    }

    pub fn for_format_spans(base: &'a FormatSpans<F>) -> (r: Self)
        ensures
            r.wf(),
            r.base() == *base,
            r.position() == 0,
            r.remaining() == span_items(*base),
    {
        let r = TextSpanIter { start_pos: 0, base, index: 0 };
        assert(r.remaining() =~= span_items(*base));
        r
    }

    /// The next run: its clamped start and end, the text between them, and
    /// the run itself; `None` once every run has been yielded.
    pub fn next(&mut self) -> (r: Option<(usize, usize, &'a str, &'a TextSpan<F>)>)
        requires
            old(self).wf(),
        ensures
            final(self).wf(),
            final(self).base() == old(self).base(),
            old(self).position() < old(self).base().spans@.len() ==> {
                &&& r is Some
                &&& final(self).position() == old(self).position() + 1
            },
            old(self).position() >= old(self).base().spans@.len() ==> {
                &&& r is None
                &&& final(self).position() == old(self).position()
            },
            r matches Some(t) ==> {
                &&& item_view(t) == span_item(old(self).base(), old(self).position())
                &&& *t.3 == old(self).base().spans@[old(self).position() as int]
                &&& item_view(t) == old(self).remaining()[0]
                &&& final(self).remaining() == old(self).remaining().drop_first()
            },
    {
        let base: &'a FormatSpans<F> = self.base;
        match base.span(self.index) {
            Some(span) => {
                self.index = self.index.saturating_add(1);
                let text: &'a str = base.text();
                let text_len = string_utils::len_chars(text);
                let start_pos = if self.start_pos <= text_len {
                    self.start_pos
                } else {
                    text_len
                };
                let target = self.start_pos.saturating_add(span.span_length());
                let end_pos = if target <= text_len {
                    target
                } else {
                    text_len
                };
                match string_utils::get_chars(text, start_pos, end_pos) {
                    Some(sub) => {
                        self.start_pos = end_pos;
                        assert(self.remaining() =~= old(self).remaining().drop_first());
                        Some((start_pos, end_pos, sub, span))
                    },
                    None => None,
                }
            },
            None => None,
        }
    }

    /// Drains the traversal: every item it has still to yield, in order.
    pub fn collect_remaining(&mut self) -> (r: Vec<(usize, usize, &'a str, &'a TextSpan<F>)>)
        requires
            old(self).wf(),
        ensures
            final(self).wf(),
            final(self).base() == old(self).base(),
            final(self).remaining().len() == 0,
            r@.len() == old(self).remaining().len(),
            forall|k: int|
                0 <= k < r@.len() ==> {
                    &&& item_view(#[trigger] r@[k]) == old(self).remaining()[k]
                    &&& *r@[k].3 == old(self).base().spans@[old(self).position() + k]
                },
    {
        let mut out: Vec<(usize, usize, &'a str, &'a TextSpan<F>)> = Vec::new();
        loop
            invariant
                self.wf(),
                self.base() == old(self).base(),
                old(self).wf(),
                self.position() == old(self).position() + out@.len(),
                self.remaining() == old(self).remaining().subrange(
                    out@.len() as int,
                    old(self).remaining().len() as int,
                ),
                forall|k: int|
                    0 <= k < out@.len() ==> {
                        &&& item_view(#[trigger] out@[k]) == old(self).remaining()[k]
                        &&& *out@[k].3 == old(self).base().spans@[old(self).position() + k]
                    },
            ensures
                self.remaining().len() == 0,
            decreases self.remaining().len(),
        {
            match self.next() {
                Some(t) => {
                    out.push(t);
                },
                None => {
                    break ;
                },
            }
        }
        out
    }
}

/// Through run `i`, the cursor is the sum of the lengths so far, clamped to the text.
pub proof fn lemma_cursor_is_clamped_sum(lens: Seq<nat>, text_len: nat, i: nat)
    requires
        i <= lens.len(),
    ensures
        cursor_at(lens, text_len, i) == min_nat(sum_lengths(lens, i), text_len),
    decreases i,
{
    if i > 0 {
        lemma_cursor_is_clamped_sum(lens, text_len, (i - 1) as nat);
    }
}

/// The cursor never moves backwards.
pub proof fn lemma_cursor_monotonic(lens: Seq<nat>, text_len: nat, i: nat, j: nat)
    requires
        i <= j <= lens.len(),
    ensures
        cursor_at(lens, text_len, i) <= cursor_at(lens, text_len, j),
        cursor_at(lens, text_len, j) <= text_len,
    decreases j - i,
{
    if i < j {
        lemma_cursor_monotonic(lens, text_len, i, (j - 1) as nat);
    }
}

/// The text of a sequence of items, joined in order.
pub open spec fn joined_text(items: Seq<(nat, nat, Seq<char>)>) -> Seq<char>
    decreases items.len(),
{
    if items.len() == 0 {
        Seq::empty()
    } else {
        joined_text(items.drop_last()) + items.last().2
    }
}

proof fn lemma_joined_prefix<F>(fs: FormatSpans<F>, n: nat)
    requires
        n <= fs.spans@.len(),
    ensures
        joined_text(span_items(fs).take(n as int)) == fs.text@.subrange(
            0,
            cursor_at(fs.lengths(), fs.text@.len(), n) as int,
        ),
    decreases n,
{
    let lens = fs.lengths();
    let len = fs.text@.len();
    if n == 0 {
        assert(span_items(fs).take(0) =~= Seq::empty());
        assert(fs.text@.subrange(0, 0) =~= Seq::empty());
    } else {
        let m = (n - 1) as nat;
        lemma_joined_prefix(fs, m);
        lemma_cursor_monotonic(lens, len, m, n);
        assert(span_items(fs).take(n as int).drop_last() =~= span_items(fs).take(m as int));
        assert(fs.text@.subrange(0, cursor_at(lens, len, n) as int) =~= fs.text@.subrange(
            0,
            cursor_at(lens, len, m) as int,
        ) + fs.text@.subrange(
            cursor_at(lens, len, m) as int,
            cursor_at(lens, len, n) as int,
        ));
    }
}

/// When the runs partition the text exactly, a full traversal yields one item
/// per run, and the items' texts joined in order give back the whole text.
pub proof fn lemma_partition_reassembles<F>(fs: FormatSpans<F>)
    requires
        fs.is_partition(),
    ensures
        span_items(fs).len() == fs.spans@.len(),
        joined_text(span_items(fs)) == fs.text@,
{
    let n = fs.spans@.len();
    lemma_joined_prefix(fs, n);
    lemma_cursor_is_clamped_sum(fs.lengths(), fs.text@.len(), n);
    assert(span_items(fs).take(n as int) =~= span_items(fs));
    assert(fs.text@.subrange(0, fs.text@.len() as int) =~= fs.text@);
}

/// Whatever the run lengths, every item lies within the text with its start
/// at or before its end, each run starts where the one before it ended, and
/// starts and ends never decrease along the traversal.
pub proof fn lemma_ranges_ordered<F>(fs: FormatSpans<F>, i: nat, j: nat)
    requires
        i <= j < fs.spans@.len(),
    ensures
        span_items(fs)[i as int].0 <= span_items(fs)[i as int].1 <= fs.text@.len(),
        span_items(fs)[i as int].0 <= span_items(fs)[j as int].0,
        span_items(fs)[i as int].1 <= span_items(fs)[j as int].1,
        i < j ==> span_items(fs)[i as int].1 <= span_items(fs)[j as int].0,
        j == i + 1 ==> span_items(fs)[i as int].1 == span_items(fs)[j as int].0,
{
    let lens = fs.lengths();
    let len = fs.text@.len();
    lemma_cursor_monotonic(lens, len, i, j);
    if i < j {
        lemma_cursor_monotonic(lens, len, (i + 1) as nat, j);
    }
    lemma_cursor_monotonic(lens, len, j, (j + 1) as nat);
    lemma_cursor_monotonic(lens, len, i, (i + 1) as nat);
}

/// A run whose nominal start lies at or past the end of the text yields an
/// empty range at the end of the text.
pub proof fn lemma_runs_past_text_are_empty<F>(fs: FormatSpans<F>, i: nat)
    requires
        i < fs.spans@.len(),
        sum_lengths(fs.lengths(), i) >= fs.text@.len(),
    ensures
        span_items(fs)[i as int].0 == fs.text@.len(),
        span_items(fs)[i as int].1 == fs.text@.len(),
        span_items(fs)[i as int].2.len() == 0,
{
    lemma_cursor_is_clamped_sum(fs.lengths(), fs.text@.len(), i);
}

/// Two traversals of the same spans, each at the same number of runs
/// consumed, are in the same state and have the same items still to yield;
/// two fresh ones both have every item of the spans still to yield.
pub proof fn lemma_retraversal<'a, 'b, F>(a: TextSpanIter<'a, F>, b: TextSpanIter<'b, F>)
    requires
        a.wf(),
        b.wf(),
        a.base() == b.base(),
        a.position() == b.position(),
    ensures
        a.cursor() == b.cursor(),
        a.remaining() == b.remaining(),
        a.position() == 0 ==> a.remaining() == span_items(a.base()),
{
    assert(a.position() == 0 ==> a.remaining() =~= span_items(a.base()));
}

} // verus!
