use ruffle_spans::{get_chars, len_chars, FormatSpans, TextSpan, TextSpanIter};

fn spans_of(text: &str, runs: &[(usize, u32)]) -> FormatSpans<u32> {
    let spans = runs.iter().map(|&(len, f)| TextSpan::new(len, f)).collect();
    FormatSpans::new(text.to_string(), spans)
}

fn items(fs: &FormatSpans<u32>) -> Vec<(usize, usize, String, u32)> {
    let mut it = TextSpanIter::for_format_spans(fs);
    let mut out = Vec::new();
    while let Some((s, e, t, span)) = it.next() {
        out.push((s, e, t.to_string(), *span.format()));
    }
    out
}

#[test]
fn empty_text_and_no_spans_yield_nothing() {
    let fs = spans_of("", &[]);
    assert!(items(&fs).is_empty());
    let mut it = fs.iter_spans();
    assert!(it.next().is_none());
}

#[test]
fn single_span_covers_whole_text() {
    let fs = spans_of("hello", &[(5, 7)]);
    assert_eq!(items(&fs), vec![(0, 5, "hello".to_string(), 7)]);
}

#[test]
fn overlong_second_span_is_clamped() {
    let fs = spans_of("abc", &[(2, 1), (5, 2)]);
    assert_eq!(
        items(&fs),
        vec![(0, 2, "ab".to_string(), 1), (2, 3, "c".to_string(), 2)]
    );
}

#[test]
fn exact_partition_reassembles_multibyte_text() {
    let text = "héllo wörld";
    let fs = spans_of(text, &[(5, 1), (1, 2), (5, 3)]);
    let got = items(&fs);
    assert_eq!(got.len(), 3);
    let joined: String = got.iter().map(|i| i.2.as_str()).collect();
    assert_eq!(joined, text);
    assert_eq!(got[0], (0, 5, "héllo".to_string(), 1));
    assert_eq!(got[2], (6, 11, "wörld".to_string(), 3));
}

#[test]
fn short_spans_leave_ranges_ordered_and_in_bounds() {
    let fs = spans_of("abcdef", &[(1, 1), (2, 2)]);
    let got = items(&fs);
    assert_eq!(
        got,
        vec![(0, 1, "a".to_string(), 1), (1, 3, "bc".to_string(), 2)]
    );
    for w in got.windows(2) {
        assert!(w[0].0 <= w[1].0 && w[0].1 <= w[1].1);
    }
}

#[test]
fn spans_past_the_text_yield_empty_runs() {
    let fs = spans_of("ab", &[(3, 1), (4, 2), (0, 3)]);
    assert_eq!(
        items(&fs),
        vec![
            (0, 2, "ab".to_string(), 1),
            (2, 2, String::new(), 2),
            (2, 2, String::new(), 3)
        ]
    );
}

#[test]
fn huge_span_length_does_not_overflow() {
    let fs = spans_of("ab", &[(1, 1), (usize::MAX, 2), (usize::MAX, 3)]);
    assert_eq!(
        items(&fs),
        vec![
            (0, 1, "a".to_string(), 1),
            (1, 2, "b".to_string(), 2),
            (2, 2, String::new(), 3)
        ]
    );
}

#[test]
fn two_traversals_agree() {
    let fs = spans_of("día de fiesta", &[(4, 1), (3, 2), (9, 3)]);
    let mut a = fs.iter_spans();
    let mut b = TextSpanIter::for_format_spans(&fs);
    assert_eq!(a.collect_remaining(), b.collect_remaining());
    assert_eq!(items(&fs), items(&fs));
}

#[test]
fn traversal_stays_done() {
    let fs = spans_of("xy", &[(2, 9)]);
    let mut it = fs.iter_spans();
    assert!(it.next().is_some());
    assert!(it.next().is_none());
    assert!(it.next().is_none());
    assert!(it.collect_remaining().is_empty());
}

#[test]
fn span_lookup_past_end_is_none() {
    let fs = spans_of("abc", &[(3, 4)]);
    assert_eq!(fs.span(0).map(|s| s.span_length()), Some(3));
    assert!(fs.span(1).is_none());
    assert!(fs.span(usize::MAX).is_none());
    assert_eq!(fs.text(), "abc");
}

#[test]
fn character_length_counts_code_points() {
    assert_eq!(len_chars(""), 0);
    assert_eq!(len_chars("日本語"), 3);
    assert_eq!(len_chars("abc"), 3);
}

#[test]
fn slicing_by_characters() {
    assert_eq!(get_chars("日本語", 1, 3), Some("本語"));
    assert_eq!(get_chars("日本語", 0, 0), Some(""));
    assert_eq!(get_chars("日本語", 2, 1), None);
    assert_eq!(get_chars("日本語", 1, 4), None);
}
