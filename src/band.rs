//! Index bookkeeping of the moving-average low-pass approximation.
use vstd::prelude::*;

verus! {

/// A half-open range `[start, end)` of sample indices.
#[derive(Clone, Copy, Debug, PartialEq, Eq, Structural)]
pub struct Span {
    pub start: usize,
    pub end: usize,
}

/// First index averaged for sample `i`: `i - half`, clamped at zero.
pub open spec fn span_start(i: int, half: int) -> int {
    if i >= half {
        i - half
    } else {
        0
    }
}

/// One past the last index averaged for sample `i`: `i + half + 1`, clamped
/// at the signal's length.
pub open spec fn span_end(i: int, half: int, len: int) -> int {
    if i + half + 1 <= len {
        i + half + 1
    } else {
        len
    }
}

/// The filter changes a signal of `len` samples only when its window is
/// longer than one sample and shorter than a quarter of the signal.
pub open spec fn low_pass_applies(window: int, len: int) -> bool {
    1 < window && window < len / 4
}

/// The span that sample `i` of a `len`-sample signal averages over under a
/// window of `window` samples: `[i - window/2, i + window/2]` clamped to the
/// signal, so edge windows shrink and nothing wraps around.
pub open spec fn averaging_span(i: int, window: int, len: int) -> Span {
    Span { start: span_start(i, window / 2) as usize, end: span_end(i, window / 2, len) as usize }
}

/// For each of `len` samples, the span that a moving average with a window
/// of `window` samples averages it over. Every span is nonempty and lies
/// within the signal.
pub fn averaging_spans(len: usize, window: usize) -> (r: Vec<Span>)
    ensures
        r@.len() == len,
        forall|i: int| 0 <= i < len ==> r@[i] == averaging_span(i, window as int, len as int),
        forall|i: int| 0 <= i < len ==> #[trigger] r@[i].start <= i < r@[i].end <= len,
{
    let half = window / 2;
    let mut spans: Vec<Span> = Vec::new();
    let mut i: usize = 0;
    while i < len
        invariant
            i <= len,
            half == window / 2,
            spans@.len() == i,
            forall|j: int| 0 <= j < i ==> spans@[j] == averaging_span(j, window as int, len as int),
            forall|j: int| 0 <= j < i ==> #[trigger] spans@[j].start <= j < spans@[j].end <= len,
        decreases len - i,
    {
        let start = if i >= half { i - half } else { 0 };
        let end = if half < len - i { i + half + 1 } else { len };
        spans.push(Span { start, end });
        i = i + 1;
    }
    spans
}

/// The spans of the low-pass filter with a window of `window` samples over a
/// `len`-sample signal: `None` when the filter leaves the signal unchanged,
/// else the moving average's spans.
pub fn low_pass_spans(len: usize, window: usize) -> (r: Option<Vec<Span>>)
    ensures
        r is None <==> !low_pass_applies(window as int, len as int),
        r matches Some(spans) ==> {
            &&& spans@.len() == len
            &&& forall|i: int|
                0 <= i < len ==> spans@[i] == averaging_span(i, window as int, len as int)
            &&& forall|i: int| 0 <= i < len ==> #[trigger] spans@[i].start <= i < spans@[i].end <= len
        },
{
    if 1 < window && window < len / 4 {
        Some(averaging_spans(len, window))
    } else {
        None
    }
}

} // verus!
