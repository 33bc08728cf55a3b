//! Text: the factory of layouts, and the spans of attributes that a layout
//! is built from.

use std::ops::Range;
use vstd::prelude::*;

verus! {

/// The factory of text layouts.
#[derive(Clone, Copy, Debug)]
pub struct WgpuText {}

impl WgpuText {
    /// The factory.
    pub fn new() -> (r: Self) {
        Self {  }
    }
}

/// An attribute of a stretch of text: a color, a weight, a size.
pub struct Span<T> {
    /// The attribute.
    pub payload: T,
    /// The stretch of the text, in bytes: from `start` up to `end` without
    /// it.
    pub range: Range<usize>,
}

impl<T> Span<T> {
    /// `payload` for the stretch `range`.
    pub fn new(payload: T, range: Range<usize>) -> (r: Self)
        ensures
            r.payload == payload,
            r.range == range,
    {
        Span { payload, range }
    }

    /// Where the stretch ends.
    pub fn range_end(&self) -> (end: usize)
        ensures
            end == self.range.end,
    {
        self.range.end
    }

    /// Whether the stretch takes in the position `index`.
    pub open spec fn covers(&self, index: usize) -> bool {
        self.range.start <= index < self.range.end
    }

    /// Whether the stretch takes in the position `index`.
    pub fn contains(&self, index: usize) -> (b: bool)
        ensures
            b == self.covers(index),
    {
        self.range.start <= index && index < self.range.end
    }
}

/// `i` is the first span of `spans` that takes in the position `index`.
pub open spec fn is_first_cover<T>(spans: Seq<Span<T>>, index: usize, i: int) -> bool {
    &&& 0 <= i < spans.len()
    &&& spans[i].covers(index)
    &&& forall|j: int| 0 <= j < i ==> !spans[j].covers(index)
}

/// No span of `spans` takes in the position `index`.
pub open spec fn uncovered<T>(spans: Seq<Span<T>>, index: usize) -> bool {
    forall|j: int| 0 <= j < spans.len() ==> !(#[trigger] spans[j]).covers(index)
}

/// The attribute in force at `index`: that of the first span that takes
/// the position in. Where spans overlap, the one added first wins. Where
/// none takes the position in, the caller's default applies.
pub fn span_at<T>(spans: &Vec<Span<T>>, index: usize) -> (r: Option<&T>)
    ensures
        match r {
            Some(payload) => exists|i: int| #[trigger]
                is_first_cover(spans@, index, i) && *payload == spans@[i].payload,
            None => uncovered(spans@, index),
        },
{
    let mut i: usize = 0;
    while i < spans.len()
        invariant
            i <= spans.len(),
            forall|j: int| 0 <= j < i ==> !(#[trigger] spans@[j]).covers(index),
        decreases spans.len() - i,
    {
        if spans[i].contains(index) {
            assert(is_first_cover(spans@, index, i as int));
            return Some(&spans[i].payload);
        }
        i += 1;
    }
    None
}

/// The attribute in force at `index`, for attributes that are copied: that
/// of the first span that takes the position in, or `default` where none
/// does.
pub fn value_at<T: Copy>(spans: &Vec<Span<T>>, index: usize, default: T) -> (r: T)
    ensures
        uncovered(spans@, index) ==> r == default,
        forall|i: int| is_first_cover(spans@, index, i) ==> r == spans@[i].payload,
{
    match span_at(spans, index) {
        Some(payload) => {
            proof {
                let k = choose|k: int| #[trigger]
                    is_first_cover(spans@, index, k) && *payload == spans@[k].payload;
                assert forall|i: int| is_first_cover(spans@, index, i) implies *payload
                    == spans@[i].payload by {
                    lemma_first_cover_unique(spans@, index, i, k);
                }
                assert(spans@[k].covers(index));
            }
            *payload
        },
        None => {
            assert forall|i: int| is_first_cover(spans@, index, i) implies default
                == spans@[i].payload by {
                assert(!spans@[i].covers(index));
            }
            default
        },
    }
}

/// A position has at most one first span that takes it in.
pub proof fn lemma_first_cover_unique<T>(spans: Seq<Span<T>>, index: usize, i: int, k: int)
    requires
        is_first_cover(spans, index, i),
        is_first_cover(spans, index, k),
    ensures
        i == k,
{
    if i < k {
        assert(!spans[i].covers(index));
    } else if k < i {
        assert(!spans[k].covers(index));
    }
}

} // verus!
