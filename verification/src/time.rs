//! Spans of time.

use vstd::prelude::*;

verus! {

/// A span of time: whole seconds, and the nanoseconds that are left, fewer than
/// make a second.
#[derive(Debug, Clone, Copy, PartialEq, Eq)]
pub struct TimeSpan {
    secs: u64,
    nanos: u32,
}

pub struct SpanView {
    pub secs: u64,
    pub nanos: u32,
}

impl View for TimeSpan {
    type V = SpanView;

    closed spec fn view(&self) -> SpanView {
        SpanView { secs: self.secs, nanos: self.nanos }
    }
}

/// What a span, if there is one, is.
pub open spec fn span_view(span: Option<TimeSpan>) -> Option<SpanView> {
    match span {
        Some(span) => Some(span@),
        None => None,
    }
}

/// The span of a number of milliseconds.
pub open spec fn millis(ms: u64) -> SpanView {
    SpanView { secs: ms / 1000, nanos: ((ms % 1000) * 1_000_000) as u32 }
}

impl TimeSpan {
    #[verifier::type_invariant]
    spec fn wf(self) -> bool {
        self.nanos < 1_000_000_000
    }

    /// The span of these seconds and nanoseconds, where the nanoseconds do not
    /// make a second.
    pub fn new(secs: u64, nanos: u32) -> (r: Option<Self>)
        ensures
            span_view(r) == if nanos < 1_000_000_000 {
                Some(SpanView { secs, nanos })
            } else {
                None
            },
    {
        if nanos < 1_000_000_000 {
            Some(TimeSpan { secs, nanos })
        } else {
            None
        }
    }

    pub fn from_millis(ms: u64) -> (r: Self)
        ensures
            r@ == millis(ms),
            r@.secs * 1000 + r@.nanos / 1_000_000 == ms,
    {
        TimeSpan { secs: ms / 1000, nanos: (ms % 1000) as u32 * 1_000_000 }
    }

    /// The whole seconds of the span.
    pub fn as_secs(&self) -> (r: u64)
        ensures
            r == self@.secs,
    {
        self.secs
    }

    /// The nanoseconds that are left.
    pub fn subsec_nanos(&self) -> (r: u32)
        ensures
            r == self@.nanos,
            r < 1_000_000_000,
    {
        proof {
            use_type_invariant(self);
        }
        self.nanos
    }
}

} // verus!
