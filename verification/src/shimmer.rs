//! The progress indicator: a label and when the operation began; the animation itself
//! is drawn by the terminal front end.
use vstd::prelude::*;
use std::time::Instant;
use crate::api::string_of_str;
use crate::clock::{clock_now, secs_since};

verus! {

/// An operation in progress.
pub struct Progress {
    pub label: String,
    /// When the operation began, by the monotonic clock.
    pub started_at: Instant,
}

/// How many dots follow the label `elapsed_secs` seconds after the start: one, two,
/// three, one, ... changing every second.
pub open spec fn dots_after(elapsed_secs: u64) -> u64 {
    (elapsed_secs % 3 + 1) as u64
}

/// `n` copies of `c`.
pub open spec fn repeat(c: char, n: nat) -> Seq<char> {
    Seq::new(n, |i: int| c)
}

/// The text shown `elapsed_secs` seconds after the start: the label, its dots, and
/// spaces that pad the dots to three so the width never changes.
pub open spec fn progress_text(label: Seq<char>, elapsed_secs: u64) -> Seq<char> {
    label + repeat('.', dots_after(elapsed_secs) as nat) + repeat(
        ' ',
        (3 - dots_after(elapsed_secs)) as nat,
    )
}

impl Progress {
    /// A progress indicator for `label`, started now.
    pub fn new(label: &str) -> (r: Progress)
        ensures
            r.label@ == label@,
    {
        Progress { label: string_of_str(label), started_at: clock_now() }
    }

    /// The number of dots shown `elapsed_secs` seconds after the start.
    pub fn dots(&self, elapsed_secs: u64) -> (r: u64)
        ensures
            r == dots_after(elapsed_secs),
            1 <= r <= 3,
    {
        elapsed_secs % 3 + 1
    }

    /// The text shown `elapsed_secs` seconds after the start.
    pub fn text_after(&self, elapsed_secs: u64) -> (r: String)
        ensures
            r@ == progress_text(self.label@, elapsed_secs),
    {
        let d = self.dots(elapsed_secs);
        let mut s = self.label.clone();
        let mut i: u64 = 0;
        while i < d
            invariant
                i <= d <= 3,
                s@ == self.label@ + repeat('.', i as nat),
            decreases d - i,
        {
            s.push('.');
            assert(repeat('.', (i + 1) as nat) =~= repeat('.', i as nat).push('.'));
            i = i + 1;
        }
        let mut j: u64 = 0;
        while j < 3 - d
            invariant
                j <= 3 - d,
                d <= 3,
                s@ == self.label@ + repeat('.', d as nat) + repeat(' ', j as nat),
            decreases 3 - d - j,
        {
            s.push(' ');
            assert(repeat(' ', (j + 1) as nat) =~= repeat(' ', j as nat).push(' '));
            j = j + 1;
        }
        s
    }

    /// The text shown now: `text_after` the whole seconds since the start.
    pub fn text(&self) -> (r: String)
        ensures
            exists|elapsed_secs: u64| r@ == progress_text(self.label@, elapsed_secs),
    {
        let e = secs_since(&self.started_at);
        let r = self.text_after(e);
        assert(r@ == progress_text(self.label@, e));
        r
    }
}

} // verus!
