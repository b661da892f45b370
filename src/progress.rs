//! The incremental progress tracker: it emits only the lines not yet shown.

use vstd::prelude::*;
use crate::api::{APISubmissionCaseOrBatch, UnitView, tree_view};
use crate::cases::{FlatView, FlattenedCasesItem, flat_view, flatten, flatten_cases, tree_extends,
    flatten_extension_is_prefix};
use crate::render::{line, colors_on};

verus! {

/// The display units of a snapshot `t` that a tracker which has shown `n`
/// units still has to show.
pub open spec fn pending(n: nat, t: Seq<UnitView>) -> Seq<FlatView> {
    if flatten(t).len() > n {
        flatten(t).skip(n as int)
    } else {
        Seq::empty()
    }
}

/// How many units a tracker that has shown `n` units has shown after it was
/// given snapshot `t`.
pub open spec fn shown_after(n: nat, t: Seq<UnitView>) -> nat {
    if flatten(t).len() > n {
        flatten(t).len()
    } else {
        n
    }
}

/// The lines of a sequence of display units.
pub open spec fn lines_of(us: Seq<FlatView>, colored: bool) -> Seq<Seq<char>> {
    us.map_values(|u: FlatView| line(u, colored))
}

/// The text of a sequence of strings.
pub open spec fn texts(v: Seq<String>) -> Seq<Seq<char>> {
    v.map_values(|s: String| s@)
}

/// Tracks which display units of a growing grading tree have been shown.
pub struct Progress {
    /// The display units shown so far, in order.
    pub cases: Vec<FlattenedCasesItem>,
    /// Whether lines are styled for the terminal.
    pub colored: bool,
}

impl Progress {
    /// A tracker that has shown nothing, styling its lines as the terminal allows.
    pub fn new() -> (r: Self)
        ensures
            r.cases@.len() == 0,
    {
        Progress::with_styling(colors_on())
    }

    /// A tracker that has shown nothing, styling its lines when `colored` holds.
    pub fn with_styling(colored: bool) -> (r: Self)
        ensures
            r.cases@.len() == 0,
            r.colored == colored,
    {
        Progress { cases: Vec::new(), colored }
    }

    /// Takes a new snapshot of the grading tree and returns the lines of the
    /// display units not shown before, in order; does nothing when the
    /// snapshot has no more display units than were already shown.
    pub fn extend(&mut self, cases: Vec<APISubmissionCaseOrBatch>) -> (lines: Vec<String>)
        ensures
            final(self).colored == old(self).colored,
            final(self).cases@.len() == shown_after(old(self).cases@.len(), tree_view(cases@)),
            flat_view(final(self).cases@) == flat_view(old(self).cases@) + pending(
                old(self).cases@.len(),
                tree_view(cases@),
            ),
            texts(lines@) == lines_of(
                pending(old(self).cases@.len(), tree_view(cases@)),
                old(self).colored,
            ),
    {
        let ghost t = tree_view(cases@);
        let mut flat = flatten_cases(cases);
        let shown = self.cases.len();
        let mut lines: Vec<String> = Vec::new();
        if flat.len() <= shown {
            assert(texts(lines@) =~= lines_of(pending(shown as nat, t), self.colored));
            assert(flat_view(self.cases@) =~= flat_view(self.cases@) + pending(shown as nat, t));
            return lines;
        }
        let ghost all = flat@;
        let mut new_cases = flat.split_off(shown);
        assert(flat_view(new_cases@) =~= pending(shown as nat, t));
        let m = new_cases.len();
        let mut k: usize = 0;
        while k < m
            invariant
                m == new_cases@.len(),
                k <= m,
                texts(lines@) =~= lines_of(flat_view(new_cases@), self.colored).take(k as int),
            decreases m - k,
        {
            let msg = new_cases[k].render(self.colored);
            let ghost prev = lines@;
            lines.push(msg);
            assert(texts(lines@) =~= texts(prev).push(msg@));
            k = k + 1;
        }
        let ghost before = self.cases@;
        self.cases.append(&mut new_cases);
        assert(flat_view(self.cases@) =~= flat_view(before) + pending(shown as nat, t));
        assert(lines_of(flat_view(all.subrange(shown as int, all.len() as int)), self.colored).take(
            m as int,
        ) =~= lines_of(pending(shown as nat, t), self.colored));
        lines
    }

    /// Ends tracking, and returns how many display units were shown.
    pub fn finish(self) -> (r: usize)
        ensures
            r == self.cases@.len(),
    {
        self.cases.len()
    }
}

/// A fresh tracker given a snapshot and then an extension of it shows each
/// display unit of the extension exactly once, in order: the lines of the
/// two calls together are the lines of the extension's display units.
pub proof fn extend_shows_each_unit_once(s1: Seq<UnitView>, s2: Seq<UnitView>, colored: bool)
    requires
        tree_extends(s1, s2),
    ensures
        pending(0, s1) + pending(shown_after(0, s1), s2) == flatten(s2),
        lines_of(pending(0, s1), colored) + lines_of(pending(shown_after(0, s1), s2), colored)
            == lines_of(flatten(s2), colored),
        lines_of(pending(0, s1), colored).len() + lines_of(
            pending(shown_after(0, s1), s2),
            colored,
        ).len() == flatten(s2).len(),
{
    flatten_extension_is_prefix(s1, s2);
    let a = flatten(s1);
    let b = flatten(s2);
    if a.len() > 0 {
        assert(a.skip(0) =~= a);
        assert(pending(0, s1) + pending(shown_after(0, s1), s2) =~= b);
    } else {
        assert(b.skip(0) =~= b);
        assert(pending(0, s1) + pending(shown_after(0, s1), s2) =~= b);
    }
    assert(lines_of(pending(0, s1), colored) + lines_of(pending(shown_after(0, s1), s2), colored)
        =~= lines_of(flatten(s2), colored));
}

/// Giving a tracker the same snapshot a second time shows nothing more.
pub proof fn extend_again_shows_nothing(n: nat, s: Seq<UnitView>)
    ensures
        pending(shown_after(n, s), s).len() == 0,
        shown_after(shown_after(n, s), s) == shown_after(n, s),
{
}

} // verus!
