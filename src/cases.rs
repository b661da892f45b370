//! Flattening of the grading tree into numbered display units.

use vstd::prelude::*;
use crate::api::{
    APISubmissionBatch, APISubmissionCaseOrBatch, BatchView, CaseView, UnitView, cases_view,
    tree_view,
};

verus! {

/// One display unit: a top-level case, a batch header, or a case inside a batch.
pub struct FlattenedCasesItem {
    /// True only for a case inside a batch.
    pub is_batched_case: bool,
    /// The top-level ordinal, or for a case inside a batch its 1-based
    /// position within that batch.
    pub num: usize,
    /// The unit shown; a batch header carries no cases.
    pub item: APISubmissionCaseOrBatch,
}

/// The mathematical value of a display unit.
pub struct FlatView {
    pub is_batched_case: bool,
    pub num: nat,
    pub item: UnitView,
}

impl View for FlattenedCasesItem {
    type V = FlatView;

    open spec fn view(&self) -> FlatView {
        FlatView { is_batched_case: self.is_batched_case, num: self.num as nat, item: self.item@ }
    }
}

/// The values of a sequence of display units.
pub open spec fn flat_view(s: Seq<FlattenedCasesItem>) -> Seq<FlatView> {
    s.map_values(|x: FlattenedCasesItem| x@)
}

/// The header unit of a batch: the batch with its cases left out.
pub open spec fn batch_header(b: BatchView) -> BatchView {
    BatchView { cases: Seq::empty(), ..b }
}

/// The cases of a batch as display units, numbered from 1 within the batch.
pub open spec fn batch_children(cases: Seq<CaseView>) -> Seq<FlatView> {
    Seq::new(
        cases.len(),
        |j: int| FlatView { is_batched_case: true, num: (j + 1) as nat, item: UnitView::Case(cases[j]) },
    )
}

/// The display units of the top-level unit `u`, whose ordinal is `n`.
pub open spec fn unit_units(u: UnitView, n: nat) -> Seq<FlatView> {
    match u {
        UnitView::Case(c) => seq![FlatView { is_batched_case: false, num: n, item: u }],
        UnitView::Batch(b) => seq![
            FlatView { is_batched_case: false, num: n, item: UnitView::Batch(batch_header(b)) },
        ] + batch_children(b.cases),
    }
}

/// The display units of a grading tree, in order. Every top-level unit takes
/// the next ordinal, so the unit at index `i` is numbered `i + 1`.
pub open spec fn flatten(t: Seq<UnitView>) -> Seq<FlatView>
    decreases t.len(),
{
    if t.len() == 0 {
        Seq::empty()
    } else {
        flatten(t.drop_last()) + unit_units(t.last(), t.len())
    }
}

/// Turns a grading tree into its display units.
pub fn flatten_cases(cases: Vec<APISubmissionCaseOrBatch>) -> (r: Vec<FlattenedCasesItem>)
    ensures
        flat_view(r@) == flatten(tree_view(cases@)),
{
    let mut ret: Vec<FlattenedCasesItem> = Vec::new();
    let n = cases.len();
    let mut i: usize = 0;
    while i < n
        invariant
            n == cases@.len(),
            i <= n,
            flat_view(ret@) == flatten(tree_view(cases@).take(i as int)),
        decreases n - i,
    {
        let ghost before = ret@;
        let ghost t = tree_view(cases@);
        assert(t.take(i + 1).drop_last() =~= t.take(i as int));
        match &cases[i] {
            APISubmissionCaseOrBatch::Case(c) => {
                ret.push(
                    FlattenedCasesItem {
                        is_batched_case: false,
                        num: i + 1,
                        item: APISubmissionCaseOrBatch::Case(c.duplicate()),
                    },
                );
                assert(flat_view(ret@) =~= flat_view(before) + unit_units(t[i as int], (i + 1) as nat));
            },
            APISubmissionCaseOrBatch::Batch(b) => {
                ret.push(
                    FlattenedCasesItem {
                        is_batched_case: false,
                        num: i + 1,
                        item: APISubmissionCaseOrBatch::Batch(
                            APISubmissionBatch {
                                kind: b.kind.clone(),
                                batch_id: b.batch_id,
                                cases: Vec::new(),
                                points: b.points,
                                total: b.total,
                            },
                        ),
                    },
                );
                assert(cases_view(Seq::empty()) =~= Seq::<CaseView>::empty());
                let ghost header = flat_view(ret@);
                let m = b.cases.len();
                let mut j: usize = 0;
                while j < m
                    invariant
                        m == b.cases@.len(),
                        j <= m,
                        flat_view(ret@) =~= header + batch_children(cases_view(b.cases@)).take(j as int),
                    decreases m - j,
                {
                    let ghost prev = ret@;
                    let ghost kids = batch_children(cases_view(b.cases@));
                    ret.push(
                        FlattenedCasesItem {
                            is_batched_case: true,
                            num: j + 1,
                            item: APISubmissionCaseOrBatch::Case(b.cases[j].duplicate()),
                        },
                    );
                    assert(flat_view(ret@) =~= flat_view(prev).push(kids[j as int]));
                    assert(kids.take(j + 1) =~= kids.take(j as int).push(kids[j as int]));
                    j = j + 1;
                }
                assert(batch_children(cases_view(b.cases@)).take(m as int)
                    =~= batch_children(cases_view(b.cases@)));
                assert(flat_view(ret@) =~= flat_view(before) + unit_units(t[i as int], (i + 1) as nat));
            },
        }
        i = i + 1;
    }
    assert(tree_view(cases@).take(n as int) =~= tree_view(cases@));
    ret
}

/// Whether `v` is `u` unchanged, or, for a batch, with cases appended.
pub open spec fn unit_grows(u: UnitView, v: UnitView) -> bool {
    match (u, v) {
        (UnitView::Batch(a), UnitView::Batch(b)) => batch_header(a) == batch_header(b)
            && a.cases.is_prefix_of(b.cases),
        _ => u == v,
    }
}

/// Whether `t2` is `t` with only additions: new top-level units appended,
/// or new cases appended to the trailing batch of `t`.
pub open spec fn tree_extends(t: Seq<UnitView>, t2: Seq<UnitView>) -> bool {
    &&& t.len() <= t2.len()
    &&& forall|i: int| 0 <= i < t.len() - 1 ==> t2[i] == t[i]
    &&& t.len() > 0 ==> unit_grows(t.last(), t2[t.len() - 1])
}

/// The display units of the first `k` top-level units start the display
/// units of the whole tree.
proof fn lemma_flatten_take(t: Seq<UnitView>, k: int)
    requires
        0 <= k <= t.len(),
    ensures
        flatten(t.take(k)).is_prefix_of(flatten(t)),
    decreases t.len(),
{
    if k == t.len() {
        assert(t.take(k) =~= t);
    } else {
        assert(t.drop_last().take(k) =~= t.take(k));
        lemma_flatten_take(t.drop_last(), k);
    }
}

/// A unit that grew shows the display units it showed before, and more.
proof fn lemma_unit_units_grow(u: UnitView, v: UnitView, n: nat)
    requires
        unit_grows(u, v),
    ensures
        unit_units(u, n).is_prefix_of(unit_units(v, n)),
{
    match (u, v) {
        (UnitView::Batch(a), UnitView::Batch(b)) => {
            let la = unit_units(u, n);
            let lb = unit_units(v, n);
            assert(lb.subrange(0, la.len() as int) =~= la);
        },
        _ => {
            assert(unit_units(v, n).subrange(0, unit_units(u, n).len() as int) =~= unit_units(u, n));
        },
    }
}

/// Flattening the same tree twice gives the same display units.
pub proof fn flatten_is_idempotent(t: Seq<UnitView>, t2: Seq<UnitView>)
    requires
        t == t2,
    ensures
        flatten(t) == flatten(t2),
{
}

/// Flattening a tree that only grew by additions gives the display units of
/// the tree before as a prefix.
pub proof fn flatten_extension_is_prefix(t: Seq<UnitView>, t2: Seq<UnitView>)
    requires
        tree_extends(t, t2),
    ensures
        flatten(t).is_prefix_of(flatten(t2)),
{
    if t.len() > 0 {
        let k = t.len() as int;
        let s = t2.take(k);
        assert(s.drop_last() =~= t.drop_last());
        lemma_unit_units_grow(t.last(), t2[k - 1], k as nat);
        let a = flatten(t);
        let b = flatten(s);
        assert(b.subrange(0, a.len() as int) =~= a);
        lemma_flatten_take(t2, k);
        let c = flatten(t2);
        assert(c.subrange(0, a.len() as int) =~= b.subrange(0, a.len() as int));
    } else {
        assert(flatten(t2).subrange(0, 0) =~= flatten(t));
    }
}

} // verus!
