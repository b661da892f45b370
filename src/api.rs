//! The judge's API payloads, as plain values.
//!
//! The judge reports times, memory and points as floating-point numbers.
//! Here they are fixed-point integers: times in milliseconds, memory in
//! kilobytes (the judge's native unit) and points in thousandths of a point.

use vstd::prelude::*;

verus! {

/// An API response: either `data` or `error` is present.
pub struct APIResponse<T> {
    pub api_version: String,
    pub method: String,
    pub fetched: String,
    pub data: Option<T>,
    pub error: Option<APIErrorFormat>,
}

/// The data of a response that carries a single object.
pub struct APISingleData<T> {
    pub object: T,
}

/// The data of a response that carries one page of a list of objects.
pub struct APIListData<T> {
    pub current_object_count: i32,
    pub objects_per_page: i32,
    pub total_objects: i32,
    pub page_index: i32,
    pub total_pages: i32,
    pub has_more: bool,
    pub objects: Vec<T>,
}

/// The error of a failed API request.
pub struct APIErrorFormat {
    pub code: i32,
    pub message: String,
}

/// A submission language offered by the judge.
pub struct APILanguage {
    pub id: i32,
    pub key: String,
    pub short_name: Option<String>,
    pub common_name: String,
    pub ace_mode_name: String,
    pub pygments_name: String,
    pub code_template: String,
}

/// A snapshot of a submission, as polled while it is graded.
pub struct APISubmission {
    pub id: i32,
    pub problem: String,
    pub user: String,
    pub date: String,
    /// Elapsed time in milliseconds.
    pub time: Option<u64>,
    /// Peak memory in kilobytes.
    pub memory: Option<u64>,
    /// Points in thousandths.
    pub points: Option<u64>,
    pub language: String,
    pub status: String,
    /// The final result code, once grading has finished.
    pub result: Option<String>,
    /// Points earned over all cases, in thousandths.
    pub case_points: u64,
    /// Points possible over all cases, in thousandths.
    pub case_total: u64,
    /// The grading tree: cases and batches of cases, in order.
    pub cases: Vec<APISubmissionCaseOrBatch>,
}

/// One top-level unit of the grading tree.
pub enum APISubmissionCaseOrBatch {
    Case(APISubmissionCase),
    Batch(APISubmissionBatch),
}

/// One graded test case.
pub struct APISubmissionCase {
    pub kind: String,
    pub case_id: i32,
    /// The status code (`AC`, `WA`, `TLE`, `SC`, ...).
    pub status: String,
    /// Time in milliseconds.
    pub time: u64,
    /// Memory in kilobytes.
    pub memory: u64,
    /// Points earned, in thousandths.
    pub points: u64,
    /// Points possible, in thousandths.
    pub total: u64,
}

/// A batch of test cases.
pub struct APISubmissionBatch {
    pub kind: String,
    pub batch_id: i32,
    pub cases: Vec<APISubmissionCase>,
    /// Points earned, in thousandths.
    pub points: u64,
    /// Points possible, in thousandths.
    pub total: u64,
}

/// The mathematical value of a test case.
pub struct CaseView {
    pub kind: Seq<char>,
    pub case_id: i32,
    pub status: Seq<char>,
    pub time: u64,
    pub memory: u64,
    pub points: u64,
    pub total: u64,
}

/// The mathematical value of a batch.
pub struct BatchView {
    pub kind: Seq<char>,
    pub batch_id: i32,
    pub cases: Seq<CaseView>,
    pub points: u64,
    pub total: u64,
}

/// The mathematical value of a unit of the grading tree.
pub enum UnitView {
    Case(CaseView),
    Batch(BatchView),
}

impl View for APISubmissionCase {
    type V = CaseView;

    open spec fn view(&self) -> CaseView {
        CaseView {
            kind: self.kind@,
            case_id: self.case_id,
            status: self.status@,
            time: self.time,
            memory: self.memory,
            points: self.points,
            total: self.total,
        }
    }
}

/// The values of a sequence of test cases.
pub open spec fn cases_view(s: Seq<APISubmissionCase>) -> Seq<CaseView> {
    s.map_values(|c: APISubmissionCase| c@)
}

impl View for APISubmissionBatch {
    type V = BatchView;

    open spec fn view(&self) -> BatchView {
        BatchView {
            kind: self.kind@,
            batch_id: self.batch_id,
            cases: cases_view(self.cases@),
            points: self.points,
            total: self.total,
        }
    }
}

impl View for APISubmissionCaseOrBatch {
    type V = UnitView;

    open spec fn view(&self) -> UnitView {
        match self {
            APISubmissionCaseOrBatch::Case(c) => UnitView::Case(c@),
            APISubmissionCaseOrBatch::Batch(b) => UnitView::Batch(b@),
        }
    }
}

/// The value of a grading tree.
pub open spec fn tree_view(s: Seq<APISubmissionCaseOrBatch>) -> Seq<UnitView> {
    s.map_values(|u: APISubmissionCaseOrBatch| u@)
}

impl APISubmissionCase {
    /// A copy of this case.
    pub fn duplicate(&self) -> (r: Self)
        ensures
            r@ == self@,
    {
        APISubmissionCase {
            kind: self.kind.clone(),
            case_id: self.case_id,
            status: self.status.clone(),
            time: self.time,
            memory: self.memory,
            points: self.points,
            total: self.total,
        }
    }
}

} // verus!
