use dmoj_submit::api::{APISubmissionBatch, APISubmissionCase, APISubmissionCaseOrBatch};
use dmoj_submit::cases::flatten_cases;
use dmoj_submit::progress::Progress;

fn case(status: &str) -> APISubmissionCase {
    APISubmissionCase {
        kind: "case".to_string(),
        case_id: 1,
        status: status.to_string(),
        time: 10,
        memory: 1024,
        points: 1000,
        total: 1000,
    }
}

fn top(status: &str) -> APISubmissionCaseOrBatch {
    APISubmissionCaseOrBatch::Case(case(status))
}

fn batch(n: usize) -> APISubmissionCaseOrBatch {
    APISubmissionCaseOrBatch::Batch(APISubmissionBatch {
        kind: "batch".to_string(),
        batch_id: 1,
        cases: (0..n).map(|_| case("AC")).collect(),
        points: 0,
        total: 3000,
    })
}

fn shape(tree: Vec<APISubmissionCaseOrBatch>) -> Vec<(bool, usize, bool)> {
    flatten_cases(tree)
        .iter()
        .map(|u| {
            let is_batch = matches!(u.item, APISubmissionCaseOrBatch::Batch(_));
            (u.is_batched_case, u.num, is_batch)
        })
        .collect()
}

#[test]
fn numbering_of_mixed_tree() {
    let got = shape(vec![top("AC"), batch(3), top("AC")]);
    assert_eq!(
        got,
        vec![
            (false, 1, false),
            (false, 2, true),
            (true, 1, false),
            (true, 2, false),
            (true, 3, false),
            (false, 3, false),
        ]
    );
}

#[test]
fn batch_header_carries_no_cases() {
    let units = flatten_cases(vec![batch(2)]);
    match &units[0].item {
        APISubmissionCaseOrBatch::Batch(b) => {
            assert!(b.cases.is_empty());
            assert_eq!(b.total, 3000);
        }
        APISubmissionCaseOrBatch::Case(_) => panic!("expected a batch header"),
    }
}

#[test]
fn empty_tree_and_pending_batch() {
    assert!(flatten_cases(Vec::new()).is_empty());
    assert_eq!(shape(vec![batch(0)]), vec![(false, 1, true)]);
}

#[test]
fn flatten_twice_is_identical() {
    let a: Vec<String> = flatten_cases(vec![top("AC"), batch(2), top("WA")])
        .iter()
        .map(|u| u.render(false))
        .collect();
    let b: Vec<String> = flatten_cases(vec![top("AC"), batch(2), top("WA")])
        .iter()
        .map(|u| u.render(false))
        .collect();
    assert_eq!(a, b);
}

#[test]
fn extension_keeps_prefix() {
    let before: Vec<String> = flatten_cases(vec![top("AC"), batch(1)])
        .iter()
        .map(|u| u.render(false))
        .collect();
    let after: Vec<String> = flatten_cases(vec![top("AC"), batch(3), top("WA")])
        .iter()
        .map(|u| u.render(false))
        .collect();
    assert_eq!(before.len(), 3);
    assert_eq!(after.len(), 6);
    assert_eq!(&after[..3], &before[..]);
}

#[test]
fn extend_never_reemits() {
    let mut p = Progress::with_styling(false);
    let first = p.extend(vec![top("AC"), batch(1)]);
    let second = p.extend(vec![top("AC"), batch(3), top("WA")]);
    assert_eq!(first.len(), 3);
    assert_eq!(second.len(), 3);
    assert_eq!(first.len() + second.len(), 6);
    assert_eq!(second[0], "  Case #2:   AC [0.010s, 1.00 MB]");
    assert_eq!(second[2], "Test case #3:   WA [0.010s, 1.00 MB] (1/1)");
    assert_eq!(p.finish(), 6);
}

#[test]
fn extend_same_snapshot_twice() {
    let mut p = Progress::with_styling(false);
    let first = p.extend(vec![top("AC"), batch(2)]);
    let second = p.extend(vec![top("AC"), batch(2)]);
    assert_eq!(first.len(), 4);
    assert!(second.is_empty());
    assert_eq!(p.cases.len(), 4);
}

#[test]
fn extend_with_shorter_snapshot_is_a_no_op() {
    let mut p = Progress::with_styling(false);
    p.extend(vec![top("AC"), top("AC")]);
    let again = p.extend(vec![top("AC")]);
    assert!(again.is_empty());
    assert_eq!(p.cases.len(), 2);
}

#[test]
fn fresh_tracker_shows_nothing() {
    let p = Progress::new();
    assert!(p.cases.is_empty());
    assert_eq!(p.finish(), 0);
}
