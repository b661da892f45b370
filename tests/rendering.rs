use dmoj_submit::api::{APISubmissionBatch, APISubmissionCase, APISubmissionCaseOrBatch};
use dmoj_submit::cases::{flatten_cases, FlattenedCasesItem};
use dmoj_submit::render::status_is_known;

fn case(status: &str, points: u64, total: u64, time: u64, memory: u64) -> APISubmissionCase {
    APISubmissionCase {
        kind: "case".to_string(),
        case_id: 1,
        status: status.to_string(),
        time,
        memory,
        points,
        total,
    }
}

fn top(status: &str, points: u64, total: u64, time: u64, memory: u64) -> APISubmissionCaseOrBatch {
    APISubmissionCaseOrBatch::Case(case(status, points, total, time, memory))
}

fn batch(total: u64, cases: Vec<APISubmissionCase>) -> APISubmissionCaseOrBatch {
    APISubmissionCaseOrBatch::Batch(APISubmissionBatch {
        kind: "batch".to_string(),
        batch_id: 1,
        cases,
        points: 0,
        total,
    })
}

fn lines(tree: Vec<APISubmissionCaseOrBatch>, colored: bool) -> Vec<String> {
    flatten_cases(tree).iter().map(|u| u.render(colored)).collect()
}

#[test]
fn accepted_case_line() {
    let out = lines(vec![top("AC", 1000, 1000, 100, 2048)], false);
    assert_eq!(out, vec!["Test case #1:   AC [0.100s, 2.00 MB] (1/1)".to_string()]);
}

#[test]
fn accepted_case_line_styled() {
    let out = lines(vec![top("AC", 1000, 1000, 100, 2048)], true);
    assert_eq!(out.len(), 1);
    assert_eq!(
        out[0],
        "\x1b[1mTest case #1:  \x1b[0m \x1b[32mAC\x1b[0m [0.100s, 2.00 MB] (1/1)"
    );
    assert!(out[0].contains("[0.100s, 2.00 MB]"));
    assert!(out[0].contains("(1/1)"));
}

#[test]
fn batch_lines() {
    let tree = vec![batch(10000, vec![case("AC", 1000, 1000, 0, 0), case("WA", 0, 1000, 0, 0)])];
    let out = lines(tree, false);
    assert_eq!(
        out,
        vec![
            "Batch #1 (?/10 points)".to_string(),
            "  Case #1:   AC [0.000s, 0.00 MB]".to_string(),
            "  Case #2:   WA [0.000s, 0.00 MB]".to_string(),
        ]
    );
}

#[test]
fn batch_lines_styled() {
    let tree = vec![batch(10000, vec![case("AC", 1000, 1000, 0, 0), case("WA", 0, 1000, 0, 0)])];
    let out = lines(tree, true);
    assert_eq!(out[0], "\x1b[1mBatch #1\x1b[0m (?/10 points)");
    assert_eq!(out[1], "  Case #1:   \x1b[32mAC\x1b[0m [0.000s, 0.00 MB]");
    assert_eq!(out[2], "  Case #2:   \x1b[38;5;9mWA\x1b[0m [0.000s, 0.00 MB]");
    assert!(!out[1].contains("(1/1)"));
    assert!(!out[2].contains("(0/1)"));
}

#[test]
fn short_circuited_case_line() {
    let out = lines(vec![top("SC", 0, 1000, 0, 0)], false);
    assert_eq!(out, vec!["Test case #1:   \u{2014}".to_string()]);
    let out = lines(vec![batch(5000, vec![case("SC", 0, 1000, 0, 0)])], true);
    assert_eq!(out[1], "  Case #1:   \x1b[30m\u{2014}\x1b[0m");
}

#[test]
fn partial_and_failure_styles() {
    let out = lines(
        vec![
            top("AC", 500, 1000, 1234, 1536),
            top("TLE", 0, 1000, 5000, 0),
            top("MLE", 0, 1000, 0, 0),
            top("XYZ", 0, 1000, 0, 0),
        ],
        true,
    );
    assert_eq!(
        out[0],
        "\x1b[1mTest case #1:  \x1b[0m \x1b[38;5;11mAC\x1b[0m [1.234s, 1.50 MB] (0/1)"
    );
    assert_eq!(
        out[1],
        "\x1b[1mTest case #2:  \x1b[0m \x1b[30mTLE\x1b[0m [5.000s, 0.00 MB] (0/1)"
    );
    assert_eq!(
        out[2],
        "\x1b[1mTest case #3:  \x1b[0m \x1b[31mMLE\x1b[0m [0.000s, 0.00 MB] (0/1)"
    );
    assert_eq!(out[3], "\x1b[1mTest case #4:  \x1b[0m XYZ [0.000s, 0.00 MB] (0/1)");
}

#[test]
fn unknown_status_is_flagged() {
    assert!(status_is_known(&"IR".to_string()));
    assert!(!status_is_known(&"XYZ".to_string()));
    let units = flatten_cases(vec![top("XYZ", 0, 1000, 0, 0), top("AC", 0, 0, 0, 0)]);
    assert!(units[0].has_unexpected_status());
    assert!(!units[1].has_unexpected_status());
}

#[test]
fn rounding_of_figures() {
    // 1 KB is 0.0009765625 MB: rounds to 0.00; 5 KB is 0.0048828125 MB: 0.00;
    // 1029 KB is 1.0048828125 MB: 1.00; 1034 KB is 1.009765625 MB: 1.01
    let out = lines(
        vec![
            top("AC", 1500, 2500, 1, 1),
            top("AC", 2500, 2500, 999, 1029),
            top("AC", 499, 501, 12345, 1034),
        ],
        false,
    );
    assert_eq!(out[0], "Test case #1:   AC [0.001s, 0.00 MB] (2/2)");
    assert_eq!(out[1], "Test case #2:   AC [0.999s, 1.00 MB] (2/2)");
    assert_eq!(out[2], "Test case #3:   AC [12.345s, 1.01 MB] (0/1)");
}

#[test]
fn wide_ordinals_are_not_cut() {
    let tree: Vec<APISubmissionCaseOrBatch> = (0..120).map(|_| top("AC", 0, 0, 0, 0)).collect();
    let out = lines(tree, false);
    assert_eq!(out[9], "Test case #10:  AC [0.000s, 0.00 MB] (0/0)");
    assert_eq!(out[119], "Test case #120: AC [0.000s, 0.00 MB] (0/0)");
}

#[test]
fn gen_msg_is_one_of_the_two_stylings() {
    let units: Vec<FlattenedCasesItem> = flatten_cases(vec![top("WA", 0, 1000, 10, 1024)]);
    let msg = units[0].gen_msg();
    assert!(msg == units[0].render(true) || msg == units[0].render(false));
}

#[test]
fn largest_figures() {
    let out = lines(vec![top("AC", u64::MAX, u64::MAX, u64::MAX, u64::MAX)], false);
    assert_eq!(
        out[0],
        "Test case #1:   AC [18446744073709551.615s, 18014398509481984.00 MB] \
         (18446744073709552/18446744073709552)"
    );
}
