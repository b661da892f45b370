//! The decisions of a submission: reading the submit response, unwrapping
//! API responses, one step of the poll loop and the final summary.

use vstd::prelude::*;
use vstd::string::StrSliceExecFns;
use vstd::string::StringExecFns;
use crate::api::{APIResponse, APISubmission, tree_view};
use crate::progress::{Progress, lines_of, pending, shown_after, texts};
use crate::cases::flat_view;
use crate::render::{Tone, is_code, memory_hundredths, paint, painted, whole};
use crate::text::{
    digits, hundredths_text, push_decimal, push_hundredths, push_signed, push_thousandths,
    rounded_quotient, signed_text, thousandths_text,
};

verus! {

/// The HTTP status of a successful submit: a redirect to the submission page.
pub const SUBMIT_REDIRECT: u16 = 302;

/// Milliseconds from the start of one poll to the start of the next.
pub const POLL_INTERVAL_MS: u64 = 1000;

/// The message of a submit that answered with HTTP status `code`.
pub open spec fn status_message(code: u16) -> Seq<char> {
    if code == 400 {
        "Error 400, bad request, the header you provided is invalid"@
    } else if code == 401 {
        "Error 401, unauthorized, the token you provided is invalid"@
    } else if code == 403 {
        "Error 403, forbidden, you are trying to access the admin portion of the site"@
    } else if code == 404 {
        "Error 404, not found, the problem does not exist"@
    } else if code == 500 {
        "Error 500, internal server error"@
    } else {
        "Code "@ + digits(code as nat) + ", unknown network error"@
    }
}

/// The error of a submit answered with HTTP status `code`, or `None` when
/// the submit was redirected to the submission page.
pub fn submit_status_error(code: u16) -> (r: Option<String>)
    ensures
        r is None <==> code == SUBMIT_REDIRECT,
        r is Some ==> r->0@ == status_message(code),
{
    if code == SUBMIT_REDIRECT {
        None
    } else if code == 400 {
        Some(String::from_str("Error 400, bad request, the header you provided is invalid"))
    } else if code == 401 {
        Some(String::from_str("Error 401, unauthorized, the token you provided is invalid"))
    } else if code == 403 {
        Some(
            String::from_str(
                "Error 403, forbidden, you are trying to access the admin portion of the site",
            ),
        )
    } else if code == 404 {
        Some(String::from_str("Error 404, not found, the problem does not exist"))
    } else if code == 500 {
        Some(String::from_str("Error 500, internal server error"))
    } else {
        let mut s = String::from_str("Code ");
        push_decimal(&mut s, code as u128);
        s.append(", unknown network error");
        Some(s)
    }
}

/// Where the segment of `s[..i]` after its last `/` starts (0 if it has none).
pub open spec fn segment_start(s: Seq<char>, i: int) -> int
    decreases i,
{
    if i <= 0 {
        0
    } else if s[i - 1] == '/' {
        i
    } else {
        segment_start(s, i - 1)
    }
}

/// The part of `s` after its last `/`, or all of `s` when it has none.
pub open spec fn last_segment(s: Seq<char>) -> Seq<char> {
    s.subrange(segment_start(s, s.len() as int), s.len() as int)
}

/// The submission id in the URL of a submission page: its last path segment.
pub fn submission_id_from_url(url: &str) -> (r: String)
    ensures
        r@ == last_segment(url@),
{
    let n = url.unicode_len();
    let mut i = n;
    while i > 0 && url.get_char(i - 1) != '/'
        invariant
            n == url@.len(),
            i <= n,
            segment_start(url@, n as int) == segment_start(url@, i as int),
        decreases i,
    {
        i = i - 1;
    }
    String::from_str(url.substring_char(i, n))
}

/// How long to wait before the next poll, when the last one took
/// `elapsed_ms` milliseconds.
pub fn poll_delay_ms(elapsed_ms: u64) -> (r: u64)
    ensures
        r == if elapsed_ms < POLL_INTERVAL_MS { POLL_INTERVAL_MS - elapsed_ms } else { 0 },
{
    POLL_INTERVAL_MS.saturating_sub(elapsed_ms)
}

/// Why an API response gives no usable value.
pub enum ApiError {
    /// The judge reported an error.
    Remote { code: i32, message: String },
    /// The response held neither data nor an error.
    Missing,
    /// A finished submission lacks the time or memory its summary shows.
    Incomplete,
}

/// The text of an API error.
pub open spec fn api_error_text(e: ApiError) -> Seq<char> {
    match e {
        ApiError::Remote { code, message } => "API request failed with code "@ + signed_text(
            code as int,
        ) + " and message `"@ + message@ + "`"@,
        ApiError::Missing => "Neither data nor error were defined in the API response"@,
        ApiError::Incomplete => "The finished submission lacks its time or memory"@,
    }
}

impl ApiError {
    /// The text of this error.
    pub fn describe(&self) -> (r: String)
        ensures
            r@ == api_error_text(*self),
    {
        match self {
            ApiError::Remote { code, message } => {
                let mut s = String::from_str("API request failed with code ");
                push_signed(&mut s, *code);
                s.append(" and message `");
                s.append(message.as_str());
                s.append("`");
                s
            },
            ApiError::Missing => String::from_str(
                "Neither data nor error were defined in the API response",
            ),
            ApiError::Incomplete => String::from_str(
                "The finished submission lacks its time or memory",
            ),
        }
    }
}

/// The data of a response; its error when it reports one, whether or not it
/// also holds data.
pub fn unwrap_response<T>(resp: APIResponse<T>) -> (r: Result<T, ApiError>)
    ensures
        resp.error is Some ==> r == Err::<T, ApiError>(
            (ApiError::Remote { code: resp.error->0.code, message: resp.error->0.message }),
        ),
        resp.error is None && resp.data is Some ==> r == Ok::<T, ApiError>(resp.data->0),
        resp.error is None && resp.data is None ==> r == Err::<T, ApiError>(ApiError::Missing),
{
    if let Some(error) = resp.error {
        Err(ApiError::Remote { code: error.code, message: error.message })
    } else if let Some(data) = resp.data {
        Ok(data)
    } else {
        Err(ApiError::Missing)
    }
}

/// Whether a submission finished with result code `result` has what its
/// summary shows.
pub open spec fn summary_ready(result: Seq<char>, time: Option<u64>, memory: Option<u64>) -> bool {
    ||| result == "IE"@
    ||| result == "CE"@
    ||| result == "AB"@
    ||| (memory is Some && (result == "TLE"@ || time is Some))
}

/// The message shown when grading failed inside the judge.
pub open spec fn internal_error_text() -> Seq<char> {
    "An internal error occurred while grading, and the DMOJ administrators have been notified\nIn the meantime, try resubmitting in a few seconds."@
}

/// The summary lines of a submission finished with result code `result`.
pub open spec fn summary(
    result: Seq<char>,
    time: Option<u64>,
    memory: Option<u64>,
    case_points: u64,
    case_total: u64,
    colored: bool,
) -> Seq<Seq<char>> {
    if result == "IE"@ {
        seq![painted(internal_error_text(), Tone::BrightRed, colored)]
    } else if result == "CE"@ {
        seq!["Compilation error"@]
    } else if result == "AB"@ {
        seq!["Submission aborted!"@]
    } else {
        let elapsed = if result == "TLE"@ {
            "---"@
        } else {
            thousandths_text(time->0 as nat) + "s"@
        };
        seq![
            painted("Resources:"@, Tone::Bold, colored) + " "@ + elapsed + ", "@ + hundredths_text(
                memory_hundredths(memory->0 as nat),
            ) + " MB"@,
            painted("Final score:"@, Tone::Bold, colored) + " "@ + digits(whole(case_points as nat))
                + "/"@ + digits(whole(case_total as nat)),
        ]
    }
}

/// Whether `r` is the summary of a submission finished with result `result`:
/// its lines when the submission has what they show, else `Incomplete`.
pub open spec fn is_summary_of(
    r: Result<Vec<String>, ApiError>,
    result: Seq<char>,
    time: Option<u64>,
    memory: Option<u64>,
    case_points: u64,
    case_total: u64,
    colored: bool,
) -> bool {
    if summary_ready(result, time, memory) {
        r is Ok && texts(r->Ok_0@) == summary(result, time, memory, case_points, case_total, colored)
    } else {
        r == Err::<Vec<String>, ApiError>(ApiError::Incomplete)
    }
}

/// The summary lines of a submission finished with result code `result`.
pub fn summary_lines(
    result: &String,
    time: Option<u64>,
    memory: Option<u64>,
    case_points: u64,
    case_total: u64,
    colored: bool,
) -> (r: Result<Vec<String>, ApiError>)
    ensures
        is_summary_of(r, result@, time, memory, case_points, case_total, colored),
{
    proof {
        reveal_strlit("IE");
        reveal_strlit("CE");
        reveal_strlit("AB");
        assert("CE"@[0] != "IE"@[0]);
        assert("AB"@[0] != "IE"@[0]);
        assert("AB"@[0] != "CE"@[0]);
    }
    let mut lines: Vec<String> = Vec::new();
    if is_code(result, "IE") {
        lines.push(
            paint(
                "An internal error occurred while grading, and the DMOJ administrators have been notified\nIn the meantime, try resubmitting in a few seconds.",
                Tone::BrightRed,
                colored,
            ),
        );
    } else if is_code(result, "CE") {
        lines.push(String::from_str("Compilation error"));
    } else if is_code(result, "AB") {
        lines.push(String::from_str("Submission aborted!"));
    } else {
        let tle = is_code(result, "TLE");
        let mem = match memory {
            Some(m) => m,
            None => {
                return Err(ApiError::Incomplete);
            },
        };
        let mut first = paint("Resources:", Tone::Bold, colored);
        first.append(" ");
        if tle {
            first.append("---");
        } else {
            match time {
                Some(t) => {
                    push_thousandths(&mut first, t as u128);
                    first.append("s");
                },
                None => {
                    return Err(ApiError::Incomplete);
                },
            }
        }
        first.append(", ");
        push_hundredths(&mut first, rounded_quotient(mem as u128 * 100, 1024));
        first.append(" MB");
        let ghost elapsed = if result@ == "TLE"@ {
            "---"@
        } else {
            thousandths_text(time->0 as nat) + "s"@
        };
        assert(first@ =~= painted("Resources:"@, Tone::Bold, colored) + " "@ + elapsed + ", "@
            + hundredths_text(memory_hundredths(mem as nat)) + " MB"@);
        let mut second = paint("Final score:", Tone::Bold, colored);
        second.append(" ");
        push_decimal(&mut second, rounded_quotient(case_points as u128, 1000));
        second.append("/");
        push_decimal(&mut second, rounded_quotient(case_total as u128, 1000));
        assert(second@ =~= painted("Final score:"@, Tone::Bold, colored) + " "@ + digits(
            whole(case_points as nat),
        ) + "/"@ + digits(whole(case_total as nat)));
        lines.push(first);
        lines.push(second);
        assert(texts(lines@) =~= seq![first@, second@]);
    }
    assert(texts(lines@) =~= summary(result@, time, memory, case_points, case_total, colored));
    Ok(lines)
}

/// What one poll of a submission gives to show.
pub struct PollStep {
    /// The lines of the display units not shown before.
    pub lines: Vec<String>,
    /// `None` while grading goes on; once it has finished, the summary.
    pub summary: Option<Result<Vec<String>, ApiError>>,
}

/// Feeds one polled snapshot to the tracker: returns the new lines and,
/// when the submission has a result, its summary.
pub fn poll_step(progress: &mut Progress, sub: APISubmission) -> (r: PollStep)
    ensures
        final(progress).colored == old(progress).colored,
        final(progress).cases@.len() == shown_after(old(progress).cases@.len(), tree_view(sub.cases@)),
        flat_view(final(progress).cases@) == flat_view(old(progress).cases@) + pending(
            old(progress).cases@.len(),
            tree_view(sub.cases@),
        ),
        texts(r.lines@) == lines_of(
            pending(old(progress).cases@.len(), tree_view(sub.cases@)),
            old(progress).colored,
        ),
        sub.result is None <==> r.summary is None,
        sub.result is Some ==> is_summary_of(
            r.summary->0,
            sub.result->0@,
            sub.time,
            sub.memory,
            sub.case_points,
            sub.case_total,
            old(progress).colored,
        ),
{
    let colored = progress.colored;
    let lines = progress.extend(sub.cases);
    let summary = match &sub.result {
        Some(result) => Some(
            summary_lines(result, sub.time, sub.memory, sub.case_points, sub.case_total, colored),
        ),
        None => None,
    };
    PollStep { lines, summary }
}

} // verus!
