//! Rendering of a display unit as one status line.

use vstd::prelude::*;
use vstd::string::StringExecFns;
use crate::api::{APISubmissionCase, APISubmissionCaseOrBatch, CaseView, UnitView};
use crate::cases::{FlatView, FlattenedCasesItem};
use crate::text::{
    digits, hundredths_text, pad_right, pad_right_to, push_decimal, push_hundredths,
    push_thousandths, round_half_even, rounded_quotient, thousandths_text,
};

verus! {

/// The terminal style of a piece of a line.
#[derive(Clone, Copy, PartialEq, Eq, Debug)]
pub enum Tone {
    Plain,
    Bold,
    Green,
    BrightYellow,
    BrightRed,
    Black,
    Red,
    BoldUnderlined,
}

/// `t` in the style `tone`: wrapped in the ANSI codes of the style and a
/// reset when styling is on, unchanged when it is off.
pub open spec fn painted(t: Seq<char>, tone: Tone, colored: bool) -> Seq<char> {
    if !colored {
        t
    } else {
        match tone {
            Tone::Plain => t,
            Tone::Bold => "\x1b[1m"@ + t + "\x1b[0m"@,
            Tone::Green => "\x1b[32m"@ + t + "\x1b[0m"@,
            Tone::BrightYellow => "\x1b[38;5;11m"@ + t + "\x1b[0m"@,
            Tone::BrightRed => "\x1b[38;5;9m"@ + t + "\x1b[0m"@,
            Tone::Black => "\x1b[30m"@ + t + "\x1b[0m"@,
            Tone::Red => "\x1b[31m"@ + t + "\x1b[0m"@,
            Tone::BoldUnderlined => "\x1b[1m\x1b[4m"@ + t + "\x1b[0m"@,
        }
    }
}

/// Relies on console's `style`, `StyledObject::force_styling` and its color
/// and attribute methods: with styling forced on, the text is written after
/// the ANSI codes of its color and of its attributes (in the order bold,
/// underlined) and followed by a reset; with
/// styling forced off, or with no style, it is written unchanged.
#[verifier::external_body]
pub(crate) fn paint(text: &str, tone: Tone, colored: bool) -> (r: String)
    ensures
        r@ == painted(text@, tone, colored),
{
    let s = console::style(text).force_styling(colored);
    let s = match tone {
        Tone::Plain => s,
        Tone::Bold => s.bold(),
        Tone::Green => s.green(),
        Tone::BrightYellow => s.yellow().bright(),
        Tone::BrightRed => s.red().bright(),
        Tone::Black => s.black(),
        Tone::Red => s.red(),
        Tone::BoldUnderlined => s.underlined().bold(),
    };
    s.to_string()
}

/// Relies on console::colors_enabled: whether output to stdout is styled,
/// which depends on the terminal and the environment.
#[verifier::external_body]
pub(crate) fn colors_on() -> (r: bool) {
    console::colors_enabled()
}

/// Whether `st` is a status code this client knows.
pub open spec fn known_status(st: Seq<char>) -> bool {
    ||| st == "AC"@
    ||| st == "WA"@
    ||| st == "TLE"@
    ||| st == "SC"@
    ||| st == "MLE"@
    ||| st == "OLE"@
    ||| st == "RTE"@
    ||| st == "IR"@
}

/// The style of a case's status.
pub open spec fn status_tone(c: CaseView) -> Tone {
    if c.status == "AC"@ {
        if c.points == c.total {
            Tone::Green
        } else {
            Tone::BrightYellow
        }
    } else if c.status == "WA"@ {
        Tone::BrightRed
    } else if c.status == "TLE"@ || c.status == "SC"@ {
        Tone::Black
    } else if c.status == "MLE"@ || c.status == "OLE"@ || c.status == "RTE"@ || c.status == "IR"@ {
        Tone::Red
    } else {
        Tone::Plain
    }
}

/// The status as shown: a dash for a short-circuited case, else the code.
pub open spec fn status_text(c: CaseView) -> Seq<char> {
    if c.status == "SC"@ {
        "\u{2014}"@
    } else {
        c.status
    }
}

/// Memory in hundredths of a megabyte, from kilobytes.
pub open spec fn memory_hundredths(kb: nat) -> nat {
    round_half_even(kb * 100, 1024)
}

/// A count of thousandths rounded to a whole number.
pub open spec fn whole(v: nat) -> nat {
    round_half_even(v, 1000)
}

/// `[<time>s, <memory> MB]`.
pub open spec fn time_memory_text(c: CaseView) -> Seq<char> {
    "["@ + thousandths_text(c.time as nat) + "s, "@ + hundredths_text(memory_hundredths(c.memory as nat))
        + " MB]"@
}

/// `(<points>/<total>)`.
pub open spec fn points_text(c: CaseView) -> Seq<char> {
    "("@ + digits(whole(c.points as nat)) + "/"@ + digits(whole(c.total as nat)) + ")"@
}

/// `#<ordinal>:` padded to five characters.
pub open spec fn case_label(num: nat) -> Seq<char> {
    pad_right("#"@ + digits(num) + ":"@, 5)
}

/// The line of a case unit.
pub open spec fn case_line(c: CaseView, batched: bool, num: nat, colored: bool) -> Seq<char> {
    let title = if batched {
        painted("  Case "@ + case_label(num), Tone::Plain, colored)
    } else {
        painted("Test case "@ + case_label(num), Tone::Bold, colored)
    };
    let head = title + " "@ + painted(status_text(c), status_tone(c), colored);
    if c.status == "SC"@ {
        head
    } else if batched {
        head + " "@ + time_memory_text(c)
    } else {
        head + " "@ + time_memory_text(c) + " "@ + points_text(c)
    }
}

/// The line of a display unit.
pub open spec fn line(u: FlatView, colored: bool) -> Seq<char> {
    match u.item {
        UnitView::Case(c) => case_line(c, u.is_batched_case, u.num, colored),
        UnitView::Batch(b) => painted("Batch #"@ + digits(u.num), Tone::Bold, colored) + " (?/"@
            + digits(whole(b.total as nat)) + " points)"@,
    }
}

/// Whether `s` holds exactly the text `code`.
pub(crate) fn is_code(s: &String, code: &str) -> (r: bool)
    ensures
        r == (s@ == code@),
{
    let c = String::from_str(code);
    s.eq(&c)
}

/// Whether `status` is a status code this client knows.
pub fn status_is_known(status: &String) -> (r: bool)
    ensures
        r == known_status(status@),
{
    is_code(status, "AC") || is_code(status, "WA") || is_code(status, "TLE") || is_code(status, "SC")
        || is_code(status, "MLE") || is_code(status, "OLE") || is_code(status, "RTE")
        || is_code(status, "IR")
}

/// The styled status of a case.
fn status_piece(c: &APISubmissionCase, colored: bool) -> (r: String)
    ensures
        r@ == painted(status_text(c@), status_tone(c@), colored),
{
    proof {
        reveal_strlit("AC");
        reveal_strlit("WA");
        reveal_strlit("TLE");
        reveal_strlit("SC");
        reveal_strlit("MLE");
        reveal_strlit("OLE");
        reveal_strlit("RTE");
        reveal_strlit("IR");
        assert("AC"@[0] != "SC"@[0]);
        assert("WA"@[0] != "SC"@[0]);
        assert("IR"@[0] != "SC"@[0]);
        assert("TLE"@.len() != "SC"@.len());
        assert("MLE"@.len() != "SC"@.len());
        assert("OLE"@.len() != "SC"@.len());
        assert("RTE"@.len() != "SC"@.len());
    }
    if is_code(&c.status, "AC") {
        if c.points == c.total {
            paint(c.status.as_str(), Tone::Green, colored)
        } else {
            paint(c.status.as_str(), Tone::BrightYellow, colored)
        }
    } else if is_code(&c.status, "WA") {
        paint(c.status.as_str(), Tone::BrightRed, colored)
    } else if is_code(&c.status, "TLE") {
        paint(c.status.as_str(), Tone::Black, colored)
    } else if is_code(&c.status, "SC") {
        paint("\u{2014}", Tone::Black, colored)
    } else if is_code(&c.status, "MLE") || is_code(&c.status, "OLE") || is_code(&c.status, "RTE")
        || is_code(&c.status, "IR") {
        paint(c.status.as_str(), Tone::Red, colored)
    } else {
        paint(c.status.as_str(), Tone::Plain, colored)
    }
}

/// Appends `[<time>s, <memory> MB]`.
fn push_time_memory(out: &mut String, c: &APISubmissionCase)
    ensures
        final(out)@ == old(out)@ + time_memory_text(c@),
{
    let ghost start = out@;
    out.append("[");
    push_thousandths(out, c.time as u128);
    out.append("s, ");
    let h = rounded_quotient(c.memory as u128 * 100, 1024);
    push_hundredths(out, h);
    out.append(" MB]");
    assert(out@ =~= start + time_memory_text(c@));
}

/// Appends `(<points>/<total>)`.
fn push_points(out: &mut String, c: &APISubmissionCase)
    ensures
        final(out)@ == old(out)@ + points_text(c@),
{
    let ghost start = out@;
    out.append("(");
    push_decimal(out, rounded_quotient(c.points as u128, 1000));
    out.append("/");
    push_decimal(out, rounded_quotient(c.total as u128, 1000));
    out.append(")");
    assert(out@ =~= start + points_text(c@));
}

/// The line of a case unit.
fn render_case(c: &APISubmissionCase, batched: bool, num: usize, colored: bool) -> (r: String)
    ensures
        r@ == case_line(c@, batched, num as nat, colored),
{
    let mut label = String::from_str("#");
    push_decimal(&mut label, num as u128);
    label.append(":");
    let label = pad_right_to(label, 5);
    let title = if batched {
        let t = String::from_str("  Case ").concat(label.as_str());
        paint(t.as_str(), Tone::Plain, colored)
    } else {
        let t = String::from_str("Test case ").concat(label.as_str());
        paint(t.as_str(), Tone::Bold, colored)
    };
    let mut out = title;
    out.append(" ");
    let status = status_piece(c, colored);
    out.append(status.as_str());
    if is_code(&c.status, "SC") {
    } else if batched {
        out.append(" ");
        push_time_memory(&mut out, c);
    } else {
        out.append(" ");
        push_time_memory(&mut out, c);
        out.append(" ");
        push_points(&mut out, c);
    }
    assert(out@ =~= case_line(c@, batched, num as nat, colored));
    out
}

impl FlattenedCasesItem {
    /// The status line of this unit, styled when `colored` holds.
    pub fn render(&self, colored: bool) -> (r: String)
        ensures
            r@ == line(self@, colored),
    {
        match &self.item {
            APISubmissionCaseOrBatch::Case(c) => render_case(c, self.is_batched_case, self.num, colored),
            APISubmissionCaseOrBatch::Batch(b) => {
                let mut t = String::from_str("Batch #");
                push_decimal(&mut t, self.num as u128);
                let mut out = paint(t.as_str(), Tone::Bold, colored);
                out.append(" (?/");
                push_decimal(&mut out, rounded_quotient(b.total as u128, 1000));
                out.append(" points)");
                assert(out@ =~= line(self@, colored));
                out
            },
        }
    }

    /// The status line of this unit, styled as the terminal allows.
    pub fn gen_msg(&self) -> (r: String)
        ensures
            r@ == line(self@, true) || r@ == line(self@, false),
    {
        self.render(colors_on())
    }

    /// Whether this unit is a case whose status code this client does not know.
    pub fn has_unexpected_status(&self) -> (r: bool)
        ensures
            r == (self@.item is Case && !known_status(self@.item->Case_0.status)),
    {
        match &self.item {
            APISubmissionCaseOrBatch::Case(c) => !status_is_known(&c.status),
            APISubmissionCaseOrBatch::Batch(_) => false,
        }
    }
}

} // verus!
