//! Failures of the ahead-of-time path and how they are reported. Every failure
//! is followed by a run on Node, so the script runs in any case.

use crate::process::PerryStep;
use crate::text;
use vstd::prelude::*;
use vstd::string::*;

verus! {

/// Where to file a gap of PerryTS.
pub const PERRY_ISSUES_URL: &'static str = "https://github.com/PerryTS/perry/issues";

/// What `perry` wrote in a failing step, word for word.
pub struct RawPerryOutput<T> {
    pub step: PerryStep,
    pub stdout: T,
    pub stderr: T,
}

/// A failure of the ahead-of-time path.
pub struct CookFailure<T> {
    /// What went wrong.
    pub cause: T,
    /// Whether PerryTS is to blame, so that an issue is worth filing there. It is
    /// not for a failure on this side, nor for a binary whose output differs from
    /// Node's: a script that is not deterministic differs as well.
    pub perry_attributable: bool,
    /// What `perry` wrote in the failing step, where it wrote anything.
    pub raw: Option<RawPerryOutput<T>>,
}

impl View for RawPerryOutput<String> {
    type V = RawPerryOutput<Seq<char>>;

    open spec fn view(&self) -> RawPerryOutput<Seq<char>> {
        RawPerryOutput { step: self.step, stdout: self.stdout@, stderr: self.stderr@ }
    }
}

/// Raw output with its texts seen as sequences of characters.
pub open spec fn raw_view(raw: Option<RawPerryOutput<String>>) -> Option<
    RawPerryOutput<Seq<char>>,
> {
    match raw {
        Some(raw) => Some(raw@),
        None => None,
    }
}

impl View for CookFailure<String> {
    type V = CookFailure<Seq<char>>;

    open spec fn view(&self) -> CookFailure<Seq<char>> {
        CookFailure {
            cause: self.cause@,
            perry_attributable: self.perry_attributable,
            raw: raw_view(self.raw),
        }
    }
}

// ---------------------------------------------------------------------------
// Indenting
// ---------------------------------------------------------------------------

/// The lines, each after two spaces.
pub open spec fn indented_lines(lines: Seq<Seq<char>>) -> Seq<Seq<char>> {
    lines.map_values(|line: Seq<char>| "  "@ + line)
}

/// The lines, each after two spaces, as one text with a line feed between each
/// two.
pub open spec fn indented(lines: Seq<Seq<char>>) -> Seq<char> {
    text::joined(indented_lines(lines), "\n"@)
}

/// The lines, each after two spaces, as one text with a line feed between each
/// two.
pub fn indent(lines: &Vec<String>) -> (r: String)
    ensures
        r@ == indented(lines.deep_view()),
{
    let mut shifted: Vec<String> = Vec::new();
    let mut i: usize = 0;
    while i < lines.len()
        invariant
            i <= lines@.len(),
            shifted@.len() == i,
            forall|j: int| 0 <= j < i ==> (#[trigger] shifted@[j])@ == "  "@ + lines@[j]@,
        decreases lines.len() - i,
    {
        shifted.push(text::concat("  ", lines[i].as_str()));
        i += 1;
    }
    assert(shifted.deep_view() =~= indented_lines(lines.deep_view()));
    text::join(&shifted, "\n")
}

// ---------------------------------------------------------------------------
// Reporting
// ---------------------------------------------------------------------------

/// The line that tells where to file an issue.
pub open spec fn issue_link() -> Seq<char> {
    "  This looks like a PerryTS gap — file an issue: "@ + PERRY_ISSUES_URL@
}

/// The line that tells where to file an issue, for a failure that PerryTS is to
/// blame for and for no other.
pub fn issue_link_line(perry_attributable: bool) -> (r: Option<String>)
    ensures
        match r {
            Some(line) => perry_attributable && line@ == issue_link(),
            None => !perry_attributable,
        },
{
    if perry_attributable {
        Some(
            text::concat("  This looks like a PerryTS gap — file an issue: ", PERRY_ISSUES_URL),
        )
    } else {
        None
    }
}

/// One stream of raw output under its heading; nothing where only white space
/// stands in it.
pub open spec fn stream_lines(heading: Seq<char>, stream: Seq<char>) -> Seq<Seq<char>> {
    if text::trimmed(stream).len() == 0 {
        Seq::empty()
    } else {
        seq![heading + text::trimmed_end(stream)]
    }
}

/// The dump of raw output.
pub open spec fn raw_lines(raw: RawPerryOutput<Seq<char>>) -> Seq<Seq<char>> {
    seq!["--- perry "@ + raw.step.text() + " (raw, --debug) ---"@] + stream_lines(
        "[stdout]\n"@,
        raw.stdout,
    ) + stream_lines("[stderr]\n"@, raw.stderr) + seq!["--- end perry output ---"@]
}

/// What is printed about what went wrong: the cause or, under `debug`, the raw
/// output in its place. Where there is no raw output, `debug` says so.
pub open spec fn account(failure: CookFailure<Seq<char>>, debug: bool) -> Seq<Seq<char>> {
    let cause = seq!["nub cook: "@ + failure.cause];
    if debug {
        match failure.raw {
            Some(raw) => raw_lines(raw),
            None => cause + seq!["  (--debug: no raw PerryTS output captured for this step)"@],
        }
    } else {
        cause
    }
}

/// What is printed of a failure before the script runs on Node: what went wrong,
/// where to file an issue if PerryTS is to blame, and that Node takes over.
pub open spec fn report(failure: CookFailure<Seq<char>>, debug: bool) -> Seq<Seq<char>> {
    let link = if failure.perry_attributable {
        seq![issue_link()]
    } else {
        Seq::empty()
    };
    account(failure, debug) + link + seq!["  Running on Node instead."@]
}

/// Appends a line, and says so of the lines' texts.
fn push_line(lines: &mut Vec<String>, line: String)
    ensures
        final(lines).deep_view() == old(lines).deep_view().push(line@),
{
    lines.push(line);
    assert(lines.deep_view() =~= old(lines).deep_view().push(line@));
}

fn push_stream(lines: &mut Vec<String>, heading: &str, stream: &str)
    ensures
        final(lines).deep_view() == old(lines).deep_view() + stream_lines(heading@, stream@),
{
    let solid = text::trim(stream);
    if !solid.as_str().is_empty() {
        let rest = text::trim_end(stream);
        push_line(lines, text::concat(heading, rest.as_str()));
    }
    assert(lines.deep_view() =~= old(lines).deep_view() + stream_lines(heading@, stream@));
}

fn push_raw(lines: &mut Vec<String>, raw: &RawPerryOutput<String>)
    ensures
        final(lines).deep_view() == old(lines).deep_view() + raw_lines(raw@),
{
    let mut heading = text::concat("--- perry ", raw.step.name());
    heading.append(" (raw, --debug) ---");
    push_line(lines, heading);
    push_stream(lines, "[stdout]\n", raw.stdout.as_str());
    push_stream(lines, "[stderr]\n", raw.stderr.as_str());
    push_line(lines, "--- end perry output ---".to_owned());
    assert(lines.deep_view() =~= old(lines).deep_view() + raw_lines(raw@));
}

fn push_account(lines: &mut Vec<String>, failure: &CookFailure<String>, debug: bool)
    ensures
        final(lines).deep_view() == old(lines).deep_view() + account(failure@, debug),
{
    if debug {
        if let Some(raw) = &failure.raw {
            push_raw(lines, raw);
            return;
        }
    }
    push_line(lines, text::concat("nub cook: ", failure.cause.as_str()));
    if debug {
        push_line(
            lines,
            "  (--debug: no raw PerryTS output captured for this step)".to_owned(),
        );
    }
    assert(lines.deep_view() =~= old(lines).deep_view() + account(failure@, debug));
}

/// What is printed of a failure, line by line, before the script runs on Node.
pub fn fail(failure: &CookFailure<String>, debug: bool) -> (r: Vec<String>)
    ensures
        r.deep_view() == report(failure@, debug),
{
    let mut lines: Vec<String> = Vec::new();
    push_account(&mut lines, failure, debug);
    if let Some(line) = issue_link_line(failure.perry_attributable) {
        push_line(&mut lines, line);
    }
    push_line(&mut lines, "  Running on Node instead.".to_owned());
    assert(lines.deep_view() =~= report(failure@, debug));
    lines
}

/// Whatever failed, the report ends with the news that Node takes over, so the
/// user is told that the script runs; and without `debug` it starts with the
/// cause.
pub proof fn law_report_announces_node(failure: CookFailure<Seq<char>>, debug: bool)
    ensures
        report(failure, debug).last() == "  Running on Node instead."@,
        report(failure, false).first() == "nub cook: "@ + failure.cause,
{
}

/// Without `debug` the report holds nothing of the raw output: two failures that
/// differ in it alone are reported alike.
pub proof fn law_raw_output_needs_debug(
    failure: CookFailure<Seq<char>>,
    raw: Option<RawPerryOutput<Seq<char>>>,
)
    ensures
        report(failure, false) == report(CookFailure { raw, ..failure }, false),
{
}

/// A failure that PerryTS is not to blame for is reported as one that it is to
/// blame for, but for the line that tells where to file an issue.
pub proof fn law_link_is_the_only_difference(failure: CookFailure<Seq<char>>, debug: bool)
    requires
        failure.perry_attributable,
    ensures
        ({
            let spared = report(CookFailure { perry_attributable: false, ..failure }, debug);
            report(failure, debug) == spared.drop_last().push(issue_link()).push(spared.last())
        }),
{
    let spared = report(CookFailure { perry_attributable: false, ..failure }, debug);
    assert(report(failure, debug) =~= spared.drop_last().push(issue_link()).push(spared.last()));
}

/// The report tells where to file an issue exactly if PerryTS is to blame.
pub proof fn law_link_exactly_for_blame(failure: CookFailure<Seq<char>>, debug: bool)
    ensures
        report(failure, debug).contains(issue_link()) <==> failure.perry_attributable,
{
    reveal_strlit("nub cook: ");
    reveal_strlit("--- perry ");
    reveal_strlit("[stdout]\n");
    reveal_strlit("[stderr]\n");
    reveal_strlit("--- end perry output ---");
    reveal_strlit("  (--debug: no raw PerryTS output captured for this step)");
    reveal_strlit("  Running on Node instead.");
    reveal_strlit("  This looks like a PerryTS gap — file an issue: ");
    let lines = report(failure, debug);
    let said = account(failure, debug);
    assert(issue_link()[2] == 'T');
    assert forall|i: int| 0 <= i < said.len() implies #[trigger] said[i] != issue_link() by {
        assert(said[i][0] != ' ' || said[i][2] != 'T');
        assert(issue_link()[0] == ' ');
    }
    if failure.perry_attributable {
        assert(lines[said.len() as int] == issue_link());
    } else {
        assert(lines[said.len() as int][2] == 'R');
        assert forall|i: int| 0 <= i < lines.len() implies #[trigger] lines[i]
            != issue_link() by {
            if i < said.len() {
                assert(lines[i] == said[i]);
            }
        }
    }
}

/// Each line of an indented block is the line after two spaces.
pub proof fn law_each_line_is_indented(lines: Seq<Seq<char>>)
    ensures
        indented(lines) == text::joined(
            Seq::new(lines.len(), |i: int| seq![' ', ' '] + lines[i]),
            seq!['\n'],
        ),
{
    reveal_strlit("  ");
    reveal_strlit("\n");
    assert("  "@ =~= seq![' ', ' ']);
    assert("\n"@ =~= seq!['\n']);
    assert(indented_lines(lines) =~= Seq::new(lines.len(), |i: int| seq![' ', ' '] + lines[i]));
}

/// A failure is reported in lines: what went wrong, the link if PerryTS is to
/// blame, and that Node takes over. What went wrong is the cause; with `debug` it
/// is the raw output if there is any, and the cause and a note if there is none.
pub proof fn law_report_line_by_line(failure: CookFailure<Seq<char>>, debug: bool)
    ensures
        ({
            let link = if failure.perry_attributable {
                seq![
                    "  This looks like a PerryTS gap — file an issue: "@
                        + "https://github.com/PerryTS/perry/issues"@,
                ]
            } else {
                Seq::empty()
            };
            let said = if !debug {
                seq!["nub cook: "@ + failure.cause]
            } else if failure.raw is Some {
                raw_lines(failure.raw->0)
            } else {
                seq![
                    "nub cook: "@ + failure.cause,
                    "  (--debug: no raw PerryTS output captured for this step)"@,
                ]
            };
            report(failure, debug) == (said + link).push("  Running on Node instead."@)
        }),
{
    let cause = seq!["nub cook: "@ + failure.cause];
    let note = "  (--debug: no raw PerryTS output captured for this step)"@;
    assert(cause + seq![note] =~= seq!["nub cook: "@ + failure.cause, note]);
}

/// Raw output stands between a line that names the step and a line that ends it:
/// standard output, then standard error, each under its name without the white
/// space at its end, and a stream of nothing but white space not at all.
pub proof fn law_raw_output_stream_by_stream(raw: RawPerryOutput<Seq<char>>)
    ensures
        ({
            let blank_out = text::trimmed(raw.stdout).len() == 0;
            let blank_err = text::trimmed(raw.stderr).len() == 0;
            let first = "--- perry "@ + raw.step.text() + " (raw, --debug) ---"@;
            let out = "[stdout]\n"@ + text::trimmed_end(raw.stdout);
            let err = "[stderr]\n"@ + text::trimmed_end(raw.stderr);
            let last = "--- end perry output ---"@;
            raw_lines(raw) == if blank_out && blank_err {
                seq![first, last]
            } else if blank_out {
                seq![first, err, last]
            } else if blank_err {
                seq![first, out, last]
            } else {
                seq![first, out, err, last]
            }
        }),
{
}

/// A failure is seen in full.
pub proof fn law_failure_is_seen_in_full(failure: CookFailure<String>)
    ensures
        failure@.cause == failure.cause@,
        failure@.perry_attributable == failure.perry_attributable,
        failure.raw is None <==> failure@.raw is None,
        failure.raw matches Some(raw) ==> {
            &&& failure@.raw->0.step == raw.step
            &&& failure@.raw->0.stdout == raw.stdout@
            &&& failure@.raw->0.stderr == raw.stderr@
        },
{
}

} // verus!
