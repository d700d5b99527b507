//! What `perry check` says about a script, and whether it lets the script through.
//!
//! `perry check --format json` writes one JSON object per line: diagnostics,
//! then a summary. PerryTS owns the decision, which is only read here.

use crate::bound;
use crate::bound::Bound;
use crate::failure::RawPerryOutput;
use crate::outside;
use crate::outside::{Field, Member};
use crate::process::{PerryStep, Ran, Timed};
use crate::text;
use vstd::prelude::*;
use vstd::string::*;

verus! {

/// What the check comes to. `T` is a text, `L` a row of texts.
pub enum Gate<T, L> {
    /// The script compiles, says this version of `perry`.
    Compilable { perry_version: T },
    /// The script does not compile, for the reasons given.
    Unsupported { diagnostics: L, raw: RawPerryOutput<T> },
    /// The check looked at no file at all, so it says nothing about the script:
    /// `perry check` does not discover every extension that `perry compile`
    /// takes. Compiling and verifying decides.
    Indeterminate { perry_version: T },
    /// There is no answer.
    Unavailable { note: T },
}

impl View for Gate<String, Vec<String>> {
    type V = Gate<Seq<char>, Seq<Seq<char>>>;

    open spec fn view(&self) -> Gate<Seq<char>, Seq<Seq<char>>> {
        match *self {
            Gate::Compilable { perry_version } => Gate::Compilable {
                perry_version: perry_version@,
            },
            Gate::Unsupported { diagnostics, raw } => Gate::Unsupported {
                diagnostics: diagnostics.deep_view(),
                raw: raw@,
            },
            Gate::Indeterminate { perry_version } => Gate::Indeterminate {
                perry_version: perry_version@,
            },
            Gate::Unavailable { note } => Gate::Unavailable { note: note@ },
        }
    }
}

// ---------------------------------------------------------------------------
// Members of a line
// ---------------------------------------------------------------------------

/// The value of the member with this key.
pub open spec fn member(members: Seq<Member<Seq<char>>>, key: Seq<char>) -> Option<
    Field<Seq<char>>,
>
    decreases members.len(),
{
    if members.len() == 0 {
        None
    } else if members[0].key == key {
        Some(members[0].value)
    } else {
        member(members.drop_first(), key)
    }
}

/// The value of the member with this key, if it is a string.
pub open spec fn text_member(members: Seq<Member<Seq<char>>>, key: Seq<char>) -> Option<
    Seq<char>,
> {
    match member(members, key) {
        Some(Field::Text(t)) => Some(t),
        _ => None,
    }
}

/// The value of the member with this key, if it is a boolean.
pub open spec fn flag_member(members: Seq<Member<Seq<char>>>, key: Seq<char>) -> Option<bool> {
    match member(members, key) {
        Some(Field::Flag(b)) => Some(b),
        _ => None,
    }
}

/// The value of the member with this key, if it is an integer from 0 up to
/// 2^64 - 1.
pub open spec fn number_member(members: Seq<Member<Seq<char>>>, key: Seq<char>) -> Option<u64> {
    match member(members, key) {
        Some(Field::Number(n)) => n,
        _ => None,
    }
}

fn find_member<'a>(members: &'a Vec<Member<String>>, key: &str) -> (r: Option<&'a Field<String>>)
    ensures
        match r {
            Some(field) => member(outside::member_views(members@), key@) == Some(field@),
            None => member(outside::member_views(members@), key@) is None,
        },
{
    let ghost all = outside::member_views(members@);
    let mut i: usize = 0;
    assert(all.skip(0) == all);
    while i < members.len()
        invariant
            i <= members@.len(),
            all == outside::member_views(members@),
            member(all.skip(i as int), key@) == member(all, key@),
        decreases members.len() - i,
    {
        assert(all.skip(i as int)[0] == members@[i as int]@);
        assert(all.skip(i as int).drop_first() == all.skip(i + 1));
        if text::same_text(members[i].key.as_str(), key) {
            return Some(&members[i].value);
        }
        i += 1;
    }
    None
}

fn find_text(members: &Vec<Member<String>>, key: &str) -> (r: Option<String>)
    ensures
        match r {
            Some(t) => text_member(outside::member_views(members@), key@) == Some(t@),
            None => text_member(outside::member_views(members@), key@) is None,
        },
{
    match find_member(members, key) {
        Some(Field::Text(t)) => Some(t.clone()),
        _ => None,
    }
}

fn find_flag(members: &Vec<Member<String>>, key: &str) -> (r: Option<bool>)
    ensures
        r == flag_member(outside::member_views(members@), key@),
{
    match find_member(members, key) {
        Some(Field::Flag(b)) => Some(*b),
        _ => None,
    }
}

fn find_number(members: &Vec<Member<String>>, key: &str) -> (r: Option<u64>)
    ensures
        r == number_member(outside::member_views(members@), key@),
{
    match find_member(members, key) {
        Some(Field::Number(n)) => *n,
        _ => None,
    }
}

// ---------------------------------------------------------------------------
// One line
// ---------------------------------------------------------------------------

/// What one line of the check says.
pub enum CheckLine<T> {
    /// The summary: whether the script compiles, and how many files the check
    /// looked at, as far as the line tells.
    Summary { compilable: Option<bool>, files: Option<u64> },
    /// A diagnostic in words, with its code before it.
    Diagnostic { message: T },
    /// Only how many files the check looked at: the line of a check that found
    /// none.
    Count { found: u64 },
    /// Nothing that matters here.
    Silent,
}

impl View for CheckLine<String> {
    type V = CheckLine<Seq<char>>;

    open spec fn view(&self) -> CheckLine<Seq<char>> {
        match *self {
            CheckLine::Summary { compilable, files } => CheckLine::Summary { compilable, files },
            CheckLine::Diagnostic { message } => CheckLine::Diagnostic { message: message@ },
            CheckLine::Count { found } => CheckLine::Count { found },
            CheckLine::Silent => CheckLine::Silent,
        }
    }
}

/// Whether a summary says that the script compiles: `compilation_guaranteed`,
/// which covers code generation, and `success`, which does not, only where the
/// first is absent.
pub open spec fn summary_verdict(members: Seq<Member<Seq<char>>>) -> Option<bool> {
    match flag_member(members, "compilation_guaranteed"@) {
        Some(b) => Some(b),
        None => flag_member(members, "success"@),
    }
}

/// What one line of the check says.
pub open spec fn line_of(members: Seq<Member<Seq<char>>>) -> CheckLine<Seq<char>> {
    if text_member(members, "type"@) == Some("summary"@) {
        CheckLine::Summary {
            compilable: summary_verdict(members),
            files: number_member(members, "files_checked"@),
        }
    } else {
        match (text_member(members, "message"@), number_member(members, "files"@)) {
            (Some(message), _) => CheckLine::Diagnostic {
                message: match text_member(members, "code"@) {
                    Some(code) => "["@ + code + "] "@ + message,
                    None => message,
                },
            },
            (None, Some(found)) => CheckLine::Count { found },
            (None, None) => CheckLine::Silent,
        }
    }
}

/// What one line of the check says, from the members of its object.
pub fn read_check_line(members: &Vec<Member<String>>) -> (r: CheckLine<String>)
    ensures
        r@ == line_of(outside::member_views(members@)),
{
    let is_summary = match find_text(members, "type") {
        Some(kind) => text::same_text(kind.as_str(), "summary"),
        None => false,
    };
    if is_summary {
        let compilable = match find_flag(members, "compilation_guaranteed") {
            Some(b) => Some(b),
            None => find_flag(members, "success"),
        };
        return CheckLine::Summary { compilable, files: find_number(members, "files_checked") };
    }
    if let Some(message) = find_text(members, "message") {
        return match find_text(members, "code") {
            Some(code) => {
                let mut words = text::concat("[", code.as_str());
                words.append("] ");
                words.append(message.as_str());
                CheckLine::Diagnostic { message: words }
            },
            None => CheckLine::Diagnostic { message },
        };
    }
    match find_number(members, "files") {
        Some(found) => CheckLine::Count { found },
        None => CheckLine::Silent,
    }
}

// ---------------------------------------------------------------------------
// All lines
// ---------------------------------------------------------------------------

/// What the lines say that are JSON; the others are passed over.
pub open spec fn json_lines(texts: Seq<Seq<char>>) -> Seq<CheckLine<Seq<char>>>
    decreases texts.len(),
{
    if texts.len() == 0 {
        Seq::empty()
    } else {
        let before = json_lines(texts.drop_last());
        match outside::json_members(texts.last()) {
            Some(members) => before.push(line_of(members)),
            None => before,
        }
    }
}

/// What the output of the check says, line by line.
pub open spec fn check_lines(stdout: Seq<char>) -> Seq<CheckLine<Seq<char>>> {
    json_lines(text::solid_lines(stdout))
}

/// Whether the script compiles, says the last summary.
pub open spec fn last_verdict(lines: Seq<CheckLine<Seq<char>>>) -> Option<bool>
    decreases lines.len(),
{
    if lines.len() == 0 {
        None
    } else {
        match lines.last() {
            CheckLine::Summary { compilable, .. } => compilable,
            _ => last_verdict(lines.drop_last()),
        }
    }
}

/// How many files the check looked at, says the last line that tells.
pub open spec fn last_count(lines: Seq<CheckLine<Seq<char>>>) -> Option<u64>
    decreases lines.len(),
{
    if lines.len() == 0 {
        None
    } else {
        match lines.last() {
            CheckLine::Summary { files: Some(n), .. } => Some(n),
            CheckLine::Count { found } => Some(found),
            _ => last_count(lines.drop_last()),
        }
    }
}

/// The diagnostics, in order.
pub open spec fn messages(lines: Seq<CheckLine<Seq<char>>>) -> Seq<Seq<char>>
    decreases lines.len(),
{
    if lines.len() == 0 {
        Seq::empty()
    } else {
        match lines.last() {
            CheckLine::Diagnostic { message } => messages(lines.drop_last()).push(message),
            _ => messages(lines.drop_last()),
        }
    }
}

/// What matters of the output of a check. `L` is a row of texts.
pub struct CheckReport<L> {
    /// Whether the script compiles, says the last summary.
    pub compilable: Option<bool>,
    /// The diagnostics, in order.
    pub diagnostics: L,
    /// How many files the check looked at, says the last line that tells.
    pub files_evaluated: Option<u64>,
}

impl View for CheckReport<Vec<String>> {
    type V = CheckReport<Seq<Seq<char>>>;

    open spec fn view(&self) -> CheckReport<Seq<Seq<char>>> {
        CheckReport {
            compilable: self.compilable,
            diagnostics: self.diagnostics.deep_view(),
            files_evaluated: self.files_evaluated,
        }
    }
}

/// What matters of the lines.
pub open spec fn report_of(lines: Seq<CheckLine<Seq<char>>>) -> CheckReport<Seq<Seq<char>>> {
    CheckReport {
        compilable: last_verdict(lines),
        diagnostics: messages(lines),
        files_evaluated: last_count(lines),
    }
}

/// What matters once one more line is read.
pub open spec fn absorbed(
    report: CheckReport<Seq<Seq<char>>>,
    line: CheckLine<Seq<char>>,
) -> CheckReport<Seq<Seq<char>>> {
    match line {
        CheckLine::Summary { compilable, files } => CheckReport {
            compilable,
            files_evaluated: match files {
                Some(n) => Some(n),
                None => report.files_evaluated,
            },
            ..report
        },
        CheckLine::Diagnostic { message } => CheckReport {
            diagnostics: report.diagnostics.push(message),
            ..report
        },
        CheckLine::Count { found } => CheckReport { files_evaluated: Some(found), ..report },
        CheckLine::Silent => report,
    }
}

/// Reading the lines one after the other comes to the same as reading them all.
pub proof fn law_lines_are_absorbed_one_by_one(
    lines: Seq<CheckLine<Seq<char>>>,
    line: CheckLine<Seq<char>>,
)
    ensures
        report_of(lines.push(line)) == absorbed(report_of(lines), line),
{
    assert(lines.push(line).drop_last() == lines);
}

impl CheckReport<Vec<String>> {
    /// The report of a check that has said nothing.
    pub fn silent() -> (r: Self)
        ensures
            r@ == report_of(Seq::empty()),
    {
        let r = CheckReport { compilable: None, diagnostics: Vec::new(), files_evaluated: None };
        assert(r.diagnostics.deep_view() =~= Seq::<Seq<char>>::empty());
        r
    }

    /// Takes one more line.
    pub fn absorb(&mut self, line: CheckLine<String>)
        ensures
            final(self)@ == absorbed(old(self)@, line@),
    {
        match line {
            CheckLine::Summary { compilable, files } => {
                self.compilable = compilable;
                if let Some(n) = files {
                    self.files_evaluated = Some(n);
                }
            },
            CheckLine::Diagnostic { message } => {
                let ghost before = self.diagnostics.deep_view();
                self.diagnostics.push(message);
                assert(self.diagnostics.deep_view() =~= before.push(message@));
            },
            CheckLine::Count { found } => {
                self.files_evaluated = Some(found);
            },
            CheckLine::Silent => {},
        }
    }
}

/// What matters of the output of a check.
pub fn read_check(stdout: &str) -> (r: CheckReport<Vec<String>>)
    ensures
        r@ == report_of(check_lines(stdout@)),
{
    let lines = text::nonempty_lines(stdout);
    let ghost texts = lines.deep_view();
    let mut report = CheckReport::silent();
    let mut i: usize = 0;
    assert(json_lines(texts.take(0)) == Seq::<CheckLine<Seq<char>>>::empty());
    while i < lines.len()
        invariant
            i <= lines@.len(),
            texts == lines.deep_view(),
            report@ == report_of(json_lines(texts.take(i as int))),
        decreases lines.len() - i,
    {
        assert(texts.take(i + 1).drop_last() == texts.take(i as int));
        assert(texts.take(i + 1).last() == lines@[i as int]@);
        if let Some(members) = outside::parse_json(lines[i].as_str()) {
            let line = read_check_line(&members);
            proof {
                law_lines_are_absorbed_one_by_one(json_lines(texts.take(i as int)), line@);
            }
            report.absorb(line);
        }
        i += 1;
    }
    assert(texts.take(texts.len() as int) == texts);
    report
}

// ---------------------------------------------------------------------------
// The verdict
// ---------------------------------------------------------------------------

/// What a report comes to. A check that looked at no file says nothing about the
/// script, whatever else it reports.
pub open spec fn verdict(
    report: CheckReport<Seq<Seq<char>>>,
    stdout: Seq<char>,
    stderr: Seq<u8>,
    version: Seq<char>,
) -> Gate<Seq<char>, Seq<Seq<char>>> {
    if report.files_evaluated == Some(0u64) {
        Gate::Indeterminate { perry_version: version }
    } else {
        match report.compilable {
            Some(true) => Gate::Compilable { perry_version: version },
            Some(false) => Gate::Unsupported {
                diagnostics: if report.diagnostics.len() == 0 {
                    seq!["(no diagnostics reported)"@]
                } else {
                    report.diagnostics
                },
                raw: RawPerryOutput {
                    step: PerryStep::Check,
                    stdout,
                    stderr: outside::utf8_lossy(stderr),
                },
            },
            None => Gate::Unavailable {
                note: "`perry check` produced no summary (stderr: "@ + text::trimmed(
                    outside::utf8_lossy(stderr),
                ) + ")"@,
            },
        }
    }
}

/// What a report comes to; `stdout` and `stderr` are what the check wrote, and
/// `version` is the `perry` that was asked.
pub fn check_verdict(
    report: CheckReport<Vec<String>>,
    stdout: &str,
    stderr: &[u8],
    version: &str,
) -> (r: Gate<String, Vec<String>>)
    ensures
        r@ == verdict(report@, stdout@, stderr@, version@),
{
    if let Some(n) = report.files_evaluated {
        if n == 0 {
            return Gate::Indeterminate { perry_version: version.to_owned() };
        }
    }
    match report.compilable {
        Some(true) => Gate::Compilable { perry_version: version.to_owned() },
        Some(false) => {
            let mut diagnostics = report.diagnostics;
            assert(diagnostics.deep_view().len() == diagnostics@.len());
            if diagnostics.len() == 0 {
                diagnostics.push("(no diagnostics reported)".to_owned());
                assert(diagnostics.deep_view() =~= seq!["(no diagnostics reported)"@]);
            }
            Gate::Unsupported {
                diagnostics,
                raw: RawPerryOutput {
                    step: PerryStep::Check,
                    stdout: stdout.to_owned(),
                    stderr: outside::from_utf8_lossy(stderr),
                },
            }
        },
        None => {
            let words = outside::from_utf8_lossy(stderr);
            let solid = text::trim(words.as_str());
            let mut note = text::concat(
                "`perry check` produced no summary (stderr: ",
                solid.as_str(),
            );
            note.append(")");
            Gate::Unavailable { note }
        },
    }
}

/// What the output of `perry check` comes to.
pub open spec fn classified(stdout: Seq<char>, stderr: Seq<u8>, version: Seq<char>) -> Gate<
    Seq<char>,
    Seq<Seq<char>>,
> {
    verdict(report_of(check_lines(stdout)), stdout, stderr, version)
}

/// What the output of `perry check` comes to.
pub fn classify_check(stdout: &str, stderr: &[u8], version: &str) -> (r: Gate<
    String,
    Vec<String>,
>)
    ensures
        r@ == classified(stdout@, stderr@, version@),
{
    let report = read_check(stdout);
    check_verdict(report, stdout, stderr, version)
}

/// That a step did not end within its bound.
pub open spec fn too_slow(step: PerryStep, bound: Bound) -> Seq<char> {
    "`perry "@ + step.text() + "` did not finish within "@ + bound::bound_text(bound)
}

/// That a step did not end within its bound.
pub fn too_slow_text(step: PerryStep, bound: Bound) -> (r: String)
    ensures
        r@ == too_slow(step, bound),
{
    let mut r = text::concat("`perry ", step.name());
    r.append("` did not finish within ");
    let limit = bound::fmt_bound(bound);
    r.append(limit.as_str());
    r
}

/// What a run of `perry check` comes to: its output decides, whatever its exit
/// status; a run that did not end in time, or could not start, gives no answer.
pub open spec fn gated(ran: Ran<Seq<char>, Seq<u8>>, bound: Bound, version: Seq<char>) -> Gate<
    Seq<char>,
    Seq<Seq<char>>,
> {
    match ran {
        Ok(Timed::Completed { stdout, stderr, .. }) => classified(
            outside::utf8_lossy(stdout),
            stderr,
            version,
        ),
        Ok(Timed::TimedOut { step }) => Gate::Unavailable {
            note: too_slow(step, bound) + " — running on Node instead"@,
        },
        Err(e) => Gate::Unavailable { note: "failed to run `perry check`: "@ + e },
    }
}

/// What a run of `perry check` under this bound comes to.
pub fn gate(ran: Ran<String, Vec<u8>>, bound: Bound, version: &str) -> (r: Gate<
    String,
    Vec<String>,
>)
    ensures
        r@ == gated(crate::process::ran_view(ran), bound, version@),
{
    match ran {
        Ok(Timed::Completed { success: _, status: _, stdout, stderr }) => {
            let words = outside::from_utf8_lossy(stdout.as_slice());
            classify_check(words.as_str(), stderr.as_slice(), version)
        },
        Ok(Timed::TimedOut { step }) => {
            let mut note = too_slow_text(step, bound);
            note.append(" — running on Node instead");
            Gate::Unavailable { note }
        },
        Err(e) => Gate::Unavailable {
            note: text::concat("failed to run `perry check`: ", e.as_str()),
        },
    }
}

// ---------------------------------------------------------------------------
// Laws
// ---------------------------------------------------------------------------

/// A check that looked at no file never decides: the script goes on to be
/// compiled and verified, whatever the summary says.
pub proof fn law_zero_files_is_indeterminate(
    stdout: Seq<char>,
    stderr: Seq<u8>,
    version: Seq<char>,
)
    ensures
        classified(stdout, stderr, version) is Indeterminate <==> last_count(check_lines(stdout))
            == Some(0u64),
{
}

/// A rejection always gives a reason, and comes from a summary of a check that
/// looked at the script.
pub proof fn law_rejection_has_a_reason(stdout: Seq<char>, stderr: Seq<u8>, version: Seq<char>)
    ensures
        classified(stdout, stderr, version) matches Gate::Unsupported { diagnostics, .. }
            ==> diagnostics.len() > 0 && last_verdict(check_lines(stdout)) == Some(false)
            && last_count(check_lines(stdout)) != Some(0u64),
{
}

/// A check that lets a script through names the version that was asked.
pub proof fn law_gate_names_the_version_asked(
    ran: Ran<Seq<char>, Seq<u8>>,
    bound: Bound,
    version: Seq<char>,
)
    ensures
        gated(ran, bound, version) matches Gate::Compilable { perry_version }
            ==> perry_version == version,
        gated(ran, bound, version) matches Gate::Indeterminate { perry_version }
            ==> perry_version == version,
{
}

/// The field that covers code generation decides wherever it is present, even
/// against the other one.
pub proof fn law_guarantee_overrides_success(members: Seq<Member<Seq<char>>>, guaranteed: bool)
    requires
        text_member(members, "type"@) == Some("summary"@),
        flag_member(members, "compilation_guaranteed"@) == Some(guaranteed),
    ensures
        line_of(members) matches CheckLine::Summary { compilable, .. } && compilable == Some(
            guaranteed,
        ),
{
}

/// Without that field the other one decides.
pub proof fn law_success_decides_alone(members: Seq<Member<Seq<char>>>)
    requires
        text_member(members, "type"@) == Some("summary"@),
        flag_member(members, "compilation_guaranteed"@) is None,
    ensures
        line_of(members) matches CheckLine::Summary { compilable, .. } && compilable
            == flag_member(members, "success"@),
{
}

/// A line that is no JSON adds nothing to what the lines say.
proof fn lemma_noise_is_passed_over(
    before: Seq<Seq<char>>,
    noise: Seq<char>,
    after: Seq<Seq<char>>,
)
    requires
        outside::json_members(noise) is None,
    ensures
        json_lines(before.push(noise) + after) == json_lines(before + after),
    decreases after.len(),
{
    if after.len() == 0 {
        assert(before.push(noise) + after == before.push(noise));
        assert(before + after == before);
        assert(before.push(noise).drop_last() == before);
    } else {
        lemma_noise_is_passed_over(before, noise, after.drop_last());
        assert((before.push(noise) + after).drop_last() == before.push(noise)
            + after.drop_last());
        assert((before + after).drop_last() == before + after.drop_last());
    }
}

/// A line that is blank or no JSON changes nothing, wherever in the output it
/// stands: without it the check comes to the same, but that the raw output of a
/// rejection does not hold it.
pub proof fn law_noise_is_passed_over(
    before: Seq<char>,
    noise: Seq<char>,
    after: Seq<char>,
    stderr: Seq<u8>,
    version: Seq<char>,
)
    requires
        text::is_line_between(before, noise, after),
        text::trimmed(noise).len() == 0 || outside::json_members(text::trimmed(noise)) is None,
    ensures
        classified(before + noise + after, stderr, version) == match classified(
            before + after,
            stderr,
            version,
        ) {
            Gate::Unsupported { diagnostics, raw } => Gate::Unsupported {
                diagnostics,
                raw: RawPerryOutput { stdout: before + noise + after, ..raw },
            },
            gate => gate,
        },
{
    text::law_line_stands_between(before, noise, after);
    if text::trimmed(noise).len() > 0 {
        lemma_noise_is_passed_over(
            text::solid_lines(before),
            text::trimmed(noise),
            text::solid_lines(after),
        );
    }
}

/// A member is found under its key: the value of the first member with this key,
/// and nothing if none has it.
pub proof fn law_member_is_found_under_its_key(
    members: Seq<Member<Seq<char>>>,
    key: Seq<char>,
    i: int,
)
    requires
        0 <= i <= members.len(),
        forall|j: int| 0 <= j < i ==> (#[trigger] members[j]).key != key,
        i < members.len() ==> members[i].key == key,
    ensures
        i < members.len() ==> member(members, key) == Some(members[i].value),
        i == members.len() ==> member(members, key) is None,
    decreases members.len(),
{
    if members.len() > 0 && i > 0 {
        assert(members[0].key != key);
        assert forall|j: int| 0 <= j < i - 1 implies (#[trigger] members.drop_first()[j]).key
            != key by {
            assert(members[j + 1].key != key);
        }
        law_member_is_found_under_its_key(members.drop_first(), key, i - 1);
    }
}

/// A member counts as a text, a flag or a number only if its value is one.
pub proof fn law_member_has_its_own_type(members: Seq<Member<Seq<char>>>, key: Seq<char>)
    ensures
        match member(members, key) {
            Some(Field::Text(t)) => text_member(members, key) == Some(t) && flag_member(
                members,
                key,
            ) is None && number_member(members, key) is None,
            Some(Field::Flag(b)) => flag_member(members, key) == Some(b) && text_member(
                members,
                key,
            ) is None && number_member(members, key) is None,
            Some(Field::Number(n)) => number_member(members, key) == n && text_member(
                members,
                key,
            ) is None && flag_member(members, key) is None,
            _ => text_member(members, key) is None && flag_member(members, key) is None
                && number_member(members, key) is None,
        },
{
}

/// A line is a summary exactly if its `type` says so, and then counts what it
/// checked in `files_checked`. Any other line with a `message` is a diagnostic,
/// which starts with its `code` in brackets where it has one; any other line with
/// a number of `files` is a count; any other line says nothing.
pub proof fn law_line_is_told_by_its_members(members: Seq<Member<Seq<char>>>)
    ensures
        ({
            let summary = text_member(members, "type"@) == Some("summary"@);
            let message = text_member(members, "message"@);
            let code = text_member(members, "code"@);
            let found = number_member(members, "files"@);
            &&& line_of(members) is Summary <==> summary
            &&& line_of(members) matches CheckLine::Summary { files, .. } ==> files
                == number_member(members, "files_checked"@)
            &&& !summary && message is Some && code is Some ==> line_of(members)
                == (CheckLine::Diagnostic { message: "["@ + code->0 + "] "@ + message->0 })
            &&& !summary && message is Some && code is None ==> line_of(members)
                == (CheckLine::Diagnostic { message: message->0 })
            &&& !summary && message is None && found is Some ==> line_of(members)
                == (CheckLine::<Seq<char>>::Count { found: found->0 })
            &&& !summary && message is None && found is None ==> line_of(members)
                == CheckLine::<Seq<char>>::Silent
        }),
{
}

/// The lines of the output that are JSON, and no others, are read, each by itself
/// and in their order.
pub proof fn law_every_json_line_is_read(stdout: Seq<char>)
    ensures
        check_lines(stdout) == text::solid_lines(stdout).filter(
            |line: Seq<char>| outside::json_members(line) is Some,
        ).map_values(|line: Seq<char>| line_of(outside::json_members(line)->0)),
{
    lemma_json_lines_are_a_filter(text::solid_lines(stdout));
}

proof fn lemma_json_lines_are_a_filter(texts: Seq<Seq<char>>)
    ensures
        json_lines(texts) == texts.filter(
            |line: Seq<char>| outside::json_members(line) is Some,
        ).map_values(|line: Seq<char>| line_of(outside::json_members(line)->0)),
    decreases texts.len(),
{
    reveal(Seq::filter);
    let keep = |line: Seq<char>| outside::json_members(line) is Some;
    let read = |line: Seq<char>| line_of(outside::json_members(line)->0);
    if texts.len() > 0 {
        lemma_json_lines_are_a_filter(texts.drop_last());
        let before = texts.drop_last().filter(keep);
        if keep(texts.last()) {
            assert(before.push(texts.last()).map_values(read) =~= before.map_values(read).push(
                read(texts.last()),
            ));
        }
    } else {
        assert(texts.filter(keep).map_values(read) =~= Seq::<CheckLine<Seq<char>>>::empty());
    }
}

/// The last summary decides, whatever lines are around it; without a summary
/// nothing is decided.
pub proof fn law_last_summary_decides(lines: Seq<CheckLine<Seq<char>>>, i: int)
    requires
        -1 <= i < lines.len(),
        i >= 0 ==> lines[i] is Summary,
        forall|j: int| i < j < lines.len() ==> !((#[trigger] lines[j]) is Summary),
    ensures
        i >= 0 ==> last_verdict(lines) == lines[i]->compilable,
        i < 0 ==> last_verdict(lines) is None,
    decreases lines.len(),
{
    if lines.len() > 0 && i < lines.len() - 1 {
        assert(!(lines[lines.len() - 1] is Summary));
        assert forall|j: int| i < j < lines.drop_last().len() implies !((
        #[trigger] lines.drop_last()[j]) is Summary) by {
            assert(!(lines[j] is Summary));
        }
        law_last_summary_decides(lines.drop_last(), i);
    }
}

/// How many files a line says the check looked at.
pub open spec fn told_count(line: CheckLine<Seq<char>>) -> Option<u64> {
    match line {
        CheckLine::Summary { files, .. } => files,
        CheckLine::Count { found } => Some(found),
        _ => None,
    }
}

/// The last line that tells how many files were looked at decides about that;
/// without such a line it is not known.
pub proof fn law_last_count_decides(lines: Seq<CheckLine<Seq<char>>>, i: int)
    requires
        -1 <= i < lines.len(),
        i >= 0 ==> told_count(lines[i]) is Some,
        forall|j: int| i < j < lines.len() ==> told_count(#[trigger] lines[j]) is None,
    ensures
        i >= 0 ==> last_count(lines) == told_count(lines[i]),
        i < 0 ==> last_count(lines) is None,
    decreases lines.len(),
{
    if lines.len() > 0 && i < lines.len() - 1 {
        assert(told_count(lines[lines.len() - 1]) is None);
        assert forall|j: int| i < j < lines.drop_last().len() implies told_count(
            #[trigger] lines.drop_last()[j],
        ) is None by {
            assert(told_count(lines[j]) is None);
        }
        law_last_count_decides(lines.drop_last(), i);
    }
}

/// Every diagnostic is kept, in order, and nothing else is.
pub proof fn law_every_diagnostic_is_kept(lines: Seq<CheckLine<Seq<char>>>)
    ensures
        messages(lines) == lines.filter(
            |line: CheckLine<Seq<char>>| line is Diagnostic,
        ).map_values(|line: CheckLine<Seq<char>>| line->message),
    decreases lines.len(),
{
    reveal(Seq::filter);
    let keep = |line: CheckLine<Seq<char>>| line is Diagnostic;
    let read = |line: CheckLine<Seq<char>>| line->message;
    if lines.len() > 0 {
        law_every_diagnostic_is_kept(lines.drop_last());
        let before = lines.drop_last().filter(keep);
        if keep(lines.last()) {
            assert(before.push(lines.last()).map_values(read) =~= before.map_values(read).push(
                read(lines.last()),
            ));
        }
    } else {
        assert(lines.filter(keep).map_values(read) =~= Seq::<Seq<char>>::empty());
    }
}

/// A report holds what the lines decide, and its diagnostics are all of theirs.
pub proof fn law_report_holds_what_the_lines_decide(lines: Seq<CheckLine<Seq<char>>>)
    ensures
        report_of(lines).compilable == last_verdict(lines),
        report_of(lines).files_evaluated == last_count(lines),
        report_of(lines).diagnostics == messages(lines),
{
}

/// What a report comes to: nothing about the script if no file was looked at;
/// otherwise the script compiles exactly if the report says so, and is rejected
/// exactly if the report says that it does not, for all the reasons reported; and
/// there is no answer exactly if the report says neither.
pub proof fn law_report_decides(
    report: CheckReport<Seq<Seq<char>>>,
    stdout: Seq<char>,
    stderr: Seq<u8>,
    version: Seq<char>,
)
    ensures
        ({
            let gate = verdict(report, stdout, stderr, version);
            let looked = report.files_evaluated != Some(0u64);
            &&& gate is Indeterminate <==> !looked
            &&& gate is Compilable <==> looked && report.compilable == Some(true)
            &&& gate is Unsupported <==> looked && report.compilable == Some(false)
            &&& gate is Unavailable <==> looked && report.compilable is None
            &&& gate matches Gate::Unsupported { diagnostics, .. } ==> if report.diagnostics.len()
                > 0 {
                diagnostics == report.diagnostics
            } else {
                diagnostics == seq!["(no diagnostics reported)"@]
            }
            &&& gate matches Gate::Unsupported { raw, .. } ==> raw.step == PerryStep::Check
                && raw.stdout == stdout && raw.stderr == outside::utf8_lossy(stderr)
            &&& gate matches Gate::Unavailable { note } ==> note
                == "`perry check` produced no summary (stderr: "@ + text::trimmed(
                outside::utf8_lossy(stderr),
            ) + ")"@
            &&& gate matches Gate::Compilable { perry_version } ==> perry_version == version
            &&& gate matches Gate::Indeterminate { perry_version } ==> perry_version == version
        }),
{
}

/// What the output of a check comes to: the script compiles exactly if a file was
/// looked at and the last summary says that it compiles, and is rejected exactly
/// if a file was looked at and the last summary says that it does not; all the
/// messages are then the reasons.
pub proof fn law_output_decides(stdout: Seq<char>, stderr: Seq<u8>, version: Seq<char>)
    ensures
        ({
            let gate = classified(stdout, stderr, version);
            let lines = check_lines(stdout);
            let looked = last_count(lines) != Some(0u64);
            &&& gate is Compilable <==> looked && last_verdict(lines) == Some(true)
            &&& gate is Unsupported <==> looked && last_verdict(lines) == Some(false)
            &&& gate is Unavailable <==> looked && last_verdict(lines) is None
            &&& gate is Indeterminate <==> !looked
            &&& gate matches Gate::Unsupported { diagnostics, .. } ==> messages(lines).len() > 0
                ==> diagnostics == messages(lines)
            &&& gate matches Gate::Unsupported { raw, .. } ==> raw.stdout == stdout
        }),
{
}

/// The exit status of `perry check` decides nothing, its output decides alone.
pub proof fn law_check_is_decided_by_its_output(
    success: bool,
    status: Seq<char>,
    stdout: Seq<u8>,
    stderr: Seq<u8>,
    bound: Bound,
    version: Seq<char>,
)
    ensures
        gated(Ok(Timed::Completed { success, status, stdout, stderr }), bound, version)
            == classified(outside::utf8_lossy(stdout), stderr, version),
{
}

/// A check that did not end in time, or did not start, gives no answer; the note
/// tells which step and which bound, or why it did not start.
pub proof fn law_unfinished_check_gives_no_answer(
    step: PerryStep,
    e: Seq<char>,
    bound: Bound,
    version: Seq<char>,
)
    ensures
        too_slow(step, bound) == "`perry "@ + step.text() + "` did not finish within "@
            + bound::bound_text(bound),
        gated(Ok(Timed::TimedOut { step }), bound, version) == (Gate::<
            Seq<char>,
            Seq<Seq<char>>,
        >::Unavailable { note: too_slow(step, bound) + " — running on Node instead"@ }),
        gated(Err(e), bound, version) == (Gate::<Seq<char>, Seq<Seq<char>>>::Unavailable {
            note: "failed to run `perry check`: "@ + e,
        }),
{
}

/// What a check came to is seen in full.
pub proof fn law_gate_is_seen_in_full(gate: Gate<String, Vec<String>>)
    ensures
        match gate {
            Gate::Compilable { perry_version: v } => gate@ matches Gate::Compilable {
                perry_version,
            } && perry_version == v@,
            Gate::Indeterminate { perry_version: v } => gate@ matches Gate::Indeterminate {
                perry_version,
            } && perry_version == v@,
            Gate::Unavailable { note: n } => gate@ matches Gate::Unavailable { note } && note
                == n@,
            Gate::Unsupported { diagnostics: d, raw: r } => gate@ matches Gate::Unsupported {
                diagnostics,
                raw,
            } && diagnostics == d.deep_view() && raw.step == r.step && raw.stdout == r.stdout@
                && raw.stderr == r.stderr@,
        },
{
}

/// A line of a check, and a report, is seen in full.
pub proof fn law_report_is_seen_in_full(
    line: CheckLine<String>,
    report: CheckReport<Vec<String>>,
)
    ensures
        match line {
            CheckLine::Summary { compilable: c, files: f } => line@ matches CheckLine::Summary {
                compilable,
                files,
            } && compilable == c && files == f,
            CheckLine::Diagnostic { message: m } => line@ matches CheckLine::Diagnostic {
                message,
            } && message == m@,
            CheckLine::Count { found: n } => line@ matches CheckLine::Count { found } && found == n,
            CheckLine::Silent => line@ is Silent,
        },
        report@.compilable == report.compilable,
        report@.diagnostics == report.diagnostics.deep_view(),
        report@.files_evaluated == report.files_evaluated,
{
}

} // verus!
