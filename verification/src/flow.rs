//! How a session goes on: what it waits for in each phase, and what each answer
//! leads to.

use crate::bound;
use crate::bound::{Bound, PERRY_CHECK_SECS, PERRY_COMPILE_SECS, PERRY_VERSION_SECS};
use crate::check;
use crate::check::Gate;
use crate::compile;
use crate::compile::{Built, CompileError};
use crate::failure;
use crate::failure::CookFailure;
use crate::keys;
use crate::process;
use crate::process::{PerryStep, Ran};
use crate::session;
use crate::session::{
    Answer, Context, ContextView, Effect, Ending, Job, Next, NextView, Phase, Query, Session,
    SessionView, Step, Turn,
};
use crate::text;
use crate::verify;
use crate::verify::{Captured, VerifyOutcome};
use vstd::prelude::*;
use vstd::string::*;
use vstd::utf8::*;

verus! {

// ---------------------------------------------------------------------------
// What a session waits for
// ---------------------------------------------------------------------------

/// How long a step of `perry` may take.
pub open spec fn usual_bound(step: PerryStep) -> Bound {
    Bound {
        secs: match step {
            PerryStep::Version => PERRY_VERSION_SECS,
            PerryStep::Check => PERRY_CHECK_SECS,
            PerryStep::Compile => PERRY_COMPILE_SECS,
        },
        nanos: 0,
    }
}

/// How long a step of `perry` may take in this run.
pub open spec fn bound_in(context: ContextView, step: PerryStep) -> Bound {
    bound::bound_for(context.setting, usual_bound(step))
}

/// What a session waits for.
pub open spec fn pending(s: SessionView) -> NextView {
    match s.phase {
        Phase::Opening { .. } => Next::Ask { query: Query::ScriptExists },
        Phase::Reading => Next::Ask { query: Query::ReadSource },
        Phase::Locating { .. } => Next::Ask { query: Query::FindPerry },
        Phase::Stamping { .. } => Next::Ask { query: Query::StatPerry },
        Phase::Recalling { stamp, .. } => Next::Ask { query: Query::ReadMemo { stamp } },
        Phase::Versioning { .. } => Next::Ask {
            query: Query::RunPerry {
                step: PerryStep::Version,
                bound: bound_in(s.context, PerryStep::Version),
            },
        },
        Phase::WarmDir { .. } => Next::Ask { query: Query::CacheDir },
        Phase::WarmVerdict { job } => Next::Ask {
            query: Query::HasEntry { key: keys::verdict_text(job.key) },
        },
        Phase::WarmBinary { job } => Next::Ask { query: Query::HasEntry { key: job.key } },
        Phase::WarmRun { job } => Next::Ask {
            query: Query::RunCached { key: job.key, args: s.context.args },
        },
        Phase::Checking { .. } => Next::Ask {
            query: Query::RunPerry {
                step: PerryStep::Check,
                bound: bound_in(s.context, PerryStep::Check),
            },
        },
        Phase::ColdDir { .. } => Next::Ask { query: Query::CacheDir },
        Phase::ColdCreate { .. } => Next::Ask { query: Query::CreateCacheDir },
        Phase::OutputDir { .. } => Next::Ask { query: Query::CacheDir },
        Phase::OutputFile { .. } => Next::Ask { query: Query::CreateOutput },
        Phase::Compiling { .. } => Next::Ask {
            query: Query::RunPerry {
                step: PerryStep::Compile,
                bound: bound_in(s.context, PerryStep::Compile),
            },
        },
        Phase::Collecting { .. } => Next::Ask { query: Query::ReadOutput },
        Phase::Placing { job, .. } => Next::Ask { query: Query::Place { key: job.key } },
        Phase::Cooking { .. } => Next::Ask { query: Query::RunCooked { args: s.context.args } },
        Phase::Comparing { .. } => Next::Ask { query: Query::RunNode },
        Phase::Over { ending } => Next::End { ending },
    }
}

/// An answer to what the session waits for.
pub open spec fn fits(s: SessionView, a: Answer<Seq<char>, Seq<u8>>) -> bool {
    match pending(s) {
        Next::Ask { query } => match query {
            Query::ScriptExists | Query::FindPerry | Query::HasEntry { .. } => a is Truth,
            Query::ReadSource | Query::ReadOutput => a is Bytes,
            Query::StatPerry => a is Stat,
            Query::ReadMemo { .. } => a is Memo,
            Query::RunPerry { .. } => a is Ran,
            Query::CacheDir | Query::CreateCacheDir | Query::CreateOutput | Query::Place { .. } => {
                a is Done
            },
            Query::RunCached { .. } => a is Code,
            Query::RunCooked { .. } | Query::RunNode => a is Captured,
        },
        Next::End { .. } => false,
    }
}

// ---------------------------------------------------------------------------
// Steps
// ---------------------------------------------------------------------------

/// On to another phase, with nothing else to do.
pub open spec fn going(context: ContextView, phase: Phase<Seq<char>, Seq<u8>>) -> Step {
    Step { session: Session { context, phase }, effects: Seq::empty(), notes: Seq::empty() }
}

/// The run is over.
pub open spec fn ending(context: ContextView, ending: Ending<Seq<char>>) -> Step {
    going(context, Phase::Over { ending })
}

/// The ahead-of-time path has failed: after the effects the failure is reported
/// and the script runs on Node.
pub open spec fn falling_back(
    context: ContextView,
    failure: CookFailure<Seq<char>>,
    effects: Seq<Effect<Seq<char>, Seq<u8>>>,
) -> Step {
    Step {
        session: Session { context, phase: Phase::Over { ending: Ending::Node } },
        effects,
        notes: failure::report(failure, context.debug),
    }
}

/// A failure that PerryTS is not to blame for and has written nothing about.
pub open spec fn own_failure(cause: Seq<char>) -> CookFailure<Seq<char>> {
    CookFailure { cause, perry_attributable: false, raw: None }
}

/// The failure to compile the script.
pub open spec fn compile_failure(
    script: Seq<char>,
    error: CompileError<Seq<char>>,
) -> CookFailure<Seq<char>> {
    CookFailure {
        cause: "could not compile "@ + script + ": "@ + error.cause,
        perry_attributable: error.attributable,
        raw: error.raw,
    }
}

/// A compilation that failed before `perry` ran.
pub open spec fn early_error(cause: Seq<char>) -> CompileError<Seq<char>> {
    CompileError { cause, attributable: false, raw: None }
}

/// What a binary is compiled from and by, and its key.
pub open spec fn job_for(source: Seq<u8>, version: Seq<char>) -> Job<Seq<char>, Seq<u8>> {
    Job { source, version, key: keys::key_text(source, version) }
}

pub open spec fn no_such_file(script: Seq<char>) -> Seq<char> {
    "nub cook: no such file: "@ + script
}

pub open spec fn cannot_read(script: Seq<char>, e: Seq<char>) -> Seq<char> {
    "nub cook: cannot read "@ + script + ": "@ + e
}

/// The note that there is no `perry`.
pub const PERRY_MISSING: &'static str = "nub cook: PerryTS not found on PATH.\n  cook AOT-compiles supported scripts to a fast-starting native binary.\n  Install PerryTS (https://github.com/PerryTS/perry) to enable it.\n  Running on Node instead.";

/// The note that `perry` does not tell its version.
pub const VERSION_UNKNOWN: &'static str = "nub cook: could not determine PerryTS version. Running on Node instead.";

/// The version of `perry` was asked for: it is remembered under the stamp and
/// keys the cache.
pub open spec fn versioned(
    context: ContextView,
    source: Seq<u8>,
    stamp: Option<Seq<char>>,
    ran: Ran<Seq<char>, Seq<u8>>,
) -> Step {
    match compile::printed(ran) {
        Some(version) => Step {
            effects: match stamp {
                Some(stamp) => seq![Effect::Remember { stamp, version: encode_utf8(version) }],
                None => Seq::empty(),
            },
            ..going(context, Phase::WarmDir { job: job_for(source, version) })
        },
        None => Step {
            notes: seq![VERSION_UNKNOWN@],
            ..ending(context, Ending::Node)
        },
    }
}

/// The script was checked: only a rejection, and a check without an answer, stops
/// here. A verdict keeps a rejected source from being checked again. A binary is
/// keyed by the version that let the script through.
pub open spec fn checked(
    context: ContextView,
    job: Job<Seq<char>, Seq<u8>>,
    ran: Ran<Seq<char>, Seq<u8>>,
) -> Step {
    match check::gated(ran, bound_in(context, PerryStep::Check), job.version) {
        Gate::Compilable { perry_version } | Gate::Indeterminate { perry_version } => going(
            context,
            Phase::ColdDir {
                job: if perry_version == job.version {
                    job
                } else {
                    job_for(job.source, perry_version)
                },
            },
        ),
        Gate::Unsupported { diagnostics, raw } => falling_back(
            context,
            CookFailure {
                cause: context.script + " uses APIs PerryTS does not compile:\n"@
                    + failure::indented(diagnostics),
                perry_attributable: true,
                raw: Some(raw),
            },
            seq![Effect::RecordVerdict { key: keys::verdict_text(job.key) }],
        ),
        Gate::Unavailable { note } => falling_back(context, own_failure(note), Seq::empty()),
    }
}

/// The script was compiled. What a failed compilation may have left behind is
/// removed.
pub open spec fn compiled(
    context: ContextView,
    job: Job<Seq<char>, Seq<u8>>,
    ran: Ran<Seq<char>, Seq<u8>>,
) -> Step {
    match compile::built(ran, bound_in(context, PerryStep::Compile)) {
        Built::Failed { error } => falling_back(
            context,
            compile_failure(context.script, error),
            seq![Effect::RemoveOutput],
        ),
        Built::Written { stdout, stderr } => going(
            context,
            Phase::Collecting { job, stdout, stderr },
        ),
    }
}

/// The compiled binary was read, or could not be; either way it is removed from
/// where it was written.
pub open spec fn collected(
    context: ContextView,
    job: Job<Seq<char>, Seq<u8>>,
    stdout: Seq<u8>,
    stderr: Seq<u8>,
    read: Result<Seq<u8>, Seq<char>>,
) -> Step {
    let effects = seq![Effect::RemoveOutput];
    match compile::produced(read, stdout, stderr) {
        Ok(binary) => Step { effects, ..going(context, Phase::Placing { job, binary }) },
        Err(error) => falling_back(context, compile_failure(context.script, error), effects),
    }
}

/// Binary and Node have both run. The binary is stored only if it behaves like
/// Node, and then its output is that of the run; if not, it is discarded and a
/// verdict keeps the source from being tried again.
pub open spec fn compared(
    context: ContextView,
    job: Job<Seq<char>, Seq<u8>>,
    binary: Seq<u8>,
    cooked: Captured<Seq<u8>>,
    node: Captured<Seq<u8>>,
) -> Step {
    match verify::outcome(cooked, node) {
        VerifyOutcome::Equivalent => Step {
            effects: seq![
                Effect::Store { key: job.key, binary },
                Effect::Replay { stdout: cooked.stdout },
            ],
            ..ending(context, Ending::Exit { code: cooked.code })
        },
        VerifyOutcome::Diverged => falling_back(
            context,
            verify::divergence(context.script, cooked, node),
            seq![
                Effect::Discard,
                Effect::RecordVerdict { key: keys::verdict_text(job.key) },
            ],
        ),
    }
}

/// What an answer leads to. An answer to something else than what the session
/// waits for leads nowhere.
pub open spec fn advance(
    s: SessionView,
    a: Answer<Seq<char>, Seq<u8>>,
) -> Step {
    let context = s.context;
    match (s.phase, a) {
        (Phase::Opening { compat }, Answer::Truth(exists)) => if !exists {
            ending(context, Ending::Usage { message: no_such_file(context.script) })
        } else if compat {
            ending(context, Ending::Node)
        } else {
            going(context, Phase::Reading)
        },
        (Phase::Reading, Answer::Bytes(Ok(source))) => going(context, Phase::Locating { source }),
        (Phase::Reading, Answer::Bytes(Err(e))) => ending(
            context,
            Ending::Usage { message: cannot_read(context.script, e) },
        ),
        (Phase::Locating { source }, Answer::Truth(found)) => if found {
            going(context, Phase::Stamping { source })
        } else {
            Step { notes: seq![PERRY_MISSING@], ..ending(context, Ending::Node) }
        },
        (Phase::Stamping { source }, Answer::Stat(Some(stat))) => going(
            context,
            Phase::Recalling { source, stamp: keys::stamp_text(stat) },
        ),
        (Phase::Stamping { source }, Answer::Stat(None)) => going(
            context,
            Phase::Versioning { source, memo: None },
        ),
        (Phase::Recalling { source, stamp }, Answer::Memo(memo)) => {
            let version = match memo {
                Some(bytes) => compile::remembered(bytes),
                None => None,
            };
            match version {
                Some(version) => going(context, Phase::WarmDir { job: job_for(source, version) }),
                None => going(context, Phase::Versioning { source, memo: Some(stamp) }),
            }
        },
        (Phase::Versioning { source, memo }, Answer::Ran(ran)) => versioned(
            context,
            source,
            memo,
            ran,
        ),
        (Phase::WarmDir { job }, Answer::Done(done)) => if done is Ok {
            going(context, Phase::WarmVerdict { job })
        } else {
            going(context, Phase::Checking { job })
        },
        (Phase::WarmVerdict { job }, Answer::Truth(present)) => if present {
            ending(context, Ending::Node)
        } else {
            going(context, Phase::WarmBinary { job })
        },
        (Phase::WarmBinary { job }, Answer::Truth(present)) => if present {
            going(context, Phase::WarmRun { job })
        } else {
            going(context, Phase::Checking { job })
        },
        (Phase::WarmRun { job }, Answer::Code(code)) => match code {
            Some(code) => ending(context, Ending::Exit { code }),
            None => going(context, Phase::Checking { job }),
        },
        (Phase::Checking { job }, Answer::Ran(ran)) => checked(context, job, ran),
        (Phase::ColdDir { job }, Answer::Done(done)) => match done {
            Ok(()) => going(context, Phase::ColdCreate { job }),
            Err(e) => falling_back(
                context,
                own_failure("could not resolve nub cache dir: "@ + e),
                Seq::empty(),
            ),
        },
        (Phase::ColdCreate { job }, Answer::Done(done)) => match done {
            Ok(()) => going(context, Phase::OutputDir { job }),
            Err(e) => falling_back(
                context,
                own_failure("could not create cook cache dir: "@ + e),
                Seq::empty(),
            ),
        },
        (Phase::OutputDir { job }, Answer::Done(done)) => match done {
            Ok(()) => going(context, Phase::OutputFile { job }),
            Err(e) => falling_back(
                context,
                compile_failure(
                    context.script,
                    early_error("could not resolve cache dir: "@ + e),
                ),
                Seq::empty(),
            ),
        },
        (Phase::OutputFile { job }, Answer::Done(done)) => match done {
            Ok(()) => going(context, Phase::Compiling { job }),
            Err(e) => falling_back(
                context,
                compile_failure(
                    context.script,
                    early_error("could not create temp output: "@ + e),
                ),
                Seq::empty(),
            ),
        },
        (Phase::Compiling { job }, Answer::Ran(ran)) => compiled(context, job, ran),
        (Phase::Collecting { job, stdout, stderr }, Answer::Bytes(read)) => collected(
            context,
            job,
            stdout,
            stderr,
            read,
        ),
        (Phase::Placing { job, binary }, Answer::Done(done)) => match done {
            Ok(()) => going(context, Phase::Cooking { job, binary }),
            Err(e) => falling_back(
                context,
                own_failure("could not place cooked binary: "@ + e),
                Seq::empty(),
            ),
        },
        (Phase::Cooking { job, binary }, Answer::Captured(ran)) => match ran {
            Ok(cooked) => going(context, Phase::Comparing { job, binary, cooked }),
            Err(e) => falling_back(
                context,
                CookFailure {
                    cause: "cooked binary failed to run during verify: "@ + e,
                    perry_attributable: true,
                    raw: None,
                },
                seq![Effect::Discard],
            ),
        },
        (Phase::Comparing { job, binary, cooked }, Answer::Captured(ran)) => match ran {
            Ok(node) => compared(context, job, binary, cooked, node),
            Err(e) => falling_back(
                context,
                own_failure("could not run Node reference for verify: "@ + e),
                seq![Effect::Discard],
            ),
        },
        _ => going(context, s.phase),
    }
}

/// The job that a phase is about.
pub open spec fn job_of(phase: Phase<Seq<char>, Seq<u8>>) -> Option<Job<Seq<char>, Seq<u8>>> {
    match phase {
        Phase::WarmDir { job } | Phase::WarmVerdict { job } | Phase::WarmBinary { job }
        | Phase::WarmRun { job } | Phase::Checking { job } | Phase::ColdDir { job }
        | Phase::ColdCreate { job } | Phase::OutputDir { job } | Phase::OutputFile { job }
        | Phase::Compiling { job } | Phase::Collecting { job, .. } | Phase::Placing { job, .. }
        | Phase::Cooking { job, .. } | Phase::Comparing { job, .. } => Some(job),
        _ => None,
    }
}

/// The key that a session uses is that of the source it read and the version of
/// the `perry` it found.
pub open spec fn sound(s: SessionView) -> bool {
    job_of(s.phase) matches Some(job) ==> job == job_for(job.source, job.version)
}

// ---------------------------------------------------------------------------
// The session itself
// ---------------------------------------------------------------------------

/// A session and what is to be done.
pub type Stepped = (Session<String, Vec<u8>, Vec<String>>, Turn);

fn no_effects() -> (r: Vec<Effect<String, Vec<u8>>>)
    ensures
        session::effect_views(r@) == Seq::<Effect<Seq<char>, Seq<u8>>>::empty(),
{
    let r: Vec<Effect<String, Vec<u8>>> = Vec::new();
    assert(session::effect_views(r@) =~= Seq::<Effect<Seq<char>, Seq<u8>>>::empty());
    r
}

fn one_effect(e: Effect<String, Vec<u8>>) -> (r: Vec<Effect<String, Vec<u8>>>)
    ensures
        session::effect_views(r@) == seq![e@],
{
    let mut r: Vec<Effect<String, Vec<u8>>> = Vec::new();
    r.push(e);
    assert(session::effect_views(r@) =~= seq![e@]);
    r
}

fn two_effects(e: Effect<String, Vec<u8>>, f: Effect<String, Vec<u8>>) -> (r: Vec<
    Effect<String, Vec<u8>>,
>)
    ensures
        session::effect_views(r@) == seq![e@, f@],
{
    let mut r: Vec<Effect<String, Vec<u8>>> = Vec::new();
    r.push(e);
    r.push(f);
    assert(session::effect_views(r@) =~= seq![e@, f@]);
    r
}

fn no_notes() -> (r: Vec<String>)
    ensures
        r.deep_view() == Seq::<Seq<char>>::empty(),
{
    let r: Vec<String> = Vec::new();
    assert(r.deep_view() =~= Seq::<Seq<char>>::empty());
    r
}

fn go(
    context: Context<String, Vec<String>>,
    phase: Phase<String, Vec<u8>>,
    effects: Vec<Effect<String, Vec<u8>>>,
) -> (r: Stepped)
    ensures
        session::is_step(
            r,
            Step {
                effects: session::effect_views(effects@),
                ..going(context@, phase@)
            },
        ),
{
    (Session { context, phase }, Turn { effects, notes: no_notes() })
}

fn end(context: Context<String, Vec<String>>, ending: Ending<String>) -> (r: Stepped)
    ensures
        session::is_step(r, self::ending(context@, ending@)),
{
    go(context, Phase::Over { ending }, no_effects())
}

fn end_on_node(context: Context<String, Vec<String>>, note: &str) -> (r: Stepped)
    ensures
        session::is_step(r, Step { notes: seq![note@], ..ending(context@, Ending::Node) }),
{
    let mut notes: Vec<String> = Vec::new();
    notes.push(note.to_owned());
    assert(notes.deep_view() =~= seq![note@]);
    (
        Session { context, phase: Phase::Over { ending: Ending::Node } },
        Turn { effects: no_effects(), notes },
    )
}

fn fall_back(
    context: Context<String, Vec<String>>,
    failure: CookFailure<String>,
    effects: Vec<Effect<String, Vec<u8>>>,
) -> (r: Stepped)
    ensures
        session::is_step(
            r,
            falling_back(context@, failure@, session::effect_views(effects@)),
        ),
{
    let notes = failure::fail(&failure, context.debug);
    (
        Session { context, phase: Phase::Over { ending: Ending::Node } },
        Turn { effects, notes },
    )
}

fn own(prefix: &str, e: &str) -> (r: CookFailure<String>)
    ensures
        r@ == own_failure(prefix@ + e@),
{
    CookFailure { cause: text::concat(prefix, e), perry_attributable: false, raw: None }
}

fn not_compiled(script: &str, error: CompileError<String>) -> (r: CookFailure<String>)
    ensures
        r@ == compile_failure(script@, error@),
{
    let mut cause = text::concat("could not compile ", script);
    cause.append(": ");
    cause.append(error.cause.as_str());
    CookFailure { cause, perry_attributable: error.attributable, raw: error.raw }
}

fn not_started(prefix: &str, e: &str) -> (r: CompileError<String>)
    ensures
        r@ == early_error(prefix@ + e@),
{
    CompileError { cause: text::concat(prefix, e), attributable: false, raw: None }
}

fn new_job(source: Vec<u8>, version: String) -> (r: Job<String, Vec<u8>>)
    ensures
        r@ == job_for(source@, version@),
{
    let key = keys::cache_key(source.as_slice(), version.as_str());
    Job { source, version, key }
}

fn step_bound(context: &Context<String, Vec<String>>, step: PerryStep) -> (r: Bound)
    ensures
        r == bound_in(context@, step),
{
    let usual = Bound::from_secs(
        match step {
            PerryStep::Version => PERRY_VERSION_SECS,
            PerryStep::Check => PERRY_CHECK_SECS,
            PerryStep::Compile => PERRY_COMPILE_SECS,
        },
    );
    match &context.setting {
        Some(setting) => bound::timeout_for(Some(setting.as_str()), usual),
        None => bound::timeout_for(None, usual),
    }
}

fn after_version(
    context: Context<String, Vec<String>>,
    source: Vec<u8>,
    stamp: Option<String>,
    ran: Ran<String, Vec<u8>>,
) -> (r: Stepped)
    ensures
        session::is_step(
            r,
            versioned(context@, source@, session::text_view(stamp), process::ran_view(ran)),
        ),
{
    match compile::perry_version(ran) {
        Some(version) => {
            let effects = match stamp {
                Some(stamp) => {
                    let mut bytes: Vec<u8> = Vec::new();
                    text::push_bytes(&mut bytes, version.as_str().as_bytes());
                    assert(bytes@ =~= encode_utf8(version@));
                    one_effect(Effect::Remember { stamp, version: bytes })
                },
                None => no_effects(),
            };
            go(context, Phase::WarmDir { job: new_job(source, version) }, effects)
        },
        None => end_on_node(context, VERSION_UNKNOWN),
    }
}

fn after_check(
    context: Context<String, Vec<String>>,
    job: Job<String, Vec<u8>>,
    ran: Ran<String, Vec<u8>>,
) -> (r: Stepped)
    ensures
        session::is_step(r, checked(context@, job@, process::ran_view(ran))),
{
    let bound = step_bound(&context, PerryStep::Check);
    match check::gate(ran, bound, job.version.as_str()) {
        Gate::Compilable { perry_version } => {
            let job = rekeyed(job, perry_version);
            go(context, Phase::ColdDir { job }, no_effects())
        },
        Gate::Indeterminate { perry_version } => {
            let job = rekeyed(job, perry_version);
            go(context, Phase::ColdDir { job }, no_effects())
        },
        Gate::Unsupported { diagnostics, raw } => {
            let mut cause = text::concat(
                context.script.as_str(),
                " uses APIs PerryTS does not compile:\n",
            );
            let reasons = failure::indent(&diagnostics);
            cause.append(reasons.as_str());
            fall_back(
                context,
                CookFailure { cause, perry_attributable: true, raw: Some(raw) },
                one_effect(Effect::RecordVerdict { key: keys::verdict_key(job.key.as_str()) }),
            )
        },
        Gate::Unavailable { note } => fall_back(
            context,
            CookFailure { cause: note, perry_attributable: false, raw: None },
            no_effects(),
        ),
    }
}

/// The job, keyed by the version that let the script through: a `perry` that was
/// upgraded since the key was made is another compiler.
fn rekeyed(job: Job<String, Vec<u8>>, perry_version: String) -> (r: Job<String, Vec<u8>>)
    ensures
        r@ == if perry_version@ == job@.version {
            job@
        } else {
            job_for(job@.source, perry_version@)
        },
{
    if perry_version == job.version {
        job
    } else {
        new_job(job.source, perry_version)
    }
}

fn after_compile(
    context: Context<String, Vec<String>>,
    job: Job<String, Vec<u8>>,
    ran: Ran<String, Vec<u8>>,
) -> (r: Stepped)
    ensures
        session::is_step(r, compiled(context@, job@, process::ran_view(ran))),
{
    let bound = step_bound(&context, PerryStep::Compile);
    match compile::compile_ended(ran, bound) {
        Built::Failed { error } => {
            let failure = not_compiled(context.script.as_str(), error);
            fall_back(context, failure, one_effect(Effect::RemoveOutput))
        },
        Built::Written { stdout, stderr } => go(
            context,
            Phase::Collecting { job, stdout, stderr },
            no_effects(),
        ),
    }
}

fn after_collection(
    context: Context<String, Vec<String>>,
    job: Job<String, Vec<u8>>,
    stdout: Vec<u8>,
    stderr: Vec<u8>,
    read: Result<Vec<u8>, String>,
) -> (r: Stepped)
    ensures
        session::is_step(
            r,
            collected(context@, job@, stdout@, stderr@, compile::read_view(read)),
        ),
{
    let effects = one_effect(Effect::RemoveOutput);
    match compile::compile_produced(read, stdout.as_slice(), stderr.as_slice()) {
        Ok(binary) => go(context, Phase::Placing { job, binary }, effects),
        Err(error) => {
            let failure = not_compiled(context.script.as_str(), error);
            fall_back(context, failure, effects)
        },
    }
}

fn after_comparison(
    context: Context<String, Vec<String>>,
    job: Job<String, Vec<u8>>,
    binary: Vec<u8>,
    cooked: Captured<Vec<u8>>,
    node: Captured<Vec<u8>>,
) -> (r: Stepped)
    ensures
        session::is_step(r, compared(context@, job@, binary@, cooked@, node@)),
{
    match verify::verify_outcome(&cooked, node.stdout.as_slice(), node.code) {
        VerifyOutcome::Equivalent => {
            let code = cooked.code;
            let effects = two_effects(
                Effect::Store { key: job.key, binary },
                Effect::Replay { stdout: cooked.stdout },
            );
            go(context, Phase::Over { ending: Ending::Exit { code } }, effects)
        },
        VerifyOutcome::Diverged => {
            let failure = verify::divergence_failure(
                context.script.as_str(),
                &cooked,
                node.stdout.as_slice(),
                node.code,
            );
            let effects = two_effects(
                Effect::Discard,
                Effect::RecordVerdict { key: keys::verdict_key(job.key.as_str()) },
            );
            fall_back(context, failure, effects)
        },
    }
}

impl Session<String, Vec<u8>, Vec<String>> {
    /// The question that the session waits to be answered, or how it ended.
    pub fn pending(&self) -> (r: Next<String, Vec<String>>)
        ensures
            r@ == pending(self@),
    {
        match &self.phase {
            Phase::Opening { .. } => Next::Ask { query: Query::ScriptExists },
            Phase::Reading => Next::Ask { query: Query::ReadSource },
            Phase::Locating { .. } => Next::Ask { query: Query::FindPerry },
            Phase::Stamping { .. } => Next::Ask { query: Query::StatPerry },
            Phase::Recalling { stamp, .. } => Next::Ask {
                query: Query::ReadMemo { stamp: stamp.clone() },
            },
            Phase::Versioning { .. } => self.ask_perry(PerryStep::Version),
            Phase::WarmDir { .. } => Next::Ask { query: Query::CacheDir },
            Phase::WarmVerdict { job } => Next::Ask {
                query: Query::HasEntry { key: keys::verdict_key(job.key.as_str()) },
            },
            Phase::WarmBinary { job } => Next::Ask {
                query: Query::HasEntry { key: job.key.clone() },
            },
            Phase::WarmRun { job } => Next::Ask {
                query: Query::RunCached {
                    key: job.key.clone(),
                    args: text::copies(self.context.args.as_slice()),
                },
            },
            Phase::Checking { .. } => self.ask_perry(PerryStep::Check),
            Phase::ColdDir { .. } => Next::Ask { query: Query::CacheDir },
            Phase::ColdCreate { .. } => Next::Ask { query: Query::CreateCacheDir },
            Phase::OutputDir { .. } => Next::Ask { query: Query::CacheDir },
            Phase::OutputFile { .. } => Next::Ask { query: Query::CreateOutput },
            Phase::Compiling { .. } => self.ask_perry(PerryStep::Compile),
            Phase::Collecting { .. } => Next::Ask { query: Query::ReadOutput },
            Phase::Placing { job, .. } => Next::Ask {
                query: Query::Place { key: job.key.clone() },
            },
            Phase::Cooking { .. } => Next::Ask {
                query: Query::RunCooked { args: text::copies(self.context.args.as_slice()) },
            },
            Phase::Comparing { .. } => Next::Ask { query: Query::RunNode },
            Phase::Over { ending } => Next::End {
                ending: match ending {
                    Ending::Node => Ending::Node,
                    Ending::Exit { code } => Ending::Exit { code: *code },
                    Ending::Usage { message } => Ending::Usage { message: message.clone() },
                },
            },
        }
    }

    fn ask_perry(&self, step: PerryStep) -> (r: Next<String, Vec<String>>)
        ensures
            r@ == (Next::<Seq<char>, Seq<Seq<char>>>::Ask {
                query: Query::RunPerry { step, bound: bound_in(self@.context, step) },
            }),
    {
        Next::Ask { query: Query::RunPerry { step, bound: step_bound(&self.context, step) } }
    }

    /// The binary that is to be placed or that was placed and is not trusted yet.
    pub fn binary(&self) -> (r: Option<&Vec<u8>>)
        ensures
            match self@.phase {
                Phase::Placing { binary, .. } | Phase::Cooking { binary, .. } | Phase::Comparing {
                    binary,
                    ..
                } => r is Some && r->0@ == binary,
                _ => r is None,
            },
    {
        match &self.phase {
            Phase::Placing { job: _, binary } => Some(binary),
            Phase::Cooking { job: _, binary } => Some(binary),
            Phase::Comparing { job: _, binary, cooked: _ } => Some(binary),
            _ => None,
        }
    }

    /// Goes on with the answer to what the session waits for. An answer to
    /// something else leaves it as it is.
    pub fn step(self, answer: Answer<String, Vec<u8>>) -> (r: (Session<String, Vec<u8>, Vec<String>>, Turn))
        ensures
            session::is_step(r, advance(self@, answer@)),
            sound(self@) ==> sound(r.0@),
    {
        let Session { context, phase } = self;
        match (phase, answer) {
            (Phase::Opening { compat }, Answer::Truth(exists)) => {
                if !exists {
                    let message = text::concat(
                        "nub cook: no such file: ",
                        context.script.as_str(),
                    );
                    end(context, Ending::Usage { message })
                } else if compat {
                    end(context, Ending::Node)
                } else {
                    go(context, Phase::Reading, no_effects())
                }
            },
            (Phase::Reading, Answer::Bytes(Ok(source))) => go(
                context,
                Phase::Locating { source },
                no_effects(),
            ),
            (Phase::Reading, Answer::Bytes(Err(e))) => {
                let mut message = text::concat("nub cook: cannot read ", context.script.as_str());
                message.append(": ");
                message.append(e.as_str());
                end(context, Ending::Usage { message })
            },
            (Phase::Locating { source }, Answer::Truth(found)) => {
                if found {
                    go(context, Phase::Stamping { source }, no_effects())
                } else {
                    end_on_node(context, PERRY_MISSING)
                }
            },
            (Phase::Stamping { source }, Answer::Stat(Some(stat))) => {
                let stamp = keys::perry_stamp(&stat);
                go(context, Phase::Recalling { source, stamp }, no_effects())
            },
            (Phase::Stamping { source }, Answer::Stat(None)) => go(
                context,
                Phase::Versioning { source, memo: None },
                no_effects(),
            ),
            (Phase::Recalling { source, stamp }, Answer::Memo(memo)) => {
                let version = match memo {
                    Some(bytes) => compile::read_version_memo(bytes),
                    None => None,
                };
                match version {
                    Some(version) => go(
                        context,
                        Phase::WarmDir { job: new_job(source, version) },
                        no_effects(),
                    ),
                    None => go(
                        context,
                        Phase::Versioning { source, memo: Some(stamp) },
                        no_effects(),
                    ),
                }
            },
            (Phase::Versioning { source, memo }, Answer::Ran(ran)) => after_version(
                context,
                source,
                memo,
                ran,
            ),
            (Phase::WarmDir { job }, Answer::Done(done)) => {
                if done.is_ok() {
                    go(context, Phase::WarmVerdict { job }, no_effects())
                } else {
                    go(context, Phase::Checking { job }, no_effects())
                }
            },
            (Phase::WarmVerdict { job }, Answer::Truth(present)) => {
                if present {
                    end(context, Ending::Node)
                } else {
                    go(context, Phase::WarmBinary { job }, no_effects())
                }
            },
            (Phase::WarmBinary { job }, Answer::Truth(present)) => {
                if present {
                    go(context, Phase::WarmRun { job }, no_effects())
                } else {
                    go(context, Phase::Checking { job }, no_effects())
                }
            },
            (Phase::WarmRun { job }, Answer::Code(code)) => match code {
                Some(code) => end(context, Ending::Exit { code }),
                None => go(context, Phase::Checking { job }, no_effects()),
            },
            (Phase::Checking { job }, Answer::Ran(ran)) => after_check(context, job, ran),
            (Phase::ColdDir { job }, Answer::Done(done)) => match done {
                Ok(()) => go(context, Phase::ColdCreate { job }, no_effects()),
                Err(e) => fall_back(
                    context,
                    own("could not resolve nub cache dir: ", e.as_str()),
                    no_effects(),
                ),
            },
            (Phase::ColdCreate { job }, Answer::Done(done)) => match done {
                Ok(()) => go(context, Phase::OutputDir { job }, no_effects()),
                Err(e) => fall_back(
                    context,
                    own("could not create cook cache dir: ", e.as_str()),
                    no_effects(),
                ),
            },
            (Phase::OutputDir { job }, Answer::Done(done)) => match done {
                Ok(()) => go(context, Phase::OutputFile { job }, no_effects()),
                Err(e) => {
                    let failure = not_compiled(
                        context.script.as_str(),
                        not_started("could not resolve cache dir: ", e.as_str()),
                    );
                    fall_back(context, failure, no_effects())
                },
            },
            (Phase::OutputFile { job }, Answer::Done(done)) => match done {
                Ok(()) => go(context, Phase::Compiling { job }, no_effects()),
                Err(e) => {
                    let failure = not_compiled(
                        context.script.as_str(),
                        not_started("could not create temp output: ", e.as_str()),
                    );
                    fall_back(context, failure, no_effects())
                },
            },
            (Phase::Compiling { job }, Answer::Ran(ran)) => after_compile(context, job, ran),
            (Phase::Collecting { job, stdout, stderr }, Answer::Bytes(read)) => after_collection(
                context,
                job,
                stdout,
                stderr,
                read,
            ),
            (Phase::Placing { job, binary }, Answer::Done(done)) => match done {
                Ok(()) => go(context, Phase::Cooking { job, binary }, no_effects()),
                Err(e) => fall_back(
                    context,
                    own("could not place cooked binary: ", e.as_str()),
                    no_effects(),
                ),
            },
            (Phase::Cooking { job, binary }, Answer::Captured(ran)) => match ran {
                Ok(cooked) => go(
                    context,
                    Phase::Comparing { job, binary, cooked },
                    no_effects(),
                ),
                Err(e) => fall_back(
                    context,
                    CookFailure {
                        cause: text::concat(
                            "cooked binary failed to run during verify: ",
                            e.as_str(),
                        ),
                        perry_attributable: true,
                        raw: None,
                    },
                    one_effect(Effect::Discard),
                ),
            },
            (Phase::Comparing { job, binary, cooked }, Answer::Captured(ran)) => match ran {
                Ok(node) => after_comparison(context, job, binary, cooked, node),
                Err(e) => fall_back(
                    context,
                    own("could not run Node reference for verify: ", e.as_str()),
                    one_effect(Effect::Discard),
                ),
            },
            (phase, _) => go(context, phase, no_effects()),
        }
    }
}

} // verus!
