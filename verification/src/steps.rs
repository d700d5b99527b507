//! What each answer leads to, phase by phase, and where the key of a run comes from.

use crate::bound;
use crate::bound::Bound;
use crate::check;
use crate::check::Gate;
use crate::compile;
use crate::compile::Built;
use crate::failure;
use crate::failure::CookFailure;
use crate::flow;
use crate::keys;
use crate::keys::PerryStat;
use crate::laws;
use crate::outside;
use crate::process::{PerryStep, Ran, Timed};
use crate::session::{
    Answer, ContextView, Effect, Ending, Job, Next, Phase, Query, Session, SessionView, Step,
};
use crate::text;
use crate::verify::Captured;
use vstd::prelude::*;
use vstd::utf8::*;

verus! {

/// The step goes on to this phase, and nothing else is done or said.
pub open spec fn goes_on(step: Step, phase: Phase<Seq<char>, Seq<u8>>) -> bool {
    &&& step.session.phase == phase
    &&& step.effects.len() == 0
    &&& step.notes.len() == 0
}

/// The step ends the run on Node, after this is done and said.
pub open spec fn ends_on_node(
    step: Step,
    effects: Seq<Effect<Seq<char>, Seq<u8>>>,
    notes: Seq<Seq<char>>,
) -> bool {
    &&& step.session.phase == (Phase::<Seq<char>, Seq<u8>>::Over { ending: Ending::Node })
    &&& step.effects == effects
    &&& step.notes == notes
}

/// The step ends the run on Node after a failure on this side, which is reported
/// and blamed on nobody.
pub open spec fn gives_up(
    s: SessionView,
    step: Step,
    effects: Seq<Effect<Seq<char>, Seq<u8>>>,
    cause: Seq<char>,
) -> bool {
    ends_on_node(
        step,
        effects,
        failure::report(
            CookFailure { cause, perry_attributable: false, raw: None },
            s.context.debug,
        ),
    )
}

/// The key of a binary is the digest of all of its source, of the version and of
/// the flags, of which there are none.
pub open spec fn key_is_digest(job: Job<Seq<char>, Seq<u8>>) -> bool {
    job.key == "cook/"@ + text::hex(
        outside::sha256_digest(
            encode_utf8("nub-cook-v1\0"@) + job.source + encode_utf8("\0perry\0"@) + encode_utf8(
                job.version,
            ) + encode_utf8("\0flags\0"@),
        ),
    )
}

/// The job is about this source and this version, under the key that they have.
pub open spec fn is_job(
    job: Job<Seq<char>, Seq<u8>>,
    source: Seq<u8>,
    version: Seq<char>,
) -> bool {
    job.source == source && job.version == version && key_is_digest(job)
}

proof fn lemma_job(source: Seq<u8>, version: Seq<char>)
    ensures
        is_job(flow::job_for(source, version), source, version),
{
    keys::law_key_is_the_digest_of_source_version_and_flags(source, version, Seq::empty());
}

// ---------------------------------------------------------------------------
// Questions
// ---------------------------------------------------------------------------

/// No answer changes what a run was given.
pub proof fn law_context_never_changes(s: SessionView, a: Answer<Seq<char>, Seq<u8>>)
    ensures
        flow::advance(s, a).session.context == s.context,
{
}

/// Each phase puts its own question, about the script and the job at hand, and a
/// run that is over puts none.
pub proof fn law_each_phase_puts_its_question(s: SessionView)
    ensures
        match s.phase {
            Phase::Over { ending: e } => flow::pending(s) matches Next::End { ending } && ending
                == e,
            _ => flow::pending(s) matches Next::Ask { query } && match s.phase {
                Phase::Opening { .. } => query is ScriptExists,
                Phase::Reading => query is ReadSource,
                Phase::Locating { .. } => query is FindPerry,
                Phase::Stamping { .. } => query is StatPerry,
                Phase::Recalling { stamp: t, .. } => query matches Query::ReadMemo { stamp }
                    && stamp == t,
                Phase::Versioning { .. } => query matches Query::RunPerry { step, bound } && step
                    == PerryStep::Version && bound == bound::bound_for(
                    s.context.setting,
                    Bound { secs: 5, nanos: 0 },
                ),
                Phase::WarmDir { .. } | Phase::ColdDir { .. } | Phase::OutputDir { .. } => query
                    is CacheDir,
                Phase::WarmVerdict { job } => query matches Query::HasEntry { key } && key
                    == "cook-verdict/"@ + keys::tail(job.key),
                Phase::WarmBinary { job } => query matches Query::HasEntry { key } && key
                    == job.key,
                Phase::WarmRun { job } => query matches Query::RunCached { key, args } && key
                    == job.key && args == s.context.args,
                Phase::Checking { .. } => query matches Query::RunPerry { step, bound } && step
                    == PerryStep::Check && bound == bound::bound_for(
                    s.context.setting,
                    Bound { secs: 20, nanos: 0 },
                ),
                Phase::ColdCreate { .. } => query is CreateCacheDir,
                Phase::OutputFile { .. } => query is CreateOutput,
                Phase::Compiling { .. } => query matches Query::RunPerry { step, bound } && step
                    == PerryStep::Compile && bound == bound::bound_for(
                    s.context.setting,
                    Bound { secs: 120, nanos: 0 },
                ),
                Phase::Collecting { .. } => query is ReadOutput,
                Phase::Placing { job, .. } => query matches Query::Place { key } && key == job.key,
                Phase::Cooking { .. } => query matches Query::RunCooked { args } && args
                    == s.context.args,
                Phase::Comparing { .. } => query is RunNode,
                Phase::Over { .. } => false,
            },
        },
{
}

/// Nothing that is said after the end of a run changes anything.
pub proof fn law_over_is_over(
    context: ContextView,
    ending: Ending<Seq<char>>,
    a: Answer<Seq<char>, Seq<u8>>,
)
    ensures
        goes_on(
            flow::advance(Session { context, phase: Phase::Over { ending } }, a),
            Phase::Over { ending },
        ),
{
}

// ---------------------------------------------------------------------------
// The script, perry and its version
// ---------------------------------------------------------------------------

/// A run goes on exactly with a script that exists, unless Node was asked for; a
/// script that does not exist is an error that names it.
pub proof fn law_script_must_exist(s: SessionView, exists: bool)
    requires
        s.phase is Opening,
    ensures
        ({
            let step = flow::advance(s, Answer::Truth(exists));
            &&& exists && !s.phase->Opening_compat ==> goes_on(step, Phase::Reading)
            &&& exists && s.phase->Opening_compat ==> ends_on_node(step, Seq::empty(), Seq::empty())
            &&& !exists ==> goes_on(
                step,
                Phase::Over {
                    ending: Ending::Usage {
                        message: "nub cook: no such file: "@ + s.context.script,
                    },
                },
            )
        }),
{
}

/// The source of a run is all that was read of the script; a script that cannot be
/// read is an error that names it and says why.
pub proof fn law_source_is_what_was_read(s: SessionView, read: Result<Seq<u8>, Seq<char>>)
    requires
        s.phase is Reading,
    ensures
        ({
            let step = flow::advance(s, Answer::Bytes(read));
            &&& read matches Ok(source) ==> goes_on(step, Phase::Locating { source })
            &&& read matches Err(e) ==> goes_on(
                step,
                Phase::Over {
                    ending: Ending::Usage {
                        message: "nub cook: cannot read "@ + s.context.script + ": "@ + e,
                    },
                },
            )
        }),
{
}

/// Without a `perry` the user is told where to get one, and the script runs on
/// Node.
pub proof fn law_perry_must_be_found(s: SessionView, found: bool)
    requires
        s.phase is Locating,
    ensures
        ({
            let step = flow::advance(s, Answer::Truth(found));
            &&& found ==> goes_on(step, Phase::Stamping { source: s.phase->Locating_source })
            &&& !found ==> ends_on_node(
                step,
                Seq::empty(),
                seq![
                    "nub cook: PerryTS not found on PATH.\n  cook AOT-compiles supported scripts to a fast-starting native binary.\n  Install PerryTS (https://github.com/PerryTS/perry) to enable it.\n  Running on Node instead."@,
                ],
            )
        }),
{
}

/// What is remembered of a `perry` is looked up under the digest of its path, the
/// time of its last change and its size; of a `perry` that cannot be looked at
/// nothing is remembered.
pub proof fn law_stamp_is_looked_up(s: SessionView, stat: PerryStat<Seq<char>>)
    requires
        s.phase is Stamping,
    ensures
        goes_on(
            flow::advance(s, Answer::Stat(Some(stat))),
            Phase::Recalling {
                source: s.phase->Stamping_source,
                stamp: "cook-perry-version/"@ + text::hex(
                    outside::sha256_digest(
                        encode_utf8(stat.path).push(0) + keys::le_bytes(
                            stat.mtime as nat,
                            16,
                        ).push(0) + keys::le_bytes(stat.len as nat, 8),
                    ),
                ),
            },
        ),
        goes_on(
            flow::advance(s, Answer::Stat(None)),
            Phase::Versioning { source: s.phase->Stamping_source, memo: None },
        ),
{
    keys::law_stamp_is_the_digest_of_path_time_and_size(stat);
}

/// A version that was written down is taken as it is, and `perry` is not asked;
/// anything else that is found in its place is passed over, and `perry` is asked.
pub proof fn law_written_version_is_recalled(
    s: SessionView,
    memo: Option<Seq<u8>>,
    version: Seq<char>,
)
    requires
        s.phase is Recalling,
    ensures
        ({
            let step = flow::advance(s, Answer::Memo(memo));
            let source = s.phase->Recalling_source;
            let known = memo matches Some(bytes) && version.len() > 0 && bytes == encode_utf8(
                version,
            );
            &&& known ==> (step.session.phase matches Phase::WarmDir { job } && is_job(
                job,
                source,
                version,
            ) && goes_on(step, Phase::WarmDir { job }))
            &&& (memo is None || !valid_utf8(memo->0) || memo->0.len() == 0) ==> goes_on(
                step,
                Phase::Versioning { source, memo: Some(s.phase->Recalling_stamp) },
            )
        }),
{
    let source = s.phase->Recalling_source;
    if let Some(bytes) = memo {
        compile::law_only_written_versions_are_remembered(bytes, version);
        if let Some(v) = compile::remembered(bytes) {
            compile::law_only_written_versions_are_remembered(bytes, v);
            encode_utf8_valid_utf8(v);
            encode_utf8_decode_utf8(v);
            if bytes.len() == 0 {
                assert(bytes == Seq::<u8>::empty());
                assert(encode_utf8(Seq::<char>::empty()) =~= Seq::<u8>::empty());
                encode_utf8_decode_utf8(Seq::<char>::empty());
            }
        }
    }
    lemma_job(source, version);
}

/// The version of a `perry` that succeeds and prints something is what it prints,
/// without the white space around it: the job is keyed by it, and it is written
/// down under the stamp, where there is one. Without a version the script runs on
/// Node.
pub proof fn law_printed_version_keys_the_job(s: SessionView, ran: Ran<Seq<char>, Seq<u8>>)
    requires
        s.phase is Versioning,
    ensures
        ({
            let step = flow::advance(s, Answer::Ran(ran));
            let source = s.phase->Versioning_source;
            let told = ran matches Ok(Timed::Completed { success, stdout, .. }) && success
                && text::trimmed(outside::utf8_lossy(stdout)).len() > 0;
            let version = text::trimmed(outside::utf8_lossy(ran->Ok_0->stdout));
            &&& told ==> {
                &&& step.session.phase matches Phase::WarmDir { job } && is_job(
                    job,
                    source,
                    version,
                )
                &&& step.notes.len() == 0
                &&& s.phase->memo is None ==> step.effects.len() == 0
                &&& s.phase->memo matches Some(stamp) ==> step.effects == seq![
                    Effect::Remember { stamp, version: encode_utf8(version) },
                ]
            }
            &&& !told ==> ends_on_node(
                step,
                Seq::empty(),
                seq![
                    "nub cook: could not determine PerryTS version. Running on Node instead."@,
                ],
            )
        }),
{
    lemma_job(
        s.phase->Versioning_source,
        text::trimmed(outside::utf8_lossy(ran->Ok_0->stdout)),
    );
}

// ---------------------------------------------------------------------------
// The warm path
// ---------------------------------------------------------------------------

/// The cache is asked for a verdict, then for a binary; a verdict leads to Node, a
/// binary is run, and where there is neither, or no cache, the script is checked.
/// The job stays the same all the while, and nothing is done or said.
pub proof fn law_cache_is_asked_first(s: SessionView, job: Job<Seq<char>, Seq<u8>>, yes: bool)
    ensures
        s.phase == (Phase::WarmDir { job }) ==> goes_on(
            flow::advance(s, Answer::Done(Ok(()))),
            Phase::WarmVerdict { job },
        ),
        s.phase == (Phase::WarmVerdict { job }) ==> goes_on(
            flow::advance(s, Answer::Truth(yes)),
            if yes {
                Phase::Over { ending: Ending::Node }
            } else {
                Phase::WarmBinary { job }
            },
        ),
        s.phase == (Phase::WarmBinary { job }) ==> goes_on(
            flow::advance(s, Answer::Truth(yes)),
            if yes {
                Phase::WarmRun { job }
            } else {
                Phase::Checking { job }
            },
        ),
{
}

/// Without a cache there is nothing to look up: the script is checked.
pub proof fn law_missing_cache_is_passed_over(s: SessionView, e: Seq<char>)
    requires
        s.phase is WarmDir,
    ensures
        goes_on(
            flow::advance(s, Answer::Done(Err(e))),
            Phase::Checking { job: s.phase->WarmDir_job },
        ),
{
}

/// A cached binary that has run always ends the run, with its exit code, and
/// nothing else is asked, done or said; one that could not be run leads to a
/// check.
pub proof fn law_cached_binary_ends_the_run(s: SessionView, code: i32)
    requires
        s.phase is WarmRun,
    ensures
        goes_on(
            flow::advance(s, Answer::Code(Some(code))),
            Phase::Over { ending: Ending::Exit { code } },
        ),
        goes_on(
            flow::advance(s, Answer::Code(None)),
            Phase::Checking { job: s.phase->WarmRun_job },
        ),
{
}

// ---------------------------------------------------------------------------
// The cold path
// ---------------------------------------------------------------------------

/// A script that the check lets through, or did not look at, goes on to be compiled
/// for the same job. A rejected one is reported with its reasons and the link, and
/// gets a verdict under its job's key; one without an answer is reported with the
/// note.
pub proof fn law_check_decides_what_is_compiled(s: SessionView, ran: Ran<Seq<char>, Seq<u8>>)
    requires
        s.phase is Checking,
    ensures
        ({
            let step = flow::advance(s, Answer::Ran(ran));
            let job = s.phase->Checking_job;
            let bound = bound::bound_for(s.context.setting, Bound { secs: 20, nanos: 0 });
            match check::gated(ran, bound, job.version) {
                Gate::Compilable { .. } => goes_on(step, Phase::ColdDir { job }),
                Gate::Indeterminate { .. } => goes_on(step, Phase::ColdDir { job }),
                Gate::Unsupported { diagnostics, raw } => ends_on_node(
                    step,
                    seq![
                        Effect::RecordVerdict {
                            key: "cook-verdict/"@ + keys::tail(job.key),
                        },
                    ],
                    failure::report(
                        CookFailure {
                            cause: s.context.script + " uses APIs PerryTS does not compile:\n"@
                                + failure::indented(diagnostics),
                            perry_attributable: true,
                            raw: Some(raw),
                        },
                        s.context.debug,
                    ),
                ),
                Gate::Unavailable { note } => gives_up(s, step, Seq::empty(), note),
            }
        }),
{
    let bound = bound::bound_for(s.context.setting, Bound { secs: 20, nanos: 0 });
    check::law_gate_names_the_version_asked(ran, bound, s.phase->Checking_job.version);
}

/// Before the compiler runs, its places are made one after the other, for the same
/// job; one that cannot be made ends the run on Node and says why.
pub proof fn law_places_are_made_first(
    s: SessionView,
    job: Job<Seq<char>, Seq<u8>>,
    done: Result<(), Seq<char>>,
)
    ensures
        ({
            let step = flow::advance(s, Answer::Done(done));
            let none = Seq::<Effect<Seq<char>, Seq<u8>>>::empty();
            let compiling = "could not compile "@ + s.context.script + ": "@;
            &&& s.phase == (Phase::ColdDir { job }) ==> match done {
                Ok(_) => goes_on(step, Phase::ColdCreate { job }),
                Err(e) => gives_up(s, step, none, "could not resolve nub cache dir: "@ + e),
            }
            &&& s.phase == (Phase::ColdCreate { job }) ==> match done {
                Ok(_) => goes_on(step, Phase::OutputDir { job }),
                Err(e) => gives_up(s, step, none, "could not create cook cache dir: "@ + e),
            }
            &&& s.phase == (Phase::OutputDir { job }) ==> match done {
                Ok(_) => goes_on(step, Phase::OutputFile { job }),
                Err(e) => gives_up(
                    s,
                    step,
                    none,
                    compiling + ("could not resolve cache dir: "@ + e),
                ),
            }
            &&& s.phase == (Phase::OutputFile { job }) ==> match done {
                Ok(_) => goes_on(step, Phase::Compiling { job }),
                Err(e) => gives_up(
                    s,
                    step,
                    none,
                    compiling + ("could not create temp output: "@ + e),
                ),
            }
        }),
{
}

/// A compilation that succeeds leads to its output being read. One that does not
/// is reported as what it came to, what it left behind is removed, and the script
/// runs on Node.
pub proof fn law_failed_compilation_leads_to_node(s: SessionView, ran: Ran<Seq<char>, Seq<u8>>)
    requires
        s.phase is Compiling,
    ensures
        ({
            let step = flow::advance(s, Answer::Ran(ran));
            let bound = bound::bound_for(s.context.setting, Bound { secs: 120, nanos: 0 });
            match compile::built(ran, bound) {
                Built::Written { stdout, stderr } => goes_on(
                    step,
                    Phase::Collecting { job: s.phase->Compiling_job, stdout, stderr },
                ),
                Built::Failed { error } => ends_on_node(
                    step,
                    seq![Effect::RemoveOutput],
                    failure::report(
                        CookFailure {
                            cause: "could not compile "@ + s.context.script + ": "@ + error.cause,
                            perry_attributable: error.attributable,
                            raw: error.raw,
                        },
                        s.context.debug,
                    ),
                ),
            }
        }),
{
}

/// The output of the compiler is removed once it was read, or could not be. Bytes
/// that were read, one at least, are the binary, all of them; anything else is
/// reported as what it is, and the script runs on Node.
pub proof fn law_output_becomes_the_binary(s: SessionView, read: Result<Seq<u8>, Seq<char>>)
    requires
        s.phase is Collecting,
    ensures
        ({
            let step = flow::advance(s, Answer::Bytes(read));
            let came_to = compile::produced(
                read,
                s.phase->Collecting_stdout,
                s.phase->Collecting_stderr,
            );
            &&& step.effects == seq![Effect::<Seq<char>, Seq<u8>>::RemoveOutput]
            &&& (read is Ok && read->Ok_0.len() > 0) ==> {
                &&& step.session.phase == (Phase::Placing {
                    job: s.phase->Collecting_job,
                    binary: read->Ok_0,
                })
                &&& step.notes.len() == 0
            }
            &&& came_to matches Err(error) ==> ends_on_node(
                step,
                seq![Effect::RemoveOutput],
                failure::report(
                    CookFailure {
                        cause: "could not compile "@ + s.context.script + ": "@ + error.cause,
                        perry_attributable: error.attributable,
                        raw: error.raw,
                    },
                    s.context.debug,
                ),
            )
        }),
{
}

/// A binary is placed, then run: what it came to is kept to be compared. One that
/// cannot be placed is given up; one that cannot be run is given up, removed, and
/// blamed on PerryTS.
pub proof fn law_binary_is_placed_and_run(
    s: SessionView,
    job: Job<Seq<char>, Seq<u8>>,
    binary: Seq<u8>,
    cooked: Captured<Seq<u8>>,
    e: Seq<char>,
)
    ensures
        s.phase == (Phase::Placing { job, binary }) ==> {
            &&& goes_on(flow::advance(s, Answer::Done(Ok(()))), Phase::Cooking { job, binary })
            &&& gives_up(
                s,
                flow::advance(s, Answer::Done(Err(e))),
                Seq::empty(),
                "could not place cooked binary: "@ + e,
            )
        },
        s.phase == (Phase::Cooking { job, binary }) ==> {
            &&& goes_on(
                flow::advance(s, Answer::Captured(Ok(cooked))),
                Phase::Comparing { job, binary, cooked },
            )
            &&& ends_on_node(
                flow::advance(s, Answer::Captured(Err(e))),
                seq![Effect::Discard],
                failure::report(
                    CookFailure {
                        cause: "cooked binary failed to run during verify: "@ + e,
                        perry_attributable: true,
                        raw: None,
                    },
                    s.context.debug,
                ),
            )
        },
{
}

/// A binary that wrote what Node wrote and exited as Node did is stored under its
/// key, its output is shown once, and the run ends with its exit code, whatever
/// that is: the script is not run again. A binary that differs is removed, gets a
/// verdict, is reported, and the script runs on Node.
pub proof fn law_equal_binary_ends_the_run(s: SessionView, node: Captured<Seq<u8>>)
    requires
        s.phase is Comparing,
    ensures
        ({
            let step = flow::advance(s, Answer::Captured(Ok(node)));
            let job = s.phase->Comparing_job;
            let cooked = s.phase->cooked;
            let equal = cooked.stdout == node.stdout && cooked.code == node.code;
            &&& equal ==> {
                &&& step.session.phase == (Phase::<Seq<char>, Seq<u8>>::Over {
                    ending: Ending::Exit { code: node.code },
                })
                &&& step.effects == seq![
                    Effect::Store { key: job.key, binary: s.phase->Comparing_binary },
                    Effect::Replay { stdout: node.stdout },
                ]
                &&& step.notes.len() == 0
            }
            &&& !equal ==> ends_on_node(
                step,
                seq![
                    Effect::Discard,
                    Effect::RecordVerdict { key: "cook-verdict/"@ + keys::tail(job.key) },
                ],
                failure::report(
                    crate::verify::divergence(s.context.script, cooked, node),
                    s.context.debug,
                ),
            )
        }),
{
}

/// Without a run of Node to compare with, the binary is removed and not trusted,
/// and nobody is blamed.
pub proof fn law_nothing_is_trusted_uncompared(s: SessionView, e: Seq<char>)
    requires
        s.phase is Comparing,
    ensures
        gives_up(
            s,
            flow::advance(s, Answer::Captured(Err(e))),
            seq![Effect::Discard],
            "could not run Node reference for verify: "@ + e,
        ),
{
}

/// Output is shown once or the script is run on Node, never both; and a binary is
/// stored exactly where its output is shown.
pub proof fn law_output_is_shown_once(s: SessionView, a: Answer<Seq<char>, Seq<u8>>, i: int)
    requires
        0 <= i < flow::advance(s, a).effects.len(),
        flow::advance(s, a).effects[i] is Replay,
    ensures
        flow::advance(s, a).session.phase matches Phase::Over { ending } && ending is Exit,
        flow::advance(s, a).effects.len() == 2,
        flow::advance(s, a).effects[0] is Store,
        i == 1,
{
}

// ---------------------------------------------------------------------------
// Where the job of a run comes from
// ---------------------------------------------------------------------------

/// The source that a phase is about.
pub open spec fn source_of(phase: Phase<Seq<char>, Seq<u8>>) -> Option<Seq<u8>> {
    match phase {
        Phase::Locating { source } | Phase::Stamping { source } | Phase::Recalling {
            source,
            ..
        } | Phase::Versioning { source, .. } => Some(source),
        _ => match flow::job_of(phase) {
            Some(job) => Some(job.source),
            None => None,
        },
    }
}

/// The answer number `i` gave this source.
pub open spec fn gave_source(
    start: SessionView,
    answers: Seq<Answer<Seq<char>, Seq<u8>>>,
    i: int,
    source: Seq<u8>,
) -> bool {
    &&& 0 <= i < answers.len()
    &&& flow::pending(laws::after(start, answers.take(i))) matches Next::Ask { query }
        && query is ReadSource
    &&& answers[i] == Answer::<Seq<char>, Seq<u8>>::Bytes(Ok(source))
}

/// The answer number `i` gave this version: it was recalled as it was written
/// down, or `perry` printed it.
pub open spec fn gave_version(
    start: SessionView,
    answers: Seq<Answer<Seq<char>, Seq<u8>>>,
    i: int,
    version: Seq<char>,
) -> bool {
    &&& 0 <= i < answers.len()
    &&& flow::pending(laws::after(start, answers.take(i))) matches Next::Ask { query } && {
        ||| query is ReadMemo && (answers[i] matches Answer::Memo(Some(bytes)) && bytes
            == encode_utf8(version))
        ||| (query matches Query::RunPerry { step, .. } && step == PerryStep::Version) && (
        answers[i] matches Answer::Ran(Ok(Timed::Completed { success, stdout, .. })) && success
            && version == text::trimmed(outside::utf8_lossy(stdout)))
    }
    &&& version.len() > 0
}

/// A source is kept from step to step, and comes from nowhere but the script.
proof fn lemma_source_step(s: SessionView, a: Answer<Seq<char>, Seq<u8>>)
    ensures
        source_of(flow::advance(s, a).session.phase) matches Some(source) ==> source_of(s.phase)
            == Some(source) || s.phase is Reading && a == Answer::<Seq<char>, Seq<u8>>::Bytes(
            Ok(source),
        ),
{
}

/// A job is kept from step to step, and comes from nowhere but a recalled or a
/// printed version.
#[verifier::rlimit(50)]
proof fn lemma_job_step(s: SessionView, a: Answer<Seq<char>, Seq<u8>>)
    ensures
        flow::job_of(flow::advance(s, a).session.phase) matches Some(job) ==> {
            ||| flow::job_of(s.phase) == Some(job)
            ||| s.phase is Recalling && key_is_digest(job) && job.version.len() > 0 && (a
                matches Answer::Memo(Some(bytes)) && bytes == encode_utf8(job.version))
            ||| s.phase is Versioning && key_is_digest(job) && job.version.len() > 0 && (a
                matches Answer::Ran(Ok(Timed::Completed { success, stdout, .. })) && success
                && job.version == text::trimmed(outside::utf8_lossy(stdout)))
        },
{
    let phase = flow::advance(s, a).session.phase;
    if let Some(job) = flow::job_of(phase) {
        if s.phase is Recalling {
            lemma_job(job.source, job.version);
            if let Answer::Memo(Some(bytes)) = a {
                compile::law_only_written_versions_are_remembered(bytes, job.version);
            }
        } else if s.phase is Versioning {
            lemma_job(job.source, job.version);
        } else if s.phase is Checking {
            if let Answer::Ran(ran) = a {
                law_check_decides_what_is_compiled(s, ran);
            }
        }
    }
}

/// The source of every run is all the bytes that were read of its script.
#[verifier::rlimit(50)]
pub proof fn law_source_follows_what_was_read(
    start: SessionView,
    answers: Seq<Answer<Seq<char>, Seq<u8>>>,
)
    requires
        start.phase is Opening,
    ensures
        source_of(laws::after(start, answers).phase) matches Some(source) ==> exists|i: int|
            gave_source(start, answers, i, source),
    decreases answers.len(),
{
    if answers.len() > 0 {
        let before = answers.drop_last();
        let last = answers.len() - 1;
        let s = laws::after(start, before);
        law_source_follows_what_was_read(start, before);
        lemma_source_step(s, answers.last());
        assert(answers.take(last) == before);
        if let Some(source) = source_of(laws::after(start, answers).phase) {
            if source_of(s.phase) == Some(source) {
                let i = choose|i: int| gave_source(start, before, i, source);
                assert(before.take(i) == answers.take(i));
                assert(gave_source(start, answers, i, source));
            } else {
                assert(gave_source(start, answers, last, source));
            }
        }
    }
}

/// Along every run the key of the job is the digest of all of its source, which is
/// all that was read of the script, and of the version that was recalled or
/// printed.
#[verifier::rlimit(50)]
pub proof fn law_key_follows_what_was_read(
    start: SessionView,
    answers: Seq<Answer<Seq<char>, Seq<u8>>>,
)
    requires
        start.phase is Opening,
    ensures
        flow::job_of(laws::after(start, answers).phase) matches Some(job) ==> {
            &&& key_is_digest(job)
            &&& exists|i: int| gave_source(start, answers, i, job.source)
            &&& exists|i: int| gave_version(start, answers, i, job.version)
        },
    decreases answers.len(),
{
    law_source_follows_what_was_read(start, answers);
    if answers.len() > 0 {
        let before = answers.drop_last();
        let last = answers.len() - 1;
        let s = laws::after(start, before);
        law_key_follows_what_was_read(start, before);
        lemma_job_step(s, answers.last());
        assert(answers.take(last) == before);
        if let Some(job) = flow::job_of(laws::after(start, answers).phase) {
            if flow::job_of(s.phase) == Some(job) {
                let i = choose|i: int| gave_version(start, before, i, job.version);
                assert(before.take(i) == answers.take(i));
                assert(gave_version(start, answers, i, job.version));
            } else {
                assert(gave_version(start, answers, last, job.version));
            }
        }
    }
}

/// Two runs, whatever they were given and answered, look for a binary under the
/// same key exactly if the digests of what they have read agree: an edit anywhere
/// in the script, or another version, leads to another key unless SHA-256 itself
/// collides.
pub proof fn law_runs_share_a_key_exactly_by_digest(
    start1: SessionView,
    answers1: Seq<Answer<Seq<char>, Seq<u8>>>,
    start2: SessionView,
    answers2: Seq<Answer<Seq<char>, Seq<u8>>>,
)
    requires
        start1.phase is Opening,
        start2.phase is Opening,
        flow::job_of(laws::after(start1, answers1).phase) is Some,
        flow::job_of(laws::after(start2, answers2).phase) is Some,
    ensures
        ({
            let job1 = flow::job_of(laws::after(start1, answers1).phase)->0;
            let job2 = flow::job_of(laws::after(start2, answers2).phase)->0;
            job1.key == job2.key <==> outside::sha256_digest(
                encode_utf8("nub-cook-v1\0"@) + job1.source + encode_utf8("\0perry\0"@)
                    + encode_utf8(job1.version) + encode_utf8("\0flags\0"@),
            ) == outside::sha256_digest(
                encode_utf8("nub-cook-v1\0"@) + job2.source + encode_utf8("\0perry\0"@)
                    + encode_utf8(job2.version) + encode_utf8("\0flags\0"@),
            )
        }),
{
    law_key_follows_what_was_read(start1, answers1);
    law_key_follows_what_was_read(start2, answers2);
    let job1 = flow::job_of(laws::after(start1, answers1).phase)->0;
    let job2 = flow::job_of(laws::after(start2, answers2).phase)->0;
    keys::law_keys_are_digests(job1.source, job1.version, job2.source, job2.version);
    keys::law_key_is_the_digest_of_source_version_and_flags(
        job1.source,
        job1.version,
        Seq::empty(),
    );
    keys::law_key_is_the_digest_of_source_version_and_flags(
        job2.source,
        job2.version,
        Seq::empty(),
    );
    let head1 = encode_utf8("nub-cook-v1\0"@) + job1.source + encode_utf8("\0perry\0"@)
        + encode_utf8(job1.version) + encode_utf8("\0flags\0"@);
    let head2 = encode_utf8("nub-cook-v1\0"@) + job2.source + encode_utf8("\0perry\0"@)
        + encode_utf8(job2.version) + encode_utf8("\0flags\0"@);
    lemma_plain_preimage(job1.source, job1.version);
    lemma_plain_preimage(job2.source, job2.version);
}

proof fn lemma_plain_preimage(source: Seq<u8>, version: Seq<char>)
    ensures
        keys::preimage(source, version, crate::process::flags()) == encode_utf8("nub-cook-v1\0"@)
            + source + encode_utf8("\0perry\0"@) + encode_utf8(version) + encode_utf8(
            "\0flags\0"@,
        ),
{
    keys::law_key_is_the_digest_of_source_version_and_flags(source, version, Seq::empty());
    let none = Seq::<Seq<char>>::empty();
    text::law_texts_are_joined_in_parts(none, none, seq![' ']);
    assert(encode_utf8(Seq::<char>::empty()) =~= Seq::<u8>::empty());
    assert(crate::process::flags() == none);
    let head = encode_utf8("nub-cook-v1\0"@) + source + encode_utf8("\0perry\0"@) + encode_utf8(
        version,
    ) + encode_utf8("\0flags\0"@);
    assert(head + Seq::<u8>::empty() == head);
}

} // verus!
