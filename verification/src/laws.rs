//! What holds of every run of `nub cook`.

use crate::args;
use crate::check;
use crate::compile;
use crate::failure;
use crate::flow;
use crate::keys;
use crate::keys::PerryStat;
use crate::process::{PerryStep, Ran};
use crate::session::{
    Answer, Context, Effect, Ending, Next, NextView, Phase, Query, Session, SessionView,
};
use crate::verify;
use crate::verify::Captured;
use vstd::prelude::*;
use vstd::utf8::*;

verus! {

// ---------------------------------------------------------------------------
// Runs
// ---------------------------------------------------------------------------

/// The session after these answers.
pub open spec fn after(
    start: SessionView,
    answers: Seq<Answer<Seq<char>, Seq<u8>>>,
) -> SessionView
    decreases answers.len(),
{
    if answers.len() == 0 {
        start
    } else {
        flow::advance(after(start, answers.drop_last()), answers.last()).session
    }
}

/// Each answer is one to what the session waits for by then.
pub open spec fn all_fit(
    start: SessionView,
    answers: Seq<Answer<Seq<char>, Seq<u8>>>,
) -> bool {
    forall|i: int|
        0 <= i < answers.len() ==> flow::fits(#[trigger] after(start, answers.take(i)), answers[i])
}

/// How many questions a session can still ask at most.
pub open spec fn questions_left(phase: Phase<Seq<char>, Seq<u8>>) -> nat {
    match phase {
        Phase::Opening { .. } => 20,
        Phase::Reading => 19,
        Phase::Locating { .. } => 18,
        Phase::Stamping { .. } => 17,
        Phase::Recalling { .. } => 16,
        Phase::Versioning { .. } => 15,
        Phase::WarmDir { .. } => 14,
        Phase::WarmVerdict { .. } => 13,
        Phase::WarmBinary { .. } => 12,
        Phase::WarmRun { .. } => 11,
        Phase::Checking { .. } => 10,
        Phase::ColdDir { .. } => 9,
        Phase::ColdCreate { .. } => 8,
        Phase::OutputDir { .. } => 7,
        Phase::OutputFile { .. } => 6,
        Phase::Compiling { .. } => 5,
        Phase::Collecting { .. } => 4,
        Phase::Placing { .. } => 3,
        Phase::Cooking { .. } => 2,
        Phase::Comparing { .. } => 1,
        Phase::Over { .. } => 0,
    }
}

/// An answer to something else than what the session waits for changes nothing
/// and leads to nothing.
pub proof fn law_unasked_answer_changes_nothing(
    s: SessionView,
    a: Answer<Seq<char>, Seq<u8>>,
)
    requires
        !flow::fits(s, a),
    ensures
        flow::advance(s, a) == flow::going(s.context, s.phase),
{
}

/// An answer to what the session waits for leads on: fewer questions are left.
pub proof fn law_answer_leads_on(
    s: SessionView,
    a: Answer<Seq<char>, Seq<u8>>,
)
    requires
        flow::fits(s, a),
    ensures
        questions_left(flow::advance(s, a).session.phase) < questions_left(s.phase),
        flow::advance(s, a).session.context == s.context,
{
}

/// A run comes back to no earlier phase: no question is put twice, so `perry` is
/// asked to compile at most once, and the binary and Node are each run at most
/// once to be compared.
pub proof fn law_no_phase_comes_twice(
    start: SessionView,
    answers: Seq<Answer<Seq<char>, Seq<u8>>>,
    i: int,
    j: int,
)
    requires
        all_fit(start, answers),
        0 <= i <= j <= answers.len(),
    ensures
        questions_left(after(start, answers.take(j)).phase) + (j - i) <= questions_left(
            after(start, answers.take(i)).phase,
        ),
    decreases j - i,
{
    if i < j {
        law_no_phase_comes_twice(start, answers, i, j - 1);
        let s = after(start, answers.take(j - 1));
        assert(answers.take(j).drop_last() == answers.take(j - 1));
        assert(answers.take(j).last() == answers[j - 1]);
        law_answer_leads_on(s, answers[j - 1]);
    }
}

/// Every run ends: after twenty answers at the latest it is over.
pub proof fn law_run_ends(
    script: Seq<char>,
    argv: Seq<Seq<char>>,
    compat: bool,
    debug: bool,
    setting: Option<Seq<char>>,
    answers: Seq<Answer<Seq<char>, Seq<u8>>>,
)
    requires
        all_fit(args::opened(script, argv, compat, debug, setting), answers),
    ensures
        answers.len() <= 20,
        answers.len() == 20 ==> after(
            args::opened(script, argv, compat, debug, setting),
            answers,
        ).phase is Over,
{
    let start = args::opened(script, argv, compat, debug, setting);
    law_no_phase_comes_twice(start, answers, 0, answers.len() as int);
    assert(answers.take(0) == Seq::<Answer<Seq<char>, Seq<u8>>>::empty());
    assert(answers.take(answers.len() as int) == answers);
}

/// Along a run the key is always that of the source read and the version found.
pub proof fn law_runs_are_sound(
    start: SessionView,
    answers: Seq<Answer<Seq<char>, Seq<u8>>>,
)
    requires
        flow::sound(start),
    ensures
        flow::sound(after(start, answers)),
    decreases answers.len(),
{
    if answers.len() > 0 {
        law_runs_are_sound(start, answers.drop_last());
    }
}

// ---------------------------------------------------------------------------
// How runs end
// ---------------------------------------------------------------------------

/// The script always runs: a run ends without it only if there is no script or it
/// cannot be read. It ends with an exit code only if a binary has run, one from
/// the cache or one that behaved like Node; in every other case the script runs
/// on Node.
pub proof fn law_script_always_runs(
    s: SessionView,
    a: Answer<Seq<char>, Seq<u8>>,
)
    requires
        flow::fits(s, a),
    ensures
        flow::advance(s, a).session.phase matches Phase::Over { ending } ==> match ending {
            Ending::Usage { message } => {
                ||| s.phase is Opening && a == Answer::<Seq<char>, Seq<u8>>::Truth(false)
                    && message == flow::no_such_file(s.context.script)
                ||| s.phase is Reading && (a matches Answer::Bytes(Err(e)) && message
                    == flow::cannot_read(s.context.script, e))
            },
            Ending::Exit { code } => {
                ||| s.phase is WarmRun && a == Answer::<Seq<char>, Seq<u8>>::Code(Some(code))
                ||| (s.phase matches Phase::Comparing { cooked, .. } && a
                    == Answer::<Seq<char>, Seq<u8>>::Captured(Ok(cooked)) && code == cooked.code)
            },
            Ending::Node => true,
        },
{
}

/// A missing script is an error and never a silent run on Node, whatever else is
/// asked for.
pub proof fn law_missing_script_is_an_error(
    script: Seq<char>,
    argv: Seq<Seq<char>>,
    compat: bool,
    debug: bool,
    setting: Option<Seq<char>>,
)
    ensures
        flow::advance(args::opened(script, argv, compat, debug, setting), Answer::Truth(false))
            == flow::ending(
            args::opened(script, argv, compat, debug, setting).context,
            Ending::Usage { message: flow::no_such_file(script) },
        ),
{
}

/// In compatibility mode nothing but the existence of the script is asked: it
/// runs on Node at once, and nothing is written or stored.
pub proof fn law_compat_mode_goes_straight_to_node(
    script: Seq<char>,
    argv: Seq<Seq<char>>,
    debug: bool,
    setting: Option<Seq<char>>,
)
    ensures
        flow::advance(args::opened(script, argv, true, debug, setting), Answer::Truth(true))
            == flow::ending(args::opened(script, argv, true, debug, setting).context, Ending::Node),
{
}

/// Notes are written only where Node takes over.
pub proof fn law_notes_announce_node(
    s: SessionView,
    a: Answer<Seq<char>, Seq<u8>>,
)
    requires
        flow::advance(s, a).notes.len() > 0,
    ensures
        flow::advance(s, a).session.phase == (Phase::<Seq<char>, Seq<u8>>::Over {
            ending: Ending::Node,
        }),
{
}

/// The name of the script decides nothing, and so neither does its extension: a
/// script under another name takes the same way and leads to the same effects.
pub proof fn law_script_name_decides_nothing(
    s: SessionView,
    a: Answer<Seq<char>, Seq<u8>>,
    name: Seq<char>,
)
    ensures
        ({
            let renamed = Session { context: Context { script: name, ..s.context }, ..s };
            let step = flow::advance(s, a);
            let other = flow::advance(renamed, a);
            &&& other.effects == step.effects
            &&& other.session.phase == step.session.phase || {
                &&& step.session.phase matches Phase::Over { ending } && ending is Usage
                &&& other.session.phase matches Phase::Over { ending } && ending is Usage
            }
        }),
{
}

/// `--debug` changes what is reported and nothing else.
pub proof fn law_debug_changes_the_report_only(
    s: SessionView,
    a: Answer<Seq<char>, Seq<u8>>,
    debug: bool,
)
    ensures
        ({
            let other = flow::advance(
                Session { context: Context { debug, ..s.context }, ..s },
                a,
            );
            &&& other.effects == flow::advance(s, a).effects
            &&& other.session.phase == flow::advance(s, a).session.phase
        }),
{
}

/// A `perry` that wedges, or that does not even start, never stops a run: in each
/// of its steps the script goes on to Node, and PerryTS is not blamed.
pub proof fn law_wedged_perry_leads_to_node(
    s: SessionView,
    ran: Ran<Seq<char>, Seq<u8>>,
)
    requires
        flow::pending(s) matches Next::Ask { query } && query is RunPerry,
        ran is Err || ran->Ok_0 is TimedOut,
    ensures
        flow::advance(s, Answer::Ran(ran)).session.phase == (Phase::<Seq<char>, Seq<u8>>::Over {
            ending: Ending::Node,
        }),
        !flow::advance(s, Answer::Ran(ran)).notes.contains(failure::issue_link()),
{
    let step = flow::advance(s, Answer::Ran(ran));
    match s.phase {
        Phase::Versioning { .. } => {
            reveal_strlit(
                "nub cook: could not determine PerryTS version. Running on Node instead.",
            );
            reveal_strlit("  This looks like a PerryTS gap — file an issue: ");
            assert(flow::VERSION_UNKNOWN@[0] == 'n');
            assert(failure::issue_link()[0] == ' ');
        },
        Phase::Checking { job } => {
            law_gate_decides(s, ran);
        },
        Phase::Compiling { .. } => {
            let bound = flow::bound_in(s.context, PerryStep::Compile);
            let error = compile::built(ran, bound)->error;
            failure::law_link_exactly_for_blame(
                flow::compile_failure(s.context.script, error),
                s.context.debug,
            );
        },
        _ => {},
    }
}

// ---------------------------------------------------------------------------
// Trust
// ---------------------------------------------------------------------------

/// Only a verified binary is ever cached: one that was just run next to Node,
/// with the same output and the same exit code; and it is stored under its own
/// key.
pub proof fn law_only_verified_binaries_are_stored(
    s: SessionView,
    a: Answer<Seq<char>, Seq<u8>>,
    key: Seq<char>,
    binary: Seq<u8>,
)
    ensures
        flow::advance(s, a).effects.contains(Effect::Store { key, binary }) <==> (s.phase matches
            Phase::Comparing { job, binary: b, cooked } && a
            == Answer::<Seq<char>, Seq<u8>>::Captured(Ok(cooked)) && key == job.key && binary
            == b),
{
    if let Phase::Comparing { job, binary: b, cooked } = s.phase {
        if a == Answer::<Seq<char>, Seq<u8>>::Captured(Ok(cooked)) {
            let step = flow::advance(s, a);
            assert(step.effects[0] == (Effect::<Seq<char>, Seq<u8>>::Store {
                key: job.key,
                binary: b,
            }));
            assert(step.effects[1] is Replay);
        }
    }
}

/// Whether this answer speaks against the source: the check rejects the script, or
/// the binary ran, Node ran, and they differ.
pub open spec fn speaks_against(s: SessionView, a: Answer<Seq<char>, Seq<u8>>) -> bool {
    match (s.phase, a) {
        (Phase::Checking { job }, Answer::Ran(ran)) => check::gated(
            ran,
            flow::bound_in(s.context, PerryStep::Check),
            job.version,
        ) is Unsupported,
        (Phase::Comparing { cooked, .. }, Answer::Captured(Ok(node))) => cooked != node,
        _ => false,
    }
}

/// A verdict is recorded exactly if the check rejects the script, or the binary
/// and Node have both run and differ; and it is recorded for the key of the
/// binary. A failure of the machine, or of the compiler, leaves none.
pub proof fn law_verdict_exactly_for_rejection_or_divergence(
    s: SessionView,
    a: Answer<Seq<char>, Seq<u8>>,
    key: Seq<char>,
)
    ensures
        flow::advance(s, a).effects.contains(Effect::RecordVerdict { key }) <==> speaks_against(
            s,
            a,
        ) && (flow::job_of(s.phase) matches Some(job) && key == keys::verdict_text(job.key)),
{
    let effects = flow::advance(s, a).effects;
    if speaks_against(s, a) {
        let verdict = Effect::<Seq<char>, Seq<u8>>::RecordVerdict {
            key: keys::verdict_text(flow::job_of(s.phase)->0.key),
        };
        if s.phase is Checking {
            assert(effects[0] == verdict);
        } else {
            assert(effects[0] is Discard && effects[1] == verdict);
        }
    }
}

/// A first run shows what Node shows: where it ends with the exit code of the
/// binary that it compared, that code and the output it writes are those that
/// Node came to.
pub proof fn law_first_run_shows_what_node_shows(
    s: SessionView,
    node: Captured<Seq<u8>>,
    code: i32,
)
    requires
        s.phase is Comparing,
        flow::advance(s, Answer::Captured(Ok(node))).session.phase == (Phase::<
            Seq<char>,
            Seq<u8>,
        >::Over { ending: Ending::Exit { code } }),
    ensures
        code == node.code,
        flow::advance(s, Answer::Captured(Ok(node))).effects.last() == (Effect::<
            Seq<char>,
            Seq<u8>,
        >::Replay { stdout: node.stdout }),
{
}

/// A divergence is not blamed on PerryTS: no issue is suggested.
pub proof fn law_divergence_blames_nobody(
    s: SessionView,
    node: Captured<Seq<u8>>,
)
    requires
        s.phase matches Phase::Comparing { cooked, .. } && cooked != node,
    ensures
        !flow::advance(s, Answer::Captured(Ok(node))).notes.contains(failure::issue_link()),
{
    let cooked = s.phase->Comparing_cooked;
    failure::law_link_exactly_for_blame(
        verify::divergence(s.context.script, cooked, node),
        s.context.debug,
    );
}

/// A binary that was placed to be verified is either stored or removed again, and
/// never both, whenever the run ends there.
pub proof fn law_placed_binary_is_stored_or_discarded(
    s: SessionView,
    a: Answer<Seq<char>, Seq<u8>>,
)
    requires
        s.phase is Cooking || s.phase is Comparing,
        flow::advance(s, a).session.phase is Over,
    ensures
        flow::advance(s, a).effects.contains(Effect::Discard) <==> !(exists|
            key: Seq<char>,
            binary: Seq<u8>,
        |
            flow::advance(s, a).effects.contains(Effect::Store { key, binary })),
{
    let step = flow::advance(s, a);
    if s.phase is Comparing && a == Answer::<Seq<char>, Seq<u8>>::Captured(
        Ok(s.phase->Comparing_cooked),
    ) {
        law_only_verified_binaries_are_stored(
            s,
            a,
            s.phase->Comparing_job.key,
            s.phase->Comparing_binary,
        );
        assert(step.effects[0] is Store && step.effects[1] is Replay);
        assert(!step.effects.contains(Effect::Discard));
    } else {
        assert(step.effects[0] == Effect::<Seq<char>, Seq<u8>>::Discard);
        assert forall|key: Seq<char>, binary: Seq<u8>|
            !(step.effects.contains(Effect::Store { key, binary })) by {
            law_only_verified_binaries_are_stored(s, a, key, binary);
        }
    }
}

/// What is verified is what was compiled: the bytes read from the output of
/// `perry compile` are the bytes that are placed, run and stored, for the same
/// job.
pub proof fn law_binary_is_what_was_compiled(
    s: SessionView,
    a: Answer<Seq<char>, Seq<u8>>,
)
    ensures
        flow::advance(s, a).session.phase matches Phase::Placing { job, binary } ==> {
            ||| s.phase == flow::advance(s, a).session.phase
            ||| (s.phase matches Phase::Collecting { job: j, .. } && j == job && a
                == Answer::<Seq<char>, Seq<u8>>::Bytes(Ok(binary)) && binary.len() > 0)
        },
        flow::advance(s, a).session.phase matches Phase::Cooking { job, binary } ==> {
            ||| s.phase == flow::advance(s, a).session.phase
            ||| s.phase == (Phase::Placing { job, binary })
        },
        flow::advance(s, a).session.phase matches Phase::Comparing { job, binary, cooked } ==> {
            ||| s.phase == flow::advance(s, a).session.phase
            ||| s.phase == (Phase::Cooking { job, binary }) && a
                == Answer::<Seq<char>, Seq<u8>>::Captured(Ok(cooked))
        },
{
}

/// No output of the compiler is left behind: it is ordered to be removed exactly
/// where a run leaves the compilation, however `perry compile` ended and whether
/// or not what it wrote could be read.
pub proof fn law_compiler_output_is_removed(s: SessionView, a: Answer<Seq<char>, Seq<u8>>)
    ensures
        flow::advance(s, a).effects.contains(Effect::RemoveOutput) <==> {
            &&& s.phase is Compiling || s.phase is Collecting
            &&& !(flow::advance(s, a).session.phase is Compiling)
            &&& !(flow::advance(s, a).session.phase is Collecting)
        },
{
    let effects = flow::advance(s, a).effects;
    if effects.len() > 0 {
        assert(effects.contains(effects[0]));
    }
}

/// The binary runs on exactly the arguments that were forwarded, when it is
/// compared with Node and when it comes from the cache.
pub proof fn law_binary_runs_on_the_forwarded_arguments(
    script: Seq<char>,
    argv: Seq<Seq<char>>,
    compat: bool,
    debug: bool,
    setting: Option<Seq<char>>,
    answers: Seq<Answer<Seq<char>, Seq<u8>>>,
)
    ensures
        ({
            let start = args::opened(script, argv, compat, debug, setting);
            flow::pending(after(start, answers)) matches Next::Ask { query } ==> match query {
                Query::RunCooked { args } => args == argv,
                Query::RunCached { args, .. } => args == argv,
                _ => true,
            }
        }),
{
    lemma_context_stays(args::opened(script, argv, compat, debug, setting), answers);
}

proof fn lemma_context_stays(start: SessionView, answers: Seq<Answer<Seq<char>, Seq<u8>>>)
    ensures
        after(start, answers).context == start.context,
    decreases answers.len(),
{
    if answers.len() > 0 {
        lemma_context_stays(start, answers.drop_last());
    }
}

/// The arguments are not part of the key and decide nothing: a run with others
/// takes the same way, with the same effects and the same notes.
pub proof fn law_arguments_decide_nothing(
    s: SessionView,
    a: Answer<Seq<char>, Seq<u8>>,
    argv: Seq<Seq<char>>,
)
    ensures
        ({
            let step = flow::advance(s, a);
            let other = flow::advance(
                Session { context: Context { args: argv, ..s.context }, ..s },
                a,
            );
            &&& other.session.phase == step.session.phase
            &&& other.effects == step.effects
            &&& other.notes == step.notes
        }),
{
}

/// PerryTS owns the decision: a script is compiled exactly if the check lets it
/// through, or has looked at no file; a script that the check rejects, or gives
/// no answer about, runs on Node. A rejection leaves a verdict and nothing else,
/// and a check without an answer leaves nothing.
pub proof fn law_gate_decides(s: SessionView, ran: Ran<Seq<char>, Seq<u8>>)
    requires
        s.phase is Checking,
    ensures
        ({
            let job = s.phase->Checking_job;
            let gate = check::gated(
                ran,
                flow::bound_in(s.context, PerryStep::Check),
                job.version,
            );
            let step = flow::advance(s, Answer::Ran(ran));
            if gate is Compilable || gate is Indeterminate {
                step == flow::going(s.context, Phase::ColdDir { job })
            } else {
                &&& step.session.phase == (Phase::<Seq<char>, Seq<u8>>::Over {
                    ending: Ending::Node,
                })
                &&& step.effects == if gate is Unsupported {
                    seq![
                        Effect::<Seq<char>, Seq<u8>>::RecordVerdict {
                            key: keys::verdict_text(job.key),
                        },
                    ]
                } else {
                    Seq::empty()
                }
                &&& step.notes.contains(failure::issue_link()) <==> gate is Unsupported
            }
        }),
{
    let job = s.phase->Checking_job;
    let bound = flow::bound_in(s.context, PerryStep::Check);
    check::law_gate_names_the_version_asked(ran, bound, job.version);
    match check::gated(ran, bound, job.version) {
        check::Gate::Unsupported { diagnostics, raw } => {
            failure::law_link_exactly_for_blame(
                failure::CookFailure {
                    cause: s.context.script + " uses APIs PerryTS does not compile:\n"@
                        + failure::indented(diagnostics),
                    perry_attributable: true,
                    raw: Some(raw),
                },
                s.context.debug,
            );
        },
        check::Gate::Unavailable { note } => {
            failure::law_link_exactly_for_blame(flow::own_failure(note), s.context.debug);
        },
        _ => {},
    }
}

// ---------------------------------------------------------------------------
// The next run
// ---------------------------------------------------------------------------

/// A question that only the cold path puts: to check, to compile, to run the
/// binary, to run Node.
pub open spec fn is_cold(next: NextView) -> bool {
    match next {
        Next::Ask { query } => match query {
            Query::RunPerry { step, .. } => step != PerryStep::Version,
            Query::RunCooked { .. } | Query::RunNode => true,
            _ => false,
        },
        Next::End { .. } => false,
    }
}

/// The warm path involves neither the compiler nor Node: when a session looks for
/// a verdict or a binary in the cache, or runs the cached binary, it has not
/// asked for a check, a compilation or a run of Node before.
pub proof fn law_warm_path_is_node_free(
    start: SessionView,
    answers: Seq<Answer<Seq<char>, Seq<u8>>>,
    i: int,
)
    requires
        all_fit(start, answers),
        ({
            let phase = after(start, answers).phase;
            phase is WarmDir || phase is WarmVerdict || phase is WarmBinary || phase is WarmRun
        }),
        0 <= i <= answers.len(),
    ensures
        !is_cold(flow::pending(after(start, answers.take(i)))),
{
    law_no_phase_comes_twice(start, answers, i, answers.len() as int);
    assert(answers.take(answers.len() as int) == answers);
}

/// A recorded verdict leads straight to Node: nothing is checked, compiled,
/// compared, written or stored.
pub proof fn law_verdict_leads_straight_to_node(s: SessionView)
    requires
        s.phase is WarmVerdict,
    ensures
        flow::advance(s, Answer::Truth(true)) == flow::ending(s.context, Ending::Node),
{
}

/// A cached binary that is of no use is not the end: the script is checked and
/// compiled anew.
pub proof fn law_unusable_entry_is_compiled_anew(s: SessionView)
    requires
        s.phase is WarmRun,
    ensures
        flow::advance(s, Answer::Code(None)) == flow::going(
            s.context,
            Phase::Checking { job: s.phase->WarmRun_job },
        ),
{
}

/// What one run stores, the next run of the same source with the same `perry`
/// finds: it asks the cache for the very key under which the binary was stored,
/// and on finding it runs that binary.
pub proof fn law_next_run_finds_the_binary(
    first: SessionView,
    a: Answer<Seq<char>, Seq<u8>>,
    key: Seq<char>,
    binary: Seq<u8>,
    next: SessionView,
)
    requires
        flow::sound(first),
        flow::sound(next),
        flow::advance(first, a).effects.contains(Effect::Store { key, binary }),
        first.phase is Comparing,
        next.phase is WarmBinary,
        next.phase->WarmBinary_job.source == first.phase->Comparing_job.source,
        next.phase->WarmBinary_job.version == first.phase->Comparing_job.version,
    ensures
        flow::pending(next) == (Next::<Seq<char>, Seq<Seq<char>>>::Ask { query: Query::HasEntry { key } }),
        flow::pending(flow::advance(next, Answer::Truth(true)).session) == (Next::<
            Seq<char>,
            Seq<Seq<char>>,
        >::Ask { query: Query::RunCached { key, args: next.context.args } }),
{
    law_only_verified_binaries_are_stored(first, a, key, binary);
}

/// A verdict that one run records, on a rejection or on a divergence, the next run
/// of the same source with the same `perry` finds and goes straight to Node, so
/// the source is not tried again until it changes.
pub proof fn law_next_run_finds_the_verdict(
    first: SessionView,
    a: Answer<Seq<char>, Seq<u8>>,
    key: Seq<char>,
    next: SessionView,
)
    requires
        flow::sound(first),
        flow::sound(next),
        flow::advance(first, a).effects.contains(Effect::RecordVerdict { key }),
        next.phase is WarmVerdict,
        flow::job_of(first.phase) matches Some(job) && next.phase->WarmVerdict_job.source
            == job.source && next.phase->WarmVerdict_job.version == job.version,
    ensures
        flow::pending(next) == (Next::<Seq<char>, Seq<Seq<char>>>::Ask {
            query: Query::HasEntry { key },
        }),
        flow::advance(next, Answer::Truth(true)) == flow::ending(next.context, Ending::Node),
{
    law_verdict_exactly_for_rejection_or_divergence(first, a, key);
}

/// A version that one run remembers, the next run recalls for the same `perry`
/// without asking it: it reads under the very stamp, and what was written there
/// keys the cache.
pub proof fn law_next_run_recalls_the_version(
    first: SessionView,
    stat: PerryStat<Seq<char>>,
    ran: Ran<Seq<char>, Seq<u8>>,
    bytes: Seq<u8>,
    next: SessionView,
)
    requires
        first.phase matches Phase::Versioning { memo, .. } && memo == Some(
            keys::stamp_text(stat),
        ),
        flow::advance(first, Answer::Ran(ran)).effects.contains(
            Effect::Remember { stamp: keys::stamp_text(stat), version: bytes },
        ),
        next.phase is Stamping,
    ensures
        ({
            let recalling = flow::advance(next, Answer::Stat(Some(stat))).session;
            let version = compile::printed(ran)->0;
            &&& flow::pending(recalling) == (Next::<Seq<char>, Seq<Seq<char>>>::Ask {
                query: Query::ReadMemo { stamp: keys::stamp_text(stat) },
            })
            &&& flow::advance(recalling, Answer::Memo(Some(bytes))).session.phase
                == (Phase::WarmDir {
                job: flow::job_for(next.phase->Stamping_source, version),
            })
            &&& (flow::advance(first, Answer::Ran(ran)).session.phase matches Phase::WarmDir {
                job,
            } && job.version == version)
        }),
{
    let version = compile::printed(ran)->0;
    let effects = flow::advance(first, Answer::Ran(ran)).effects;
    assert(compile::printed(ran) is Some);
    assert(effects[0] == (Effect::<Seq<char>, Seq<u8>>::Remember {
        stamp: keys::stamp_text(stat),
        version: encode_utf8(version),
    }));
    assert(version.len() > 0);
    compile::law_version_is_remembered(version);
}

} // verus!
