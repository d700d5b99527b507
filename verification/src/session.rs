//! A run of `nub cook <script>`, as a conversation: the session asks one question
//! after the other about files, subprocesses and the cache, and each answer leads
//! to the next question or to the end of the run.
//!
//! ```text
//! key = digest of source, perry version and compile flags
//! a verdict against the key?     run on Node
//! a verified binary for the key? run it
//! else:
//!   perry check    rejected: record a verdict, run on Node
//!                  no answer: run on Node
//!   perry compile  failed: run on Node
//!   run the binary and Node, compare output and exit code
//!     the same:  store the binary, show its output
//!     different: discard the binary, record a verdict, run on Node
//! ```

use crate::bound::Bound;
use crate::compile;
use crate::keys::PerryStat;
use crate::process;
use crate::process::{PerryStep, Ran};
use crate::verify::Captured;
use vstd::prelude::*;

verus! {

/// What is stored under the key of a verdict. A source gets one that the check
/// rejects, or whose binary does not behave like Node. That it is there is the
/// signal; the words are for a human reader.
pub const VERDICT_NOT_SAFE: &'static str = "not-cook-safe";

// ---------------------------------------------------------------------------
// Types. `T` is a text, `B` a row of bytes, `L` a row of texts: `String`,
// `Vec<u8>` and `Vec<String>` in a running session, sequences where the session
// is reasoned about.
// ---------------------------------------------------------------------------

/// What stays the same throughout a run.
pub struct Context<T, L> {
    /// The path of the script, as it was given.
    pub script: T,
    /// The arguments for the binary.
    pub args: L,
    /// Whether failures are reported with raw output.
    pub debug: bool,
    /// The internal setting that bounds the subprocesses, where it is set.
    pub setting: Option<T>,
}

/// What a binary is compiled from and by, and its key.
pub struct Job<T, B> {
    pub source: B,
    pub version: T,
    pub key: T,
}

/// How a run ends.
pub enum Ending<T> {
    /// The script runs on Node, and its exit code is that of the run.
    Node,
    /// The binary has run, and this is its exit code.
    Exit { code: i32 },
    /// There is no script to run.
    Usage { message: T },
}

/// The questions of a session.
pub enum Query<T, L> {
    /// Does the script exist?
    ScriptExists,
    /// What are the bytes of the script?
    ReadSource,
    /// Is there a `perry`?
    FindPerry,
    /// What does the file system say of it?
    StatPerry,
    /// What is remembered under this key?
    ReadMemo { stamp: T },
    /// How does this run of `perry` end?
    RunPerry { step: PerryStep, bound: Bound },
    /// Can the directory of the cache be named?
    CacheDir,
    /// Does the cache have an entry with this key?
    HasEntry { key: T },
    /// What is the exit code of the binary that is cached under this key, run with
    /// these arguments?
    RunCached { key: T, args: L },
    /// Can the directory of the cache be made?
    CreateCacheDir,
    /// Can a place for the compiled binary be had?
    CreateOutput,
    /// What are the bytes of the compiled binary?
    ReadOutput,
    /// Can the binary be placed where it can be executed?
    Place { key: T },
    /// What does the placed binary write when it is run with these arguments, and
    /// what is its exit code?
    RunCooked { args: L },
    /// What does Node write, and what is its exit code?
    RunNode,
}

/// What a session waits for.
pub enum Next<T, L> {
    Ask { query: Query<T, L> },
    End { ending: Ending<T> },
}

/// The answers.
pub enum Answer<T, B> {
    /// To `ScriptExists`, `FindPerry` and `HasEntry`.
    Truth(bool),
    /// To `ReadSource` and `ReadOutput`: the bytes, or why there are none.
    Bytes(Result<B, T>),
    /// To `StatPerry`.
    Stat(Option<PerryStat<T>>),
    /// To `ReadMemo`.
    Memo(Option<B>),
    /// To `RunPerry`.
    Ran(Ran<T, B>),
    /// To `CacheDir`, `CreateCacheDir`, `CreateOutput` and `Place`: done, or why
    /// not.
    Done(Result<(), T>),
    /// To `RunCached`: nothing if the entry is of no use.
    Code(Option<i32>),
    /// To `RunCooked` and `RunNode`: what was captured, or why nothing was.
    Captured(Result<Captured<B>, T>),
}

/// What is done on the way to the next question, success or not.
pub enum Effect<T, B> {
    /// Store the version of `perry` under its stamp.
    Remember { stamp: T, version: B },
    /// Remove the output of `perry compile`.
    RemoveOutput,
    /// Remove the placed binary.
    Discard,
    /// Store a verdict under this key.
    RecordVerdict { key: T },
    /// Store the binary under its key.
    Store { key: T, binary: B },
    /// Write this to standard output.
    Replay { stdout: B },
}

/// How far a session has come, which is what it waits for.
pub enum Phase<T, B> {
    Opening { compat: bool },
    Reading,
    Locating { source: B },
    Stamping { source: B },
    Recalling { source: B, stamp: T },
    /// `memo` is the key to remember the version under, if there is one.
    Versioning { source: B, memo: Option<T> },
    WarmDir { job: Job<T, B> },
    WarmVerdict { job: Job<T, B> },
    WarmBinary { job: Job<T, B> },
    WarmRun { job: Job<T, B> },
    Checking { job: Job<T, B> },
    ColdDir { job: Job<T, B> },
    ColdCreate { job: Job<T, B> },
    OutputDir { job: Job<T, B> },
    OutputFile { job: Job<T, B> },
    Compiling { job: Job<T, B> },
    Collecting { job: Job<T, B>, stdout: B, stderr: B },
    Placing { job: Job<T, B>, binary: B },
    Cooking { job: Job<T, B>, binary: B },
    Comparing { job: Job<T, B>, binary: B, cooked: Captured<B> },
    Over { ending: Ending<T> },
}

/// A run of `nub cook`.
pub struct Session<T, B, L> {
    pub context: Context<T, L>,
    pub phase: Phase<T, B>,
}

/// A session as it is reasoned about.
pub type SessionView = Session<Seq<char>, Seq<u8>, Seq<Seq<char>>>;

/// A context as it is reasoned about.
pub type ContextView = Context<Seq<char>, Seq<Seq<char>>>;

/// What a session waits for, as it is reasoned about.
pub type NextView = Next<Seq<char>, Seq<Seq<char>>>;

/// What is to be done after an answer: first the effects, in order, then the
/// notes are written to standard error, each as a line.
pub struct Turn {
    pub effects: Vec<Effect<String, Vec<u8>>>,
    pub notes: Vec<String>,
}

/// A session after an answer, with what is to be done, as it is reasoned about.
pub struct Step {
    pub session: SessionView,
    pub effects: Seq<Effect<Seq<char>, Seq<u8>>>,
    pub notes: Seq<Seq<char>>,
}

// ---------------------------------------------------------------------------
// Views
// ---------------------------------------------------------------------------

pub open spec fn text_view(t: Option<String>) -> Option<Seq<char>> {
    match t {
        Some(t) => Some(t@),
        None => None,
    }
}

impl View for Context<String, Vec<String>> {
    type V = ContextView;

    open spec fn view(&self) -> ContextView {
        Context {
            script: self.script@,
            args: self.args.deep_view(),
            debug: self.debug,
            setting: text_view(self.setting),
        }
    }
}

impl View for Job<String, Vec<u8>> {
    type V = Job<Seq<char>, Seq<u8>>;

    open spec fn view(&self) -> Job<Seq<char>, Seq<u8>> {
        Job { source: self.source@, version: self.version@, key: self.key@ }
    }
}

impl View for Ending<String> {
    type V = Ending<Seq<char>>;

    open spec fn view(&self) -> Ending<Seq<char>> {
        match *self {
            Ending::Node => Ending::Node,
            Ending::Exit { code } => Ending::Exit { code },
            Ending::Usage { message } => Ending::Usage { message: message@ },
        }
    }
}

impl View for Query<String, Vec<String>> {
    type V = Query<Seq<char>, Seq<Seq<char>>>;

    open spec fn view(&self) -> Query<Seq<char>, Seq<Seq<char>>> {
        match *self {
            Query::ScriptExists => Query::ScriptExists,
            Query::ReadSource => Query::ReadSource,
            Query::FindPerry => Query::FindPerry,
            Query::StatPerry => Query::StatPerry,
            Query::ReadMemo { stamp } => Query::ReadMemo { stamp: stamp@ },
            Query::RunPerry { step, bound } => Query::RunPerry { step, bound },
            Query::CacheDir => Query::CacheDir,
            Query::HasEntry { key } => Query::HasEntry { key: key@ },
            Query::RunCached { key, args } => Query::RunCached {
                key: key@,
                args: args.deep_view(),
            },
            Query::CreateCacheDir => Query::CreateCacheDir,
            Query::CreateOutput => Query::CreateOutput,
            Query::ReadOutput => Query::ReadOutput,
            Query::Place { key } => Query::Place { key: key@ },
            Query::RunCooked { args } => Query::RunCooked { args: args.deep_view() },
            Query::RunNode => Query::RunNode,
        }
    }
}

impl View for Next<String, Vec<String>> {
    type V = NextView;

    open spec fn view(&self) -> NextView {
        match *self {
            Next::Ask { query } => Next::Ask { query: query@ },
            Next::End { ending } => Next::End { ending: ending@ },
        }
    }
}

impl View for Answer<String, Vec<u8>> {
    type V = Answer<Seq<char>, Seq<u8>>;

    open spec fn view(&self) -> Answer<Seq<char>, Seq<u8>> {
        match *self {
            Answer::Truth(b) => Answer::Truth(b),
            Answer::Bytes(read) => Answer::Bytes(compile::read_view(read)),
            Answer::Stat(None) => Answer::Stat(None),
            Answer::Stat(Some(stat)) => Answer::Stat(Some(stat@)),
            Answer::Memo(None) => Answer::Memo(None),
            Answer::Memo(Some(bytes)) => Answer::Memo(Some(bytes@)),
            Answer::Ran(ran) => Answer::Ran(process::ran_view(ran)),
            Answer::Done(Ok(())) => Answer::Done(Ok(())),
            Answer::Done(Err(e)) => Answer::Done(Err(e@)),
            Answer::Code(code) => Answer::Code(code),
            Answer::Captured(Ok(c)) => Answer::Captured(Ok(c@)),
            Answer::Captured(Err(e)) => Answer::Captured(Err(e@)),
        }
    }
}

impl View for Effect<String, Vec<u8>> {
    type V = Effect<Seq<char>, Seq<u8>>;

    open spec fn view(&self) -> Effect<Seq<char>, Seq<u8>> {
        match *self {
            Effect::Remember { stamp, version } => Effect::Remember {
                stamp: stamp@,
                version: version@,
            },
            Effect::RemoveOutput => Effect::RemoveOutput,
            Effect::Discard => Effect::Discard,
            Effect::RecordVerdict { key } => Effect::RecordVerdict { key: key@ },
            Effect::Store { key, binary } => Effect::Store { key: key@, binary: binary@ },
            Effect::Replay { stdout } => Effect::Replay { stdout: stdout@ },
        }
    }
}

impl View for Phase<String, Vec<u8>> {
    type V = Phase<Seq<char>, Seq<u8>>;

    open spec fn view(&self) -> Phase<Seq<char>, Seq<u8>> {
        match *self {
            Phase::Opening { compat } => Phase::Opening { compat },
            Phase::Reading => Phase::Reading,
            Phase::Locating { source } => Phase::Locating { source: source@ },
            Phase::Stamping { source } => Phase::Stamping { source: source@ },
            Phase::Recalling { source, stamp } => Phase::Recalling {
                source: source@,
                stamp: stamp@,
            },
            Phase::Versioning { source, memo } => Phase::Versioning {
                source: source@,
                memo: text_view(memo),
            },
            Phase::WarmDir { job } => Phase::WarmDir { job: job@ },
            Phase::WarmVerdict { job } => Phase::WarmVerdict { job: job@ },
            Phase::WarmBinary { job } => Phase::WarmBinary { job: job@ },
            Phase::WarmRun { job } => Phase::WarmRun { job: job@ },
            Phase::Checking { job } => Phase::Checking { job: job@ },
            Phase::ColdDir { job } => Phase::ColdDir { job: job@ },
            Phase::ColdCreate { job } => Phase::ColdCreate { job: job@ },
            Phase::OutputDir { job } => Phase::OutputDir { job: job@ },
            Phase::OutputFile { job } => Phase::OutputFile { job: job@ },
            Phase::Compiling { job } => Phase::Compiling { job: job@ },
            Phase::Collecting { job, stdout, stderr } => Phase::Collecting {
                job: job@,
                stdout: stdout@,
                stderr: stderr@,
            },
            Phase::Placing { job, binary } => Phase::Placing { job: job@, binary: binary@ },
            Phase::Cooking { job, binary } => Phase::Cooking { job: job@, binary: binary@ },
            Phase::Comparing { job, binary, cooked } => Phase::Comparing {
                job: job@,
                binary: binary@,
                cooked: cooked@,
            },
            Phase::Over { ending } => Phase::Over { ending: ending@ },
        }
    }
}

impl View for Session<String, Vec<u8>, Vec<String>> {
    type V = SessionView;

    open spec fn view(&self) -> SessionView {
        Session { context: self.context@, phase: self.phase@ }
    }
}

/// Effects with their texts and bytes seen as sequences.
pub open spec fn effect_views(effects: Seq<Effect<String, Vec<u8>>>) -> Seq<
    Effect<Seq<char>, Seq<u8>>,
> {
    effects.map_values(|e: Effect<String, Vec<u8>>| e@)
}

/// A session and a turn are what a step says.
pub open spec fn is_step(r: (Session<String, Vec<u8>, Vec<String>>, Turn), step: Step) -> bool {
    &&& r.0@ == step.session
    &&& effect_views(r.1.effects@) == step.effects
    &&& r.1.notes.deep_view() == step.notes
}

// ---------------------------------------------------------------------------
// The views leave nothing out
// ---------------------------------------------------------------------------

/// An answer is seen in full.
pub proof fn law_answer_is_seen_in_full(a: Answer<String, Vec<u8>>)
    ensures
        match a {
            Answer::Truth(x) => a@ matches Answer::Truth(y) && y == x,
            Answer::Bytes(Ok(x)) => a@ matches Answer::Bytes(Ok(y)) && y == x@,
            Answer::Bytes(Err(x)) => a@ matches Answer::Bytes(Err(y)) && y == x@,
            Answer::Stat(Some(x)) => a@ matches Answer::Stat(Some(y)) && y == x@,
            Answer::Stat(None) => a@ matches Answer::Stat(None),
            Answer::Memo(Some(x)) => a@ matches Answer::Memo(Some(y)) && y == x@,
            Answer::Memo(None) => a@ matches Answer::Memo(None),
            Answer::Ran(Ok(x)) => a@ matches Answer::Ran(Ok(y)) && y == x@,
            Answer::Ran(Err(x)) => a@ matches Answer::Ran(Err(y)) && y == x@,
            Answer::Done(Ok(_)) => a@ matches Answer::Done(Ok(_)),
            Answer::Done(Err(x)) => a@ matches Answer::Done(Err(y)) && y == x@,
            Answer::Code(x) => a@ matches Answer::Code(y) && y == x,
            Answer::Captured(Ok(x)) => a@ matches Answer::Captured(Ok(y)) && y == x@,
            Answer::Captured(Err(x)) => a@ matches Answer::Captured(Err(y)) && y == x@,
        },
{
}

/// A context and a job are seen in full.
pub proof fn law_context_is_seen_in_full(
    c: Context<String, Vec<String>>,
    job: Job<String, Vec<u8>>,
)
    ensures
        c@.script == c.script@,
        c@.args == c.args.deep_view(),
        c@.debug == c.debug,
        c.setting is None <==> c@.setting is None,
        c.setting matches Some(t) ==> c@.setting == Some(t@),
        job@.source == job.source@,
        job@.version == job.version@,
        job@.key == job.key@,
{
}

/// A question, and an ending, is seen in full.
pub proof fn law_question_is_seen_in_full(q: Query<String, Vec<String>>, e: Ending<String>)
    ensures
        (Next::<String, Vec<String>>::Ask { query: q })@ == (Next::<
            Seq<char>,
            Seq<Seq<char>>,
        >::Ask { query: q@ }),
        (Next::<String, Vec<String>>::End { ending: e })@ == (Next::<
            Seq<char>,
            Seq<Seq<char>>,
        >::End { ending: e@ }),
        match e {
            Ending::Node => e@ is Node,
            Ending::Exit { code: x } => e@ matches Ending::Exit { code } && code == x,
            Ending::Usage { message: x } => e@ matches Ending::Usage { message } && message == x@,
        },
        match q {
            Query::ScriptExists => q@ is ScriptExists,
            Query::ReadSource => q@ is ReadSource,
            Query::FindPerry => q@ is FindPerry,
            Query::StatPerry => q@ is StatPerry,
            Query::ReadMemo { stamp: x } => q@ matches Query::ReadMemo { stamp } && stamp == x@,
            Query::RunPerry { step: x, bound: y } => q@ matches Query::RunPerry { step, bound }
                && step == x && bound == y,
            Query::CacheDir => q@ is CacheDir,
            Query::HasEntry { key: x } => q@ matches Query::HasEntry { key } && key == x@,
            Query::RunCached { key: x, args: y } => q@ matches Query::RunCached { key, args }
                && key == x@ && args == y.deep_view(),
            Query::CreateCacheDir => q@ is CreateCacheDir,
            Query::CreateOutput => q@ is CreateOutput,
            Query::ReadOutput => q@ is ReadOutput,
            Query::Place { key: x } => q@ matches Query::Place { key } && key == x@,
            Query::RunCooked { args: x } => q@ matches Query::RunCooked { args } && args
                == x.deep_view(),
            Query::RunNode => q@ is RunNode,
        },
{
}

/// Effects are seen in full, one by one.
pub proof fn law_effects_are_seen_in_full(effects: Seq<Effect<String, Vec<u8>>>, i: int)
    requires
        0 <= i < effects.len(),
    ensures
        effect_views(effects).len() == effects.len(),
        ({
            let seen = effect_views(effects)[i];
            match effects[i] {
                Effect::Remember { stamp: x, version: y } => seen matches Effect::Remember {
                    stamp,
                    version,
                } && stamp == x@ && version == y@,
                Effect::RemoveOutput => seen is RemoveOutput,
                Effect::Discard => seen is Discard,
                Effect::RecordVerdict { key: x } => seen matches Effect::RecordVerdict { key }
                    && key == x@,
                Effect::Store { key: x, binary: y } => seen matches Effect::Store {
                    key,
                    binary,
                } && key == x@ && binary == y@,
                Effect::Replay { stdout: x } => seen matches Effect::Replay { stdout } && stdout
                    == x@,
            }
        }),
{
}

/// How far a session has come is seen in full.
pub proof fn law_session_is_seen_in_full(s: Session<String, Vec<u8>, Vec<String>>)
    ensures
        s@.context == s.context@,
        match s.phase {
            Phase::Opening { compat: x } => s@.phase matches Phase::Opening { compat } && compat
                == x,
            Phase::Reading => s@.phase is Reading,
            Phase::Locating { source: x } => s@.phase matches Phase::Locating { source } && source
                == x@,
            Phase::Stamping { source: x } => s@.phase matches Phase::Stamping { source } && source
                == x@,
            Phase::Recalling { source: x, stamp: y } => s@.phase matches Phase::Recalling {
                source,
                stamp,
            } && source == x@ && stamp == y@,
            Phase::Versioning { source: x, memo: None } => s@.phase matches Phase::Versioning {
                source,
                memo,
            } && source == x@ && memo is None,
            Phase::Versioning { source: x, memo: Some(y) } => s@.phase matches Phase::Versioning {
                source,
                memo,
            } && source == x@ && memo == Some(y@),
            Phase::WarmDir { job: x } => s@.phase matches Phase::WarmDir { job } && job == x@,
            Phase::WarmVerdict { job: x } => s@.phase matches Phase::WarmVerdict { job } && job
                == x@,
            Phase::WarmBinary { job: x } => s@.phase matches Phase::WarmBinary { job } && job
                == x@,
            Phase::WarmRun { job: x } => s@.phase matches Phase::WarmRun { job } && job == x@,
            Phase::Checking { job: x } => s@.phase matches Phase::Checking { job } && job == x@,
            Phase::ColdDir { job: x } => s@.phase matches Phase::ColdDir { job } && job == x@,
            Phase::ColdCreate { job: x } => s@.phase matches Phase::ColdCreate { job } && job
                == x@,
            Phase::OutputDir { job: x } => s@.phase matches Phase::OutputDir { job } && job == x@,
            Phase::OutputFile { job: x } => s@.phase matches Phase::OutputFile { job } && job
                == x@,
            Phase::Compiling { job: x } => s@.phase matches Phase::Compiling { job } && job == x@,
            Phase::Collecting { job: x, stdout: y, stderr: z } => s@.phase
                matches Phase::Collecting { job, stdout, stderr } && job == x@ && stdout == y@
                && stderr == z@,
            Phase::Placing { job: x, binary: y } => s@.phase matches Phase::Placing { job, binary }
                && job == x@ && binary == y@,
            Phase::Cooking { job: x, binary: y } => s@.phase matches Phase::Cooking { job, binary }
                && job == x@ && binary == y@,
            Phase::Comparing { job: x, binary: y, cooked: z } => s@.phase
                matches Phase::Comparing { job, binary, cooked } && job == x@ && binary == y@
                && cooked == z@,
            Phase::Over { ending: x } => s@.phase matches Phase::Over { ending } && ending == x@,
        },
{
}

/// A session and what is to be done are what a step says, all of it.
pub proof fn law_step_says_all(r: (Session<String, Vec<u8>, Vec<String>>, Turn), step: Step)
    ensures
        is_step(r, step) <==> {
            &&& r.0@ == step.session
            &&& effect_views(r.1.effects@) == step.effects
            &&& r.1.notes.deep_view() == step.notes
        },
{
}

} // verus!
