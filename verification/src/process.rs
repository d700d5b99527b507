//! Subprocesses: which one is `perry`, how it is invoked, what it returned.

use vstd::prelude::*;
use vstd::string::*;

verus! {

/// What `perry` is asked to do.
#[derive(Clone, Copy, PartialEq, Eq, Structural)]
pub enum PerryStep {
    Version,
    Check,
    Compile,
}

impl PerryStep {
    /// The step's name in messages.
    pub open spec fn text(self) -> Seq<char> {
        match self {
            PerryStep::Version => "--version"@,
            PerryStep::Check => "check"@,
            PerryStep::Compile => "compile"@,
        }
    }

    /// The step's name in messages.
    pub fn name(self) -> (r: &'static str)
        ensures
            r@ == self.text(),
    {
        match self {
            PerryStep::Version => "--version",
            PerryStep::Check => "check",
            PerryStep::Compile => "compile",
        }
    }
}

/// How a bounded subprocess ended.
pub enum Timed<T, B> {
    /// It exited in time: whether with success, its exit status in words, and
    /// what it wrote.
    Completed { success: bool, status: T, stdout: B, stderr: B },
    /// It ran past its bound and was killed.
    TimedOut { step: PerryStep },
}

/// A subprocess that could be spawned and ended, or the reason why it could not.
pub type Ran<T, B> = Result<Timed<T, B>, T>;

impl View for Timed<String, Vec<u8>> {
    type V = Timed<Seq<char>, Seq<u8>>;

    open spec fn view(&self) -> Timed<Seq<char>, Seq<u8>> {
        match *self {
            Timed::Completed { success, status, stdout, stderr } => Timed::Completed {
                success,
                status: status@,
                stdout: stdout@,
                stderr: stderr@,
            },
            Timed::TimedOut { step } => Timed::TimedOut { step },
        }
    }
}

/// A subprocess's end with its texts and bytes seen as sequences.
pub open spec fn ran_view(ran: Ran<String, Vec<u8>>) -> Ran<Seq<char>, Seq<u8>> {
    match ran {
        Ok(timed) => Ok(timed@),
        Err(e) => Err(e@),
    }
}

// ---------------------------------------------------------------------------
// Invoking perry
// ---------------------------------------------------------------------------

/// An argument of `perry`.
pub enum Arg<T> {
    Word(T),
    /// The path of the script.
    Script,
    /// The path where the compiled binary goes.
    Output,
}

impl View for Arg<String> {
    type V = Arg<Seq<char>>;

    open spec fn view(&self) -> Arg<Seq<char>> {
        match *self {
            Arg::Word(w) => Arg::Word(w@),
            Arg::Script => Arg::Script,
            Arg::Output => Arg::Output,
        }
    }
}

/// The flags that `perry compile` gets besides script and output: none.
pub open spec fn flags() -> Seq<Seq<char>> {
    Seq::empty()
}

/// The flags that `perry compile` gets besides script and output. They are part
/// of the cache key, so a change here invalidates every binary that was
/// compiled without it.
pub fn compile_flags() -> (r: Vec<String>)
    ensures
        r.deep_view() == flags(),
{
    let r: Vec<String> = Vec::new();
    assert(r.deep_view() =~= flags());
    r
}

/// The arguments of `perry` for a step.
pub open spec fn args_of(step: PerryStep) -> Seq<Arg<Seq<char>>> {
    match step {
        PerryStep::Version => seq![Arg::Word("--version"@)],
        PerryStep::Check => seq![
            Arg::Word("check"@),
            Arg::Word("--check-deps"@),
            Arg::Word("--format"@),
            Arg::Word("json"@),
            Arg::Script,
        ],
        PerryStep::Compile => seq![
            Arg::Word("compile"@),
            Arg::Script,
            Arg::Word("-o"@),
            Arg::Output,
        ] + flags().map_values(|flag: Seq<char>| Arg::Word(flag)),
    }
}

fn word(w: &str) -> (r: Arg<String>)
    ensures
        r@ == Arg::Word(w@),
{
    Arg::Word(w.to_owned())
}

/// The arguments of `perry` for a step.
pub fn perry_args(step: PerryStep) -> (r: Vec<Arg<String>>)
    ensures
        r@.map_values(|a: Arg<String>| a@) == args_of(step),
{
    let mut args: Vec<Arg<String>> = Vec::new();
    match step {
        PerryStep::Version => {
            args.push(word("--version"));
            assert(args@.map_values(|a: Arg<String>| a@) =~= args_of(step));
        },
        PerryStep::Check => {
            args.push(word("check"));
            args.push(word("--check-deps"));
            args.push(word("--format"));
            args.push(word("json"));
            args.push(Arg::Script);
            assert(args@.map_values(|a: Arg<String>| a@) =~= args_of(step));
        },
        PerryStep::Compile => {
            args.push(word("compile"));
            args.push(Arg::Script);
            args.push(word("-o"));
            args.push(Arg::Output);
            let ghost head = args@.map_values(|a: Arg<String>| a@);
            assert(head =~= seq![
                Arg::Word("compile"@),
                Arg::Script,
                Arg::Word("-o"@),
                Arg::Output,
            ]);
            let more = compile_flags();
            let mut i: usize = 0;
            while i < more.len()
                invariant
                    i <= more@.len(),
                    more.deep_view() == flags(),
                    args@.map_values(|a: Arg<String>| a@) =~= head + flags().take(
                        i as int,
                    ).map_values(|flag: Seq<char>| Arg::Word(flag)),
                decreases more.len() - i,
            {
                assert(more.deep_view()[i as int] == more@[i as int]@);
                args.push(word(more[i].as_str()));
                i += 1;
            }
            assert(flags().take(flags().len() as int) == flags());
        },
    }
    args
}

// ---------------------------------------------------------------------------
// Finding perry
// ---------------------------------------------------------------------------

/// What the file system says of a path: whether a regular file stands there
/// and, where the platform has them, its permission bits.
#[derive(Clone, Copy, PartialEq, Eq, Structural)]
pub struct Probe {
    pub is_file: bool,
    pub mode: Option<u32>,
}

/// The bits of a file mode that let someone execute the file.
pub const EXECUTE_BITS: u32 = 0o111;

/// A file that someone may execute; any file where there are no permission bits.
pub open spec fn executable(p: Probe) -> bool {
    p.is_file && match p.mode {
        Some(mode) => mode & EXECUTE_BITS != 0,
        None => true,
    }
}

/// Whether a path can be executed: a file, with at least one of the execute
/// bits where the platform has permission bits.
pub fn is_executable(p: Probe) -> (r: bool)
    ensures
        r == executable(p),
{
    p.is_file && match p.mode {
        Some(mode) => mode & EXECUTE_BITS != 0,
        None => true,
    }
}

/// The permission bits that a materialized binary gets in place of `mode`, and
/// none where the platform has none.
pub fn set_executable(mode: Option<u32>) -> (r: Option<u32>)
    ensures
        r == match mode {
            Some(_) => Some(0o755u32),
            None => None::<u32>,
        },
{
    match mode {
        Some(_) => Some(0o755),
        None => None,
    }
}

/// A binary that was made executable is executable.
pub proof fn law_made_executable_is_executable(mode: Option<u32>)
    ensures
        executable(
            Probe {
                is_file: true,
                mode: match mode {
                    Some(_) => Some(0o755u32),
                    None => None::<u32>,
                },
            },
        ),
{
    assert(0o755u32 & 0o111u32 != 0) by (bit_vector);
}

/// The first of the candidates that can be executed: the candidates are what
/// the directories of `PATH` hold under the name, in order.
pub fn which_in_path(candidates: &[Probe]) -> (r: Option<usize>)
    ensures
        match r {
            Some(i) => i < candidates@.len() && executable(candidates@[i as int]) && (forall|j: int|
                0 <= j < i ==> !executable(#[trigger] candidates@[j])),
            None => forall|j: int|
                0 <= j < candidates@.len() ==> !executable(#[trigger] candidates@[j]),
        },
{
    let mut i: usize = 0;
    while i < candidates.len()
        invariant
            i <= candidates@.len(),
            forall|j: int| 0 <= j < i ==> !executable(#[trigger] candidates@[j]),
        decreases candidates.len() - i,
    {
        if is_executable(candidates[i]) {
            return Some(i);
        }
        i += 1;
    }
    None
}

/// Where `perry` is.
#[derive(Clone, Copy, PartialEq, Eq, Structural)]
pub enum Located {
    /// At the path that `PERRY_BIN` names.
    Explicit,
    /// The candidate with this number.
    InPath(usize),
    Missing,
}

/// Where `perry` is. `explicit` says whether the path that `PERRY_BIN` names
/// exists, if the variable is set: it then decides alone. Otherwise the first
/// candidate of `PATH` that can be executed is taken.
pub fn locate_perry(explicit: Option<bool>, candidates: &[Probe]) -> (r: Located)
    ensures
        match r {
            Located::Explicit => explicit == Some(true),
            Located::InPath(i) => explicit is None && i < candidates@.len() && executable(
                candidates@[i as int],
            ) && (forall|j: int| 0 <= j < i ==> !executable(#[trigger] candidates@[j])),
            Located::Missing => explicit == Some(false) || (explicit is None && forall|j: int|
                0 <= j < candidates@.len() ==> !executable(#[trigger] candidates@[j])),
        },
{
    match explicit {
        Some(exists) => {
            if exists {
                Located::Explicit
            } else {
                Located::Missing
            }
        },
        None => match which_in_path(candidates) {
            Some(i) => Located::InPath(i),
            None => Located::Missing,
        },
    }
}

// ---------------------------------------------------------------------------
// Ending processes
// ---------------------------------------------------------------------------

/// The target that makes `kill` reach the whole process group which the process
/// `leader_pid` leads: its number negated. No target, and so no signal, for a
/// number that no process of this platform can have.
pub fn kill_process_group(leader_pid: u32) -> (r: Option<i32>)
    ensures
        match r {
            Some(target) => leader_pid <= i32::MAX && target == -leader_pid,
            None => leader_pid > i32::MAX,
        },
{
    if leader_pid <= 0x7fff_ffff {
        Some(-(leader_pid as i32))
    } else {
        None
    }
}

/// The exit code that an ended process stands for: its own, 128 and the number
/// of the signal that ended it, or 1 where there is neither.
pub fn exit_code(code: Option<i32>, signal: Option<i32>) -> (r: i32)
    requires
        code is None ==> (signal matches Some(s) ==> 128 + s <= i32::MAX),
    ensures
        r == match code {
            Some(c) => c as int,
            None => match signal {
                Some(s) => 128 + s,
                None => 1,
            },
        },
{
    match code {
        Some(c) => c,
        None => match signal {
            Some(s) => 128 + s,
            None => 1,
        },
    }
}

// ---------------------------------------------------------------------------
// Laws
// ---------------------------------------------------------------------------

/// A file is executable if its owner, its group or anyone else may execute it, and
/// where there are no permission bits; nothing but a file is.
pub proof fn law_one_execute_bit_is_enough(p: Probe)
    ensures
        !p.is_file ==> !executable(p),
        p.is_file && p.mode is None ==> executable(p),
        p.is_file && p.mode is Some ==> (executable(p) <==> {
            let mode = p.mode->0;
            mode & 0o100 != 0 || mode & 0o010 != 0 || mode & 0o001 != 0
        }),
{
    if let Some(mode) = p.mode {
        assert(mode & 0o111u32 != 0 <==> (mode & 0o100u32 != 0 || mode & 0o010u32 != 0 || mode
            & 0o001u32 != 0)) by (bit_vector);
    }
}

/// What `perry` is called with: the script is checked with its dependencies and
/// answered for in JSON, and it is compiled to the output with no further flag.
pub proof fn law_perry_is_called_with_these_arguments()
    ensures
        flags() == Seq::<Seq<char>>::empty(),
        args_of(PerryStep::Version) == seq![Arg::Word("--version"@)],
        args_of(PerryStep::Check) == seq![
            Arg::Word("check"@),
            Arg::Word("--check-deps"@),
            Arg::Word("--format"@),
            Arg::Word("json"@),
            Arg::Script,
        ],
        args_of(PerryStep::Compile) == seq![
            Arg::Word("compile"@),
            Arg::Script,
            Arg::Word("-o"@),
            Arg::Output,
        ],
        PerryStep::Version.text() == "--version"@,
        PerryStep::Check.text() == "check"@,
        PerryStep::Compile.text() == "compile"@,
{
    assert(args_of(PerryStep::Compile) =~= seq![
        Arg::Word("compile"@),
        Arg::Script,
        Arg::Word("-o"@),
        Arg::Output,
    ]);
}

/// How a subprocess ended is seen in full.
pub proof fn law_end_is_seen_in_full(
    success: bool,
    status: String,
    stdout: Vec<u8>,
    stderr: Vec<u8>,
    step: PerryStep,
)
    ensures
        ran_view(Ok(Timed::Completed { success, status, stdout, stderr })) == Ok::<
            Timed<Seq<char>, Seq<u8>>,
            Seq<char>,
        >(Timed::Completed { success, status: status@, stdout: stdout@, stderr: stderr@ }),
        ran_view(Ok(Timed::TimedOut { step })) == Ok::<Timed<Seq<char>, Seq<u8>>, Seq<char>>(
            Timed::TimedOut { step },
        ),
        ran_view(Err(status)) == Err::<Timed<Seq<char>, Seq<u8>>, Seq<char>>(status@),
{
}

/// An argument of `perry` is seen as it is.
pub proof fn law_argument_is_seen_as_it_is(word: String)
    ensures
        Arg::Word(word)@ == Arg::Word(word@),
        Arg::<String>::Script@ == Arg::<Seq<char>>::Script,
        Arg::<String>::Output@ == Arg::<Seq<char>>::Output,
{
}

} // verus!
