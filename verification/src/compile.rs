//! What runs of `perry --version` and `perry compile` come to.

use crate::bound::Bound;
use crate::check;
use crate::failure;
use crate::failure::RawPerryOutput;
use crate::outside;
use crate::process;
use crate::process::{PerryStep, Ran, Timed};
use crate::text;
use vstd::prelude::*;
use vstd::string::*;
use vstd::utf8::*;

verus! {

// ---------------------------------------------------------------------------
// The version
// ---------------------------------------------------------------------------

/// The version that a remembered byte string holds: it must be a text and must
/// not be empty.
pub open spec fn remembered(bytes: Seq<u8>) -> Option<Seq<char>> {
    if valid_utf8(bytes) && decode_utf8(bytes).len() > 0 {
        Some(decode_utf8(bytes))
    } else {
        None
    }
}

/// The version that a remembered byte string holds.
pub fn read_version_memo(bytes: Vec<u8>) -> (r: Option<String>)
    ensures
        match r {
            Some(v) => remembered(bytes@) == Some(v@),
            None => remembered(bytes@) is None,
        },
{
    match outside::from_utf8(bytes) {
        Some(v) => {
            if v.as_str().is_empty() {
                None
            } else {
                Some(v)
            }
        },
        None => None,
    }
}

/// The version that a text names: what is left of it without the white space
/// around it, if anything is.
pub open spec fn version_in(words: Seq<char>) -> Option<Seq<char>> {
    if text::trimmed(words).len() > 0 {
        Some(text::trimmed(words))
    } else {
        None
    }
}

/// The version that `perry --version` printed. There is none if it could not
/// start, did not end in time, did not succeed or printed nothing.
pub open spec fn printed(ran: Ran<Seq<char>, Seq<u8>>) -> Option<Seq<char>> {
    match ran {
        Ok(Timed::Completed { success, stdout, .. }) => if success {
            version_in(outside::utf8_lossy(stdout))
        } else {
            None
        },
        _ => None,
    }
}

/// The version that a text names.
pub fn version_text(words: &str) -> (r: Option<String>)
    ensures
        match r {
            Some(v) => version_in(words@) == Some(v@),
            None => version_in(words@) is None,
        },
{
    let v = text::trim(words);
    if v.as_str().is_empty() {
        None
    } else {
        Some(v)
    }
}

/// The version that `perry --version` printed.
pub fn perry_version(ran: Ran<String, Vec<u8>>) -> (r: Option<String>)
    ensures
        match r {
            Some(v) => printed(process::ran_view(ran)) == Some(v@),
            None => printed(process::ran_view(ran)) is None,
        },
{
    match ran {
        Ok(Timed::Completed { success, status: _, stdout, stderr: _ }) => {
            if success {
                let words = outside::from_utf8_lossy(stdout.as_slice());
                version_text(words.as_str())
            } else {
                None
            }
        },
        Ok(Timed::TimedOut { step: _ }) => None,
        Err(_) => None,
    }
}

/// A version that was written down is read back as it was.
pub proof fn law_version_is_remembered(version: Seq<char>)
    requires
        version.len() > 0,
    ensures
        remembered(encode_utf8(version)) == Some(version),
{
    encode_utf8_valid_utf8(version);
    encode_utf8_decode_utf8(version);
}

// ---------------------------------------------------------------------------
// The binary
// ---------------------------------------------------------------------------

/// A failed compilation.
pub struct CompileError<T> {
    pub cause: T,
    /// Whether PerryTS is to blame: it ran and produced a bad result. It is not
    /// for what fails before it runs, nor for running too long.
    pub attributable: bool,
    pub raw: Option<RawPerryOutput<T>>,
}

impl View for CompileError<String> {
    type V = CompileError<Seq<char>>;

    open spec fn view(&self) -> CompileError<Seq<char>> {
        CompileError {
            cause: self.cause@,
            attributable: self.attributable,
            raw: failure::raw_view(self.raw),
        }
    }
}

/// What a run of `perry compile` comes to.
pub enum Built<T, B> {
    /// It failed.
    Failed { error: CompileError<T> },
    /// It succeeded, and what it wrote is to be read.
    Written { stdout: B, stderr: B },
}

impl View for Built<String, Vec<u8>> {
    type V = Built<Seq<char>, Seq<u8>>;

    open spec fn view(&self) -> Built<Seq<char>, Seq<u8>> {
        match *self {
            Built::Failed { error } => Built::Failed { error: error@ },
            Built::Written { stdout, stderr } => Built::Written {
                stdout: stdout@,
                stderr: stderr@,
            },
        }
    }
}

/// What `perry compile` wrote to its streams.
pub open spec fn compile_output(stdout: Seq<u8>, stderr: Seq<u8>) -> RawPerryOutput<Seq<char>> {
    RawPerryOutput {
        step: PerryStep::Compile,
        stdout: outside::utf8_lossy(stdout),
        stderr: outside::utf8_lossy(stderr),
    }
}

/// Why a compilation failed that ended with a bad exit status: the status, and
/// the first line of standard error in which anything stands.
pub open spec fn bad_exit(status: Seq<char>, stderr: Seq<char>) -> Seq<char> {
    let lines = text::solid_lines(stderr);
    "`perry compile` exited with "@ + status + " ("@ + (if lines.len() > 0 {
        lines[0]
    } else {
        "no stderr"@
    }) + ")"@
}

/// Why a compilation failed that ended with a bad exit status.
pub fn bad_exit_text(status: &str, stderr: &str) -> (r: String)
    ensures
        r@ == bad_exit(status@, stderr@),
{
    let mut r = text::concat("`perry compile` exited with ", status);
    r.append(" (");
    match text::first_nonempty_line(stderr) {
        Some(line) => r.append(line.as_str()),
        None => r.append("no stderr"),
    }
    r.append(")");
    r
}

/// What a run of `perry compile` under this bound comes to.
pub open spec fn built(ran: Ran<Seq<char>, Seq<u8>>, bound: Bound) -> Built<Seq<char>, Seq<u8>> {
    match ran {
        Ok(Timed::Completed { success, status, stdout, stderr }) => if success {
            Built::Written { stdout, stderr }
        } else {
            Built::Failed {
                error: CompileError {
                    cause: bad_exit(status, outside::utf8_lossy(stderr)),
                    attributable: true,
                    raw: Some(compile_output(stdout, stderr)),
                },
            }
        },
        Ok(Timed::TimedOut { step }) => Built::Failed {
            error: CompileError {
                cause: check::too_slow(step, bound),
                attributable: false,
                raw: None,
            },
        },
        Err(e) => Built::Failed {
            error: CompileError {
                cause: "failed to run `perry compile`: "@ + e,
                attributable: false,
                raw: None,
            },
        },
    }
}

fn raw_compile_output(stdout: &[u8], stderr: &[u8]) -> (r: RawPerryOutput<String>)
    ensures
        r@ == compile_output(stdout@, stderr@),
{
    RawPerryOutput {
        step: PerryStep::Compile,
        stdout: outside::from_utf8_lossy(stdout),
        stderr: outside::from_utf8_lossy(stderr),
    }
}

/// What a run of `perry compile` under this bound comes to.
pub fn compile_ended(ran: Ran<String, Vec<u8>>, bound: Bound) -> (r: Built<String, Vec<u8>>)
    ensures
        r@ == built(process::ran_view(ran), bound),
{
    match ran {
        Ok(Timed::Completed { success, status, stdout, stderr }) => {
            if success {
                Built::Written { stdout, stderr }
            } else {
                let raw = raw_compile_output(stdout.as_slice(), stderr.as_slice());
                let cause = bad_exit_text(status.as_str(), raw.stderr.as_str());
                Built::Failed {
                    error: CompileError { cause, attributable: true, raw: Some(raw) },
                }
            }
        },
        Ok(Timed::TimedOut { step }) => Built::Failed {
            error: CompileError {
                cause: check::too_slow_text(step, bound),
                attributable: false,
                raw: None,
            },
        },
        Err(e) => Built::Failed {
            error: CompileError {
                cause: text::concat("failed to run `perry compile`: ", e.as_str()),
                attributable: false,
                raw: None,
            },
        },
    }
}

/// The binary that a compilation produced: it must be readable and must not be
/// empty. `stdout` and `stderr` are what `perry compile` wrote to its streams.
pub open spec fn produced(
    read: Result<Seq<u8>, Seq<char>>,
    stdout: Seq<u8>,
    stderr: Seq<u8>,
) -> Result<Seq<u8>, CompileError<Seq<char>>> {
    match read {
        Ok(bytes) => if bytes.len() > 0 {
            Ok(bytes)
        } else {
            Err(
                CompileError {
                    cause: "`perry compile` produced an empty binary"@,
                    attributable: true,
                    raw: Some(compile_output(stdout, stderr)),
                },
            )
        },
        Err(e) => Err(
            CompileError {
                cause: "could not read compiled binary: "@ + e,
                attributable: true,
                raw: None,
            },
        ),
    }
}

/// A file's bytes, or why they cannot be had, seen as sequences.
pub open spec fn read_view(read: Result<Vec<u8>, String>) -> Result<Seq<u8>, Seq<char>> {
    match read {
        Ok(bytes) => Ok(bytes@),
        Err(e) => Err(e@),
    }
}

/// The binary that a compilation produced.
pub fn compile_produced(read: Result<Vec<u8>, String>, stdout: &[u8], stderr: &[u8]) -> (r: Result<
    Vec<u8>,
    CompileError<String>,
>)
    ensures
        match r {
            Ok(bytes) => produced(read_view(read), stdout@, stderr@) == Ok::<
                Seq<u8>,
                CompileError<Seq<char>>,
            >(bytes@),
            Err(error) => produced(read_view(read), stdout@, stderr@) == Err::<
                Seq<u8>,
                CompileError<Seq<char>>,
            >(error@),
        },
{
    match read {
        Ok(bytes) => {
            if bytes.len() > 0 {
                Ok(bytes)
            } else {
                Err(
                    CompileError {
                        cause: "`perry compile` produced an empty binary".to_owned(),
                        attributable: true,
                        raw: Some(raw_compile_output(stdout, stderr)),
                    },
                )
            }
        },
        Err(e) => Err(
            CompileError {
                cause: text::concat("could not read compiled binary: ", e.as_str()),
                attributable: true,
                raw: None,
            },
        ),
    }
}

/// PerryTS is blamed exactly for what it did: for a bad exit status, an output
/// that cannot be read and an empty one, but not for being slow or for not
/// starting.
pub proof fn law_blame_needs_a_bad_result(
    ran: Ran<Seq<char>, Seq<u8>>,
    bound: Bound,
    read: Result<Seq<u8>, Seq<char>>,
    stdout: Seq<u8>,
    stderr: Seq<u8>,
)
    ensures
        built(ran, bound) matches Built::Failed { error, .. } ==> (error.attributable <==> (
        ran matches Ok(Timed::Completed { success, .. }) && !success)),
        produced(read, stdout, stderr) matches Err(error) ==> error.attributable,
{
}

/// A byte string is remembered as a version exactly if it is what writing down that
/// version gives, and the version is not empty.
pub proof fn law_only_written_versions_are_remembered(bytes: Seq<u8>, version: Seq<char>)
    ensures
        remembered(bytes) == Some(version) <==> version.len() > 0 && bytes == encode_utf8(version),
{
    if version.len() > 0 && bytes == encode_utf8(version) {
        law_version_is_remembered(version);
    }
    if remembered(bytes) == Some(version) {
        decode_utf8_encode_utf8(bytes);
    }
}

/// `perry --version` tells a version exactly if it succeeds and prints something:
/// what it prints, without the white space around it.
pub proof fn law_version_is_what_success_prints(
    ran: Ran<Seq<char>, Seq<u8>>,
    words: Seq<char>,
    version: Seq<char>,
)
    ensures
        version_in(words) == Some(version) <==> version == text::trimmed(words) && version.len()
            > 0,
        printed(ran) == Some(version) <==> (ran matches Ok(Timed::Completed {
            success,
            stdout,
            ..
        }) && success && version == text::trimmed(outside::utf8_lossy(stdout)) && version.len()
            > 0),
{
}

/// A compilation that exits with success is taken to have written its output. One
/// that exits otherwise is the fault of PerryTS, told with its status, the first
/// line of its standard error that is not blank, and all that it wrote.
pub proof fn law_exit_status_decides_the_compilation(
    success: bool,
    status: Seq<char>,
    stdout: Seq<u8>,
    stderr: Seq<u8>,
    bound: Bound,
)
    ensures
        ({
            let ran: Ran<Seq<char>, Seq<u8>> = Ok(
                Timed::Completed { success, status, stdout, stderr },
            );
            let lines = text::solid_lines(outside::utf8_lossy(stderr));
            &&& success ==> built(ran, bound) == (Built::<Seq<char>, Seq<u8>>::Written {
                stdout,
                stderr,
            })
            &&& !success ==> (built(ran, bound) matches Built::Failed { error } && {
                &&& error.cause == "`perry compile` exited with "@ + status + " ("@ + (
                if lines.len() > 0 {
                    lines[0]
                } else {
                    "no stderr"@
                }) + ")"@
                &&& error.attributable
                &&& error.raw == Some(
                    RawPerryOutput {
                        step: PerryStep::Compile,
                        stdout: outside::utf8_lossy(stdout),
                        stderr: outside::utf8_lossy(stderr),
                    },
                )
            })
        }),
{
}

/// A compilation that ran too long, or did not start, failed without a fault of
/// PerryTS and without output to show.
pub proof fn law_unfinished_compilation_is_nobodys_fault(
    step: PerryStep,
    e: Seq<char>,
    bound: Bound,
)
    ensures
        built(Ok(Timed::TimedOut { step }), bound) == (Built::<Seq<char>, Seq<u8>>::Failed {
            error: CompileError {
                cause: check::too_slow(step, bound),
                attributable: false,
                raw: None,
            },
        }),
        built(Err(e), bound) == (Built::<Seq<char>, Seq<u8>>::Failed {
            error: CompileError {
                cause: "failed to run `perry compile`: "@ + e,
                attributable: false,
                raw: None,
            },
        }),
{
}

/// A compilation produced a binary exactly if its output could be read and holds
/// something, and then these bytes, all of them. Otherwise it is the fault of
/// PerryTS.
pub proof fn law_binary_is_what_was_read(
    read: Result<Seq<u8>, Seq<char>>,
    stdout: Seq<u8>,
    stderr: Seq<u8>,
    binary: Seq<u8>,
)
    ensures
        produced(read, stdout, stderr) == Ok::<Seq<u8>, CompileError<Seq<char>>>(binary) <==> read
            == Ok::<Seq<u8>, Seq<char>>(binary) && binary.len() > 0,
        read matches Ok(bytes) ==> bytes.len() == 0 ==> (produced(read, stdout, stderr)
            matches Err(error) && {
            &&& error.cause == "`perry compile` produced an empty binary"@
            &&& error.attributable
            &&& error.raw == Some(
                RawPerryOutput {
                    step: PerryStep::Compile,
                    stdout: outside::utf8_lossy(stdout),
                    stderr: outside::utf8_lossy(stderr),
                },
            )
        }),
        read matches Err(e) ==> (produced(read, stdout, stderr) matches Err(error) && {
            &&& error.cause == "could not read compiled binary: "@ + e
            &&& error.attributable
            &&& error.raw is None
        }),
{
}

/// What a compilation came to, and what was read of it, is seen in full.
pub proof fn law_compilation_is_seen_in_full(
    error: CompileError<String>,
    stdout: Vec<u8>,
    stderr: Vec<u8>,
    e: String,
)
    ensures
        error@.cause == error.cause@,
        error@.attributable == error.attributable,
        error.raw is None <==> error@.raw is None,
        error.raw matches Some(raw) ==> error@.raw == Some(
            RawPerryOutput { step: raw.step, stdout: raw.stdout@, stderr: raw.stderr@ },
        ),
        (Built::<String, Vec<u8>>::Failed { error })@ == (Built::<Seq<char>, Seq<u8>>::Failed {
            error: error@,
        }),
        (Built::<String, Vec<u8>>::Written { stdout, stderr })@ == (Built::<
            Seq<char>,
            Seq<u8>,
        >::Written { stdout: stdout@, stderr: stderr@ }),
        read_view(Ok(stdout)) == Ok::<Seq<u8>, Seq<char>>(stdout@),
        read_view(Err(e)) == Err::<Seq<u8>, Seq<char>>(e@),
{
}

} // verus!
