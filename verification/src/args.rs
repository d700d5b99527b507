//! Where a run of `nub cook` starts and ends.

use crate::flow;
use crate::session::{Answer, Context, Ending, Phase, Session, SessionView};
use crate::text;
use crate::verify::Captured;
use vstd::prelude::*;
use vstd::string::*;

verus! {

/// Why a script could not be run.
pub struct CookError {
    pub message: String,
}

/// What a run of `nub cook` is given.
pub struct CookArgs<'a, F, G> where
    F: FnOnce() -> Result<i32, CookError>,
    G: FnOnce() -> Result<(Vec<u8>, i32), CookError>,
 {
    /// The path of the script to compile and run.
    pub script: &'a str,
    /// The arguments for the binary or the script.
    pub forwarded_args: &'a [String],
    /// Skip the ahead-of-time path altogether and run on Node.
    pub compat_mode: bool,
    /// Report failures with what `perry` wrote.
    pub debug: bool,
    /// Runs the script on Node, on the terminal.
    pub run_on_node: F,
    /// Runs the script on Node and captures its standard output and exit code.
    pub run_on_node_captured: G,
}

/// A session that nothing is known of yet.
pub open spec fn opened(
    script: Seq<char>,
    args: Seq<Seq<char>>,
    compat: bool,
    debug: bool,
    setting: Option<Seq<char>>,
) -> SessionView {
    Session {
        context: Context { script, args, debug, setting },
        phase: Phase::Opening { compat },
    }
}

impl<'a, F, G> CookArgs<'a, F, G> where
    F: FnOnce() -> Result<i32, CookError>,
    G: FnOnce() -> Result<(Vec<u8>, i32), CookError>,
 {
    /// Opens the session of this run. `setting` is the internal setting that
    /// bounds the subprocesses, where it is set.
    pub fn open(&self, setting: Option<&str>) -> (r: Session<String, Vec<u8>, Vec<String>>)
        ensures
            r@ == opened(
                self.script@,
                self.forwarded_args.deep_view(),
                self.compat_mode,
                self.debug,
                match setting {
                    Some(s) => Some(s@),
                    None => None,
                },
            ),
            flow::sound(r@),
    {
        let setting = match setting {
            Some(s) => Some(s.to_owned()),
            None => None,
        };
        Session {
            context: Context {
                script: self.script.to_owned(),
                args: text::copies(self.forwarded_args),
                debug: self.debug,
                setting,
            },
            phase: Phase::Opening { compat: self.compat_mode },
        }
    }
}

/// Ends a run: on Node by running the script there, otherwise with the exit code
/// of the binary or with the error.
pub fn conclude<F>(ending: Ending<String>, run_on_node: F) -> (r: Result<i32, CookError>) where
    F: FnOnce() -> Result<i32, CookError>,

    requires
        ending is Node ==> run_on_node.requires(()),
    ensures
        match ending {
            Ending::Node => run_on_node.ensures((), r),
            Ending::Exit { code } => r == Ok::<i32, CookError>(code),
            Ending::Usage { message } => r == Err::<i32, CookError>(CookError { message }),
        },
{
    match ending {
        Ending::Node => run_on_node(),
        Ending::Exit { code } => Ok(code),
        Ending::Usage { message } => Err(CookError { message }),
    }
}

/// Runs the script on Node to compare with: the answer holds what was captured,
/// or why nothing was.
pub fn reference_run<G>(run_on_node_captured: G) -> (r: Answer<String, Vec<u8>>) where
    G: FnOnce() -> Result<(Vec<u8>, i32), CookError>,

    requires
        run_on_node_captured.requires(()),
    ensures
        match r {
            Answer::Captured(Ok(c)) => run_on_node_captured.ensures((), Ok((c.stdout, c.code))),
            Answer::Captured(Err(e)) => run_on_node_captured.ensures(
                (),
                Err(CookError { message: e }),
            ),
            _ => false,
        },
{
    match run_on_node_captured() {
        Ok((stdout, code)) => Answer::Captured(Ok(Captured { stdout, code })),
        Err(e) => Answer::Captured(Err(e.message)),
    }
}

/// A session is opened with exactly what the run was given.
pub proof fn law_session_opens_with_what_was_given(
    script: Seq<char>,
    args: Seq<Seq<char>>,
    compat: bool,
    debug: bool,
    setting: Option<Seq<char>>,
)
    ensures
        ({
            let s = opened(script, args, compat, debug, setting);
            &&& s.context.script == script
            &&& s.context.args == args
            &&& s.context.debug == debug
            &&& s.context.setting == setting
            &&& s.phase == (Phase::<Seq<char>, Seq<u8>>::Opening { compat })
        }),
{
}

} // verus!
