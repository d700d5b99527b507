//! Verify before trust: a freshly compiled binary is trusted only if it behaves
//! like Node on the same arguments.

use crate::failure::CookFailure;
use crate::text;
use vstd::prelude::*;
use vstd::string::*;

verus! {

/// What a captured run wrote to its standard output, and its exit code. Standard
/// error is not captured: warnings may differ between the binary and Node.
pub struct Captured<B> {
    pub stdout: B,
    pub code: i32,
}

impl View for Captured<Vec<u8>> {
    type V = Captured<Seq<u8>>;

    open spec fn view(&self) -> Captured<Seq<u8>> {
        Captured { stdout: self.stdout@, code: self.code }
    }
}

/// Whether the binary behaves like Node.
#[derive(Clone, Copy, PartialEq, Eq, Structural)]
pub enum VerifyOutcome {
    /// Standard output and exit code are the same.
    Equivalent,
    /// Standard output or exit code differs.
    Diverged,
}

/// Whether the binary behaves like Node: standard output and exit code are the
/// same.
pub open spec fn outcome(cooked: Captured<Seq<u8>>, node: Captured<Seq<u8>>) -> VerifyOutcome {
    if cooked == node {
        VerifyOutcome::Equivalent
    } else {
        VerifyOutcome::Diverged
    }
}

/// Whether the binary behaves like Node: standard output and exit code are the
/// same.
pub fn verify_outcome(cooked: &Captured<Vec<u8>>, node_stdout: &[u8], node_code: i32) -> (r:
    VerifyOutcome)
    ensures
        r == outcome(cooked@, Captured { stdout: node_stdout@, code: node_code }),
        r is Equivalent <==> cooked.stdout@ == node_stdout@ && cooked.code == node_code,
{
    if text::same_bytes(cooked.stdout.as_slice(), node_stdout) && cooked.code == node_code {
        VerifyOutcome::Equivalent
    } else {
        VerifyOutcome::Diverged
    }
}

/// How two outputs differ, without quoting them: by length where the lengths
/// differ, by content where only that differs. Equal outputs, next to exit codes
/// that differ, are said to be identical.
pub open spec fn stdout_diff(cooked: Seq<u8>, node: Seq<u8>) -> Seq<char> {
    if cooked.len() != node.len() {
        "differ in length ("@ + text::decimal(cooked.len()) + " vs "@ + text::decimal(node.len())
            + " bytes)"@
    } else if cooked != node {
        "differ in content (same length)"@
    } else {
        "identical"@
    }
}

/// How two outputs differ, if they do, without quoting them.
pub fn describe_stdout_diff(cooked: &[u8], node: &[u8]) -> (r: String)
    ensures
        r@ == stdout_diff(cooked@, node@),
{
    if cooked.len() != node.len() {
        let mut r = String::new();
        r.append("differ in length (");
        text::push_decimal(&mut r, cooked.len() as u128);
        r.append(" vs ");
        text::push_decimal(&mut r, node.len() as u128);
        r.append(" bytes)");
        assert(r@ =~= stdout_diff(cooked@, node@));
        r
    } else if !text::same_bytes(cooked, node) {
        "differ in content (same length)".to_owned()
    } else {
        "identical".to_owned()
    }
}

/// The failure of a binary that does not behave like Node. PerryTS is not blamed
/// for it: a script that is not deterministic differs from run to run.
pub open spec fn divergence(
    script: Seq<char>,
    cooked: Captured<Seq<u8>>,
    node: Captured<Seq<u8>>,
) -> CookFailure<Seq<char>> {
    CookFailure {
        cause: "cooked binary's output differed from Node's for "@ + script
            + " — not trusting it.\n  exit: cooked="@ + text::signed_decimal(cooked.code as int)
            + " node="@ + text::signed_decimal(node.code as int) + "\n  stdout: "@ + stdout_diff(
            cooked.stdout,
            node.stdout,
        )
            + "\n  This is expected for nondeterministic scripts (time, randomness, PID,\n  unordered iteration) and is not necessarily a compiler bug."@,
        perry_attributable: false,
        raw: None,
    }
}

/// The failure of a binary that does not behave like Node.
pub fn divergence_failure(
    script: &str,
    cooked: &Captured<Vec<u8>>,
    node_stdout: &[u8],
    node_code: i32,
) -> (r: CookFailure<String>)
    ensures
        r@ == divergence(script@, cooked@, Captured { stdout: node_stdout@, code: node_code }),
{
    let mut cause = text::concat("cooked binary's output differed from Node's for ", script);
    cause.append(" — not trusting it.\n  exit: cooked=");
    let cooked_code = text::signed_decimal_text(cooked.code);
    cause.append(cooked_code.as_str());
    cause.append(" node=");
    let code = text::signed_decimal_text(node_code);
    cause.append(code.as_str());
    cause.append("\n  stdout: ");
    let diff = describe_stdout_diff(cooked.stdout.as_slice(), node_stdout);
    cause.append(diff.as_str());
    cause.append(
        "\n  This is expected for nondeterministic scripts (time, randomness, PID,\n  unordered iteration) and is not necessarily a compiler bug.",
    );
    CookFailure { cause, perry_attributable: false, raw: None }
}

/// A difference between the outputs is claimed exactly where there is one; where
/// only the exit codes differ, the outputs are said to be identical.
pub proof fn law_claims_only_true_differences(cooked: Seq<u8>, node: Seq<u8>)
    ensures
        stdout_diff(cooked, node) == "identical"@ <==> cooked == node,
{
    reveal_strlit("identical");
    reveal_strlit("differ in length (");
    reveal_strlit("differ in content (same length)");
    if cooked != node {
        assert(stdout_diff(cooked, node)[0] == 'd');
    }
}

/// The binary is trusted exactly if it wrote what Node wrote and exited as Node
/// did.
pub proof fn law_trust_needs_both(cooked: Captured<Seq<u8>>, node: Captured<Seq<u8>>)
    ensures
        outcome(cooked, node) is Equivalent <==> cooked.stdout == node.stdout && cooked.code
            == node.code,
{
}

/// Outputs of different lengths are described by both, the binary's first; other
/// outputs by whether they are the same.
pub proof fn law_difference_is_described(cooked: Seq<u8>, node: Seq<u8>)
    ensures
        cooked.len() != node.len() ==> stdout_diff(cooked, node) == "differ in length ("@
            + text::decimal(cooked.len()) + " vs "@ + text::decimal(node.len()) + " bytes)"@,
        cooked.len() == node.len() && cooked != node ==> stdout_diff(cooked, node)
            == "differ in content (same length)"@,
        cooked == node ==> stdout_diff(cooked, node) == "identical"@,
{
}

/// A divergence names the script, both exit codes and how the outputs differ, and
/// is blamed on nobody.
pub proof fn law_divergence_tells_what_differs(
    script: Seq<char>,
    cooked: Captured<Seq<u8>>,
    node: Captured<Seq<u8>>,
)
    ensures
        divergence(script, cooked, node).cause
            == "cooked binary's output differed from Node's for "@ + script
            + " — not trusting it.\n  exit: cooked="@ + text::signed_decimal(cooked.code as int)
            + " node="@ + text::signed_decimal(node.code as int) + "\n  stdout: "@ + stdout_diff(
            cooked.stdout,
            node.stdout,
        )
            + "\n  This is expected for nondeterministic scripts (time, randomness, PID,\n  unordered iteration) and is not necessarily a compiler bug."@,
        !divergence(script, cooked, node).perry_attributable,
        divergence(script, cooked, node).raw is None,
{
}

/// A captured run is seen in full.
pub proof fn law_capture_is_seen_in_full(run: Captured<Vec<u8>>)
    ensures
        run@.stdout == run.stdout@,
        run@.code == run.code,
{
}

} // verus!
