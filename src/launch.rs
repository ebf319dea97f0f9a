//! What the shim does once the script is known: the command line it runs
//! and the exit status it finishes with.
use vstd::prelude::*;
use crate::resolve::{resolve_script, resolved_script};

verus! {

/// The runtime that executes the script.
pub const RUNTIME: &'static str = "node";

/// Exit status when no script can be determined.
pub const UNRESOLVED_EXIT: u8 = 2;

/// Exit status when the child cannot be started or reports no code.
pub const LAUNCH_FAILURE_EXIT: u8 = 1;

/// Start of the diagnostic printed when no script can be determined; the
/// invocation name follows it.
pub const UNRESOLVED_MESSAGE: &'static str =
    "FORGE_AGENT_SCRIPT is not set and script cannot be inferred from shim name: ";

/// What the shim does after looking at its inputs.
pub enum Step {
    /// Run `program` with `args` and finish with the child's outcome.
    Launch { program: String, args: Vec<String> },
    /// Print `message` to the error stream and exit with `code`; nothing is
    /// launched.
    Unresolved { code: u8, message: String },
}

/// How the launched child ended, as far as the shim can observe it.
pub enum ChildOutcome {
    /// The child ran and ended, with an exit code if the platform gave one.
    Exited { code: Option<i32> },
    /// The child could not be started.
    NotStarted,
}

/// `args` is the script followed by the forwarded arguments, unchanged and
/// in order.
pub open spec fn runtime_args(args: Seq<String>, script: Seq<char>, forwarded: Seq<String>) -> bool {
    &&& args.len() == forwarded.len() + 1
    &&& args[0]@ == script
    &&& args.drop_first() == forwarded
}

/// The command line for the runtime: the script, then every forwarded
/// argument as given.
pub fn node_args(script: String, forwarded: Vec<String>) -> (r: Vec<String>)
    ensures
        r@ == seq![script] + forwarded@,
        runtime_args(r@, script@, forwarded@),
{
    let mut args: Vec<String> = Vec::new();
    args.push(script);
    let mut rest = forwarded;
    args.append(&mut rest);
    assert((seq![script] + forwarded@).drop_first() =~= forwarded@);
    args
}

/// Decides what to do for the given invocation name, override value and
/// forwarded arguments: launch the runtime on the resolved script, or give up
/// with the resolution-failure status.
pub fn plan(exe_name: &str, override_value: Option<&str>, forwarded: Vec<String>) -> (r: Step)
    ensures
        match resolved_script(exe_name@, override_value.deep_view()) {
            Some(script) => match r {
                Step::Launch { program, args } => program@ == RUNTIME@ && runtime_args(
                    args@,
                    script,
                    forwarded@,
                ),
                Step::Unresolved { .. } => false,
            },
            None => match r {
                Step::Launch { .. } => false,
                Step::Unresolved { code, message } => code == UNRESOLVED_EXIT && message@
                    == UNRESOLVED_MESSAGE@ + exe_name@,
            },
        },
{
    match resolve_script(exe_name, override_value) {
        Some(script) => Step::Launch {
            program: String::from_str(RUNTIME),
            args: node_args(script, forwarded),
        },
        None => {
            let mut message = String::from_str(UNRESOLVED_MESSAGE);
            message.append(exe_name);
            Step::Unresolved { code: UNRESOLVED_EXIT, message }
        },
    }
}

/// The shim's own exit status for the child's outcome: the child's code read
/// as an 8-bit unsigned value, or the launch-failure status when there is no
/// code or no child.
pub fn exit_status(outcome: &ChildOutcome) -> (r: u8)
    ensures
        match *outcome {
            ChildOutcome::Exited { code: Some(n) } => r as int == n as int % 256 && (0 <= n
                <= 255 ==> r as int == n as int),
            ChildOutcome::Exited { code: None } => r == LAUNCH_FAILURE_EXIT,
            ChildOutcome::NotStarted => r == LAUNCH_FAILURE_EXIT,
        },
{
    match outcome {
        ChildOutcome::Exited { code: Some(n) } => {
            let n = *n;
            if n >= 0 {
                (n % 256) as u8
            } else {
                let k: i32 = -(n + 1);
                let m: i32 = 255 - k % 256;
                assert(m as int == n as int % 256) by (nonlinear_arith)
                    requires
                        n < 0,
                        k == -(n + 1),
                        m == 255 - k % 256,
                ;
                m as u8
            }
        },
        ChildOutcome::Exited { code: None } => LAUNCH_FAILURE_EXIT,
        ChildOutcome::NotStarted => LAUNCH_FAILURE_EXIT,
    }
}

} // verus!
