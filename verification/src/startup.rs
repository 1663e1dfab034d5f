//! Startup outcome: the messages the process prints once the listener
//! is bound — or once binding has failed — and the exit code it owes.
//! Binding itself happens outside the library; the outcome is decided
//! here from the bind result alone.

use vstd::prelude::*;
use vstd::string::StringExecFns;
use crate::numfmt::append_u16_dec;
use crate::numfmt::dec_digits;

verus! {

/// The banner printed when the server has bound its port.
pub open spec fn spec_running_line() -> Seq<char> {
    "Server is running!"@
}

/// The line inviting the operator to share the listed URLs.
pub open spec fn spec_share_line() -> Seq<char> {
    "Share any of the above URLs with devices on your network"@
}

/// The diagnostic for a failed bind, naming the port and the error.
pub open spec fn spec_bind_failure_line(port: u16, error: Seq<char>) -> Seq<char> {
    "Failed to bind to port "@ + dec_digits(port as nat) + ": "@ + error
}

/// The hint that another port can be chosen.
pub open spec fn spec_retry_hint_line() -> Seq<char> {
    "Try a different port with --port <number>"@
}

/// What the process does after trying to bind: the lines it prints and
/// the exit code it terminates with — zero meaning it keeps serving.
pub struct StartupReport {
    pub lines: Vec<String>,
    pub exit_code: i32,
}

/// Decides the startup outcome from the bind result.  A successful
/// bind announces the running server and exits with zero (that is,
/// keeps serving); a failed bind names the port and the error,
/// suggests an alternate port, and exits non-zero.
pub fn startup_report(bind_error: Option<&str>, port: u16) -> (r: StartupReport)
    ensures
        match bind_error {
            Option::Some(error) => r.exit_code == 1 && r.lines.deep_view() == seq![
                spec_bind_failure_line(port, error@),
                spec_retry_hint_line(),
            ],
            Option::None => r.exit_code == 0 && r.lines.deep_view() == seq![
                spec_running_line(),
                spec_share_line(),
            ],
        },
{
    let mut lines: Vec<String> = Vec::new();
    match bind_error {
        Option::Some(error) => {
            let mut diagnostic = String::from_str("Failed to bind to port ");
            append_u16_dec(&mut diagnostic, port);
            diagnostic.append(": ");
            diagnostic.append(error);
            lines.push(diagnostic);
            lines.push(String::from_str("Try a different port with --port <number>"));
            proof {
                assert(lines.deep_view() =~= seq![
                    spec_bind_failure_line(port, error@),
                    spec_retry_hint_line(),
                ]);
            }
            StartupReport { lines, exit_code: 1 }
        },
        Option::None => {
            lines.push(String::from_str("Server is running!"));
            lines.push(
                String::from_str("Share any of the above URLs with devices on your network"),
            );
            proof {
                assert(lines.deep_view() =~= seq![spec_running_line(), spec_share_line()]);
            }
            StartupReport { lines, exit_code: 0 }
        },
    }
}

/// A failed bind is fatal and silent about success: its exit code is
/// non-zero and neither of its lines is the running banner.
pub proof fn lemma_bind_failure_is_fatal(
    r: StartupReport,
    port: u16,
    error: Seq<char>,
)
    requires
        r.exit_code == 1,
        r.lines.deep_view() == seq![spec_bind_failure_line(port, error), spec_retry_hint_line()],
    ensures
        r.exit_code != 0,
        forall|k: int|
            0 <= k < r.lines.deep_view().len() ==> #[trigger] r.lines.deep_view()[k]
                != spec_running_line(),
{
    reveal_strlit("Server is running!");
    reveal_strlit("Failed to bind to port ");
    reveal_strlit("Try a different port with --port <number>");
    assert(spec_bind_failure_line(port, error)[0] == 'F');
    assert(spec_retry_hint_line()[0] == 'T');
    assert(spec_running_line()[0] == 'S');
    assert(r.lines.deep_view().len() == 2);
    assert(r.lines.deep_view()[0] != spec_running_line());
    assert(r.lines.deep_view()[1] != spec_running_line());
}

} // verus!
