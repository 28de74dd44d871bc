//! What an alert does: the artifact text, and the terminal echo.

use vstd::prelude::*;

verus! {

/// What to do with one alert report.
#[derive(Debug, PartialEq, Eq)]
pub struct AlertActions {
    /// The full new content of the status artifact.
    pub artifact: String,
    /// What to print on standard output, if anything.
    pub console: Option<String>,
}

/// The styled line printed before a report on an interactive terminal:
/// bold, blinking, red on white.
pub open spec fn banner() -> Seq<char> {
    "\x1b[1;5;31;107m Check Engine! \x1b[0m\n"@
}

/// The actions for `report`: the artifact always receives exactly the
/// report, and only an interactive terminal gets the banner and the report.
pub fn alert_actions(report: &String, interactive: bool) -> (r: AlertActions)
    ensures
        r.artifact@ == report@,
        interactive ==> r.console is Some && r.console->0@ == banner() + report@,
        !interactive ==> r.console is None,
{
    let artifact = report.clone();
    if interactive {
        let mut shown = String::from_str("\x1b[1;5;31;107m Check Engine! \x1b[0m\n");
        shown.append(report.as_str());
        AlertActions { artifact, console: Some(shown) }
    } else {
        AlertActions { artifact, console: None }
    }
}

/// Relies on `atty::is(Stream::Stdout)`: whether standard output is a
/// terminal. Nothing is known of the answer ahead of the call.
#[verifier::external_body]
fn stdout_is_terminal() -> (r: bool) {
    atty::is(atty::Stream::Stdout)
}

/// The actions for `report` in this process: the banner and echo go to
/// standard output only when it is a terminal.
pub fn alert_actions_for_stdout(report: &String) -> (r: AlertActions)
    ensures
        r.artifact@ == report@,
        r.console is Some ==> r.console->0@ == banner() + report@,
{
    let interactive = stdout_is_terminal();
    alert_actions(report, interactive)
}

} // verus!
