//! Output classifier: maps the management tool's exit flag and raw
//! text streams to a typed power status or a typed error. A pure
//! function of `(exit_succeeded, stdout, stderr)` and nothing else.

use vstd::prelude::*;
use crate::strkit::{seq_contains, spec_trim, str_contains, str_eq, trim};

verus! {

/// The classified, caller-facing power state.
#[derive(Clone, Copy, Debug, PartialEq, Eq, Structural)]
pub enum PowerStatus {
    On,
    Off,
    Reset,
    Cycle,
}

/// A typed failure of one power command.
#[derive(Clone, Copy, Debug, PartialEq, Eq, Structural)]
pub enum PowerError {
    CommandNotSupported,
    InvalidState,
    AuthenticationFailed,
    ConnectionFailed,
    UnexpectedOutput,
    UnknownError,
}

/// The raw outcome of one invocation of the management tool.
pub struct CommandResult {
    pub exit_succeeded: bool,
    pub stdout: String,
    pub stderr: String,
}

/// Classification of a failed invocation: the first matching known
/// substring of `stderr` decides, in this fixed precedence order.
pub open spec fn spec_classify_failure(stderr: Seq<char>) -> PowerError {
    if seq_contains(stderr, "Command not supported in present state"@) {
        PowerError::CommandNotSupported
    } else if seq_contains(stderr, "Invalid user name"@) || seq_contains(
        stderr,
        "authentication failure"@,
    ) {
        PowerError::AuthenticationFailed
    } else if seq_contains(stderr, "Unable to establish IPMI v2 / RMCP+ session"@) {
        PowerError::ConnectionFailed
    } else if seq_contains(stderr, "Invalid command"@) {
        PowerError::InvalidState
    } else {
        PowerError::UnknownError
    }
}

/// Classification of a successful invocation: trimmed `stdout` must
/// match one of the known phrases exactly; anything else is
/// `UnexpectedOutput`.
pub open spec fn spec_classify_success(stdout: Seq<char>) -> Result<PowerStatus, PowerError> {
    let t = spec_trim(stdout);
    if t == "Chassis Power is on"@ {
        Ok(PowerStatus::On)
    } else if t == "Chassis Power is off"@ {
        Ok(PowerStatus::Off)
    } else if t == "Chassis Power Control: Up/On"@ {
        Ok(PowerStatus::On)
    } else if t == "Chassis Power Control: On"@ {
        Ok(PowerStatus::On)
    } else if t == "Chassis Power Control: Down/Off"@ {
        Ok(PowerStatus::Off)
    } else if t == "Chassis Power Control: Off"@ {
        Ok(PowerStatus::Off)
    } else if t == "Chassis Power Control: Soft"@ {
        Ok(PowerStatus::Off)
    } else if t == "Chassis Power Control: Reset"@ {
        Ok(PowerStatus::Reset)
    } else if t == "Chassis Power Control: Cycle"@ {
        Ok(PowerStatus::Cycle)
    } else {
        Err(PowerError::UnexpectedOutput)
    }
}

/// Two-phase classification: the exit flag picks the phase, `stderr`
/// decides a failure, trimmed `stdout` decides a success.
pub open spec fn spec_classify(
    exit_succeeded: bool,
    stdout: Seq<char>,
    stderr: Seq<char>,
) -> Result<PowerStatus, PowerError> {
    if exit_succeeded {
        spec_classify_success(stdout)
    } else {
        Err(spec_classify_failure(stderr))
    }
}

/// Classification reads nothing but the exit flag and the two text
/// streams: two results that agree on those classify identically.
pub proof fn lemma_classify_pure(a: CommandResult, b: CommandResult)
    requires
        a.exit_succeeded == b.exit_succeeded,
        a.stdout@ == b.stdout@,
        a.stderr@ == b.stderr@,
    ensures
        spec_classify(a.exit_succeeded, a.stdout@, a.stderr@) == spec_classify(
            b.exit_succeeded,
            b.stdout@,
            b.stderr@,
        ),
{
}

/// Map stderr of a failed invocation to its typed error.
fn classify_failure(stderr: &str) -> (r: PowerError)
    ensures
        r == spec_classify_failure(stderr@),
{
    if str_contains(stderr, "Command not supported in present state") {
        PowerError::CommandNotSupported
    } else if str_contains(stderr, "Invalid user name") || str_contains(
        stderr,
        "authentication failure",
    ) {
        PowerError::AuthenticationFailed
    } else if str_contains(stderr, "Unable to establish IPMI v2 / RMCP+ session") {
        PowerError::ConnectionFailed
    } else if str_contains(stderr, "Invalid command") {
        PowerError::InvalidState
    } else {
        PowerError::UnknownError
    }
}

/// Map stdout of a successful invocation to its typed status.
fn classify_success(stdout: &str) -> (r: Result<PowerStatus, PowerError>)
    ensures
        r == spec_classify_success(stdout@),
{
    let t = trim(stdout);
    if str_eq(t, "Chassis Power is on") {
        Ok(PowerStatus::On)
    } else if str_eq(t, "Chassis Power is off") {
        Ok(PowerStatus::Off)
    } else if str_eq(t, "Chassis Power Control: Up/On") {
        Ok(PowerStatus::On)
    } else if str_eq(t, "Chassis Power Control: On") {
        Ok(PowerStatus::On)
    } else if str_eq(t, "Chassis Power Control: Down/Off") {
        Ok(PowerStatus::Off)
    } else if str_eq(t, "Chassis Power Control: Off") {
        Ok(PowerStatus::Off)
    } else if str_eq(t, "Chassis Power Control: Soft") {
        Ok(PowerStatus::Off)
    } else if str_eq(t, "Chassis Power Control: Reset") {
        Ok(PowerStatus::Reset)
    } else if str_eq(t, "Chassis Power Control: Cycle") {
        Ok(PowerStatus::Cycle)
    } else {
        Err(PowerError::UnexpectedOutput)
    }
}

/// Classify the raw outcome of one invocation of the management tool.
pub fn classify(result: &CommandResult) -> (r: Result<PowerStatus, PowerError>)
    ensures
        r == spec_classify(result.exit_succeeded, result.stdout@, result.stderr@),
{
    if result.exit_succeeded {
        classify_success(result.stdout.as_str())
    } else {
        Err(classify_failure(result.stderr.as_str()))
    }
}

} // verus!
