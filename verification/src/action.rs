//! Power actions and the command invoker's pure half: validating a
//! requested action and building the argument vector for the
//! out-of-band management tool.

use vstd::prelude::*;
use crate::config::Endpoint;
use crate::strkit::str_eq;

verus! {

/// One action the management tool can be asked to perform.
#[derive(Clone, Copy, Debug, PartialEq, Eq, Structural)]
pub enum PowerAction {
    On,
    Off,
    Reset,
    Cycle,
    Status,
}

/// The keyword the management tool takes for each action.
pub open spec fn spec_action_keyword(a: PowerAction) -> Seq<char> {
    match a {
        PowerAction::On => "on"@,
        PowerAction::Off => "off"@,
        PowerAction::Reset => "reset"@,
        PowerAction::Cycle => "cycle"@,
        PowerAction::Status => "status"@,
    }
}

/// The control action named by a request body, if it is one of the
/// closed set `on`, `off`, `reset`, `cycle` (exact, case-sensitive).
/// `status` is deliberately absent: a status query never arrives as a
/// control action.
pub open spec fn spec_parse_control_action(s: Seq<char>) -> Option<PowerAction> {
    if s == "on"@ {
        Some(PowerAction::On)
    } else if s == "off"@ {
        Some(PowerAction::Off)
    } else if s == "reset"@ {
        Some(PowerAction::Reset)
    } else if s == "cycle"@ {
        Some(PowerAction::Cycle)
    } else {
        None
    }
}

/// The keyword handed to the management tool for `action`.
pub fn action_keyword(action: PowerAction) -> (r: &'static str)
    ensures
        r@ == spec_action_keyword(action),
{
    match action {
        PowerAction::On => "on",
        PowerAction::Off => "off",
        PowerAction::Reset => "reset",
        PowerAction::Cycle => "cycle",
        PowerAction::Status => "status",
    }
}

/// Validate a control action named in a request body against the
/// closed set `on`, `off`, `reset`, `cycle`.
pub fn parse_control_action(s: &str) -> (r: Option<PowerAction>)
    ensures
        r == spec_parse_control_action(s@),
{
    if str_eq(s, "on") {
        Some(PowerAction::On)
    } else if str_eq(s, "off") {
        Some(PowerAction::Off)
    } else if str_eq(s, "reset") {
        Some(PowerAction::Reset)
    } else if str_eq(s, "cycle") {
        Some(PowerAction::Cycle)
    } else {
        None
    }
}

/// The program to invoke for every power command.
pub fn ipmi_program() -> (r: &'static str)
    ensures
        r@ == "ipmitool"@,
{
    "ipmitool"
}

/// The argument vector for one invocation of the management tool:
/// connection parameters of `e`, then `power` and the action keyword.
/// Handing these to the process as separate arguments keeps a secret
/// containing shell metacharacters from altering the command.
pub open spec fn spec_command_args(e: Endpoint, a: PowerAction) -> Seq<Seq<char>> {
    seq![
        "-I"@,
        "lanplus"@,
        "-H"@,
        e.address@,
        "-U"@,
        e.username@,
        "-P"@,
        e.secret@,
        "power"@,
        spec_action_keyword(a),
    ]
}

/// Build the argument vector for invoking the management tool against
/// `endpoint` with `action`. Every field is one argument of its own,
/// passed verbatim; nothing is interpolated into a shell string.
pub fn ipmi_command_args(endpoint: &Endpoint, action: PowerAction) -> (r: Vec<String>)
    ensures
        r.deep_view() == spec_command_args(*endpoint, action),
{
    let mut args: Vec<String> = Vec::new();
    args.push(String::from_str("-I"));
    args.push(String::from_str("lanplus"));
    args.push(String::from_str("-H"));
    args.push(endpoint.address.clone());
    args.push(String::from_str("-U"));
    args.push(endpoint.username.clone());
    args.push(String::from_str("-P"));
    args.push(endpoint.secret.clone());
    args.push(String::from_str("power"));
    args.push(String::from_str(action_keyword(action)));
    proof {
        assert(args.deep_view() =~= spec_command_args(*endpoint, action));
    }
    args
}

} // verus!
