use powergate::classify::{classify, CommandResult, PowerError, PowerStatus};

fn result(exit_succeeded: bool, stdout: &str, stderr: &str) -> CommandResult {
    CommandResult {
        exit_succeeded,
        stdout: String::from(stdout),
        stderr: String::from(stderr),
    }
}

#[test]
fn status_phrases_map_to_states() {
    let cases = [
        ("Chassis Power is on", PowerStatus::On),
        ("Chassis Power is off", PowerStatus::Off),
        ("Chassis Power Control: Up/On", PowerStatus::On),
        ("Chassis Power Control: On", PowerStatus::On),
        ("Chassis Power Control: Down/Off", PowerStatus::Off),
        ("Chassis Power Control: Off", PowerStatus::Off),
        ("Chassis Power Control: Soft", PowerStatus::Off),
        ("Chassis Power Control: Reset", PowerStatus::Reset),
        ("Chassis Power Control: Cycle", PowerStatus::Cycle),
    ];
    for (text, expected) in cases {
        assert_eq!(classify(&result(true, text, "")), Ok(expected));
    }
}

#[test]
fn stdout_is_trimmed_before_matching() {
    assert_eq!(
        classify(&result(true, "  Chassis Power is on \n", "")),
        Ok(PowerStatus::On)
    );
    assert_eq!(
        classify(&result(true, "\t\r\nChassis Power Control: Cycle\n\n", "")),
        Ok(PowerStatus::Cycle)
    );
}

#[test]
fn unexpected_stdout_is_rejected() {
    assert_eq!(
        classify(&result(true, "Some Weird Output", "")),
        Err(PowerError::UnexpectedOutput)
    );
    assert_eq!(
        classify(&result(true, "", "")),
        Err(PowerError::UnexpectedOutput)
    );
    // A known phrase inside other text is not an exact match.
    assert_eq!(
        classify(&result(true, "note: Chassis Power is on today", "")),
        Err(PowerError::UnexpectedOutput)
    );
}

#[test]
fn stderr_substrings_map_to_errors() {
    assert_eq!(
        classify(&result(false, "", "error: Command not supported in present state!")),
        Err(PowerError::CommandNotSupported)
    );
    assert_eq!(
        classify(&result(false, "", "Invalid user name")),
        Err(PowerError::AuthenticationFailed)
    );
    assert_eq!(
        classify(&result(false, "", "lanplus: authentication failure, giving up")),
        Err(PowerError::AuthenticationFailed)
    );
    assert_eq!(
        classify(&result(false, "", "Unable to establish IPMI v2 / RMCP+ session")),
        Err(PowerError::ConnectionFailed)
    );
    assert_eq!(
        classify(&result(false, "", "Invalid command")),
        Err(PowerError::InvalidState)
    );
    assert_eq!(
        classify(&result(false, "", "something else entirely")),
        Err(PowerError::UnknownError)
    );
    assert_eq!(
        classify(&result(false, "", "")),
        Err(PowerError::UnknownError)
    );
}

#[test]
fn stderr_precedence_first_trigger_wins() {
    // Both trigger phrases present: the earlier rule decides.
    assert_eq!(
        classify(&result(
            false,
            "",
            "Command not supported in present state; authentication failure"
        )),
        Err(PowerError::CommandNotSupported)
    );
    assert_eq!(
        classify(&result(false, "", "authentication failure: Invalid command")),
        Err(PowerError::AuthenticationFailed)
    );
}

#[test]
fn failed_exit_ignores_stdout() {
    // A perfect status phrase on stdout does not rescue a failed exit.
    assert_eq!(
        classify(&result(false, "Chassis Power is on", "")),
        Err(PowerError::UnknownError)
    );
}

#[test]
fn classification_is_deterministic() {
    let a = result(true, "Chassis Power is off", "noise");
    let b = result(true, "Chassis Power is off", "noise");
    assert_eq!(classify(&a), classify(&b));
    let c = result(false, "", "authentication failure");
    let d = result(false, "", "authentication failure");
    assert_eq!(classify(&c), classify(&d));
}
