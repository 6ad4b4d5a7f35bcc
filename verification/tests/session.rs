use upsctl::command::{Command, InstantCommand};
use upsctl::failure::Failure;
use upsctl::session::{Action, Event, Session};
use upsctl::usage::UsageType;

/// A server that knows some variables of one device, and what a run against
/// it did.
struct Mock {
    variables: Vec<(&'static str, &'static str)>,
    commands_fail: bool,
    requests: Vec<String>,
    lines: Vec<String>,
}

fn mock(variables: &[(&'static str, &'static str)]) -> Mock {
    Mock { variables: variables.to_vec(), commands_fail: false, requests: Vec::new(), lines: Vec::new() }
}

/// Carries out one action as the program does, but against the mock.
fn perform(mock: &mut Mock, action: Action) -> Result<Event, Result<(), Failure>> {
    Ok(match action {
        Action::RunCommand { ups_name, command } => {
            mock.requests.push(format!("INSTCMD {ups_name} {command}"));
            if mock.commands_fail {
                Event::Failed
            } else {
                Event::Done
            }
        }
        Action::GetVar { ups_name, variable } => {
            mock.requests.push(format!("GET VAR {ups_name} {variable}"));
            match mock.variables.iter().find(|(name, _)| *name == variable) {
                Some((_, text)) => Event::Text { text: text.to_string() },
                None => Event::Failed,
            }
        }
        Action::ParseNumber { text } => match text.parse::<f64>() {
            Ok(number) => Event::Number { bits: number.to_bits() },
            Err(_) => Event::Failed,
        },
        Action::Multiply { voltage, current } => Event::Text {
            text: format!("{:.2}", f64::from_bits(voltage) * f64::from_bits(current)),
        },
        Action::Print { line } => {
            mock.lines.push(line);
            Event::Done
        }
        Action::Finish => return Err(Ok(())),
        Action::Fail { failure } => return Err(Err(failure)),
    })
}

fn drive(mock: &mut Mock, command: Command) -> Result<(), Failure> {
    let (mut session, mut action) = Session::start("ups1".to_string(), command);
    loop {
        match perform(mock, action) {
            Ok(event) => action = session.step(event),
            Err(end) => return end,
        }
    }
}

fn usage(kinds: &[UsageType]) -> Command {
    Command::Usage { usage_types: kinds.to_vec() }
}

#[test]
fn power_is_the_product_with_two_decimals() {
    let mut server = mock(&[("output.voltage", "output.voltage: 120.0"), ("output.current", "output.current: 2.0")]);
    assert_eq!(drive(&mut server, usage(&[UsageType::Power])), Ok(()));
    assert_eq!(server.lines, vec!["power: 240.00 W"]);
    assert_eq!(server.requests, vec!["GET VAR ups1 output.voltage", "GET VAR ups1 output.current"]);
}

#[test]
fn power_is_rounded_to_two_decimals() {
    let mut server = mock(&[("output.voltage", "output.voltage: 229.7"), ("output.current", "output.current: 0.31")]);
    assert_eq!(drive(&mut server, usage(&[UsageType::Power])), Ok(()));
    assert_eq!(server.lines, vec!["power: 71.21 W"]);
}

#[test]
fn voltage_in_is_printed_verbatim() {
    let mut server = mock(&[("input.voltage", "input.voltage: 118.5")]);
    assert_eq!(drive(&mut server, usage(&[UsageType::VoltageIn])), Ok(()));
    assert_eq!(server.lines, vec!["input.voltage: 118.5"]);
    assert_eq!(server.requests, vec!["GET VAR ups1 input.voltage"]);
}

#[test]
fn plain_text_is_not_reformatted() {
    let mut server = mock(&[("output.current", "  odd text, no separator\t")]);
    assert_eq!(drive(&mut server, usage(&[UsageType::CurrentOut])), Ok(()));
    assert_eq!(server.lines, vec!["  odd text, no separator\t"]);
}

#[test]
fn failed_power_fetch_aborts_before_later_lines() {
    let mut server = mock(&[("input.voltage", "input.voltage: 118.5")]);
    let end = drive(&mut server, usage(&[UsageType::Power, UsageType::VoltageIn]));
    assert_eq!(end, Err(Failure::FetchFailed { variable: UsageType::VoltageOut }));
    assert!(server.lines.is_empty());
    assert_eq!(server.requests, vec!["GET VAR ups1 output.voltage"]);
}

#[test]
fn failed_current_fetch_aborts_after_the_voltage() {
    let mut server = mock(&[("output.voltage", "output.voltage: 120.0"), ("input.voltage", "input.voltage: 118.5")]);
    let end = drive(&mut server, usage(&[UsageType::VoltageIn, UsageType::Power, UsageType::VoltageIn]));
    assert_eq!(end, Err(Failure::FetchFailed { variable: UsageType::CurrentOut }));
    assert_eq!(server.lines, vec!["input.voltage: 118.5"]);
    assert_eq!(
        server.requests,
        vec!["GET VAR ups1 input.voltage", "GET VAR ups1 output.voltage", "GET VAR ups1 output.current"]
    );
}

#[test]
fn failed_plain_fetch_names_the_variable() {
    let mut server = mock(&[]);
    let end = drive(&mut server, usage(&[UsageType::CurrentOut]));
    assert_eq!(end, Err(Failure::FetchFailed { variable: UsageType::CurrentOut }));
    assert_eq!(end.unwrap_err().message(), "Variable output.current could not be fetched");
    assert!(server.lines.is_empty());
}

#[test]
fn earlier_lines_stay_printed_when_a_later_item_fails() {
    let mut server = mock(&[("input.voltage", "input.voltage: 118.5")]);
    let end = drive(&mut server, usage(&[UsageType::VoltageIn, UsageType::VoltageOut, UsageType::VoltageIn]));
    assert_eq!(end, Err(Failure::FetchFailed { variable: UsageType::VoltageOut }));
    assert_eq!(server.lines, vec!["input.voltage: 118.5"]);
}

#[test]
fn load_off_runs_one_command_and_prints_nothing() {
    let mut server = mock(&[]);
    assert_eq!(drive(&mut server, Command::LoadOff), Ok(()));
    assert_eq!(server.requests, vec!["INSTCMD ups1 load.off"]);
    assert!(server.lines.is_empty());
}

#[test]
fn load_on_runs_one_command_and_prints_nothing() {
    let mut server = mock(&[]);
    assert_eq!(drive(&mut server, Command::LoadOn), Ok(()));
    assert_eq!(server.requests, vec!["INSTCMD ups1 load.on"]);
    assert!(server.lines.is_empty());
}

#[test]
fn rejected_command_fails_and_names_the_command() {
    let mut server = mock(&[]);
    server.commands_fail = true;
    let end = drive(&mut server, Command::LoadOff);
    assert_eq!(end, Err(Failure::CommandFailed { command: InstantCommand::LoadOff }));
    assert_eq!(end.unwrap_err().message(), "Command load.off failed");
    assert_eq!(server.requests, vec!["INSTCMD ups1 load.off"]);
    let mut server = mock(&[]);
    server.commands_fail = true;
    let end = drive(&mut server, Command::LoadOn);
    assert_eq!(end.unwrap_err().message(), "Command load.on failed");
}

#[test]
fn value_without_separator_fails_and_names_the_variable() {
    let mut server = mock(&[("output.voltage", "120.0"), ("output.current", "output.current: 2.0")]);
    let end = drive(&mut server, usage(&[UsageType::Power]));
    assert_eq!(end, Err(Failure::VariableNotFound { variable: UsageType::VoltageOut }));
    assert_eq!(end.unwrap_err().message(), "Variable output.voltage not found");
    assert!(server.lines.is_empty());
    assert_eq!(server.requests, vec!["GET VAR ups1 output.voltage"]);
}

#[test]
fn current_without_separator_fails_and_names_the_variable() {
    let mut server = mock(&[("output.voltage", "output.voltage: 120.0"), ("output.current", "2.0")]);
    let end = drive(&mut server, usage(&[UsageType::Power]));
    assert_eq!(end, Err(Failure::VariableNotFound { variable: UsageType::CurrentOut }));
    assert_eq!(end.unwrap_err().message(), "Variable output.current not found");
    assert!(server.lines.is_empty());
}

#[test]
fn value_that_is_no_number_fails_like_a_missing_one() {
    let mut server = mock(&[("output.voltage", "output.voltage: high"), ("output.current", "output.current: 2.0")]);
    let end = drive(&mut server, usage(&[UsageType::Power]));
    assert_eq!(end, Err(Failure::VariableNotFound { variable: UsageType::VoltageOut }));
    assert_eq!(server.requests, vec!["GET VAR ups1 output.voltage"]);
    let mut server = mock(&[("output.voltage", "output.voltage: 120.0"), ("output.current", "output.current: ")]);
    let end = drive(&mut server, usage(&[UsageType::Power]));
    assert_eq!(end, Err(Failure::VariableNotFound { variable: UsageType::CurrentOut }));
    assert!(server.lines.is_empty());
}

#[test]
fn number_is_what_follows_the_first_separator() {
    let mut server = mock(&[("output.voltage", "output.voltage: 1: 2"), ("output.current", "output.current: 2.0")]);
    let end = drive(&mut server, usage(&[UsageType::Power]));
    assert_eq!(end, Err(Failure::VariableNotFound { variable: UsageType::VoltageOut }));
}

#[test]
fn lines_come_in_the_order_asked_with_repeats() {
    let mut server = mock(&[
        ("input.voltage", "input.voltage: 118.5"),
        ("output.voltage", "output.voltage: 120.0"),
        ("output.current", "output.current: 2.0"),
    ]);
    let kinds = [
        UsageType::CurrentOut,
        UsageType::Power,
        UsageType::VoltageIn,
        UsageType::CurrentOut,
        UsageType::Power,
        UsageType::VoltageOut,
    ];
    assert_eq!(drive(&mut server, usage(&kinds)), Ok(()));
    assert_eq!(
        server.lines,
        vec![
            "output.current: 2.0",
            "power: 240.00 W",
            "input.voltage: 118.5",
            "output.current: 2.0",
            "power: 240.00 W",
            "output.voltage: 120.0",
        ]
    );
    assert_eq!(server.requests.len(), 8);
}

#[test]
fn empty_usage_list_finishes_at_once() {
    let mut server = mock(&[]);
    assert_eq!(drive(&mut server, usage(&[])), Ok(()));
    assert!(server.requests.is_empty());
    assert!(server.lines.is_empty());
}

#[test]
fn first_action_of_each_command() {
    let (_, action) = Session::start("nas".to_string(), Command::LoadOn);
    assert!(matches!(action, Action::RunCommand { ups_name, command } if ups_name == "nas" && command == "load.on"));
    let (_, action) = Session::start("nas".to_string(), usage(&[UsageType::VoltageOut]));
    assert!(matches!(action, Action::GetVar { ups_name, variable } if ups_name == "nas" && variable == "output.voltage"));
    let (_, action) = Session::start("nas".to_string(), usage(&[UsageType::Power]));
    assert!(matches!(action, Action::GetVar { ups_name, variable } if ups_name == "nas" && variable == "output.voltage"));
    let (_, action) = Session::start("nas".to_string(), usage(&[]));
    assert!(matches!(action, Action::Finish));
}

#[test]
fn power_line_frames_the_product() {
    let (mut session, _) = Session::start("ups1".to_string(), usage(&[UsageType::Power]));
    let action = session.step(Event::Text { text: "output.voltage: 3.0".to_string() });
    assert!(matches!(action, Action::ParseNumber { text } if text == "3.0"));
    let action = session.step(Event::Number { bits: 3.0f64.to_bits() });
    assert!(matches!(action, Action::GetVar { variable, .. } if variable == "output.current"));
    let action = session.step(Event::Text { text: "output.current: 4.113".to_string() });
    assert!(matches!(action, Action::ParseNumber { text } if text == "4.113"));
    let action = session.step(Event::Number { bits: 4.113f64.to_bits() });
    assert!(matches!(action, Action::Multiply { voltage, current }
        if voltage == 3.0f64.to_bits() && current == 4.113f64.to_bits()));
    let action = session.step(Event::Text { text: "12.34".to_string() });
    assert!(matches!(action, Action::Print { line } if line == "power: 12.34 W"));
    let action = session.step(Event::Done);
    assert!(matches!(action, Action::Finish));
}

#[test]
fn event_out_of_turn_ends_the_session() {
    let (mut session, _) = Session::start("ups1".to_string(), usage(&[UsageType::VoltageIn]));
    let action = session.step(Event::Done);
    assert!(matches!(action, Action::Fail { failure: Failure::OutOfTurn }));
    let action = session.step(Event::Text { text: "input.voltage: 118.5".to_string() });
    assert!(matches!(action, Action::Fail { failure: Failure::OutOfTurn }));
    assert_eq!(Failure::OutOfTurn.message(), "Unexpected event.");

    let (mut session, _) = Session::start("ups1".to_string(), Command::LoadOff);
    let action = session.step(Event::Number { bits: 0 });
    assert!(matches!(action, Action::Fail { failure: Failure::OutOfTurn }));

    let (mut session, _) = Session::start("ups1".to_string(), usage(&[UsageType::Power]));
    let action = session.step(Event::Number { bits: 0 });
    assert!(matches!(action, Action::Fail { failure: Failure::OutOfTurn }));
}

#[test]
fn closed_session_asks_for_nothing_more() {
    let (mut session, _) = Session::start("ups1".to_string(), Command::LoadOff);
    assert!(matches!(session.step(Event::Done), Action::Finish));
    for _ in 0..3 {
        assert!(matches!(session.step(Event::Done), Action::Fail { failure: Failure::OutOfTurn }));
        assert!(matches!(session.step(Event::Failed), Action::Fail { failure: Failure::OutOfTurn }));
    }
}

#[test]
fn instant_command_names() {
    assert_eq!(InstantCommand::LoadOff.name(), "load.off");
    assert_eq!(InstantCommand::LoadOn.name(), "load.on");
}

#[test]
fn failure_messages() {
    assert_eq!(Failure::InvalidUsageType.message(), "Invalid usage type value.");
    assert_eq!(
        Failure::VariableNotFound { variable: UsageType::VoltageOut }.message(),
        "Variable output.voltage not found"
    );
    assert_eq!(
        Failure::VariableNotFound { variable: UsageType::CurrentOut }.message(),
        "Variable output.current not found"
    );
    assert_eq!(
        Failure::FetchFailed { variable: UsageType::VoltageIn }.message(),
        "Variable input.voltage could not be fetched"
    );
    assert_eq!(Failure::CommandFailed { command: InstantCommand::LoadOn }.message(), "Command load.on failed");
}
