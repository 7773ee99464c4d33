use swtchr::cli::{Cli, CliCommands};
use swtchr::ipc::Command;
use swtchr::sway::commands::{command_outcome, CommandError, SwayMode, SwayRequest};

#[test]
fn default_mode_is_named_default() {
    assert_eq!(SwayMode::Default.name(), "default");
}

#[test]
fn focus_payload_is_the_exact_command_text() {
    assert_eq!(SwayRequest::FocusWindow(42).payload(), b"[con_id=\"42\"] focus");
    assert_eq!(SwayRequest::FocusWindow(1).payload(), b"[con_id=\"1\"] focus");
    assert_eq!(
        SwayRequest::FocusWindow(9007199254740993).payload(),
        b"[con_id=\"9007199254740993\"] focus"
    );
    assert_eq!(SwayRequest::FocusWindow(-7).payload(), b"[con_id=\"-7\"] focus");
}

#[test]
fn mode_payload_is_the_exact_command_text() {
    assert_eq!(SwayRequest::BindingMode(SwayMode::Default).payload(), b"mode default");
}

#[test]
fn empty_outcome_batch_is_success() {
    assert!(command_outcome(Ok(Vec::new())).is_ok());
}

#[test]
fn all_successful_outcomes_collapse_to_success() {
    assert!(command_outcome(Ok(vec![Ok(()), Ok(())])).is_ok());
}

#[test]
fn partial_failure_is_surfaced_as_an_error() {
    let outcomes = Ok(vec![Ok(()), Err(swayipc::Error::CommandFailed("no".to_owned()))]);
    let result = command_outcome(outcomes);
    assert!(matches!(result, Err(CommandError::Failed(_))));
}

#[test]
fn first_failure_wins() {
    let outcomes = Ok(vec![
        Err(swayipc::Error::CommandParse("bad".to_owned())),
        Err(swayipc::Error::CommandFailed("worse".to_owned())),
    ]);
    match command_outcome(outcomes) {
        Err(CommandError::Failed(swayipc::Error::CommandParse(msg))) => assert_eq!(msg, "bad"),
        other => panic!("expected the first failure, got {other:?}"),
    }
}

#[test]
fn transport_failure_is_an_ipc_error() {
    let result = command_outcome(Err(swayipc::Error::SocketNotFound));
    assert!(matches!(result, Err(CommandError::Ipc(_))));
}

#[test]
fn every_subcommand_maps_to_its_wire_command() {
    let expected = [
        (CliCommands::Next, Command::Next),
        (CliCommands::Prev, Command::Prev),
        (CliCommands::PeekNext, Command::PeekNext),
        (CliCommands::PeekPrev, Command::PeekPrev),
        (CliCommands::Show, Command::Show),
        (CliCommands::Dismiss, Command::Dismiss),
        (CliCommands::Peek, Command::Peek),
        (CliCommands::Select, Command::Select),
    ];
    for (subcommand, command) in expected {
        assert_eq!(subcommand.command(), command);
    }
}

#[test]
fn cli_carries_one_subcommand() {
    let cli = Cli { command: CliCommands::Show };
    assert_eq!(cli.command.command(), Command::Show);
}
