use ogle::cli::Cli;
use ogle::cli::CliError;

#[test]
fn empty() {
    let cli = Cli::try_parse_from(vec!["ogle"]);
    assert!(cli.is_err(), "should require at least a command to run");
}

#[test]
fn dashes() -> Result<(), CliError> {
    let cli = Cli::try_parse_from(vec!["ogle", "--"]);
    assert!(cli.is_err());
    let cli = Cli::try_parse_from(vec!["ogle", "--", "ls", "-l"])?;
    assert_eq!(cli.command[0], "ls");
    assert_eq!(cli.command[1], "-l");
    assert_eq!(cli.command.len(), 2);
    assert_eq!(cli.period, 1);
    Ok(())
}

#[test]
fn period() -> Result<(), CliError> {
    let cli = Cli::try_parse_from(vec!["ogle", "-p", "5", "--", "ls", "-l"])?;
    assert_eq!(cli.period, 5);
    let cli = Cli::try_parse_from(vec!["ogle", "--period", "7", "--", "ls", "-l"])?;
    assert_eq!(cli.period, 7);
    Ok(())
}

#[test]
fn until() -> Result<(), CliError> {
    let cli = Cli::try_parse_from(vec!["ogle", "-z", "--", "true"])?;
    assert!(cli.until_success);
    assert!(!cli.until_failure);
    let cli = Cli::try_parse_from(vec!["ogle", "-e", "--", "true"])?;
    assert!(!cli.until_success);
    assert!(cli.until_failure);
    Ok(())
}

#[test]
fn cli_errors_each_kind() {
    assert!(matches!(Cli::try_parse_from(vec!["ogle"]), Err(CliError::MissingCommand)));
    assert!(matches!(Cli::try_parse_from(vec!["ogle", "-p"]), Err(CliError::MissingValue)));
    assert!(matches!(
        Cli::try_parse_from(vec!["ogle", "-p", "x1", "ls"]),
        Err(CliError::InvalidPeriod)
    ));
    assert!(matches!(
        Cli::try_parse_from(vec!["ogle", "-p", "4294967296", "ls"]),
        Err(CliError::InvalidPeriod)
    ));
    assert!(matches!(Cli::try_parse_from(vec!["ogle", "-x", "ls"]), Err(CliError::UnknownOption)));
}

#[test]
fn cli_command_without_dashes_keeps_its_options() {
    let cli = Cli::try_parse_from(vec!["ogle", "-p", "4294967295", "ls", "-l", "-z"]).unwrap();
    assert_eq!(cli.period, 4294967295);
    assert!(!cli.until_success);
    assert_eq!(cli.command, vec!["ls".to_string(), "-l".to_string(), "-z".to_string()]);
}

#[test]
fn cli_get_cmd_text() {
    let cli = Cli::try_parse_from(vec!["ogle", "echo", "a", "b"]).unwrap();
    assert_eq!(cli.get_cmd().to_text(), "echo a b");
    assert_eq!(cli.get_cmd().words(), vec!["echo".to_string(), "a".to_string(), "b".to_string()]);
}

#[test]
fn cli_stop_conditions() {
    let ok = ogle::process_wrapper::ExitSts::Success;
    let bad = ogle::process_wrapper::ExitSts::Code(1);
    let cli = Cli::try_parse_from(vec!["ogle", "-z", "true"]).unwrap();
    assert!(cli.should_stop(Some(ok)));
    assert!(!cli.should_stop(Some(bad)));
    let cli = Cli::try_parse_from(vec!["ogle", "-e", "true"]).unwrap();
    assert!(!cli.should_stop(Some(ok)));
    assert!(cli.should_stop(Some(bad)));
    assert!(cli.should_stop(None));
    let cli = Cli::try_parse_from(vec!["ogle", "true"]).unwrap();
    assert!(!cli.should_stop(Some(ok)));
    assert!(!cli.should_stop(Some(bad)));
}

#[test]
fn cli_attached_and_bundled_forms() {
    let cli = Cli::try_parse_from(vec!["ogle", "--period=7", "ls"]).unwrap();
    assert_eq!(cli.period, 7);
    let cli = Cli::try_parse_from(vec!["ogle", "-p5", "ls"]).unwrap();
    assert_eq!(cli.period, 5);
    let cli = Cli::try_parse_from(vec!["ogle", "-p=3", "ls"]).unwrap();
    assert_eq!(cli.period, 3);
    let cli = Cli::try_parse_from(vec!["ogle", "-zep", "9", "ls"]).unwrap();
    assert!(cli.until_success && cli.until_failure);
    assert_eq!(cli.period, 9);
    assert_eq!(cli.command, vec!["ls".to_string()]);
    assert!(matches!(Cli::try_parse_from(vec!["ogle", "-zx", "ls"]), Err(CliError::UnknownOption)));
    assert!(matches!(Cli::try_parse_from(vec!["ogle", "--periodic", "ls"]), Err(CliError::UnknownOption)));
    assert!(matches!(Cli::try_parse_from(vec!["ogle", "--period="]), Err(CliError::InvalidPeriod)));
}

#[test]
fn cli_help_and_version() {
    assert!(matches!(Cli::try_parse_from(vec!["ogle", "-h"]), Err(CliError::Help)));
    assert!(matches!(Cli::try_parse_from(vec!["ogle", "--help", "ls"]), Err(CliError::Help)));
    assert!(matches!(Cli::try_parse_from(vec!["ogle", "-V"]), Err(CliError::Version)));
    assert!(matches!(Cli::try_parse_from(vec!["ogle", "--version"]), Err(CliError::Version)));
    let cli = Cli::try_parse_from(vec!["ogle", "ls", "--help"]).unwrap();
    assert_eq!(cli.command, vec!["ls".to_string(), "--help".to_string()]);
}
