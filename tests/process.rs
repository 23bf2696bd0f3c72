use ogle::process_wrapper::Cmd;
use ogle::process_wrapper::ExitSts;

#[test]
fn exit_status_from_parts() {
    assert_eq!(ExitSts::from_parts(true, Some(0), None), Some(ExitSts::Success));
    assert_eq!(ExitSts::from_parts(false, Some(257), None), Some(ExitSts::Code(1)));
    assert_eq!(ExitSts::from_parts(false, None, Some(9)), Some(ExitSts::Signal(9)));
    assert_eq!(ExitSts::from_parts(false, None, None), None);
}

#[test]
fn exit_status_text() {
    assert_eq!(ExitSts::Success.to_text(), "success");
    assert_eq!(ExitSts::Code(2).to_text(), "code 2");
    assert_eq!(ExitSts::Signal(-3).to_text(), "signal -3");
    assert!(ExitSts::Success.success());
    assert!(!ExitSts::Code(1).success());
}

#[test]
fn cmd_text_joins_words() {
    let cmd = Cmd::new(vec!["/bin/sh".to_string(), "-c".to_string(), "echo test".to_string()]);
    assert_eq!(cmd.to_text(), "/bin/sh -c echo test");
    assert_eq!(Cmd::new(vec![]).to_text(), "");
}
