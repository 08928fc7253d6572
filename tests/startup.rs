use desktop_shell::startup::{abort_message, Action, Bootstrap, Phase, RunEvent};

#[test]
fn new_shell_has_not_started() {
    let shell = Bootstrap::new();
    assert_eq!(shell.phase(), Phase::NotStarted);
}

#[test]
fn healthy_start_stays_alive() {
    let mut shell = Bootstrap::new();
    assert_eq!(shell.on_event(RunEvent::Started), Some(Action::StayAlive));
    assert_eq!(shell.phase(), Phase::Running);
}

#[test]
fn running_shell_ignores_later_reports() {
    let mut shell = Bootstrap::new();
    shell.on_event(RunEvent::Started);
    assert_eq!(shell.on_event(RunEvent::StartFailed), None);
    assert_eq!(shell.phase(), Phase::Running);
    assert_eq!(shell.on_event(RunEvent::Started), None);
    assert_eq!(shell.phase(), Phase::Running);
}

#[test]
fn failed_start_aborts() {
    let mut shell = Bootstrap::new();
    assert_eq!(shell.on_event(RunEvent::StartFailed), Some(Action::Abort));
    assert_eq!(shell.phase(), Phase::Aborted);
}

#[test]
fn aborted_shell_is_terminal() {
    let mut shell = Bootstrap::new();
    shell.on_event(RunEvent::StartFailed);
    assert_eq!(shell.on_event(RunEvent::Started), None);
    assert_eq!(shell.phase(), Phase::Aborted);
    assert_eq!(shell.on_event(RunEvent::StartFailed), None);
    assert_eq!(shell.phase(), Phase::Aborted);
}

#[test]
fn abort_message_is_fixed() {
    assert_eq!(abort_message(), "error while running tauri application");
    assert_eq!(abort_message(), abort_message());
}
