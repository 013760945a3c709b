use shipagent::error::StartupError;
use shipagent::supervisor::{Action, Event, Supervisor, WorkerEvent};

/// Runs a start-up against scripted answers, as a host would.
fn drive(
    root: Result<&str, &str>,
    exists: bool,
    spawn: Result<(), &str>,
    output: Vec<WorkerEvent>,
) -> Result<u16, StartupError> {
    let mut sup = Supervisor::new();
    let mut output = output.into_iter();
    loop {
        let event = match sup.action() {
            Action::ResolveResourceDir => {
                Event::ResourceDir(root.map(|r| r.to_string()).map_err(|e| e.to_string()))
            }
            Action::CheckExists(_) => Event::ExecutableChecked(exists),
            Action::Spawn(_, _) => Event::Spawned(spawn.map_err(|e| e.to_string())),
            Action::Receive => match output.next() {
                Some(w) => Event::Output(w),
                None => Event::OutputClosed,
            },
            Action::Finish(outcome) => return outcome,
        };
        sup.handle(event);
    }
}

fn out(line: &str) -> WorkerEvent {
    WorkerEvent::Stdout(line.as_bytes().to_vec())
}

fn launched(output: Vec<WorkerEvent>) -> Result<u16, StartupError> {
    drive(Ok("/opt/app/resources"), true, Ok(()), output)
}

#[test]
fn reported_port_is_returned() {
    assert_eq!(launched(vec![out("SHIPAGENT_PORT=54321\n")]), Ok(54321));
    assert_eq!(
        launched(vec![out("SHIPAGENT_PORT=54321\n"), WorkerEvent::Terminated(Some(0))]),
        Ok(54321)
    );
    assert_eq!(
        drive(Ok("/elsewhere"), true, Ok(()), vec![out("SHIPAGENT_PORT=54321\n")]),
        Ok(54321)
    );
}

#[test]
fn missing_executable_names_the_path() {
    let r = drive(Ok("/opt/app/resources"), false, Ok(()), vec![out("SHIPAGENT_PORT=1\n")]);
    let expected = "/opt/app/resources/backend-dist/shipagent-core".to_string();
    assert_eq!(r, Err(StartupError::ExecutableNotFound(expected.clone())));
    let m = r.unwrap_err().message();
    assert!(m.contains(&expected));
    assert_eq!(m, format!("Backend binary not found at: {}", expected));
}

#[test]
fn malformed_marker_reports_no_port() {
    let r = launched(vec![out("SHIPAGENT_PORT=not-a-number\n"), WorkerEvent::Terminated(Some(1))]);
    assert_eq!(r, Err(StartupError::NoPortReported));
    assert_eq!(r.unwrap_err().message(), "Backend did not report a port");
}

#[test]
fn stream_error_wins_over_later_marker() {
    let r = launched(vec![
        out("starting"),
        WorkerEvent::Error("cannot bind".to_string()),
        out("SHIPAGENT_PORT=8080\n"),
    ]);
    assert_eq!(r, Err(StartupError::Stream("cannot bind".to_string())));
    assert_eq!(r.unwrap_err().message(), "Backend stderr: cannot bind");
}

#[test]
fn early_exit_reports_code() {
    let r = launched(vec![out("booting"), WorkerEvent::Terminated(Some(1))]);
    assert_eq!(r, Err(StartupError::EarlyTermination(Some(1))));
    assert_eq!(r.unwrap_err().message(), "Backend exited early: Some(1)");
}

#[test]
fn first_marker_wins_over_trailing_output() {
    let r = launched(vec![
        out("INFO loading config"),
        WorkerEvent::Stderr(b"warning: slow disk".to_vec()),
        out("INFO starting server"),
        WorkerEvent::Other,
        out("SHIPAGENT_PORT=8080"),
        out("SHIPAGENT_PORT=9090"),
        out("INFO ready"),
        WorkerEvent::Terminated(Some(0)),
    ]);
    assert_eq!(r, Ok(8080));
}

#[test]
fn closed_output_without_marker_reports_no_port() {
    let r = launched(vec![out("INFO a"), out("INFO b")]);
    assert_eq!(r, Err(StartupError::NoPortReported));
    assert_eq!(launched(vec![]), Err(StartupError::NoPortReported));
}

#[test]
fn exit_zero_without_marker_is_early_exit() {
    let r = launched(vec![out("INFO a"), WorkerEvent::Terminated(Some(0))]);
    assert_eq!(r, Err(StartupError::EarlyTermination(Some(0))));
}

#[test]
fn resource_dir_failure_stops_before_spawn() {
    let r = drive(Err("no bundle"), true, Ok(()), vec![out("SHIPAGENT_PORT=1")]);
    assert_eq!(r, Err(StartupError::ResourceResolution("no bundle".to_string())));
    assert_eq!(r.unwrap_err().message(), "Failed to resolve resource dir: no bundle");
}

#[test]
fn spawn_failure_is_reported() {
    let r = drive(Ok("/r"), true, Err("permission denied"), vec![out("SHIPAGENT_PORT=1")]);
    assert_eq!(r, Err(StartupError::Spawn("permission denied".to_string())));
    assert_eq!(r.unwrap_err().message(), "Failed to spawn backend: permission denied");
}

#[test]
fn actions_follow_the_stages() {
    let mut sup = Supervisor::new();
    assert_eq!(sup.action(), Action::ResolveResourceDir);
    sup.handle(Event::ResourceDir(Ok("/res".to_string())));
    let path = "/res/backend-dist/shipagent-core".to_string();
    assert_eq!(sup.action(), Action::CheckExists(path.clone()));
    sup.handle(Event::ExecutableChecked(true));
    let args = vec!["serve".to_string(), "--port".to_string(), "0".to_string()];
    assert_eq!(sup.action(), Action::Spawn(path, args));
    sup.handle(Event::Spawned(Ok(())));
    assert_eq!(sup.action(), Action::Receive);
    assert!(!sup.is_finished());
    sup.handle(Event::Output(out("SHIPAGENT_PORT=3000")));
    assert!(sup.is_finished());
    assert_eq!(sup.action(), Action::Finish(Ok(3000)));
    sup.handle(Event::Output(WorkerEvent::Terminated(Some(2))));
    assert_eq!(sup.action(), Action::Finish(Ok(3000)));
}

#[test]
fn unexpected_event_leaves_stage() {
    let mut sup = Supervisor::new();
    sup.handle(Event::ExecutableChecked(false));
    assert_eq!(sup.action(), Action::ResolveResourceDir);
    sup.handle(Event::OutputClosed);
    assert_eq!(sup.action(), Action::ResolveResourceDir);
}

#[test]
fn early_exit_without_code() {
    let r = launched(vec![WorkerEvent::Terminated(None)]);
    assert_eq!(r.unwrap_err().message(), "Backend exited early: None");
}

#[test]
fn early_exit_negative_code() {
    let e = StartupError::EarlyTermination(Some(-2147483648));
    assert_eq!(e.message(), "Backend exited early: Some(-2147483648)");
}
