use shipagent::error::exit_code_string;
use shipagent::marker::{scan_line, scan_text, LineScan};
use shipagent::supervisor::{executable_path, react, WorkerEvent};
use shipagent::error::StartupError;

#[test]
fn marker_with_port() {
    assert_eq!(scan_text("SHIPAGENT_PORT=54321\n"), LineScan::Marker(Some(54321)));
    assert_eq!(scan_text("SHIPAGENT_PORT= 443 \r\n"), LineScan::Marker(Some(443)));
    assert_eq!(scan_text("SHIPAGENT_PORT=+80"), LineScan::Marker(Some(80)));
    assert_eq!(scan_text("SHIPAGENT_PORT=0065535"), LineScan::Marker(Some(65535)));
    assert_eq!(scan_text("SHIPAGENT_PORT=\u{3000}42\u{a0}"), LineScan::Marker(Some(42)));
}

#[test]
fn marker_without_port() {
    assert_eq!(scan_text("SHIPAGENT_PORT=not-a-number\n"), LineScan::Marker(None));
    assert_eq!(scan_text("SHIPAGENT_PORT=65536"), LineScan::Marker(None));
    assert_eq!(scan_text("SHIPAGENT_PORT=-1"), LineScan::Marker(None));
    assert_eq!(scan_text("SHIPAGENT_PORT="), LineScan::Marker(None));
    assert_eq!(scan_text("SHIPAGENT_PORT=+"), LineScan::Marker(None));
    assert_eq!(scan_text("SHIPAGENT_PORT=80 80"), LineScan::Marker(None));
}

#[test]
fn log_lines() {
    assert_eq!(scan_text("INFO SHIPAGENT_PORT=1"), LineScan::Log);
    assert_eq!(scan_text(" SHIPAGENT_PORT=1"), LineScan::Log);
    assert_eq!(scan_text("shipagent_port=1"), LineScan::Log);
    assert_eq!(scan_text(""), LineScan::Log);
}

#[test]
fn raw_lines_are_decoded() {
    assert_eq!(scan_line(b"SHIPAGENT_PORT=8080\n"), LineScan::Marker(Some(8080)));
    assert_eq!(scan_line(b"SHIPAGENT_PORT=80\xff"), LineScan::Marker(None));
    assert_eq!(scan_line(b"\xffSHIPAGENT_PORT=80"), LineScan::Log);
    assert_eq!(scan_line(b"log \xc3\x28 line"), LineScan::Log);
}

#[test]
fn path_under_resource_dir() {
    assert_eq!(executable_path("/res"), "/res/backend-dist/shipagent-core");
    assert_eq!(executable_path("/res/"), "/res/backend-dist/shipagent-core");
    assert_eq!(executable_path("res"), "res/backend-dist/shipagent-core");
}

#[test]
fn exit_code_text() {
    assert_eq!(exit_code_string(Some(1)), "Some(1)");
    assert_eq!(exit_code_string(Some(-15)), "Some(-15)");
    assert_eq!(exit_code_string(Some(2147483647)), "Some(2147483647)");
    assert_eq!(exit_code_string(None), "None");
}

#[test]
fn reactions_to_output() {
    assert_eq!(react(&WorkerEvent::Stdout(b"hello".to_vec())), None);
    assert_eq!(react(&WorkerEvent::Stderr(b"SHIPAGENT_PORT=1".to_vec())), None);
    assert_eq!(react(&WorkerEvent::Other), None);
    assert_eq!(react(&WorkerEvent::Stdout(b"SHIPAGENT_PORT=7".to_vec())), Some(Ok(7)));
    assert_eq!(
        react(&WorkerEvent::Stdout(b"SHIPAGENT_PORT=x".to_vec())),
        Some(Err(StartupError::NoPortReported))
    );
    assert_eq!(
        react(&WorkerEvent::Error("boom".to_string())),
        Some(Err(StartupError::Stream("boom".to_string())))
    );
    assert_eq!(
        react(&WorkerEvent::Terminated(Some(3))),
        Some(Err(StartupError::EarlyTermination(Some(3))))
    );
}

#[test]
fn duplicate_keeps_failure() {
    let e = StartupError::Spawn("denied".to_string());
    assert_eq!(e.duplicate(), e);
}
