use shots::activation::{arbitrate, notify_failure, rendezvous_name, Arbitration, BindOutcome};
use shots::error::ShotError;
use shots::process::{
    collect_output, command, region_geometry, ProcessOutput, RunReport, Tool,
};

fn output(status: i32, stdout: &[u8], stderr: &[u8]) -> RunReport {
    RunReport::Exited(ProcessOutput { status, stdout: stdout.to_vec(), stderr: stderr.to_vec() })
}

#[test]
fn exit_zero_gives_stdout_unchanged() {
    let r = collect_output(Tool::Capture, output(0, b"\x89PNG raw", b"warning"));
    assert_eq!(r.unwrap(), b"\x89PNG raw".to_vec());
}

#[test]
fn nonzero_exit_without_stderr_carries_status() {
    match collect_output(Tool::Capture, output(4, b"partial", b"")) {
        Err(ShotError::Exit { tool, status, detail }) => {
            assert_eq!(tool, Tool::Capture);
            assert_eq!(status, 4);
            assert!(detail.is_none());
        }
        other => panic!("unexpected {:?}", other),
    }
}

#[test]
fn nonzero_exit_with_stderr_carries_text() {
    match collect_output(Tool::Region, output(1, b"", "sélection annulée".as_bytes())) {
        Err(e @ ShotError::Exit { .. }) => {
            assert_eq!(e.message(), "slurp failed with exit status 1:\nsélection annulée");
        }
        other => panic!("unexpected {:?}", other),
    }
}

#[test]
fn nonzero_exit_with_invalid_stderr_is_a_decode_error() {
    let r = collect_output(Tool::Capture, output(1, b"", &[0x80, 0x80]));
    assert!(matches!(r, Err(ShotError::InvalidText { tool: Tool::Capture })));
}

#[test]
fn negative_and_large_statuses_are_written_in_decimal() {
    let e = ShotError::Exit { tool: Tool::Capture, status: -15, detail: None };
    assert_eq!(e.message(), "grim failed with exit status -15 but no error output was provided");
    let e = ShotError::Exit { tool: Tool::Region, status: 255, detail: Some("boom".into()) };
    assert_eq!(e.message(), "slurp failed with exit status 255:\nboom");
}

#[test]
fn spawn_and_receive_failures_are_chained() {
    let r = collect_output(Tool::Region, RunReport::SpawnFailed { cause: "No such file".into() });
    assert_eq!(r.unwrap_err().message(), "spawning slurp: No such file");
    let r = collect_output(Tool::Capture, RunReport::ReceiveFailed { cause: "broken pipe".into() });
    assert_eq!(r.unwrap_err().message(), "receiving output from grim: broken pipe");
}

#[test]
fn consumer_error_messages() {
    let e = ShotError::Dialog { cause: "Dismissed by user".into() };
    assert_eq!(e.message(), "choosing output file: Dismissed by user");
    let e = ShotError::Io { context: "writing image to file".into(), cause: "disk full".into() };
    assert_eq!(e.message(), "writing image to file: disk full");
    let e = ShotError::Clipboard { cause: "denied".into() };
    assert_eq!(e.message(), "Saving Image to Clipboard: denied");
}

#[test]
fn region_text_loses_trailing_white_space_only() {
    let g = region_geometry(b" 0,0 10x10\t\r\n".to_vec()).unwrap();
    assert_eq!(g, " 0,0 10x10");
    let g = region_geometry("5,5 1x1\u{3000}".as_bytes().to_vec()).unwrap();
    assert_eq!(g, "5,5 1x1");
    let g = region_geometry(b"".to_vec()).unwrap();
    assert_eq!(g, "");
}

#[test]
fn region_text_must_be_utf8() {
    let r = region_geometry(vec![b'1', 0xff]);
    assert!(matches!(r, Err(ShotError::InvalidText { tool: Tool::Region })));
}

#[test]
fn command_lines() {
    assert_eq!(command(Tool::CursorHider, &None, true), vec!["hyprpicker", "-r", "-z"]);
    assert_eq!(command(Tool::Region, &Some("x".into()), true), vec!["slurp"]);
    assert_eq!(command(Tool::Capture, &None, true), vec!["grim", "-c", "-"]);
    assert_eq!(command(Tool::Capture, &Some("1,2 3x4".into()), false), vec![
        "grim", "-g", "1,2 3x4", "-"
    ]);
    assert_eq!(Tool::Capture.program(), "grim");
}

#[test]
fn bound_address_makes_a_primary() {
    assert!(matches!(arbitrate(BindOutcome::Bound), Arbitration::Serve));
}

#[test]
fn address_in_use_hands_over_and_exits() {
    assert!(matches!(arbitrate(BindOutcome::AddrInUse), Arbitration::NotifyAndExit));
}

#[test]
fn other_bind_failure_aborts_startup() {
    match arbitrate(BindOutcome::Failed { cause: "permission denied".into() }) {
        Arbitration::Abort(e) => {
            assert_eq!(e.message(), "creating activation socket: permission denied")
        }
        _ => panic!("a failed bind did not abort"),
    }
    assert_eq!(
        notify_failure("connection refused".into()).message(),
        "opening activation socket: connection refused"
    );
}

#[test]
fn rendezvous_name_is_scoped_by_session() {
    assert_eq!(rendezvous_name("c2"), "shots-c2");
    assert_eq!(rendezvous_name(""), "shots-");
}
