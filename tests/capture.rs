use shots::error::ShotError;
use shots::pipeline::{Action, Config, Event, Pipeline, Stage};
use shots::process::{command, ProcessOutput, RunReport, Tool};
use shots::session::{Session, ShotType};

fn exited(status: i32, stdout: &[u8], stderr: &[u8]) -> Event {
    Event::ToolDone(RunReport::Exited(ProcessOutput {
        status,
        stdout: stdout.to_vec(),
        stderr: stderr.to_vec(),
    }))
}

fn start(mode: ShotType, delay_seconds: u8, cursor: bool) -> Event {
    Event::Start { mode, config: Config { delay_seconds, cursor } }
}

/// Runs a full-screen capture whose capture tool prints `bytes`.
fn capture_full(p: &mut Pipeline, s: &mut Session, bytes: &[u8]) {
    assert!(matches!(p.handle(s, start(ShotType::Fullscreen, 0, false)), Action::Begin { .. }));
    assert!(matches!(p.handle(s, Event::DelayElapsed), Action::Run { .. }));
    assert!(matches!(p.handle(s, exited(0, bytes, b"")), Action::LoadImage));
    assert!(matches!(
        p.handle(s, Event::ImageLoaded { width: 4, height: 2 }),
        Action::Complete { .. }
    ));
}

#[test]
fn fullscreen_capture_stores_tool_output() {
    let mut p = Pipeline::new();
    let mut s = Session::new();
    let bytes: Vec<u8> = (0u8..40).collect();

    match p.handle(&mut s, start(ShotType::Fullscreen, 0, false)) {
        Action::Begin { seconds } => assert_eq!(seconds, 0),
        other => panic!("unexpected {:?}", other),
    }
    assert_eq!(s.last_shot(), ShotType::Fullscreen);
    match p.handle(&mut s, Event::DelayElapsed) {
        Action::Run { tool, geometry, cursor } => {
            assert_eq!(tool, Tool::Capture);
            assert!(geometry.is_none());
            assert!(!cursor);
            assert_eq!(command(tool, &geometry, cursor), vec!["grim", "-"]);
        }
        other => panic!("unexpected {:?}", other),
    }
    assert!(matches!(p.handle(&mut s, exited(0, &bytes, b"")), Action::LoadImage));
    assert_eq!(p.captured(), &bytes);
    match p.handle(&mut s, Event::ImageLoaded { width: 3, height: 5 }) {
        Action::Complete { terminate_hider, width, height, replay } => {
            assert!(!terminate_hider);
            assert!(!replay);
            assert_eq!((width, height), (3, 5));
        }
        other => panic!("unexpected {:?}", other),
    }
    assert_eq!(p.stage(), Stage::Completed);
    assert_eq!(s.image(), Some(&bytes));
    assert_eq!(s.image().map(|b| b.len()), Some(40));
}

#[test]
fn selection_region_failure_reports_and_keeps_image() {
    let mut p = Pipeline::new();
    let mut s = Session::new();
    capture_full(&mut p, &mut s, b"earlier");

    match p.handle(&mut s, start(ShotType::Selection, 2, false)) {
        Action::Begin { seconds } => assert_eq!(seconds, 2),
        other => panic!("unexpected {:?}", other),
    }
    assert!(matches!(p.handle(&mut s, Event::DelayElapsed), Action::SpawnHider));
    assert_eq!(p.stage(), Stage::PointerHidden);
    match p.handle(&mut s, Event::HiderSpawned) {
        Action::Run { tool, geometry, .. } => {
            assert_eq!(tool, Tool::Region);
            assert_eq!(command(tool, &geometry, false), vec!["slurp"]);
        }
        other => panic!("unexpected {:?}", other),
    }
    match p.handle(&mut s, exited(1, b"", b"no selection")) {
        Action::Fail { terminate_hider, error, replay } => {
            assert!(terminate_hider);
            assert!(!replay);
            assert!(error.message().contains("no selection"));
            assert_eq!(error.message(), "slurp failed with exit status 1:\nno selection");
        }
        other => panic!("unexpected {:?}", other),
    }
    assert_eq!(p.stage(), Stage::Failed);
    assert_eq!(s.image().map(|b| b.as_slice()), Some(&b"earlier"[..]));
    assert_eq!(s.last_shot(), ShotType::Selection);
}

#[test]
fn selection_capture_uses_trimmed_region() {
    let mut p = Pipeline::new();
    let mut s = Session::new();
    p.handle(&mut s, start(ShotType::Selection, 0, true));
    p.handle(&mut s, Event::DelayElapsed);
    p.handle(&mut s, Event::HiderSpawned);
    match p.handle(&mut s, exited(0, b"10,20 300x400 \n", b"")) {
        Action::Run { tool, geometry, cursor } => {
            assert_eq!(tool, Tool::Capture);
            assert_eq!(geometry.as_deref(), Some("10,20 300x400"));
            assert!(cursor);
            assert_eq!(
                command(tool, &geometry, cursor),
                vec!["grim", "-g", "10,20 300x400", "-c", "-"]
            );
        }
        other => panic!("unexpected {:?}", other),
    }
    assert!(matches!(p.handle(&mut s, exited(0, b"png", b"")), Action::LoadImage));
    match p.handle(&mut s, Event::ImageLoaded { width: 300, height: 400 }) {
        Action::Complete { terminate_hider, .. } => assert!(terminate_hider),
        other => panic!("unexpected {:?}", other),
    }
    assert_eq!(s.image().map(|b| b.as_slice()), Some(&b"png"[..]));
}

#[test]
fn same_outputs_store_same_bytes_twice() {
    let mut p = Pipeline::new();
    let mut s = Session::new();
    capture_full(&mut p, &mut s, b"abc");
    let first = s.image().cloned();
    capture_full(&mut p, &mut s, b"abc");
    assert_eq!(s.image().cloned(), first);
    assert_eq!(first, Some(b"abc".to_vec()));
}

/// Drives a selection up to the stage named by `fail_at` and injects a failure there.
fn failing_selection(fail_at: u8) -> (Action, Session) {
    let mut p = Pipeline::new();
    let mut s = Session::new();
    capture_full(&mut p, &mut s, b"kept");
    p.handle(&mut s, start(ShotType::Selection, 0, false));
    p.handle(&mut s, Event::DelayElapsed);
    if fail_at == 0 {
        let a = p.handle(&mut s, Event::HiderFailed { cause: "not found".to_string() });
        return (a, s);
    }
    p.handle(&mut s, Event::HiderSpawned);
    if fail_at == 1 {
        let a = p.handle(&mut s, Event::ToolDone(RunReport::SpawnFailed { cause: "x".into() }));
        return (a, s);
    }
    if fail_at == 2 {
        let a = p.handle(&mut s, exited(0, &[0xff, 0xfe], b""));
        return (a, s);
    }
    p.handle(&mut s, exited(0, b"1,1 2x2\n", b""));
    if fail_at == 3 {
        let a = p.handle(&mut s, Event::ToolDone(RunReport::ReceiveFailed { cause: "y".into() }));
        return (a, s);
    }
    if fail_at == 4 {
        let a = p.handle(&mut s, exited(2, b"", b""));
        return (a, s);
    }
    if fail_at == 5 {
        let a = p.handle(&mut s, exited(3, b"", &[0xc3]));
        return (a, s);
    }
    p.handle(&mut s, exited(0, b"garbage", b""));
    let a = p.handle(&mut s, Event::ImageRejected { cause: "unknown format".into() });
    (a, s)
}

#[test]
fn failure_at_any_stage_keeps_image_and_stops_hider() {
    for fail_at in 0u8..7 {
        let (a, s) = failing_selection(fail_at);
        assert_eq!(s.image().map(|b| b.as_slice()), Some(&b"kept"[..]), "stage {}", fail_at);
        match a {
            Action::Fail { terminate_hider, .. } => assert_eq!(terminate_hider, fail_at != 0),
            other => panic!("unexpected {:?}", other),
        }
    }
}

#[test]
fn failure_messages_name_the_stage() {
    let expect = [
        "spawning hyprpicker: not found",
        "spawning slurp: x",
        "decoding slurp output: the text is not valid UTF-8",
        "receiving output from grim: y",
        "grim failed with exit status 2 but no error output was provided",
        "decoding grim output: the text is not valid UTF-8",
        "loading screenshot image: unknown format",
    ];
    for (fail_at, text) in expect.iter().enumerate() {
        match failing_selection(fail_at as u8).0 {
            Action::Fail { error, .. } => assert_eq!(error.message(), *text),
            other => panic!("unexpected {:?}", other),
        }
    }
}

#[test]
fn start_is_ignored_while_a_capture_runs() {
    let mut p = Pipeline::new();
    let mut s = Session::new();
    p.handle(&mut s, start(ShotType::Fullscreen, 5, false));
    assert!(matches!(p.handle(&mut s, start(ShotType::Selection, 0, false)), Action::Ignore));
    assert_eq!(s.last_shot(), ShotType::Fullscreen);
    assert_eq!(p.stage(), Stage::Delaying);
    assert!(matches!(p.handle(&mut s, Event::ImageLoaded { width: 1, height: 1 }), Action::Ignore));
    assert!(s.image().is_none());
}

#[test]
fn replay_defaults_to_selection() {
    let mut p = Pipeline::new();
    let mut s = Session::new();
    let config = Config { delay_seconds: 1, cursor: false };
    assert!(matches!(p.replay(&mut s, config), Action::Begin { seconds: 1 }));
    assert!(matches!(p.handle(&mut s, Event::DelayElapsed), Action::SpawnHider));
}

#[test]
fn replay_repeats_last_started_mode_even_after_failure() {
    let mut p = Pipeline::new();
    let mut s = Session::new();
    p.handle(&mut s, start(ShotType::Fullscreen, 0, false));
    p.handle(&mut s, Event::DelayElapsed);
    assert!(matches!(p.handle(&mut s, exited(1, b"", b"")), Action::Fail { .. }));
    assert_eq!(s.last_shot(), ShotType::Fullscreen);
    let config = Config { delay_seconds: 0, cursor: true };
    assert!(matches!(p.replay(&mut s, config), Action::Begin { seconds: 0 }));
    match p.handle(&mut s, Event::DelayElapsed) {
        Action::Run { tool, geometry, cursor } => {
            assert_eq!(tool, Tool::Capture);
            assert!(geometry.is_none());
            assert!(cursor);
        }
        other => panic!("unexpected {:?}", other),
    }
}

#[test]
fn empty_session_has_nothing_to_export() {
    let s = Session::new();
    match s.exported_image() {
        Err(e) => {
            assert!(matches!(e, ShotError::NoImage));
            assert_eq!(e.message(), "No screenshot available");
        }
        Ok(_) => panic!("an empty session exported an image"),
    }
    assert!(s.image().is_none());
    assert_eq!(s.last_shot(), ShotType::Selection);
}

#[test]
fn stored_image_is_exported() {
    let mut p = Pipeline::new();
    let mut s = Session::new();
    capture_full(&mut p, &mut s, b"image");
    assert_eq!(s.exported_image().unwrap().as_slice(), b"image");
}

#[test]
fn wake_during_capture_is_replayed_when_it_ends() {
    let mut p = Pipeline::new();
    let mut s = Session::new();
    let config = Config { delay_seconds: 3, cursor: false };
    p.handle(&mut s, start(ShotType::Fullscreen, 0, false));
    assert!(matches!(p.replay(&mut s, config), Action::Ignore));
    assert_eq!(p.stage(), Stage::Delaying);
    p.handle(&mut s, Event::DelayElapsed);
    match p.handle(&mut s, exited(1, b"", b"")) {
        Action::Fail { replay, .. } => assert!(replay),
        other => panic!("unexpected {:?}", other),
    }
    assert!(matches!(p.replay(&mut s, config), Action::Begin { seconds: 3 }));
    match p.handle(&mut s, Event::DelayElapsed) {
        Action::Run { tool, .. } => assert_eq!(tool, Tool::Capture),
        other => panic!("unexpected {:?}", other),
    }
    p.handle(&mut s, exited(0, b"again", b""));
    match p.handle(&mut s, Event::ImageLoaded { width: 1, height: 1 }) {
        Action::Complete { replay, .. } => assert!(!replay),
        other => panic!("unexpected {:?}", other),
    }
    assert_eq!(s.image().map(|b| b.as_slice()), Some(&b"again"[..]));
}
