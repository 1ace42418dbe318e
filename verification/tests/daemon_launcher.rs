use macxlr::launcher::{
    choose_daemon_binary, daemon_working_dir, finish_launch,
    daemon_arguments, daemon_candidates, default_ui_url, failure_message, launch_step,
    startup_log_dir, ui_wait_continues, DaemonStatus, LaunchAction, LaunchEvent, LaunchFailure,
    LaunchPhase, POLL_INTERVAL_MS, UI_PORT,
};

#[test]
fn constants() {
    assert_eq!(default_ui_url(), "http://localhost:14564/");
    assert_eq!(UI_PORT, 14564);
    assert_eq!(POLL_INTERVAL_MS, 250);
    assert!(ui_wait_continues(29_999));
    assert!(!ui_wait_continues(30_000));
    assert_eq!(daemon_arguments(), vec!["--disable-tray", "true", "--log-level", "info"]);
}

#[test]
fn status_paths_live_in_log_dir() {
    let dir = startup_log_dir("/tmp");
    assert_eq!(dir, "/tmp/macxlr-desktop");
    let s = DaemonStatus::new(true, false, Some("boom".to_string()), dir);
    assert!(s.ready);
    assert!(!s.spawned);
    assert_eq!(s.url, "http://localhost:14564/");
    assert_eq!(s.last_error, Some("boom".to_string()));
    assert_eq!(s.log_dir, "/tmp/macxlr-desktop");
    assert_eq!(s.startup_log, "/tmp/macxlr-desktop/startup.log");
    assert_eq!(s.daemon_stdout_log, "/tmp/macxlr-desktop/goxlr-daemon.stdout.log");
    assert_eq!(s.daemon_stderr_log, "/tmp/macxlr-desktop/goxlr-daemon.stderr.log");
}

#[test]
fn candidates_in_search_order() {
    let c = daemon_candidates(
        "/src/desktop-ui/src-tauri",
        "aarch64",
        Some("/App.app/Contents/Resources".to_string()),
        Some("/App.app/Contents/MacOS/shell".to_string()),
        Some("/work".to_string()),
    );
    assert_eq!(
        c,
        vec![
            "/src/desktop-ui/src-tauri/../../target/debug/goxlr-daemon",
            "/src/desktop-ui/src-tauri/../../target/release/goxlr-daemon",
            "/src/desktop-ui/src-tauri/../../dist/MacXLR.app/Contents/MacOS/goxlr-daemon",
            "/src/desktop-ui/src-tauri/../src-tauri/binaries/goxlr-daemon-aarch64-apple-darwin",
            "/App.app/Contents/Resources/goxlr-daemon",
            "/App.app/Contents/Resources/bin/goxlr-daemon",
            "/App.app/Contents/Resources/goxlr-daemon-aarch64-apple-darwin",
            "/App.app/Contents/MacOS/goxlr-daemon",
            "/App.app/Contents/MacOS/goxlr-daemon-aarch64-apple-darwin",
            "/App.app/Contents/MacOS/../Resources/goxlr-daemon",
            "/App.app/Contents/MacOS/../Resources/goxlr-daemon-aarch64-apple-darwin",
            "/work/../target/debug/goxlr-daemon",
            "/work/../target/release/goxlr-daemon",
            "/work/../dist/MacXLR.app/Contents/MacOS/goxlr-daemon",
        ]
    );
    let only_sources = daemon_candidates("/m", "x86_64", None, Some("/".to_string()), None);
    assert_eq!(only_sources.len(), 4);
}

#[test]
fn launch_when_daemon_already_answers() {
    let (p, a) = launch_step(LaunchPhase::Start, LaunchEvent::Begin);
    assert_eq!(a, LaunchAction::ProbeUi);
    let (p, a) = launch_step(p, LaunchEvent::UiProbed { ready: true });
    assert_eq!((p, a), (LaunchPhase::Finished, LaunchAction::SucceedAlreadyRunning));
    assert_eq!(launch_step(p, LaunchEvent::Begin), (LaunchPhase::Finished, LaunchAction::Ignore));
}

#[test]
fn launch_spawns_and_waits() {
    let mut phase = LaunchPhase::Start;
    let events = [
        LaunchEvent::Begin,
        LaunchEvent::UiProbed { ready: false },
        LaunchEvent::ChildChecked { running: false },
        LaunchEvent::Located { found: true },
        LaunchEvent::Spawned { started: true },
        LaunchEvent::UiWaited { ready: true },
    ];
    let mut actions = Vec::new();
    for e in events {
        let (p, a) = launch_step(phase, e);
        phase = p;
        actions.push(a);
    }
    assert_eq!(
        actions,
        vec![
            LaunchAction::ProbeUi,
            LaunchAction::ReapAndCheckChild,
            LaunchAction::LocateBinary,
            LaunchAction::SpawnDaemon,
            LaunchAction::WaitForUi,
            LaunchAction::SucceedStarted,
        ]
    );
    assert_eq!(phase, LaunchPhase::Finished);
}

#[test]
fn launch_failures() {
    assert_eq!(
        launch_step(LaunchPhase::CheckingChild, LaunchEvent::ChildChecked { running: true }),
        (LaunchPhase::Waiting, LaunchAction::WaitForUi)
    );
    assert_eq!(
        launch_step(LaunchPhase::Locating, LaunchEvent::Located { found: false }),
        (LaunchPhase::Finished, LaunchAction::Fail(LaunchFailure::LocateFailed))
    );
    assert_eq!(
        launch_step(LaunchPhase::Spawning, LaunchEvent::Spawned { started: false }),
        (LaunchPhase::Finished, LaunchAction::Fail(LaunchFailure::SpawnFailed))
    );
    assert_eq!(
        launch_step(LaunchPhase::Waiting, LaunchEvent::UiWaited { ready: false }),
        (LaunchPhase::Finished, LaunchAction::Fail(LaunchFailure::TimedOut))
    );
    assert_eq!(
        launch_step(LaunchPhase::Waiting, LaunchEvent::Begin),
        (LaunchPhase::Waiting, LaunchAction::Ignore)
    );
    assert_eq!(failure_message(LaunchFailure::LocateFailed, "not found"), "Unable to locate goxlr-daemon: not found");
    assert_eq!(failure_message(LaunchFailure::SpawnFailed, "denied"), "Unable to start goxlr-daemon: denied");
    assert_eq!(
        failure_message(LaunchFailure::TimedOut, "ignored"),
        "Timed out waiting for the daemon HTTP interface at http://localhost:14564/"
    );
}

#[test]
fn first_existing_candidate_is_chosen() {
    let c: Vec<String> = vec!["/a".to_string(), "/b".to_string(), "/c".to_string()];
    assert_eq!(choose_daemon_binary(&c, &vec![false, true, true]), Ok("/b".to_string()));
    assert_eq!(
        choose_daemon_binary(&c, &vec![false, false]),
        Err("searched common development and packaged app locations".to_string())
    );
    assert!(choose_daemon_binary(&vec![], &vec![]).is_err());
}

#[test]
fn daemon_runs_beside_its_binary() {
    assert_eq!(daemon_working_dir("/App/Contents/MacOS/goxlr-daemon"), Some("/App/Contents/MacOS".to_string()));
    assert_eq!(daemon_working_dir("/"), None);
}

#[test]
fn finished_start_up_is_answered() {
    let ok = finish_launch(LaunchAction::SucceedAlreadyRunning, false, "", "/tmp/l".to_string()).unwrap();
    assert_eq!(ok.last_error, None);
    let status = ok.reply.unwrap();
    assert!(status.ready && !status.spawned);
    assert_eq!(status.last_error, None);
    assert_eq!(status.startup_log, "/tmp/l/startup.log");
    let started = finish_launch(LaunchAction::SucceedStarted, false, "", "/tmp/l".to_string()).unwrap();
    assert!(started.reply.unwrap().spawned);
    let failed = finish_launch(LaunchAction::Fail(LaunchFailure::SpawnFailed), false, "denied", "/tmp/l".to_string()).unwrap();
    assert_eq!(failed.reply.err(), Some("Unable to start goxlr-daemon: denied".to_string()));
    assert_eq!(failed.last_error, Some("Unable to start goxlr-daemon: denied".to_string()));
    assert!(finish_launch(LaunchAction::WaitForUi, true, "", "/tmp/l".to_string()).is_none());
}
