//! How the desktop shell brings up the daemon and reports on it.
//!
//! The shell probes the daemon's web interface, starts the daemon binary when
//! nothing answers, and waits for the interface to come up. The decisions of
//! that sequence are a state machine here; the caller probes, spawns and
//! waits, and feeds back what happened.

use vstd::prelude::*;
use crate::paths::{join, option_view, parent, path_join, path_parent};
use crate::patterns::string_views;

verus! {

/// The port of the daemon's web interface.
pub const UI_PORT: u16 = 14564;

/// How long the shell waits for the web interface, in milliseconds.
pub const READY_TIMEOUT_MS: u64 = 30000;

/// How long the shell sleeps between two probes, in milliseconds.
pub const POLL_INTERVAL_MS: u64 = 250;

pub open spec fn spec_ui_url() -> Seq<char> {
    "http://localhost:14564/"@
}

/// The address of the daemon's web interface.
pub fn default_ui_url() -> (url: String)
    ensures
        url@ == spec_ui_url(),
{
    String::from_str("http://localhost:14564/")
}

/// Whether the shell still waits for the web interface after `elapsed_ms`.
pub fn ui_wait_continues(elapsed_ms: u64) -> (r: bool)
    ensures
        r == (elapsed_ms < READY_TIMEOUT_MS),
{
    elapsed_ms < READY_TIMEOUT_MS
}

/// The directory of the shell's logs, inside the temporary directory.
pub fn startup_log_dir(temp_dir: &str) -> (dir: String)
    ensures
        dir@ == path_join(temp_dir@, "macxlr-desktop"@),
{
    join(temp_dir, "macxlr-desktop")
}

/// The shell's own log file.
pub fn startup_log_path(log_dir: &str) -> (p: String)
    ensures
        p@ == path_join(log_dir@, "startup.log"@),
{
    join(log_dir, "startup.log")
}

/// The file that receives the daemon's standard output.
pub fn daemon_stdout_log_path(log_dir: &str) -> (p: String)
    ensures
        p@ == path_join(log_dir@, "goxlr-daemon.stdout.log"@),
{
    join(log_dir, "goxlr-daemon.stdout.log")
}

/// The file that receives the daemon's standard error.
pub fn daemon_stderr_log_path(log_dir: &str) -> (p: String)
    ensures
        p@ == path_join(log_dir@, "goxlr-daemon.stderr.log"@),
{
    join(log_dir, "goxlr-daemon.stderr.log")
}

pub open spec fn spec_daemon_arguments() -> Seq<Seq<char>> {
    seq!["--disable-tray"@, "true"@, "--log-level"@, "info"@]
}

fn push_text(v: &mut Vec<String>, s: String)
    ensures
        string_views(final(v)@) == string_views(old(v)@).push(s@),
{
    v.push(s);
    assert(string_views(v@) =~= string_views(old(v)@).push(s@));
}

/// The arguments the daemon is started with: no tray icon, logging at info level.
pub fn daemon_arguments() -> (args: Vec<String>)
    ensures
        string_views(args@) == spec_daemon_arguments(),
{
    let mut v: Vec<String> = Vec::new();
    push_text(&mut v, String::from_str("--disable-tray"));
    push_text(&mut v, String::from_str("true"));
    push_text(&mut v, String::from_str("--log-level"));
    push_text(&mut v, String::from_str("info"));
    assert(string_views(v@) =~= spec_daemon_arguments());
    v
}

/// The name of the daemon binary bundled for an architecture.
pub open spec fn spec_sidecar_name(arch: Seq<char>) -> Seq<char> {
    "goxlr-daemon-"@ + arch + "-apple-darwin"@
}

/// The places the daemon binary is looked for, in order: beside the shell's
/// sources, in the bundle's resources, beside the running executable, and
/// beside the working directory.
pub open spec fn spec_daemon_candidates(
    manifest_dir: Seq<char>,
    arch: Seq<char>,
    resource_dir: Option<Seq<char>>,
    current_exe: Option<Seq<char>>,
    current_dir: Option<Seq<char>>,
) -> Seq<Seq<char>> {
    let sidecar = spec_sidecar_name(arch);
    let from_sources = seq![
        path_join(manifest_dir, "../../target/debug/goxlr-daemon"@),
        path_join(manifest_dir, "../../target/release/goxlr-daemon"@),
        path_join(manifest_dir, "../../dist/MacXLR.app/Contents/MacOS/goxlr-daemon"@),
        path_join(manifest_dir, "../src-tauri/binaries/"@ + sidecar),
    ];
    let from_resources = match resource_dir {
        Some(r) => seq![
            path_join(r, "goxlr-daemon"@),
            path_join(r, "bin/goxlr-daemon"@),
            path_join(r, sidecar),
        ],
        None => Seq::empty(),
    };
    let from_exe = match current_exe {
        Some(e) => match path_parent(e) {
            Some(p) => seq![
                path_join(p, "goxlr-daemon"@),
                path_join(p, sidecar),
                path_join(p, "../Resources/goxlr-daemon"@),
                path_join(p, "../Resources/"@ + sidecar),
            ],
            None => Seq::empty(),
        },
        None => Seq::empty(),
    };
    let from_cwd = match current_dir {
        Some(c) => seq![
            path_join(c, "../target/debug/goxlr-daemon"@),
            path_join(c, "../target/release/goxlr-daemon"@),
            path_join(c, "../dist/MacXLR.app/Contents/MacOS/goxlr-daemon"@),
        ],
        None => Seq::empty(),
    };
    from_sources + from_resources + from_exe + from_cwd
}

/// Lists the places the daemon binary is looked for; the caller takes the
/// first that exists.
pub fn daemon_candidates(
    manifest_dir: &str,
    arch: &str,
    resource_dir: Option<String>,
    current_exe: Option<String>,
    current_dir: Option<String>,
) -> (r: Vec<String>)
    ensures
        string_views(r@) == spec_daemon_candidates(
            manifest_dir@,
            arch@,
            option_view(resource_dir),
            option_view(current_exe),
            option_view(current_dir),
        ),
{
    let sidecar = String::from_str("goxlr-daemon-").concat(arch).concat("-apple-darwin");
    let ghost side = spec_sidecar_name(arch@);
    assert(sidecar@ == side);
    let mut v: Vec<String> = Vec::new();
    push_text(&mut v, join(manifest_dir, "../../target/debug/goxlr-daemon"));
    push_text(&mut v, join(manifest_dir, "../../target/release/goxlr-daemon"));
    push_text(&mut v, join(manifest_dir, "../../dist/MacXLR.app/Contents/MacOS/goxlr-daemon"));
    let binaries = String::from_str("../src-tauri/binaries/").concat(sidecar.as_str());
    push_text(&mut v, join(manifest_dir, binaries.as_str()));
    let ghost sources = string_views(v@);
    match &resource_dir {
        Some(r) => {
            push_text(&mut v, join(r.as_str(), "goxlr-daemon"));
            push_text(&mut v, join(r.as_str(), "bin/goxlr-daemon"));
            push_text(&mut v, join(r.as_str(), sidecar.as_str()));
        },
        None => {},
    }
    let ghost resources = string_views(v@);
    match &current_exe {
        Some(e) => match parent(e.as_str()) {
            Some(p) => {
                push_text(&mut v, join(p.as_str(), "goxlr-daemon"));
                push_text(&mut v, join(p.as_str(), sidecar.as_str()));
                push_text(&mut v, join(p.as_str(), "../Resources/goxlr-daemon"));
                let bundled = String::from_str("../Resources/").concat(sidecar.as_str());
                push_text(&mut v, join(p.as_str(), bundled.as_str()));
            },
            None => {},
        },
        None => {},
    }
    let ghost exes = string_views(v@);
    match &current_dir {
        Some(c) => {
            push_text(&mut v, join(c.as_str(), "../target/debug/goxlr-daemon"));
            push_text(&mut v, join(c.as_str(), "../target/release/goxlr-daemon"));
            push_text(&mut v, join(c.as_str(), "../dist/MacXLR.app/Contents/MacOS/goxlr-daemon"));
        },
        None => {},
    }
    assert(string_views(v@) =~= spec_daemon_candidates(
        manifest_dir@,
        arch@,
        option_view(resource_dir),
        option_view(current_exe),
        option_view(current_dir),
    ));
    v
}

pub open spec fn spec_locate_failure() -> Seq<char> {
    "searched common development and packaged app locations"@
}

/// Picks the daemon binary: the first candidate that exists, where
/// `exists[i]` is the caller's reading for `candidates[i]` (a missing reading
/// counts as absent). Without one, the reason the search failed.
pub fn choose_daemon_binary(candidates: &Vec<String>, exists: &Vec<bool>) -> (r: Result<
    String,
    String,
>)
    ensures
        match r {
            Ok(path) => exists|i: int|
                0 <= i < candidates@.len() && i < exists@.len() && exists@[i] && path@
                    == candidates@[i]@ && forall|j: int|
                    0 <= j < i && j < exists@.len() ==> !#[trigger] exists@[j],
            Err(reason) => reason@ == spec_locate_failure() && forall|j: int|
                0 <= j < candidates@.len() && j < exists@.len() ==> !#[trigger] exists@[j],
        },
{
    let mut i: usize = 0;
    while i < candidates.len()
        invariant
            0 <= i <= candidates@.len(),
            forall|j: int| 0 <= j < i && j < exists@.len() ==> !#[trigger] exists@[j],
        decreases candidates@.len() - i,
    {
        if i < exists.len() && exists[i] {
            return Ok(candidates[i].clone());
        }
        i = i + 1;
    }
    Err(String::from_str("searched common development and packaged app locations"))
}

/// The directory the daemon is started in: the one that holds its binary.
pub fn daemon_working_dir(binary: &str) -> (dir: Option<String>)
    ensures
        option_view(dir) == path_parent(binary@),
{
    parent(binary)
}

/// What the shell reports about the daemon.
pub struct DaemonStatus {
    pub ready: bool,
    pub spawned: bool,
    pub url: String,
    pub last_error: Option<String>,
    pub log_dir: String,
    pub startup_log: String,
    pub daemon_stdout_log: String,
    pub daemon_stderr_log: String,
}

impl DaemonStatus {
    /// The report for the given readiness, process state and last error, with
    /// the log files that live in `log_dir`.
    pub fn new(ready: bool, spawned: bool, last_error: Option<String>, log_dir: String) -> (s:
        DaemonStatus)
        ensures
            s.ready == ready,
            s.spawned == spawned,
            s.url@ == spec_ui_url(),
            option_view(s.last_error) == option_view(last_error),
            s.log_dir@ == log_dir@,
            s.startup_log@ == path_join(log_dir@, "startup.log"@),
            s.daemon_stdout_log@ == path_join(log_dir@, "goxlr-daemon.stdout.log"@),
            s.daemon_stderr_log@ == path_join(log_dir@, "goxlr-daemon.stderr.log"@),
    {
        let startup_log = startup_log_path(log_dir.as_str());
        let daemon_stdout_log = daemon_stdout_log_path(log_dir.as_str());
        let daemon_stderr_log = daemon_stderr_log_path(log_dir.as_str());
        DaemonStatus {
            ready,
            spawned,
            url: default_ui_url(),
            last_error,
            log_dir,
            startup_log,
            daemon_stdout_log,
            daemon_stderr_log,
        }
    }
}

/// Where the start-up sequence stands.
#[derive(Clone, Copy, Debug, PartialEq, Eq, Structural)]
pub enum LaunchPhase {
    Start,
    ProbingUi,
    CheckingChild,
    Locating,
    Spawning,
    Waiting,
    Finished,
}

/// What the caller saw when it carried out the last action.
#[derive(Clone, Copy, Debug, PartialEq, Eq, Structural)]
pub enum LaunchEvent {
    /// The sequence begins.
    Begin,
    /// The web interface answered (`ready`) or not.
    UiProbed { ready: bool },
    /// After reaping a dead child, whether a daemon child still runs.
    ChildChecked { running: bool },
    /// Whether a daemon binary was found.
    Located { found: bool },
    /// Whether the daemon process started.
    Spawned { started: bool },
    /// Whether the web interface came up before the timeout.
    UiWaited { ready: bool },
}

/// Why the start-up failed.
#[derive(Clone, Copy, Debug, PartialEq, Eq, Structural)]
pub enum LaunchFailure {
    LocateFailed,
    SpawnFailed,
    TimedOut,
}

/// What the caller does next.
#[derive(Clone, Copy, Debug, PartialEq, Eq, Structural)]
pub enum LaunchAction {
    /// Probe the web interface.
    ProbeUi,
    /// Reap a daemon child that has exited and report whether one still runs.
    ReapAndCheckChild,
    /// Look for the daemon binary.
    LocateBinary,
    /// Start the binary that was found, and keep its child.
    SpawnDaemon,
    /// Wait for the web interface to come up.
    WaitForUi,
    /// The daemon already answered: clear the last error and report ready,
    /// with whether the shell's own child runs.
    SucceedAlreadyRunning,
    /// The daemon came up: clear the last error and report ready and spawned.
    SucceedStarted,
    /// Record the failure's message as the last error and report it.
    Fail(LaunchFailure),
    /// The event does not belong to this phase: nothing to do.
    Ignore,
}

/// One step of the start-up sequence.
pub open spec fn spec_launch_step(phase: LaunchPhase, event: LaunchEvent) -> (LaunchPhase, LaunchAction) {
    match (phase, event) {
        (LaunchPhase::Start, LaunchEvent::Begin) => (LaunchPhase::ProbingUi, LaunchAction::ProbeUi),
        (LaunchPhase::ProbingUi, LaunchEvent::UiProbed { ready }) => if ready {
            (LaunchPhase::Finished, LaunchAction::SucceedAlreadyRunning)
        } else {
            (LaunchPhase::CheckingChild, LaunchAction::ReapAndCheckChild)
        },
        (LaunchPhase::CheckingChild, LaunchEvent::ChildChecked { running }) => if running {
            (LaunchPhase::Waiting, LaunchAction::WaitForUi)
        } else {
            (LaunchPhase::Locating, LaunchAction::LocateBinary)
        },
        (LaunchPhase::Locating, LaunchEvent::Located { found }) => if found {
            (LaunchPhase::Spawning, LaunchAction::SpawnDaemon)
        } else {
            (LaunchPhase::Finished, LaunchAction::Fail(LaunchFailure::LocateFailed))
        },
        (LaunchPhase::Spawning, LaunchEvent::Spawned { started }) => if started {
            (LaunchPhase::Waiting, LaunchAction::WaitForUi)
        } else {
            (LaunchPhase::Finished, LaunchAction::Fail(LaunchFailure::SpawnFailed))
        },
        (LaunchPhase::Waiting, LaunchEvent::UiWaited { ready }) => if ready {
            (LaunchPhase::Finished, LaunchAction::SucceedStarted)
        } else {
            (LaunchPhase::Finished, LaunchAction::Fail(LaunchFailure::TimedOut))
        },
        _ => (phase, LaunchAction::Ignore),
    }
}

/// Takes one step of the start-up sequence.
pub fn launch_step(phase: LaunchPhase, event: LaunchEvent) -> (r: (LaunchPhase, LaunchAction))
    ensures
        r == spec_launch_step(phase, event),
{
    match (phase, event) {
        (LaunchPhase::Start, LaunchEvent::Begin) => (LaunchPhase::ProbingUi, LaunchAction::ProbeUi),
        (LaunchPhase::ProbingUi, LaunchEvent::UiProbed { ready }) => if ready {
            (LaunchPhase::Finished, LaunchAction::SucceedAlreadyRunning)
        } else {
            (LaunchPhase::CheckingChild, LaunchAction::ReapAndCheckChild)
        },
        (LaunchPhase::CheckingChild, LaunchEvent::ChildChecked { running }) => if running {
            (LaunchPhase::Waiting, LaunchAction::WaitForUi)
        } else {
            (LaunchPhase::Locating, LaunchAction::LocateBinary)
        },
        (LaunchPhase::Locating, LaunchEvent::Located { found }) => if found {
            (LaunchPhase::Spawning, LaunchAction::SpawnDaemon)
        } else {
            (LaunchPhase::Finished, LaunchAction::Fail(LaunchFailure::LocateFailed))
        },
        (LaunchPhase::Spawning, LaunchEvent::Spawned { started }) => if started {
            (LaunchPhase::Waiting, LaunchAction::WaitForUi)
        } else {
            (LaunchPhase::Finished, LaunchAction::Fail(LaunchFailure::SpawnFailed))
        },
        (LaunchPhase::Waiting, LaunchEvent::UiWaited { ready }) => if ready {
            (LaunchPhase::Finished, LaunchAction::SucceedStarted)
        } else {
            (LaunchPhase::Finished, LaunchAction::Fail(LaunchFailure::TimedOut))
        },
        _ => (phase, LaunchAction::Ignore),
    }
}

/// How a finished start-up is answered: the reply to the caller and the new
/// value of the stored last error.
pub struct LaunchOutcome {
    pub reply: Result<DaemonStatus, String>,
    pub last_error: Option<String>,
}

/// The status reports the daemon ready with no error, with the given process
/// state and the log files of `log_dir`.
pub open spec fn reports_status(s: DaemonStatus, spawned: bool, log_dir: Seq<char>) -> bool {
    &&& s.ready
    &&& s.spawned == spawned
    &&& s.last_error is None
    &&& s.url@ == spec_ui_url()
    &&& s.log_dir@ == log_dir
    &&& s.startup_log@ == path_join(log_dir, "startup.log"@)
    &&& s.daemon_stdout_log@ == path_join(log_dir, "goxlr-daemon.stdout.log"@)
    &&& s.daemon_stderr_log@ == path_join(log_dir, "goxlr-daemon.stderr.log"@)
}

/// A successful start-up: the reply is the ready status and the last error is cleared.
pub open spec fn reports_ready(o: LaunchOutcome, spawned: bool, log_dir: Seq<char>) -> bool {
    &&& o.last_error is None
    &&& o.reply is Ok
    &&& reports_status(o.reply->Ok_0, spawned, log_dir)
}

/// A failed start-up: the reply is the message, and the last error stores it.
pub open spec fn reports_failure(o: LaunchOutcome, message: Seq<char>) -> bool {
    &&& o.reply is Err
    &&& o.reply->Err_0@ == message
    &&& o.last_error is Some
    &&& o.last_error->0@ == message
}

/// Answers a start-up that ended with `action`: success reports the daemon
/// ready (spawned when it started it, else `child_running`, the caller's
/// reading of its own child) and clears the last error; failure replies with
/// the failure's message and stores it as the last error. An action that does
/// not end the start-up gives `None`. `detail` is the underlying error's text
/// and `log_dir` the directory of the logs.
pub fn finish_launch(action: LaunchAction, child_running: bool, detail: &str, log_dir: String) -> (r:
    Option<LaunchOutcome>)
    ensures
        match action {
            LaunchAction::SucceedAlreadyRunning => r is Some && reports_ready(
                r->0,
                child_running,
                log_dir@,
            ),
            LaunchAction::SucceedStarted => r is Some && reports_ready(r->0, true, log_dir@),
            LaunchAction::Fail(failure) => r is Some && reports_failure(
                r->0,
                spec_failure_message(failure, detail@),
            ),
            _ => r is None,
        },
{
    match action {
        LaunchAction::SucceedAlreadyRunning => Some(
            LaunchOutcome {
                reply: Ok(DaemonStatus::new(true, child_running, None, log_dir)),
                last_error: None,
            },
        ),
        LaunchAction::SucceedStarted => Some(
            LaunchOutcome { reply: Ok(DaemonStatus::new(true, true, None, log_dir)), last_error: None },
        ),
        LaunchAction::Fail(failure) => {
            let message = failure_message(failure, detail);
            let stored = message.clone();
            Some(LaunchOutcome { reply: Err(message), last_error: Some(stored) })
        },
        _ => None,
    }
}

pub open spec fn spec_failure_message(failure: LaunchFailure, detail: Seq<char>) -> Seq<char> {
    match failure {
        LaunchFailure::LocateFailed => "Unable to locate goxlr-daemon: "@ + detail,
        LaunchFailure::SpawnFailed => "Unable to start goxlr-daemon: "@ + detail,
        LaunchFailure::TimedOut =>
            "Timed out waiting for the daemon HTTP interface at http://localhost:14564/"@,
    }
}

/// The message recorded and reported for a failure; `detail` is the
/// underlying error's text (unused for a timeout).
pub fn failure_message(failure: LaunchFailure, detail: &str) -> (m: String)
    ensures
        m@ == spec_failure_message(failure, detail@),
{
    match failure {
        LaunchFailure::LocateFailed => String::from_str("Unable to locate goxlr-daemon: ").concat(
            detail,
        ),
        LaunchFailure::SpawnFailed => String::from_str("Unable to start goxlr-daemon: ").concat(
            detail,
        ),
        LaunchFailure::TimedOut => String::from_str(
            "Timed out waiting for the daemon HTTP interface at http://localhost:14564/",
        ),
    }
}

} // verus!
