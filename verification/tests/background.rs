use writer_workspace::bootstrap::{
    Bootstrap, BootstrapAction, BootstrapEvent, BootstrapPhase, DIRECTORY_CHANGED_EVENT,
    INDEX_COMPLETE_EVENT,
};
use writer_workspace::error::AppError;
use writer_workspace::paths::{ComponentKind, PathComponent, WorkspacePath};
use writer_workspace::restore::{
    build_restore_bundle, finished, gather_restore_reads, RestoreReads, TaskOutcome,
};
use writer_workspace::session::{SerializedLocation, SessionData, SessionTab};
use writer_workspace::window::{Window, WorkspaceIndex};
use writer_workspace::workspace::WorkspaceInfo;

fn folder(name: &str) -> WorkspacePath {
    WorkspacePath {
        text: format!("/{}", name),
        components: vec![
            PathComponent {
                kind: ComponentKind::RootDir,
                encoded: Vec::new(),
                text: "/".to_string(),
            },
            PathComponent {
                kind: ComponentKind::Normal,
                encoded: name.as_bytes().to_vec(),
                text: name.to_string(),
            },
        ],
    }
}

type TestWindow = Window<&'static str, &'static str, &'static str, u8, u8, u8>;

fn window_at(name: &str) -> (TestWindow, Bootstrap) {
    let mut window = TestWindow::default();
    let (epoch, _) = window.open(folder(name), "first rules", 1);
    (window, Bootstrap::new(folder(name), epoch))
}

fn walked(cancelled: bool, files: &[&'static str]) -> TestEvent {
    BootstrapEvent::TreeWalked {
        cancelled,
        index: WorkspaceIndex {
            files: files.to_vec(),
            dirs_with_markdown: 4,
        },
    }
}

type TestEvent = BootstrapEvent<&'static str, &'static str, &'static str, u8>;

fn info() -> WorkspaceInfo {
    WorkspaceInfo {
        root: "/w".to_string(),
        name: "w".to_string(),
        file_count: 0,
        epoch: 1,
    }
}

fn session_with(path: &str) -> SessionData {
    let mut payload = serde_json::Map::new();
    payload.insert("path".to_string(), serde_json::Value::String(path.to_string()));
    SessionData {
        tabs: vec![SessionTab {
            location: SerializedLocation {
                kind: "file".to_string(),
                payload,
            },
            back: Vec::new(),
            forward: Vec::new(),
        }],
        active_index: Some(0),
    }
}

fn reads(session: Option<SessionData>) -> RestoreReads<u8> {
    gather_restore_reads(
        info(),
        TaskOutcome::Done(vec![1, 2]),
        TaskOutcome::Done(vec!["/w".to_string()]),
        TaskOutcome::Done(session),
    )
    .unwrap()
}

#[test]
fn undisturbed_bootstrap_indexes_the_workspace() {
    let (mut window, mut work) = window_at("w");
    window.recent_files = Some(8);

    let (action, _) = work.step(&mut window, BootstrapEvent::Begin);
    assert!(matches!(action, BootstrapAction::StartWatcher));
    let (action, dropped) = work.step(&mut window, BootstrapEvent::WatcherStarted("watcher"));
    assert!(matches!(action, BootstrapAction::LoadIgnore));
    assert_eq!(dropped.watcher, None);
    assert_eq!(window.watcher, Some("watcher"));
    let (action, dropped) = work.step(&mut window, BootstrapEvent::IgnoreLoaded("rules"));
    match action {
        BootstrapAction::AnnounceChange(event) => {
            assert_eq!(event.path, "/w");
            assert_eq!(event.kind, "modified");
            let workspace = event.workspace.unwrap();
            assert_eq!(workspace.root, "/w");
            assert_eq!(workspace.epoch, 1);
        }
        _ => panic!("the ignore rules belong to the shown workspace"),
    }
    assert_eq!(dropped.ignore, Some("first rules"));
    assert_eq!(window.ignore, Some("rules"));
    assert!(!window.state.index_ready);
    let (action, dropped) = work.step(&mut window, walked(false, &["a.md", "b.md"]));
    match action {
        BootstrapAction::AnnounceIndex(event) => {
            assert_eq!(event.file_count, 2);
            assert_eq!(event.workspace.root, "/w");
            assert_eq!(event.workspace.epoch, 1);
        }
        _ => panic!("the index belongs to the shown workspace"),
    }
    assert_eq!(dropped.recent_files, Some(8));
    assert!(dropped.index.is_none());
    let index = window.index.unwrap();
    assert_eq!(index.files, ["a.md", "b.md"]);
    assert_eq!(index.dirs_with_markdown, 4);
    assert_eq!(window.recent_files, None);
    assert!(window.state.index_ready);
    assert_eq!(window.state.file_index_revision, 1);
    assert_eq!(work.phase, BootstrapPhase::Ended);
    assert_eq!(DIRECTORY_CHANGED_EVENT, "fs:directory-changed");
    assert_eq!(INDEX_COMPLETE_EVENT, "index:complete");
}

#[test]
fn failed_watchers_do_not_stop_the_bootstrap() {
    let (mut window, mut work) = window_at("w");
    work.step(&mut window, BootstrapEvent::Begin);
    let failure: TestEvent = BootstrapEvent::WatcherFailed("limit".to_string());
    match work.step(&mut window, failure).0 {
        BootstrapAction::ReportWatcherFailure(text) => {
            assert_eq!(text, "Failed to start file watcher: limit")
        }
        _ => panic!("the failure is reported"),
    }
    assert_eq!(window.watcher, None);
    let (action, _) = work.step(&mut window, BootstrapEvent::IgnoreLoaded("rules"));
    assert!(matches!(action, BootstrapAction::AnnounceChange(_)));
}

#[test]
fn stale_bootstraps_leave_no_trace() {
    let (mut window, mut at_index) = window_at("w");
    at_index.step(&mut window, BootstrapEvent::Begin);
    at_index.step(&mut window, BootstrapEvent::WatcherStarted("watcher"));
    at_index.step(&mut window, BootstrapEvent::IgnoreLoaded("rules"));
    let mut at_ignore = Bootstrap::new(folder("w"), 1);
    at_ignore.step(&mut window, BootstrapEvent::Begin);
    at_ignore.step(&mut window, BootstrapEvent::WatcherStarted("watcher"));
    let mut at_watcher = Bootstrap::new(folder("w"), 1);
    at_watcher.step(&mut window, BootstrapEvent::Begin);
    let mut fresh = Bootstrap::new(folder("w"), 1);

    window.open(folder("other"), "first rules", 2);
    window.open(folder("w"), "first rules", 3);

    let (action, _) = fresh.step(&mut window, BootstrapEvent::Begin);
    assert!(matches!(action, BootstrapAction::Stop));
    let (action, dropped) = at_watcher.step(&mut window, BootstrapEvent::WatcherStarted("late"));
    assert!(matches!(action, BootstrapAction::Stop));
    assert_eq!(dropped.watcher, Some("late"));
    let (action, dropped) = at_ignore.step(&mut window, BootstrapEvent::IgnoreLoaded("late"));
    assert!(matches!(action, BootstrapAction::Stop));
    assert_eq!(dropped.ignore, Some("late"));
    let (action, dropped) = at_index.step(&mut window, walked(false, &["a.md"]));
    assert!(matches!(action, BootstrapAction::Stop));
    assert_eq!(dropped.index.unwrap().files, ["a.md"]);

    assert_eq!(window.watcher, None);
    assert_eq!(window.ignore, Some("first rules"));
    assert!(window.index.is_none());
    assert!(!window.state.index_ready);
    assert_eq!(window.state.file_index_revision, 0);
}

#[test]
fn cancelled_walks_leave_no_trace() {
    let (mut window, mut work) = window_at("w");
    work.step(&mut window, BootstrapEvent::Begin);
    work.step(&mut window, BootstrapEvent::WatcherStarted("watcher"));
    work.step(&mut window, BootstrapEvent::IgnoreLoaded("rules"));
    let (action, dropped) = work.step(&mut window, walked(true, &["a.md"]));
    assert!(matches!(action, BootstrapAction::Stop));
    assert_eq!(dropped.index.unwrap().files, ["a.md"]);
    assert!(window.index.is_none());
    assert!(!window.state.index_ready);
}

#[test]
fn restored_workspaces_come_in_one_piece() {
    let gathered = reads(Some(session_with("/w/a.md")));
    assert_eq!(gathered.active_path, Some("/w/a.md".to_string()));
    let bundle = build_restore_bundle(gathered, TaskOutcome::Done(Some("# A"))).unwrap();
    assert_eq!(bundle.workspace.root, "/w");
    assert_eq!(bundle.entries, [1, 2]);
    assert_eq!(bundle.recent_workspaces, ["/w"]);
    assert_eq!(bundle.session.unwrap().active_index, Some(0));
    assert_eq!(bundle.active_file, Some("# A"));
    assert_eq!(bundle.open_file, None);

    let unread = build_restore_bundle(
        reads(Some(session_with("/w/a.md"))),
        TaskOutcome::Done(None::<u8>),
    );
    assert_eq!(unread.unwrap().active_file, None);

    let without = reads(None);
    assert_eq!(without.active_path, None);
    let bundle = build_restore_bundle(without, TaskOutcome::Done(Some(5))).unwrap();
    assert_eq!(bundle.active_file, None);
}

#[test]
fn lost_reads_are_reported_in_their_order() {
    let lost = gather_restore_reads::<u8>(
        info(),
        TaskOutcome::Lost("entries task".to_string()),
        TaskOutcome::Lost("recents task".to_string()),
        TaskOutcome::Failed(AppError::InvalidPath("session".to_string())),
    );
    match lost {
        Err(AppError::Io(text)) => assert_eq!(text, "entries task"),
        _ => panic!("the directory counts first"),
    }
    let lost = gather_restore_reads(
        info(),
        TaskOutcome::Done(vec![1]),
        TaskOutcome::Lost("recents task".to_string()),
        TaskOutcome::Failed(AppError::InvalidPath("session".to_string())),
    );
    match lost {
        Err(AppError::Io(text)) => assert_eq!(text, "recents task"),
        _ => panic!("the recent workspaces count next"),
    }
    let lost = gather_restore_reads(
        info(),
        TaskOutcome::Done(vec![1]),
        TaskOutcome::Done(Vec::new()),
        TaskOutcome::Failed(AppError::InvalidPath("session".to_string())),
    );
    assert!(matches!(lost, Err(AppError::InvalidPath(_))));

    let lost = build_restore_bundle::<u8, u8>(
        reads(Some(session_with("/w/a.md"))),
        TaskOutcome::Lost("file task".to_string()),
    );
    match lost {
        Err(AppError::Io(text)) => assert_eq!(text, "file task"),
        _ => panic!("the file was lost"),
    }
    assert!(matches!(finished(TaskOutcome::Done(9)), Ok(9)));
}
