use std::path::{Component, Path, PathBuf};
use std::sync::RwLock;

use tempfile::{Builder, TempDir};

use writer_workspace::boundary::{
    canonicalize_workspace_root, open_workspace_in_file_manager_for_snapshot,
    open_workspace_in_new_window, validate_terminal_launch_boundary,
    validate_terminal_launch_snapshot, validate_terminal_target, validate_workspace_launch_root,
    with_terminal_launch_snapshot,
};
use writer_workspace::error::AppError;
use writer_workspace::paths::{ComponentKind, PathComponent, PathProbe, WorkspacePath};
use writer_workspace::recents::add_recent_workspace;
use writer_workspace::restore::root_to_read;
use writer_workspace::state::{epoch_is_current, WorkspaceState};
use writer_workspace::window::{close_workspace, WalkFlag, Window, WorkspaceIndex};
use writer_workspace::workspace::{
    accept_file_watcher, prepare_workspace_state, watch_standalone_file,
};

fn path_of(path: &Path) -> WorkspacePath {
    let mut components = Vec::new();
    for component in path.components() {
        let bytes = component.as_os_str().as_encoded_bytes().to_vec();
        let (kind, encoded) = match component {
            Component::Prefix(_) => (ComponentKind::Prefix, bytes),
            Component::RootDir => (ComponentKind::RootDir, Vec::new()),
            Component::CurDir => (ComponentKind::CurDir, Vec::new()),
            Component::ParentDir => (ComponentKind::ParentDir, Vec::new()),
            Component::Normal(_) => (ComponentKind::Normal, bytes),
        };
        components.push(PathComponent {
            kind,
            encoded,
            text: component.as_os_str().to_string_lossy().into_owned(),
        });
    }
    WorkspacePath {
        text: path.to_string_lossy().into_owned(),
        components,
    }
}

fn probe(path: &Path) -> PathProbe {
    PathProbe {
        exists: path.exists(),
        is_dir: path.is_dir(),
        is_file: path.is_file(),
        canonical: match path.canonicalize() {
            Ok(canonical) => Ok(path_of(&canonical)),
            Err(error) => Err(error.to_string()),
        },
    }
}

fn directory_at(canonical: &str) -> PathProbe {
    PathProbe {
        exists: true,
        is_dir: true,
        is_file: false,
        canonical: Ok(path_of(Path::new(canonical))),
    }
}

fn target_of(root: &Path, requested: Option<&Path>) -> Result<WorkspacePath, AppError> {
    let requested_path = requested.map(path_of);
    validate_terminal_target(
        &path_of(root),
        requested_path.as_ref(),
        &probe(root),
        &probe(requested.unwrap_or(root)),
    )
}

fn named_dir(parent: &Path, name: &str) -> TempDir {
    Builder::new().prefix(name).rand_bytes(0).tempdir_in(parent).unwrap()
}

#[test]
fn canonicalize_rejects_missing_path() {
    let path = "/this/path/does/not/exist/ever";
    let err = canonicalize_workspace_root(path, &probe(Path::new(path))).unwrap_err();
    assert!(matches!(err, AppError::NotFound(_)));
    assert_eq!(err.message(), path);
}

#[test]
fn canonicalize_rejects_non_directory() {
    let dir = TempDir::new().unwrap();
    let file = Builder::new()
        .prefix("a-file.md")
        .rand_bytes(0)
        .tempfile_in(dir.path())
        .unwrap();
    let err = canonicalize_workspace_root(file.path().to_str().unwrap(), &probe(file.path()))
        .unwrap_err();
    assert!(matches!(err, AppError::NotFound(_)));
}

#[test]
fn canonicalize_round_trips_existing_directory() {
    let dir = TempDir::new().unwrap();
    let raw = dir.path().to_string_lossy().to_string();
    let canonical = canonicalize_workspace_root(&raw, &probe(dir.path())).unwrap();
    assert!(PathBuf::from(&canonical.text).is_absolute());
    assert_eq!(canonical, path_of(&Path::new(&raw).canonicalize().unwrap()));
}

#[test]
fn canonicalize_resolves_var_alias_on_macos() {
    let raw = "/private/var/folders/ab/workspace";
    let aliased = "/var/folders/ab/workspace";
    let canonical = canonicalize_workspace_root(aliased, &directory_at(raw)).unwrap();
    assert_eq!(canonical.text, raw);
}

#[test]
fn canonicalize_reports_what_stood_in_the_way() {
    let unreadable = PathProbe {
        exists: true,
        is_dir: true,
        is_file: false,
        canonical: Err("permission denied".to_string()),
    };
    match canonicalize_workspace_root("/w", &unreadable) {
        Err(AppError::Io(text)) => assert_eq!(text, "permission denied"),
        _ => panic!("the path has no canonical form"),
    }
}

#[test]
fn launch_root_validation_rejects_files_and_missing_paths() {
    let dir = TempDir::new().unwrap();
    let file = Builder::new()
        .prefix("note.md")
        .rand_bytes(0)
        .tempfile_in(dir.path())
        .unwrap();

    assert!(matches!(
        validate_workspace_launch_root(&path_of(file.path()), &probe(file.path())).unwrap_err(),
        AppError::NotFound(_)
    ));
    let missing = dir.path().join("missing");
    assert!(matches!(
        validate_workspace_launch_root(&path_of(&missing), &probe(&missing)).unwrap_err(),
        AppError::NotFound(_)
    ));
}

#[test]
fn terminal_target_validation_accepts_root_and_nested_directories() {
    let workspace = TempDir::new().unwrap();
    let drafts = named_dir(workspace.path(), "drafts");
    let nested = named_dir(drafts.path(), "chapter one");
    let root = workspace.path().canonicalize().unwrap();

    assert_eq!(target_of(&root, None).unwrap(), path_of(&root));
    assert_eq!(
        target_of(&root, Some(nested.path())).unwrap(),
        path_of(&nested.path().canonicalize().unwrap())
    );
}

#[test]
fn terminal_target_validation_rejects_files_missing_paths_and_siblings() {
    let workspace = TempDir::new().unwrap();
    let sibling = TempDir::new().unwrap();
    let file = Builder::new()
        .prefix("note.md")
        .rand_bytes(0)
        .tempfile_in(workspace.path())
        .unwrap();
    let root = workspace.path().canonicalize().unwrap();

    assert!(matches!(
        target_of(&root, Some(file.path())).unwrap_err(),
        AppError::NotFound(_)
    ));
    assert!(matches!(
        target_of(&root, Some(&workspace.path().join("missing"))).unwrap_err(),
        AppError::NotFound(_)
    ));
    assert!(matches!(
        target_of(&root, Some(sibling.path())).unwrap_err(),
        AppError::InvalidPath(_)
    ));
}

#[test]
fn terminal_target_validation_accepts_internal_symlinks_and_rejects_external_ones() {
    let root = path_of(Path::new("/w"));
    let internal_link = path_of(Path::new("/w/internal-link"));
    let external_link = path_of(Path::new("/w/external-link"));

    assert_eq!(
        validate_terminal_target(
            &root,
            Some(&internal_link),
            &directory_at("/w"),
            &directory_at("/w/nested"),
        )
        .unwrap(),
        path_of(Path::new("/w/nested"))
    );
    let refusal = validate_terminal_target(
        &root,
        Some(&external_link),
        &directory_at("/w"),
        &directory_at("/outside"),
    )
    .unwrap_err();
    assert!(matches!(refusal, AppError::InvalidPath(_)));
    assert_eq!(refusal.message(), "/w/external-link");
}

#[test]
fn terminal_target_validation_counts_whole_components() {
    let root = path_of(Path::new("/w"));
    let sibling = path_of(Path::new("/w-other"));
    assert!(matches!(
        validate_terminal_target(
            &root,
            Some(&sibling),
            &directory_at("/w"),
            &directory_at("/w-other"),
        )
        .unwrap_err(),
        AppError::InvalidPath(_)
    ));
    assert!(path_of(Path::new("/w/a/b")).starts_with(&path_of(Path::new("/w/a"))));
    assert!(!path_of(Path::new("/w/ab")).starts_with(&path_of(Path::new("/w/a"))));
    assert!(path_of(Path::new("/w//a/")).same(&path_of(Path::new("/w/a"))));
    assert!(path_of(Path::new("/w")).clone().same(&path_of(Path::new("/w"))));
}

#[test]
fn terminal_target_validation_rejects_a_replaced_workspace_root() {
    let captured_root = path_of(Path::new("/parent/workspace"));
    let refusal = validate_terminal_target(
        &captured_root,
        None,
        &directory_at("/outside"),
        &directory_at("/outside"),
    )
    .unwrap_err();
    assert!(matches!(refusal, AppError::InvalidPath(_)));
    assert_eq!(refusal.message(), "/parent/workspace");
}

#[test]
fn terminal_launch_boundary_rejects_delayed_target_and_root_replacement() {
    let root = path_of(Path::new("/parent/workspace"));
    let selected = path_of(Path::new("/parent/workspace/drafts"));
    let live_root = directory_at("/parent/workspace");
    let live_drafts = directory_at("/parent/workspace/drafts");
    let target =
        validate_terminal_target(&root, Some(&selected), &live_root, &live_drafts).unwrap();
    let mut state = WorkspaceState::default();
    let epoch = state.replace_workspace_root(root.clone());
    validate_terminal_launch_boundary(
        &state,
        &root,
        epoch,
        Some(&selected),
        &target,
        &live_root,
        &live_drafts,
    )
    .unwrap();

    let outside = directory_at("/outside");
    assert!(matches!(
        validate_terminal_launch_boundary(
            &state,
            &root,
            epoch,
            Some(&selected),
            &target,
            &live_root,
            &outside,
        )
        .unwrap_err(),
        AppError::InvalidPath(_)
    ));

    let moved = validate_terminal_launch_boundary(
        &state,
        &root,
        epoch,
        Some(&selected),
        &target,
        &live_root,
        &directory_at("/parent/workspace/moved-drafts"),
    )
    .unwrap_err();
    assert_eq!(
        moved.message(),
        "Selected folder changed before the terminal could be opened"
    );

    let root_target = validate_terminal_target(&root, None, &live_root, &live_root).unwrap();
    assert!(matches!(
        validate_terminal_launch_boundary(
            &state,
            &root,
            epoch,
            None,
            &root_target,
            &outside,
            &outside,
        )
        .unwrap_err(),
        AppError::InvalidPath(_)
    ));
}

#[test]
fn terminal_launch_snapshot_rejects_workspace_switches_and_epoch_aba() {
    let first = TempDir::new().unwrap();
    let second = TempDir::new().unwrap();
    let first_dir = first.path().canonicalize().unwrap();
    let first_root = path_of(&first_dir);
    let second_root = path_of(&second.path().canonicalize().unwrap());
    let mut state = WorkspaceState::default();
    let first_epoch = state.replace_workspace_root(first_root.clone());
    let (snapshotted_root, snapshotted_epoch) = state.workspace_snapshot().unwrap();
    assert_eq!(
        (snapshotted_root, snapshotted_epoch),
        (first_root.clone(), first_epoch)
    );

    validate_terminal_launch_snapshot(&state, &first_root, first_epoch, &probe(&first_dir))
        .unwrap();

    state.replace_workspace_root(second_root);
    assert!(matches!(
        validate_terminal_launch_snapshot(&state, &first_root, first_epoch, &probe(&first_dir))
            .unwrap_err(),
        AppError::InvalidPath(_)
    ));

    state.replace_workspace_root(first_root.clone());
    assert!(matches!(
        validate_terminal_launch_snapshot(&state, &first_root, first_epoch, &probe(&first_dir))
            .unwrap_err(),
        AppError::InvalidPath(_)
    ));
}

#[test]
fn terminal_launch_snapshot_tells_a_moved_folder() {
    let root = path_of(Path::new("/w"));
    let mut state = WorkspaceState::default();
    let epoch = state.replace_workspace_root(root.clone());
    let refusal =
        validate_terminal_launch_snapshot(&state, &root, epoch, &directory_at("/elsewhere"))
            .unwrap_err();
    assert_eq!(
        refusal.message(),
        "Workspace folder changed before the terminal could be opened"
    );
}

#[test]
fn guarded_launch_helpers_reject_stale_callbacks_and_hold_the_workspace_read_guard() {
    let first = TempDir::new().unwrap();
    let second = TempDir::new().unwrap();
    let first_dir = first.path().canonicalize().unwrap();
    let first_root = path_of(&first_dir);
    let state = RwLock::new(WorkspaceState::default());
    let epoch = state.write().unwrap().replace_workspace_root(first_root.clone());

    let terminal_ran = std::cell::Cell::new(false);
    {
        let guard = state.read().unwrap();
        with_terminal_launch_snapshot(
            &guard,
            &first_root,
            epoch,
            None,
            &first_root,
            &probe(&first_dir),
            &probe(&first_dir),
            || {
                terminal_ran.set(true);
                assert!(state.try_write().is_err());
                Ok(())
            },
        )
        .unwrap();
    }
    assert!(terminal_ran.get());

    state
        .write()
        .unwrap()
        .replace_workspace_root(path_of(&second.path().canonicalize().unwrap()));
    terminal_ran.set(false);
    assert!(matches!(
        with_terminal_launch_snapshot(
            &state.read().unwrap(),
            &first_root,
            epoch,
            None,
            &first_root,
            &probe(&first_dir),
            &probe(&first_dir),
            || {
                terminal_ran.set(true);
                Ok(())
            },
        )
        .unwrap_err(),
        AppError::InvalidPath(_)
    ));
    assert!(!terminal_ran.get());

    let file_manager_ran = std::cell::Cell::new(false);
    assert!(matches!(
        open_workspace_in_file_manager_for_snapshot(
            &state.read().unwrap(),
            &first_root,
            epoch,
            &probe(&first_dir),
            |_| {
                file_manager_ran.set(true);
                Ok(())
            },
        )
        .unwrap_err(),
        AppError::InvalidPath(_)
    ));
    assert!(!file_manager_ran.get());
}

#[test]
fn file_manager_opens_the_live_root() {
    let root = path_of(Path::new("/w"));
    let mut state = WorkspaceState::default();
    let epoch = state.replace_workspace_root(root.clone());
    let opened = open_workspace_in_file_manager_for_snapshot(
        &state,
        &root,
        epoch,
        &directory_at("/w"),
        |live_root: &WorkspacePath| Ok(live_root.text.clone()),
    )
    .unwrap();
    assert_eq!(opened, "/w");

    let refusal = open_workspace_in_file_manager_for_snapshot(
        &state,
        &root,
        epoch,
        &directory_at("/elsewhere"),
        |live_root: &WorkspacePath| Ok(live_root.text.clone()),
    )
    .unwrap_err();
    assert_eq!(
        refusal.message(),
        "Workspace folder changed before it could be opened"
    );
}

#[test]
fn launches_hand_on_their_own_outcome() {
    let root = path_of(Path::new("/w"));
    let mut state = WorkspaceState::default();
    let epoch = state.replace_workspace_root(root.clone());
    let live = directory_at("/w");
    let value =
        with_terminal_launch_snapshot(&state, &root, epoch, None, &root, &live, &live, || Ok(7));
    assert!(matches!(value, Ok(7)));
    let failure: Result<u8, AppError> =
        with_terminal_launch_snapshot(&state, &root, epoch, None, &root, &live, &live, || {
            Err(AppError::Io("spawn".to_string()))
        });
    assert_eq!(failure.unwrap_err().message(), "spawn");
}

#[test]
fn opening_in_a_new_window_needs_a_directory() {
    assert!(open_workspace_in_new_window("/w", &directory_at("/w")).is_ok());
    let path = "/this/path/does/not/exist/ever";
    assert!(matches!(
        open_workspace_in_new_window(path, &probe(Path::new(path))).unwrap_err(),
        AppError::NotFound(_)
    ));
}

#[test]
fn windows_without_a_workspace_have_no_snapshot() {
    let state = WorkspaceState::default();
    assert!(state.workspace_snapshot().is_none());
    let error = state.require_workspace().unwrap_err();
    assert!(matches!(error, AppError::NoWorkspace));
    assert_eq!(error.message(), "No workspace is open");
}

type TestWindow = Window<&'static str, &'static str, &'static str, u8, u8, u8>;

fn full_window(root: &WorkspacePath) -> TestWindow {
    let mut window = TestWindow::default();
    window.open(root.clone(), "first rules", 1);
    window.install_watcher("watcher");
    window.install_ignore("rules");
    window.install_index(WorkspaceIndex {
        files: vec!["a.md", "b.md"],
        dirs_with_markdown: 9,
    });
    window.recent_files = Some(5);
    window
}

#[test]
fn opened_workspaces_are_named_after_their_folder() {
    let mut window = TestWindow::default();
    let opened = prepare_workspace_state(
        &mut window,
        "/var/notes",
        &directory_at("/private/var/notes"),
        "first rules",
        1,
    )
    .unwrap();
    assert_eq!(opened.info.root, "/private/var/notes");
    assert_eq!(opened.info.name, "notes");
    assert_eq!(opened.info.file_count, 0);
    assert_eq!(opened.info.epoch, 1);
    assert_eq!(opened.work.root, path_of(Path::new("/private/var/notes")));
    assert_eq!(opened.work.epoch, 1);
    assert!(opened.left.walk.is_none());
    assert!(epoch_is_current(&window.state, 1));
    let (root, epoch) = window.state.require_workspace().unwrap();
    assert_eq!(root, path_of(Path::new("/private/var/notes")));
    assert_eq!(epoch, 1);

    let bare =
        prepare_workspace_state(&mut window, "/", &directory_at("/"), "first rules", 2).unwrap();
    assert_eq!(bare.info.name, "/");
    assert_eq!(bare.info.epoch, 2);

    let missing = "/this/path/does/not/exist/ever";
    let refused = prepare_workspace_state(
        &mut window,
        missing,
        &probe(Path::new(missing)),
        "first rules",
        3,
    );
    assert!(matches!(refused, Err(AppError::NotFound(_))));
    assert!(epoch_is_current(&window.state, 2));
    assert!(matches!(
        window.walk,
        Some(WalkFlag {
            token: 2,
            set: false
        })
    ));
}

#[test]
fn opening_a_workspace_leaves_the_one_before_behind() {
    let mut window = full_window(&path_of(Path::new("/w")));
    let opened = prepare_workspace_state(
        &mut window,
        "/other",
        &directory_at("/other"),
        "other rules",
        2,
    )
    .unwrap();
    assert!(matches!(
        opened.left.walk,
        Some(WalkFlag {
            token: 1,
            set: true
        })
    ));
    assert_eq!(opened.left.discarded.watcher, Some("watcher"));
    assert_eq!(opened.left.discarded.ignore, Some("rules"));
    assert_eq!(
        opened.left.discarded.index.unwrap().files,
        ["a.md", "b.md"]
    );
    assert_eq!(opened.left.discarded.recent_files, Some(5));

    assert!(matches!(
        window.walk,
        Some(WalkFlag {
            token: 2,
            set: false
        })
    ));
    assert_eq!(window.ignore, Some("other rules"));
    assert_eq!(window.watcher, None);
    assert!(window.index.is_none());
    assert_eq!(window.recent_files, None);
    assert!(!window.state.index_ready);
}

#[test]
fn aliases_of_a_workspace_are_kept_once() {
    let mut window = TestWindow::default();
    let live = directory_at("/private/var/notes");
    let opened =
        prepare_workspace_state(&mut window, "/var/notes", &live, "first rules", 1).unwrap();
    let recents = add_recent_workspace(vec!["/other".to_string()], &opened.info.root);
    let again =
        prepare_workspace_state(&mut window, "/private/var/notes", &live, "first rules", 2)
            .unwrap();
    let recents = add_recent_workspace(recents, &again.info.root);
    assert_eq!(recents, ["/private/var/notes", "/other"]);
    assert_eq!(again.info.epoch, 2);
    assert_eq!(root_to_read(&opened.info), "/private/var/notes");
    assert_eq!(root_to_read(&again.info), "/private/var/notes");
}

#[test]
fn only_the_shown_workspace_is_closed() {
    let root = path_of(Path::new("/w"));
    let mut window = full_window(&root);
    let epoch = window.state.workspace_epoch;
    let refusal = close_workspace(&mut window, &path_of(Path::new("/other"))).unwrap_err();
    assert_eq!(
        refusal.message(),
        "Workspace changed before it could be closed"
    );
    assert!(window.state.snapshot_is_current(&root, epoch));
    assert_eq!(window.watcher, Some("watcher"));

    let left = close_workspace(&mut window, &root).unwrap();
    assert_eq!(left.discarded.watcher, Some("watcher"));
    assert!(matches!(
        left.walk,
        Some(WalkFlag {
            token: 1,
            set: true
        })
    ));
    assert!(window.state.workspace_snapshot().is_none());
    assert!(!epoch_is_current(&window.state, epoch));
    assert!(window.watcher.is_none() && window.index.is_none() && window.walk.is_none());
    assert!(close_workspace(&mut window, &root).is_err());
}

#[test]
fn standalone_files_begin_an_epoch_of_their_own() {
    let dir = TempDir::new().unwrap();
    let file = Builder::new()
        .prefix("note.md")
        .rand_bytes(0)
        .tempfile_in(dir.path())
        .unwrap();
    let text = file.path().to_str().unwrap();
    let mut window = TestWindow::default();
    window.install_watcher("old watcher");
    let watched = watch_standalone_file(&mut window, text, &probe(file.path())).unwrap();
    assert_eq!(
        watched.file,
        path_of(&file.path().canonicalize().unwrap())
    );
    assert_eq!(watched.epoch, 1);
    assert_eq!(watched.dropped, Some("old watcher"));
    assert_eq!(window.watcher, None);
    assert!(window.state.standalone_file.is_some());

    match accept_file_watcher(&mut window, watched.epoch, Err("no watches left".to_string())) {
        Err(AppError::Io(text)) => assert_eq!(text, "no watches left"),
        _ => panic!("the watcher has not started"),
    }
    assert_eq!(window.watcher, None);
    let dropped = accept_file_watcher(&mut window, watched.epoch, Ok("file watcher")).unwrap();
    assert_eq!(dropped, None);
    assert_eq!(window.watcher, Some("file watcher"));

    assert!(matches!(
        watch_standalone_file(&mut window, "dir", &probe(dir.path())).unwrap_err(),
        AppError::NotFound(_)
    ));
    assert_eq!(window.watcher, Some("file watcher"));
    window.open(path_of(Path::new("/w")), "first rules", 1);
    let late = accept_file_watcher(&mut window, watched.epoch, Ok("late watcher")).unwrap();
    assert_eq!(late, Some("late watcher"));
    assert_eq!(window.watcher, None);
}

#[test]
fn both_ways_to_a_root_agree_on_the_disk() {
    let dir = TempDir::new().unwrap();
    let file = Builder::new()
        .prefix("note.md")
        .rand_bytes(0)
        .tempfile_in(dir.path())
        .unwrap();
    let missing = dir.path().join("missing");
    for path in [dir.path(), file.path(), missing.as_path()] {
        let seen = probe(path);
        let text = path.to_string_lossy();
        match (
            validate_workspace_launch_root(&path_of(path), &seen),
            canonicalize_workspace_root(&text, &seen),
        ) {
            (Ok(root), Ok(again)) => {
                assert_eq!(root, again);
                let live = PathBuf::from(&root.text);
                assert_eq!(
                    validate_workspace_launch_root(&root, &probe(&live)).unwrap(),
                    root
                );
            }
            (Err(refusal), Err(again)) => assert_eq!(refusal.message(), again.message()),
            _ => panic!("the two ways differ"),
        }
    }
}
