use std::path::{Component, Path};

use writer_workspace::error::AppError;
use writer_workspace::launcher::{exit_reason, launch_terminal, LaunchAction, LaunchEvent};
use writer_workspace::paths::{ComponentKind, PathComponent, WorkspacePath};
use writer_workspace::terminal::{
    configured_terminal_message, current_launch_platform, terminal_launch_error,
    terminal_launch_specs, LaunchPlatform, TerminalExecution, DEFAULT_TERMINAL_SETTING_KEY,
};

fn path_of(path: &Path) -> WorkspacePath {
    let mut components = Vec::new();
    for component in path.components() {
        let bytes = component.as_os_str().as_encoded_bytes().to_vec();
        let (kind, encoded) = match component {
            Component::Prefix(_) => (ComponentKind::Prefix, bytes),
            Component::RootDir => (ComponentKind::RootDir, Vec::new()),
            Component::CurDir => (ComponentKind::CurDir, Vec::new()),
            Component::ParentDir => (ComponentKind::ParentDir, Vec::new()),
            Component::Normal(_) => (ComponentKind::Normal, bytes),
        };
        components.push(PathComponent {
            kind,
            encoded,
            text: component.as_os_str().to_string_lossy().into_owned(),
        });
    }
    WorkspacePath {
        text: path.to_string_lossy().into_owned(),
        components,
    }
}

#[test]
fn terminal_launch_specs_cover_defaults_and_explicit_preferences_exactly() {
    let root = path_of(Path::new("/workspace with spaces"));

    let mac = terminal_launch_specs(LaunchPlatform::MacOs, &root, None, None);
    assert_eq!(mac.len(), 1);
    assert_eq!(mac[0].program, "open");
    assert_eq!(mac[0].args, ["-a", "Terminal", "/workspace with spaces"]);
    assert_eq!(mac[0].current_dir, root);
    assert!(!mac[0].new_console);
    assert_eq!(mac[0].execution, TerminalExecution::WaitForSuccess);

    let custom_mac = terminal_launch_specs(LaunchPlatform::MacOs, &root, Some("iTerm"), None);
    assert_eq!(custom_mac.len(), 1);
    assert_eq!(custom_mac[0].program, "open");
    assert_eq!(
        custom_mac[0].args,
        ["-a", "iTerm", "/workspace with spaces"]
    );
    assert_eq!(custom_mac[0].execution, TerminalExecution::WaitForSuccess);

    let windows = terminal_launch_specs(LaunchPlatform::Windows, &root, None, None);
    assert_eq!(windows.len(), 1);
    assert_eq!(windows[0].program, "cmd.exe");
    assert_eq!(windows[0].args, ["/K"]);
    assert_eq!(windows[0].current_dir, root);
    assert!(windows[0].new_console);
    assert_eq!(windows[0].execution, TerminalExecution::Detached);

    let custom_windows = terminal_launch_specs(
        LaunchPlatform::Windows,
        &root,
        Some("C:\\Apps\\wt.exe"),
        None,
    );
    assert_eq!(custom_windows.len(), 1);
    assert_eq!(custom_windows[0].program, "C:\\Apps\\wt.exe");
    assert!(custom_windows[0].args.is_empty());
    assert_eq!(custom_windows[0].current_dir, root);
    assert!(custom_windows[0].new_console);
    assert_eq!(custom_windows[0].execution, TerminalExecution::Detached);

    let linux = terminal_launch_specs(LaunchPlatform::Linux, &root, None, Some(" ghostty "));
    assert_eq!(
        linux
            .iter()
            .map(|spec| spec.program.as_str())
            .collect::<Vec<_>>(),
        [
            "ghostty",
            "xdg-terminal-exec",
            "foot",
            "kitty",
            "alacritty",
            "x-terminal-emulator",
            "gnome-terminal",
            "konsole",
            "xfce4-terminal"
        ]
    );
    assert!(linux.iter().all(|spec| spec.args.is_empty()));
    assert!(linux.iter().all(|spec| spec.current_dir == root));
    assert!(linux.iter().all(|spec| !spec.new_console));
    assert!(linux
        .iter()
        .all(|spec| spec.execution == TerminalExecution::Detached));

    let linux_without_env = terminal_launch_specs(LaunchPlatform::Linux, &root, None, None);
    assert_eq!(
        linux_without_env
            .iter()
            .map(|spec| spec.program.as_str())
            .collect::<Vec<_>>(),
        [
            "xdg-terminal-exec",
            "foot",
            "kitty",
            "alacritty",
            "ghostty",
            "x-terminal-emulator",
            "gnome-terminal",
            "konsole",
            "xfce4-terminal"
        ]
    );

    let opaque = "ghostty --execute 'not a flag'";
    let custom_linux =
        terminal_launch_specs(LaunchPlatform::Linux, &root, Some(opaque), Some("other"));
    assert_eq!(custom_linux.len(), 1);
    assert_eq!(custom_linux[0].program, opaque);
    assert!(custom_linux[0].args.is_empty());
}

#[test]
fn custom_terminal_errors_identify_the_preference_and_recovery() {
    let error = terminal_launch_error(Some("Missing Terminal"), "application could not be found");
    let message = error.message();
    assert!(message.contains("Missing Terminal"));
    assert!(message.contains("Default Terminal"));
    assert!(message.contains("Preferences"));
}

#[test]
fn macos_invalid_terminal_app_surfaces_the_open_helper_failure() {
    let dir = path_of(Path::new("/tmp/somewhere"));
    let preference = "Writer Definitely Missing Terminal 8B112EE0";
    let mut launcher = launch_terminal(LaunchPlatform::MacOs, &dir, preference, None);
    assert!(matches!(launcher.next_action(), LaunchAction::Spawn));
    assert!(matches!(
        launcher.step(LaunchEvent::Spawned),
        LaunchAction::Wait
    ));
    let action = launcher.step(LaunchEvent::Exited {
        success: false,
        status: "exit status: 1".to_string(),
        stderr: b"Unable to find application named that\n".to_vec(),
    });
    let message = match action {
        LaunchAction::Finish(Err(error)) => error.message(),
        _ => panic!("the launch must have failed"),
    };

    assert!(message.contains(preference));
    assert!(message.contains("Default Terminal"));
    assert!(message.contains("Preferences"));
    assert!(message.contains(": Unable to find application named that. Clear"));
}

#[test]
fn launch_error_texts_are_exact() {
    let error = terminal_launch_error(Some("iTerm"), "gone");
    assert!(matches!(error, AppError::Io(_)));
    assert_eq!(
        error.message(),
        "Could not launch configured terminal \"iTerm\": gone. Clear or reset Default Terminal in Preferences."
    );
    assert_eq!(terminal_launch_error(None, "gone").message(), "gone");
    let escaped = terminal_launch_error(Some("a\"b\n"), "x").message();
    assert!(escaped.contains("\"a\\\"b\\n\""));
    assert_eq!(
        configured_terminal_message("<q>", "r"),
        "Could not launch configured terminal <q>: r. Clear or reset Default Terminal in Preferences."
    );
}

#[test]
fn platforms_are_told_by_name() {
    assert_eq!(current_launch_platform("macos"), LaunchPlatform::MacOs);
    assert_eq!(current_launch_platform("windows"), LaunchPlatform::Windows);
    assert_eq!(current_launch_platform("linux"), LaunchPlatform::Linux);
    assert_eq!(current_launch_platform("freebsd"), LaunchPlatform::Linux);
    assert_eq!(DEFAULT_TERMINAL_SETTING_KEY, "workspace.default-terminal");
}

#[test]
fn blank_environment_is_no_terminal() {
    let root = path_of(Path::new("/w"));
    let blank = terminal_launch_specs(LaunchPlatform::Linux, &root, None, Some(" \t\u{3000}\n"));
    assert_eq!(blank.len(), 9);
    assert_eq!(blank[0].program, "xdg-terminal-exec");
    let other = terminal_launch_specs(LaunchPlatform::Linux, &root, None, Some("\u{a0}wez term\u{2003}"));
    assert_eq!(other.len(), 10);
    assert_eq!(other[0].program, "wez term");
}

#[test]
fn launcher_tries_one_way_after_the_other() {
    let dir = path_of(Path::new("/w"));
    let mut launcher = launch_terminal(LaunchPlatform::Linux, &dir, "", Some("kitty"));
    assert!(matches!(launcher.next_action(), LaunchAction::Spawn));
    let mut tried = Vec::new();
    for round in 0..8 {
        tried.push(launcher.current().program.clone());
        assert!(matches!(
            launcher.step(LaunchEvent::SpawnFailed(format!("failure {}", round))),
            LaunchAction::Spawn
        ));
    }
    tried.push(launcher.current().program.clone());
    assert_eq!(
        tried,
        [
            "kitty",
            "xdg-terminal-exec",
            "foot",
            "alacritty",
            "ghostty",
            "x-terminal-emulator",
            "gnome-terminal",
            "konsole",
            "xfce4-terminal"
        ]
    );
    match launcher.step(LaunchEvent::SpawnFailed("the last failure".to_string())) {
        LaunchAction::Finish(Err(AppError::Io(text))) => assert_eq!(text, "the last failure"),
        _ => panic!("every way has failed"),
    }
}

#[test]
fn first_way_that_starts_ends_a_detached_launch() {
    let dir = path_of(Path::new("/w"));
    let mut launcher = launch_terminal(LaunchPlatform::Linux, &dir, "", None);
    launcher.step(LaunchEvent::SpawnFailed("no".to_string()));
    assert_eq!(launcher.current().program, "foot");
    assert!(matches!(
        launcher.step(LaunchEvent::Spawned),
        LaunchAction::Finish(Ok(()))
    ));
}

#[test]
fn refusals_end_the_launch_at_once() {
    let dir = path_of(Path::new("/w"));
    let mut launcher = launch_terminal(LaunchPlatform::Linux, &dir, "", None);
    let refusal = AppError::InvalidPath("changed".to_string());
    match launcher.step(LaunchEvent::Refused(refusal)) {
        LaunchAction::Finish(Err(AppError::InvalidPath(text))) => assert_eq!(text, "changed"),
        _ => panic!("a refusal is final"),
    }
}

#[test]
fn macos_waits_for_the_helper() {
    let dir = path_of(Path::new("/w"));
    let mut launcher = launch_terminal(LaunchPlatform::MacOs, &dir, "", None);
    assert!(matches!(
        launcher.step(LaunchEvent::Spawned),
        LaunchAction::Wait
    ));
    assert!(matches!(
        launcher.step(LaunchEvent::Exited {
            success: true,
            status: "exit status: 0".to_string(),
            stderr: Vec::new(),
        }),
        LaunchAction::Finish(Ok(()))
    ));

    let mut failing = launch_terminal(LaunchPlatform::MacOs, &dir, "", None);
    failing.step(LaunchEvent::Spawned);
    match failing.step(LaunchEvent::WaitFailed("interrupted".to_string())) {
        LaunchAction::Finish(Err(AppError::Io(text))) => assert_eq!(text, "interrupted"),
        _ => panic!("the wait has failed"),
    }
}

#[test]
fn exit_reasons_prefer_the_error_output() {
    assert_eq!(
        exit_reason("open", "exit status: 1", " \n"),
        "open exited with exit status: 1"
    );
    assert_eq!(exit_reason("open", "exit status: 1", "\n no such app \n"), "no such app");

    let dir = path_of(Path::new("/w"));
    let mut launcher = launch_terminal(LaunchPlatform::MacOs, &dir, "", None);
    launcher.step(LaunchEvent::Spawned);
    match launcher.step(LaunchEvent::Exited {
        success: false,
        status: "exit status: 1".to_string(),
        stderr: vec![b' ', 0xc3, 0xa9, 0xff, b'\n'],
    }) {
        LaunchAction::Finish(Err(AppError::Io(text))) => assert_eq!(text, "\u{e9}\u{fffd}"),
        _ => panic!("the helper has failed"),
    }
}
