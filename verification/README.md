# writer_workspace

The workspace logic of a desktop markdown writer, verified with Verus.

The library decides; it reads nothing from disk and starts no program. What was seen on disk comes
in as a `PathProbe`, what a program or a thread did comes in as an event, and what is to be done
next comes out as a value.

- `src/boundary.rs`: the checks between a captured workspace and a program launched in it.
- `src/terminal.rs`, `src/launcher.rs`: which terminals are tried, and the course of a launch.
- `src/state.rs`, `src/workspace.rs`: what a window shows, and the epochs that tell stale work.
- `src/window.rs`: what a window holds for its workspace, and what it leaves behind.
- `src/bootstrap.rs`: the watcher, ignore rules and index that are made in the background.
- `src/recents.rs`, `src/session.rs`, `src/restore.rs`: what is remembered of workspaces.
- `src/paths.rs`, `src/text.rs`, `src/lists.rs`, `src/error.rs`, `src/cli.rs`: what these rest on.

`app/` is the desktop application around the library. It builds where the system libraries of tauri
and the writer's own `desktop_lib` are at hand.
