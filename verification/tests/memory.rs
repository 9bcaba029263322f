use serde_json::Value;

use writer_workspace::cli::is_cli_invocation;
use writer_workspace::error::AppError;
use writer_workspace::lists::retain_others;
use writer_workspace::paths::{ComponentKind, PathComponent, WorkspacePath};
use writer_workspace::recents::{
    add_recent_workspace, decoded_recents, get_recent_workspaces, load_recent_workspaces,
    recents_or_none, remove_recent_workspace, save_recent_workspace, save_recent_workspaces_list,
};
use writer_workspace::session::{
    active_session_path, load_session, location_file, save_session, session_key,
    SerializedLocation, SessionData, SessionEntry, SessionStore, SessionTab,
};
use writer_workspace::text::{eq_ignore_ascii_case, text_equal, trim, trim_end_matches};

fn strings(list: &[&str]) -> Vec<String> {
    list.iter().map(|text| text.to_string()).collect()
}

fn program(name: &str) -> WorkspacePath {
    WorkspacePath {
        text: format!("bin/{}", name),
        components: vec![
            PathComponent {
                kind: ComponentKind::Normal,
                encoded: b"bin".to_vec(),
                text: "bin".to_string(),
            },
            PathComponent {
                kind: ComponentKind::Normal,
                encoded: name.as_bytes().to_vec(),
                text: name.to_string(),
            },
        ],
    }
}

fn location(kind: &str, key: &str, value: Value) -> SerializedLocation {
    let mut payload = serde_json::Map::new();
    payload.insert("line".to_string(), Value::from(3));
    payload.insert(key.to_string(), value);
    SerializedLocation {
        kind: kind.to_string(),
        payload,
    }
}

fn tab(kind: &str, key: &str, value: Value) -> SessionTab {
    SessionTab {
        location: location(kind, key, value),
        back: Vec::new(),
        forward: Vec::new(),
    }
}

fn session(tabs: Vec<SessionTab>, active_index: Option<usize>) -> SessionData {
    SessionData { tabs, active_index }
}

#[test]
fn recents_keep_the_newest_first() {
    let recents = add_recent_workspace(strings(&["/a", "/b", "/c", "/b"]), "/b");
    assert_eq!(recents, ["/b", "/a", "/c"]);
    let again = add_recent_workspace(recents, "/b");
    assert_eq!(again, ["/b", "/a", "/c"]);
    assert_eq!(add_recent_workspace(Vec::new(), "/x"), ["/x"]);
}

#[test]
fn recents_hold_ten_workspaces() {
    let mut recents = Vec::new();
    for number in 0..12 {
        recents = add_recent_workspace(recents, &format!("/w{}", number));
    }
    assert_eq!(
        recents,
        ["/w11", "/w10", "/w9", "/w8", "/w7", "/w6", "/w5", "/w4", "/w3", "/w2"]
    );
}

#[test]
fn removed_workspaces_are_gone() {
    let recents = retain_others(strings(&["/a", "/b", "/a", "/c"]), "/a");
    assert_eq!(recents, ["/b", "/c"]);
    assert_eq!(retain_others(strings(&["/b"]), "/a"), ["/b"]);
}

#[test]
fn recents_file_follows_what_is_opened_and_removed() {
    let first = save_recent_workspace(None, "/a").unwrap();
    assert_eq!(first, "[\n  \"/a\"\n]");
    let second = save_recent_workspace(Some(&first), "/b").unwrap();
    assert_eq!(get_recent_workspaces(Some(&second)), ["/b", "/a"]);
    let third = save_recent_workspace(Some(&second), "/a").unwrap();
    assert_eq!(get_recent_workspaces(Some(&third)), ["/a", "/b"]);
    let fourth = remove_recent_workspace(Some(&third), "/a").unwrap();
    assert_eq!(get_recent_workspaces(Some(&fourth)), ["/b"]);
    let fifth = remove_recent_workspace(Some(&fourth), "/b").unwrap();
    assert_eq!(fifth, "[]");

    let over_a_broken_file = save_recent_workspace(Some("not json"), "/c").unwrap();
    assert_eq!(get_recent_workspaces(Some(&over_a_broken_file)), ["/c"]);
    assert_eq!(remove_recent_workspace(None, "/c").unwrap(), "[]");
}

#[test]
fn recents_are_read_back_as_they_were_written() {
    let recents = strings(&["/a b", "C:\\w\"q\"", "/caf\u{e9}\n\u{1f600}", ""]);
    let file = save_recent_workspaces_list(&recents).unwrap();
    assert!(file.starts_with("[\n  \"/a b\",\n"));
    assert_eq!(load_recent_workspaces(Some(&file)).unwrap(), recents);

    let none = save_recent_workspaces_list(&Vec::new()).unwrap();
    assert_eq!(none, "[]");
    assert!(load_recent_workspaces(Some(&none)).unwrap().is_empty());
}

#[test]
fn missing_and_broken_recents_are_none() {
    assert!(load_recent_workspaces(None).unwrap().is_empty());
    let broken = load_recent_workspaces(Some("[\"/a\", 3]"));
    assert!(matches!(broken, Err(AppError::Io(_))));
    assert!(recents_or_none(broken).is_empty());
    assert!(get_recent_workspaces(None).is_empty());
    assert!(get_recent_workspaces(Some("{")).is_empty());
    assert_eq!(get_recent_workspaces(Some("[\"/a\"]")), ["/a"]);
    match decoded_recents(Err("unexpected end".to_string())) {
        Err(AppError::Io(text)) => assert_eq!(text, "unexpected end"),
        _ => panic!("the parser has failed"),
    }
    assert_eq!(decoded_recents(Ok(strings(&["/z"]))).unwrap(), ["/z"]);
}

#[test]
fn session_keys_have_no_trailing_slash() {
    assert_eq!(session_key("/w/notes///"), "/w/notes");
    assert_eq!(session_key("/w/notes"), "/w/notes");
    assert_eq!(session_key("///"), "");
    assert_eq!(trim_end_matches("a/b", '/'), "a/b");
}

#[test]
fn saved_sessions_are_loaded() {
    let mut sessions = SessionStore::default();
    let path = Value::String("/w/a.md".to_string());
    save_session(&mut sessions, "/w/", vec![tab("file", "path", path)], Some(0));
    save_session(&mut sessions, "/other", Vec::new(), Some(4));

    let loaded = load_session(&sessions, "/w").unwrap();
    assert_eq!(loaded.tabs.len(), 1);
    assert_eq!(loaded.active_index, Some(0));
    assert_eq!(loaded.tabs[0].location.payload.get("line"), Some(&Value::from(3)));
    assert_eq!(load_session(&sessions, "/other//").unwrap().active_index, Some(4));
    assert!(load_session(&sessions, "/third").is_none());

    save_session(&mut sessions, "/w", Vec::new(), Some(1));
    assert_eq!(load_session(&sessions, "/w/").unwrap().active_index, Some(1));
    save_session(&mut sessions, "/w//", Vec::new(), None);
    assert!(load_session(&sessions, "/w").is_none());
    assert!(load_session(&sessions, "/other").is_some());
    save_session(&mut sessions, "/w", Vec::new(), None);
    assert_eq!(sessions.into_entries().len(), 1);
}

#[test]
fn stores_are_built_from_their_entries() {
    let mut entries = Vec::new();
    for (key, index) in [("/a", 1), ("/b", 2), ("/a", 3)] {
        entries.push(SessionEntry {
            key: key.to_string(),
            session: session(Vec::new(), Some(index)),
        });
    }
    let sessions = SessionStore::from_entries(entries);
    assert_eq!(load_session(&sessions, "/a").unwrap().active_index, Some(3));
    assert_eq!(load_session(&sessions, "/b").unwrap().active_index, Some(2));
    let again = SessionStore::from_entries(sessions.into_entries());
    assert_eq!(load_session(&again, "/a").unwrap().active_index, Some(3));
    assert_eq!(again.into_entries().len(), 2);
}

#[test]
fn active_files_are_found_in_the_session() {
    let path = || Value::String("/w/b.md".to_string());
    let tabs = || vec![tab("graph", "path", path()), tab("file", "path", path())];

    assert_eq!(active_session_path(None), None);
    assert_eq!(active_session_path(Some(&session(tabs(), None))), None);
    assert_eq!(active_session_path(Some(&session(tabs(), Some(2)))), None);
    assert_eq!(active_session_path(Some(&session(tabs(), Some(0)))), None);
    assert_eq!(
        active_session_path(Some(&session(tabs(), Some(1)))),
        Some("/w/b.md".to_string())
    );
    let number = session(vec![tab("file", "path", Value::from(1))], Some(0));
    assert_eq!(active_session_path(Some(&number)), None);
    let nameless = session(vec![tab("file", "file", path())], Some(0));
    assert_eq!(active_session_path(Some(&nameless)), None);
}

#[test]
fn only_file_locations_show_a_file() {
    let entry = || Some(Some("/w/c.md".to_string()));
    assert_eq!(location_file("file", entry()), entry().unwrap());
    assert_eq!(location_file("File", entry()), None);
    assert_eq!(location_file("file", Some(None)), None);
    assert_eq!(location_file("file", None), None);
}

#[test]
fn command_line_tool_is_told_by_its_name() {
    for name in ["writer", "Writer", "WRITER.exe", "writer.exe"] {
        assert!(is_cli_invocation(false, Some(&program(name))));
        assert!(!is_cli_invocation(true, Some(&program(name))));
    }
    for name in ["writers", "reader", "writer.app.exe", ".writer", "exe.writer", ""] {
        assert!(!is_cli_invocation(false, Some(&program(name))));
    }
    assert!(!is_cli_invocation(false, None));
}

#[test]
fn file_stems_end_before_the_last_dot() {
    assert_eq!(program("a.tar.gz").file_stem(), Some("a.tar".to_string()));
    assert_eq!(program(".profile").file_stem(), Some(".profile".to_string()));
    assert_eq!(program("..rc").file_stem(), Some(".".to_string()));
    assert_eq!(program("caf\u{e9}.").file_stem(), Some("caf\u{e9}".to_string()));
    assert_eq!(program("plain").file_stem(), Some("plain".to_string()));
    let nameless = WorkspacePath {
        text: String::new(),
        components: Vec::new(),
    };
    assert_eq!(nameless.file_stem(), None);
}

#[test]
fn texts_are_trimmed_and_matched() {
    assert_eq!(trim("  a b\t"), "a b");
    assert_eq!(trim("\u{2028}\u{85}x\u{1680}"), "x");
    assert_eq!(trim("\u{200b}x"), "\u{200b}x");
    assert_eq!(trim(" \n"), "");
    assert_eq!(trim("\u{e9}"), "\u{e9}");
    assert!(text_equal("caf\u{e9}", "caf\u{e9}"));
    assert!(!text_equal("a", "b"));
    assert!(eq_ignore_ascii_case("aZ\u{e9}[", "Az\u{e9}["));
    assert!(!eq_ignore_ascii_case("\u{e9}", "\u{c9}"));
    assert!(!eq_ignore_ascii_case("@", "`"));
}
