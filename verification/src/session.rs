//! The tabs that a workspace had open, kept per workspace.

use vstd::prelude::*;

use crate::text::opt_string;
use crate::text::only_the_character_is_taken_off;
use crate::text::taking_off_the_end_gives_the_rest;
use crate::text::text_equal;
use crate::text::trim_end_matches;
use crate::text::without_trailing;

verus! {

#[verifier::external_type_specification]
#[verifier::external_body]
#[verifier::reject_recursive_types(K)]
#[verifier::reject_recursive_types(V)]
pub struct ExJsonMap<K, V>(serde_json::Map<K, V>);

#[verifier::external_type_specification]
#[verifier::external_body]
pub struct ExJsonValue(serde_json::Value);

/// A location that a tab can show: its kind and a payload of free form, so that kinds that are
/// not known here survive.
#[derive(Debug)]
pub struct SerializedLocation {
    pub kind: String,
    pub payload: serde_json::Map<String, serde_json::Value>,
}

/// A tab: what it shows, and where it has been and can go back to.
#[derive(Debug)]
pub struct SessionTab {
    pub location: SerializedLocation,
    pub back: Vec<SerializedLocation>,
    pub forward: Vec<SerializedLocation>,
}

/// The tabs of a workspace and which of them is shown.
#[derive(Debug)]
pub struct SessionData {
    pub tabs: Vec<SessionTab>,
    pub active_index: Option<usize>,
}

/// The entries of a JSON object by their keys: the text of a string, nothing of another value.
pub uninterp spec fn payload_entries(
    payload: serde_json::Map<String, serde_json::Value>,
) -> Map<Seq<char>, Option<Seq<char>>>;

/// `serde_json::Map::get`, with the value handed out as its text where `Value::as_str` finds one.
#[verifier::external_body]
pub(crate) fn payload_entry(
    payload: &serde_json::Map<String, serde_json::Value>,
    key: &str,
) -> (entry: Option<Option<String>>)
    ensures
        entry is Some == payload_entries(*payload).contains_key(key@),
        entry is Some ==> opt_string(entry->0) == payload_entries(*payload)[key@],
{
    payload.get(key).map(|value| value.as_str().map(|text| text.to_string()))
}

/// The file that a location shows, given the entry for its path: only locations of the kind
/// `file` show one, and only where the path is a string.
pub open spec fn shown_file(kind: Seq<char>, entry: Option<Option<Seq<char>>>) -> Option<Seq<char>> {
    if kind == "file"@ && entry is Some {
        entry->0
    } else {
        None
    }
}

/// The entry of a JSON object for a key.
pub open spec fn entry_of(
    payload: serde_json::Map<String, serde_json::Value>,
    key: Seq<char>,
) -> Option<Option<Seq<char>>> {
    if payload_entries(payload).contains_key(key) {
        Some(payload_entries(payload)[key])
    } else {
        None
    }
}

/// The file that the active tab of a session shows.
pub open spec fn active_file(session: Option<SessionData>) -> Option<Seq<char>> {
    match session {
        Some(SessionData { tabs, active_index: Some(index) }) => if index < tabs@.len() {
            shown_file(
                tabs@[index as int].location.kind@,
                entry_of(tabs@[index as int].location.payload, "path"@),
            )
        } else {
            None
        },
        _ => None,
    }
}

/// The key under which the session of a workspace is kept: its root without trailing slashes.
pub open spec fn session_key_of(workspace_root: Seq<char>) -> Seq<char> {
    without_trailing(workspace_root, '/')
}

/// The sessions after one was saved: one without tabs and without an active one is forgotten.
pub open spec fn with_session(
    sessions: Map<Seq<char>, SessionData>,
    workspace_root: Seq<char>,
    session: SessionData,
) -> Map<Seq<char>, SessionData> {
    if session.tabs@.len() == 0 && session.active_index is None {
        sessions.remove(session_key_of(workspace_root))
    } else {
        sessions.insert(session_key_of(workspace_root), session)
    }
}

/// The session that is kept for a workspace.
pub open spec fn session_of(
    sessions: Map<Seq<char>, SessionData>,
    workspace_root: Seq<char>,
) -> Option<SessionData> {
    if sessions.contains_key(session_key_of(workspace_root)) {
        Some(sessions[session_key_of(workspace_root)])
    } else {
        None
    }
}

/// The file that a location shows, given its kind and the entry of its payload for the path.
pub fn location_file(kind: &str, entry: Option<Option<String>>) -> (file: Option<String>)
    ensures
        opt_string(file) == shown_file(
            kind@,
            match entry {
                Some(text) => Some(opt_string(text)),
                None => None,
            },
        ),
{
    if !text_equal(kind, "file") {
        return None;
    }
    match entry {
        Some(text) => text,
        None => None,
    }
}

/// The file that the active tab of a session shows.
pub fn active_session_path(session: Option<&SessionData>) -> (path: Option<String>)
    ensures
        opt_string(path) == active_file(
            match session {
                Some(session) => Some(*session),
                None => None,
            },
        ),
{
    let session = match session {
        Some(session) => session,
        None => return None,
    };
    let index: usize = match session.active_index {
        Some(index) => index,
        None => return None,
    };
    if index >= session.tabs.len() {
        return None;
    }
    let location = &session.tabs[index].location;
    location_file(location.kind.as_str(), payload_entry(&location.payload, "path"))
}

/// The key under which the session of a workspace is kept.
pub fn session_key(workspace_root: &str) -> (key: String)
    ensures
        key@ == session_key_of(workspace_root@),
{
    trim_end_matches(workspace_root, '/').to_owned()
}

/// A session and the key under which it is kept.
#[derive(Debug)]
pub struct SessionEntry {
    pub key: String,
    pub session: SessionData,
}

/// No two entries have the same key.
pub open spec fn keys_differ(entries: Seq<SessionEntry>) -> bool {
    forall|i: int, j: int|
        0 <= i < entries.len() && 0 <= j < entries.len() && i != j ==> (#[trigger] entries[i]).key@
            != (#[trigger] entries[j]).key@
}

/// The map that a list of entries stands for.
pub open spec fn entries_map(entries: Seq<SessionEntry>) -> Map<Seq<char>, SessionData>
    decreases entries.len(),
{
    if entries.len() == 0 {
        Map::empty()
    } else {
        entries_map(entries.drop_last()).insert(entries.last().key@, entries.last().session)
    }
}

/// The sessions of all workspaces.
#[derive(Debug)]
pub struct SessionStore {
    entries: Vec<SessionEntry>,
}

impl View for SessionStore {
    type V = Map<Seq<char>, SessionData>;

    closed spec fn view(&self) -> Map<Seq<char>, SessionData> {
        entries_map(self.entries@)
    }
}

impl Default for SessionStore {
    fn default() -> (store: Self)
        ensures
            store.well_formed(),
            store@ == Map::<Seq<char>, SessionData>::empty(),
    {
        SessionStore { entries: Vec::new() }
    }
}

impl SessionStore {
    /// Every key stands in the store once.
    pub closed spec fn well_formed(&self) -> bool {
        keys_differ(self.entries@)
    }

    fn find(&self, key: &str) -> (index: Option<usize>)
        requires
            self.well_formed(),
        ensures
            match index {
                Some(index) => {
                    &&& index < self.entries@.len()
                    &&& self.entries@[index as int].key@ == key@
                    &&& self@.contains_key(key@)
                    &&& self@[key@] == self.entries@[index as int].session
                },
                None => {
                    &&& !self@.contains_key(key@)
                    &&& forall|i: int|
                        0 <= i < self.entries@.len() ==> (#[trigger] self.entries@[i]).key@ != key@
                },
            },
    {
        let mut i: usize = 0;
        while i < self.entries.len()
            invariant
                self.well_formed(),
                i <= self.entries@.len(),
                forall|j: int| 0 <= j < i ==> (#[trigger] self.entries@[j]).key@ != key@,
            decreases self.entries@.len() - i,
        {
            if text_equal(self.entries[i].key.as_str(), key) {
                proof {
                    lemma_entries_map(self.entries@);
                    assert(self.entries@[i as int].key@ == key@);
                }
                return Some(i);
            }
            i += 1;
        }
        proof {
            lemma_entries_map(self.entries@);
        }
        None
    }

    fn forget(&mut self, key: &str)
        requires
            old(self).well_formed(),
        ensures
            final(self).well_formed(),
            final(self)@ == old(self)@.remove(key@),
            forall|i: int|
                0 <= i < final(self).entries@.len() ==> (#[trigger] final(self).entries@[i]).key@
                    != key@,
    {
        match self.find(key) {
            Some(index) => {
                let ghost before = self.entries@;
                self.entries.remove(index);
                proof {
                    lemma_entries_map(before);
                    lemma_remove_entry(before, index as int);
                }
            },
            None => {
                assert(self@.remove(key@) =~= self@);
            },
        }
    }

    /// Keeps a session under a key, in the place of any other that was kept there.
    pub fn insert(&mut self, key: String, session: SessionData)
        requires
            old(self).well_formed(),
        ensures
            final(self).well_formed(),
            final(self)@ == old(self)@.insert(key@, session),
    {
        let ghost before = self@;
        self.forget(key.as_str());
        let ghost kept = self.entries@;
        let ghost key_text = key@;
        self.entries.push(SessionEntry { key, session });
        proof {
            assert(self.entries@.drop_last() =~= kept);
            assert(before.remove(key_text).insert(key_text, session) =~= before.insert(
                key_text,
                session,
            ));
        }
    }

    /// The store that holds these entries. Of entries with the same key the last one counts.
    pub fn from_entries(entries: Vec<SessionEntry>) -> (store: SessionStore)
        ensures
            store.well_formed(),
            store@ == entries_map(entries@),
    {
        let mut store = SessionStore::default();
        let mut rest = entries;
        let ghost mut taken: int = 0;
        assert(entries@.take(0) =~= seq![]);
        assert(entries@.skip(0) =~= entries@);
        while rest.len() > 0
            invariant
                0 <= taken <= entries@.len(),
                rest@ == entries@.skip(taken),
                store.well_formed(),
                store@ == entries_map(entries@.take(taken)),
            decreases rest@.len(),
        {
            let entry = rest.remove(0);
            assert(entries@.take(taken + 1).drop_last() =~= entries@.take(taken));
            assert(entries@.take(taken + 1).last() == entry);
            store.insert(entry.key, entry.session);
            assert(rest@ =~= entries@.skip(taken + 1));
            proof {
                taken = taken + 1;
            }
        }
        assert(entries@.take(taken) =~= entries@);
        store
    }

    /// The entries of the store, each key once.
    pub fn into_entries(self) -> (entries: Vec<SessionEntry>)
        requires
            self.well_formed(),
        ensures
            keys_differ(entries@),
            entries_map(entries@) == self@,
    {
        self.entries
    }
}

/// Saves the tabs of a workspace. Where there are none, and none is active, the session of the
/// workspace is forgotten.
pub fn save_session(
    sessions: &mut SessionStore,
    workspace_root: &str,
    tabs: Vec<SessionTab>,
    active_index: Option<usize>,
)
    requires
        old(sessions).well_formed(),
    ensures
        final(sessions).well_formed(),
        final(sessions)@ == with_session(
            old(sessions)@,
            workspace_root@,
            (SessionData { tabs, active_index }),
        ),
{
    let key = session_key(workspace_root);
    if tabs.is_empty() && active_index.is_none() {
        sessions.forget(key.as_str());
    } else {
        sessions.insert(key, SessionData { tabs, active_index });
    }
}

/// The session that is kept for a workspace.
pub fn load_session<'a>(sessions: &'a SessionStore, workspace_root: &str) -> (session: Option<
    &'a SessionData,
>)
    requires
        sessions.well_formed(),
    ensures
        match session {
            Some(session) => session_of(sessions@, workspace_root@) == Some(*session),
            None => session_of(sessions@, workspace_root@) is None,
        },
{
    let key = session_key(workspace_root);
    match sessions.find(key.as_str()) {
        Some(index) => Some(&sessions.entries[index].session),
        None => None,
    }
}

/// In a list of entries with different keys, each entry is what the map holds under its key, and
/// the map holds nothing else.
pub(crate) proof fn lemma_entries_map(entries: Seq<SessionEntry>)
    requires
        keys_differ(entries),
    ensures
        forall|i: int|
            0 <= i < entries.len() ==> entries_map(entries).contains_key(
                (#[trigger] entries[i]).key@,
            ) && entries_map(entries)[entries[i].key@] == entries[i].session,
        forall|key: Seq<char>| #[trigger]
            entries_map(entries).contains_key(key) ==> exists|i: int|
                0 <= i < entries.len() && (#[trigger] entries[i]).key@ == key,
    decreases entries.len(),
{
    if entries.len() > 0 {
        let rest = entries.drop_last();
        assert(keys_differ(rest)) by {
            assert forall|i: int, j: int|
                0 <= i < rest.len() && 0 <= j < rest.len() && i != j implies (
            #[trigger] rest[i]).key@ != (#[trigger] rest[j]).key@ by {
                assert(rest[i] == entries[i] && rest[j] == entries[j]);
            }
        }
        lemma_entries_map(rest);
        assert forall|i: int| 0 <= i < entries.len() implies entries_map(entries).contains_key(
            (#[trigger] entries[i]).key@,
        ) && entries_map(entries)[entries[i].key@] == entries[i].session by {
            if i < entries.len() - 1 {
                assert(rest[i] == entries[i]);
                assert(entries[i].key@ != entries[entries.len() - 1].key@);
            }
        }
        assert forall|key: Seq<char>| #[trigger]
            entries_map(entries).contains_key(key) implies exists|i: int|
            0 <= i < entries.len() && (#[trigger] entries[i]).key@ == key by {
            if key == entries.last().key@ {
                assert(entries[entries.len() - 1].key@ == key);
            } else {
                assert(entries_map(rest).contains_key(key));
                let i = choose|i: int| 0 <= i < rest.len() && (#[trigger] rest[i]).key@ == key;
                assert(entries[i].key@ == key);
            }
        }
    }
}

proof fn lemma_remove_entry(entries: Seq<SessionEntry>, index: int)
    requires
        keys_differ(entries),
        0 <= index < entries.len(),
    ensures
        keys_differ(entries.remove(index)),
        entries_map(entries.remove(index)) == entries_map(entries).remove(entries[index].key@),
        forall|i: int|
            0 <= i < entries.remove(index).len() ==> (#[trigger] entries.remove(index)[i]).key@
                != entries[index].key@,
{
    let rest = entries.remove(index);
    let key = entries[index].key@;
    assert forall|i: int, j: int| 0 <= i < rest.len() && 0 <= j < rest.len() && i != j implies (
    #[trigger] rest[i]).key@ != (#[trigger] rest[j]).key@ by {
        let a = if i < index { i } else { i + 1 };
        let b = if j < index { j } else { j + 1 };
        assert(rest[i] == entries[a] && rest[j] == entries[b]);
    }
    assert forall|i: int| 0 <= i < rest.len() implies (#[trigger] rest[i]).key@ != key by {
        let a = if i < index { i } else { i + 1 };
        assert(rest[i] == entries[a]);
    }
    lemma_entries_map(entries);
    lemma_entries_map(rest);
    let all = entries_map(entries);
    let kept = entries_map(rest);
    assert forall|k: Seq<char>| kept.contains_key(k) == #[trigger] all.remove(key).contains_key(
        k,
    ) by {
        if kept.contains_key(k) {
            let i = choose|i: int| 0 <= i < rest.len() && (#[trigger] rest[i]).key@ == k;
            let a = if i < index { i } else { i + 1 };
            assert(rest[i] == entries[a]);
        }
        if all.remove(key).contains_key(k) {
            let a = choose|a: int| 0 <= a < entries.len() && (#[trigger] entries[a]).key@ == k;
            let i = if a < index { a } else { a - 1 };
            assert(rest[i] == entries[a]);
        }
    }
    assert forall|k: Seq<char>| #[trigger] kept.contains_key(k) implies kept[k] == all.remove(
        key,
    )[k] by {
        let i = choose|i: int| 0 <= i < rest.len() && (#[trigger] rest[i]).key@ == k;
        let a = if i < index { i } else { i + 1 };
        assert(rest[i] == entries[a]);
    }
    assert(kept =~= all.remove(key));
}

/// The key of a workspace does not end in a slash, and slashes at the end of a root make no
/// difference.
pub proof fn trailing_slashes_make_no_difference(workspace_root: Seq<char>)
    ensures
        session_key_of(workspace_root.push('/')) == session_key_of(workspace_root),
        session_key_of(session_key_of(workspace_root)) == session_key_of(workspace_root),
        session_key_of(workspace_root).len() > 0 ==> session_key_of(workspace_root).last() != '/',
    decreases workspace_root.len(),
{
    assert(workspace_root.push('/').drop_last() =~= workspace_root);
    if workspace_root.len() > 0 && workspace_root.last() == '/' {
        trailing_slashes_make_no_difference(workspace_root.drop_last());
    }
}

/// A session that was saved is what is loaded for the same workspace, by whatever root with the
/// same key; one without tabs and without an active one is loaded as none.
pub proof fn saved_session_is_loaded(
    sessions: Map<Seq<char>, SessionData>,
    saved_root: Seq<char>,
    loaded_root: Seq<char>,
    session: SessionData,
)
    requires
        session_key_of(saved_root) == session_key_of(loaded_root),
    ensures
        session_of(with_session(sessions, saved_root, session), loaded_root) == if session.tabs@.len()
            == 0 && session.active_index is None {
            None::<SessionData>
        } else {
            Some(session)
        },
{
}

/// Saving the session of one workspace leaves the sessions of all others as they were.
pub proof fn other_sessions_are_kept(
    sessions: Map<Seq<char>, SessionData>,
    saved_root: Seq<char>,
    other_root: Seq<char>,
    session: SessionData,
)
    requires
        session_key_of(saved_root) != session_key_of(other_root),
    ensures
        session_of(with_session(sessions, saved_root, session), other_root) == session_of(
            sessions,
            other_root,
        ),
{
}

/// Of two sessions that are saved for one workspace, the later one counts.
pub proof fn later_session_counts(
    sessions: Map<Seq<char>, SessionData>,
    workspace_root: Seq<char>,
    earlier: SessionData,
    later: SessionData,
)
    ensures
        with_session(with_session(sessions, workspace_root, earlier), workspace_root, later)
            =~= with_session(sessions, workspace_root, later),
{
}

/// A location shows a file exactly when its kind is `file` and its payload has a text under the
/// key that was looked up, and the file is that text.
pub proof fn file_locations_show_their_path(
    kind: Seq<char>,
    text: Seq<char>,
    payload: serde_json::Map<String, serde_json::Value>,
    key: Seq<char>,
)
    ensures
        kind == "file"@ ==> shown_file(kind, Some(Some(text))) == Some(text),
        kind != "file"@ ==> shown_file(kind, Some(Some(text))) is None,
        shown_file(kind, Some(None)) is None,
        shown_file(kind, None) is None,
        payload_entries(payload).contains_key(key) ==> entry_of(payload, key) == Some(
            payload_entries(payload)[key],
        ),
        !payload_entries(payload).contains_key(key) ==> entry_of(payload, key) is None,
{
}

/// The active file is the path of the location that the active tab shows now: of a location of the
/// kind `file` with a text under `path` it is that text. Every other location shows none. Where the
/// tab has been and can go to, and what the other tabs show, makes no difference.
pub proof fn active_file_is_where_the_active_tab_is(session: SessionData, index: usize)
    requires
        session.active_index == Some(index),
        index < session.tabs@.len(),
    ensures
        ({
            let location = session.tabs@[index as int].location;
            let entries = payload_entries(location.payload);
            let known = entries.contains_key("path"@) && entries["path"@] is Some;
            &&& location.kind@ == "file"@ && known ==> active_file(Some(session))
                == Some(entries["path"@]->0)
            &&& location.kind@ != "file"@ || !known ==> active_file(Some(session)) is None
        }),
{
}

/// Two sessions whose active tabs show the same location have the same active file, whatever else
/// differs between them.
pub proof fn only_the_shown_location_decides(
    session: SessionData,
    other: SessionData,
    index: usize,
    other_index: usize,
)
    requires
        session.active_index == Some(index),
        other.active_index == Some(other_index),
        index < session.tabs@.len(),
        other_index < other.tabs@.len(),
        session.tabs@[index as int].location == other.tabs@[other_index as int].location,
    ensures
        active_file(Some(session)) == active_file(Some(other)),
{
}

/// Without a session, without an active tab, and with an active tab that does not exist, there is
/// no active file.
pub proof fn without_active_tab_there_is_no_file(session: SessionData)
    ensures
        active_file(None) is None,
        session.active_index is None ==> active_file(Some(session)) is None,
        session.active_index matches Some(index) ==> index >= session.tabs@.len() ==> active_file(
            Some(session),
        ) is None,
{
}

/// A root that does not end in a slash is its own key, in full, and slashes behind it do not change
/// that. So roots that differ in more than the slashes at their ends have different keys.
pub proof fn root_is_its_own_key(root: Seq<char>, other: Seq<char>, slashes: nat, others: nat)
    requires
        root.len() > 0 ==> root.last() != '/',
        other.len() > 0 ==> other.last() != '/',
    ensures
        session_key_of(root) == root,
        session_key_of(root + Seq::new(slashes, |i: int| '/')) == root,
        session_key_of(root + Seq::new(slashes, |i: int| '/')) == session_key_of(
            other + Seq::new(others, |i: int| '/'),
        ) <==> root == other,
{
    taking_off_the_end_gives_the_rest(root, '/', slashes);
    taking_off_the_end_gives_the_rest(other, '/', others);
    taking_off_the_end_gives_the_rest(root, '/', 0);
    assert(root + Seq::new(0, |i: int| '/') =~= root);
}

/// The key of any root is the root but for slashes at its end, so two roots have the same key only
/// where one is the other with more or fewer slashes behind it.
pub proof fn same_key_means_same_root(root: Seq<char>, other: Seq<char>)
    ensures
        ({
            let key = session_key_of(root);
            &&& key.len() <= root.len()
            &&& root.take(key.len() as int) == key
            &&& forall|i: int| key.len() <= i < root.len() ==> root[i] == '/'
        }),
        session_key_of(root) == session_key_of(other) && root.len() <= other.len() ==> other.take(
            root.len() as int,
        ) == root && (forall|i: int| root.len() <= i < other.len() ==> other[i] == '/'),
{
    only_the_character_is_taken_off(root, '/');
    only_the_character_is_taken_off(other, '/');
    if session_key_of(root) == session_key_of(other) && root.len() <= other.len() {
        let key = session_key_of(root);
        assert forall|i: int| 0 <= i < root.len() implies other.take(root.len() as int)[i]
            == root[i] by {
            if i < key.len() {
                assert(root.take(key.len() as int)[i] == root[i]);
                assert(other.take(key.len() as int)[i] == other[i]);
            }
        }
        assert(other.take(root.len() as int) =~= root);
    }
}

/// Saving and loading by the roots themselves. What was saved for a root is loaded for it, with
/// whatever slashes behind it at either time, and a session without tabs and without an active one
/// is loaded as none. For every other root what was kept before is loaded, also where only the end
/// of a long root differs.
pub proof fn each_root_has_its_own_session(
    sessions: Map<Seq<char>, SessionData>,
    root: Seq<char>,
    other: Seq<char>,
    session: SessionData,
    slashes: nat,
    more: nat,
)
    requires
        root.len() > 0 ==> root.last() != '/',
        other.len() > 0 ==> other.last() != '/',
        root != other,
    ensures
        ({
            let saved_by = root + Seq::new(slashes, |i: int| '/');
            let saved = with_session(sessions, saved_by, session);
            let loaded = session_of(saved, root + Seq::new(more, |i: int| '/'));
            let kept = session_of(saved, other + Seq::new(more, |i: int| '/'));
            &&& session.tabs@.len() > 0 || session.active_index is Some ==> loaded == Some(session)
            &&& session.tabs@.len() == 0 && session.active_index is None ==> loaded is None
            &&& sessions.contains_key(other) ==> kept == Some(sessions[other])
            &&& !sessions.contains_key(other) ==> kept is None
            &&& forall|key: Seq<char>|
                key != root ==> #[trigger] saved.contains_key(key) == sessions.contains_key(key)
            &&& forall|key: Seq<char>|
                key != root && sessions.contains_key(key) ==> #[trigger] saved[key] == sessions[key]
        }),
{
    root_is_its_own_key(root, other, slashes, more);
    root_is_its_own_key(root, other, more, more);
    root_is_its_own_key(other, root, more, slashes);
}

/// A list of entries stands for the map that has exactly their keys, and under each key the session
/// of the last entry with it. Keys differ when no two entries share one.
pub proof fn last_entry_of_a_key_counts(entries: Seq<SessionEntry>, key: Seq<char>)
    ensures
        keys_differ(entries) <==> (forall|i: int, j: int|
            0 <= i < j < entries.len() ==> (#[trigger] entries[i]).key@ != (
            #[trigger] entries[j]).key@),
        entries_map(entries).contains_key(key) <==> exists|i: int|
            0 <= i < entries.len() && (#[trigger] entries[i]).key@ == key,
        forall|i: int|
            0 <= i < entries.len() && (#[trigger] entries[i]).key@ == key && (forall|j: int|
                i < j < entries.len() ==> (#[trigger] entries[j]).key@ != key) ==> entries_map(
                entries,
            )[key] == entries[i].session,
    decreases entries.len(),
{
    if entries.len() > 0 {
        let rest = entries.drop_last();
        let n = entries.len() - 1;
        last_entry_of_a_key_counts(rest, key);
        if entries[n].key@ != key {
            if entries_map(rest).contains_key(key) {
                let i = choose|i: int| 0 <= i < rest.len() && (#[trigger] rest[i]).key@ == key;
                assert(entries[i].key@ == key);
            }
            if exists|i: int| 0 <= i < entries.len() && (#[trigger] entries[i]).key@ == key {
                let i = choose|i: int|
                    0 <= i < entries.len() && (#[trigger] entries[i]).key@ == key;
                assert(rest[i].key@ == key);
            }
            assert forall|i: int|
                0 <= i < entries.len() && (#[trigger] entries[i]).key@ == key && (forall|j: int|
                    i < j < entries.len() ==> (#[trigger] entries[j]).key@
                        != key) implies entries_map(entries)[key] == entries[i].session by {
                assert(rest[i].key@ == key);
                assert forall|j: int| i < j < rest.len() implies (#[trigger] rest[j]).key@
                    != key by {
                    assert(entries[j].key@ != key);
                }
            }
        } else {
            assert forall|i: int|
                0 <= i < entries.len() && (#[trigger] entries[i]).key@ == key && (forall|j: int|
                    i < j < entries.len() ==> (#[trigger] entries[j]).key@
                        != key) implies entries_map(entries)[key] == entries[i].session by {
                if i < n {
                    assert(entries[n].key@ != key);
                }
            }
        }
    }
}

} // verus!
