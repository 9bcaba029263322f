//! The workspace that a window shows, and the epoch that tells stale work from current work.

use vstd::prelude::*;

use crate::error::AppError;
use crate::error::ErrorView;
use crate::paths::PathView;
use crate::paths::WorkspacePath;
use crate::paths::same_paths_agree_in_every_component;

verus! {

/// The state of one window.
///
/// The epoch grows whenever the window turns to another workspace or file. Work that was begun
/// under an earlier epoch is stale.
#[derive(Debug)]
pub struct WorkspaceState {
    pub workspace_root: Option<WorkspacePath>,
    pub workspace_epoch: u64,
    pub standalone_file: Option<WorkspacePath>,
    pub index_ready: bool,
    pub file_index_revision: u64,
}

/// The mathematical content of a [`WorkspaceState`].
pub struct StateView {
    pub root: Option<PathView>,
    pub epoch: u64,
    pub standalone_file: Option<PathView>,
    pub index_ready: bool,
    pub file_index_revision: u64,
}

/// The mathematical content of an optional path.
pub open spec fn opt_path(path: Option<WorkspacePath>) -> Option<PathView> {
    match path {
        Some(path) => Some(path@),
        None => None,
    }
}

impl View for WorkspaceState {
    type V = StateView;

    open spec fn view(&self) -> StateView {
        StateView {
            root: opt_path(self.workspace_root),
            epoch: self.workspace_epoch,
            standalone_file: opt_path(self.standalone_file),
            index_ready: self.index_ready,
            file_index_revision: self.file_index_revision,
        }
    }
}

impl StateView {
    /// A window that has shown nothing yet.
    pub open spec fn initial() -> StateView {
        StateView {
            root: None,
            epoch: 0,
            standalone_file: None,
            index_ready: false,
            file_index_revision: 0,
        }
    }

    /// The paths that the window knows are well formed.
    pub open spec fn well_formed(self) -> bool {
        &&& self.root matches Some(root) ==> root.well_formed()
        &&& self.standalone_file matches Some(file) ==> file.well_formed()
    }

    /// The window still shows `root`, and has shown it without a break since `epoch`.
    pub open spec fn shows(self, root: PathView, epoch: u64) -> bool {
        &&& self.root matches Some(current)
        &&& current.same(root)
        &&& self.epoch == epoch
    }

    /// The window with its root replaced: a new epoch begins.
    pub open spec fn with_root(self, root: PathView) -> StateView {
        StateView { root: Some(root), epoch: (self.epoch + 1) as u64, ..self }
    }

    /// The window after it has turned to the workspace `root`.
    pub open spec fn turned_to(self, root: PathView) -> StateView {
        StateView { standalone_file: None, index_ready: false, ..self.with_root(root) }
    }

    /// The window after its workspace was closed: a new epoch begins.
    pub open spec fn closed(self) -> StateView {
        StateView { root: None, epoch: (self.epoch + 1) as u64, index_ready: false, ..self }
    }

    /// The window after it has turned to the single file `file`: a new epoch begins.
    pub open spec fn watching(self, file: PathView) -> StateView {
        StateView { epoch: (self.epoch + 1) as u64, standalone_file: Some(file), ..self }
    }

    /// The window after a fresh file index was put in place.
    pub open spec fn indexed(self) -> StateView {
        StateView {
            index_ready: true,
            file_index_revision: if self.file_index_revision == u64::MAX {
                0
            } else {
                (self.file_index_revision + 1) as u64
            },
            ..self
        }
    }
}

impl Default for WorkspaceState {
    fn default() -> (state: Self)
        ensures
            state@ == StateView::initial(),
    {
        WorkspaceState {
            workspace_root: None,
            workspace_epoch: 0,
            standalone_file: None,
            index_ready: false,
            file_index_revision: 0,
        }
    }
}

/// Whether the window is still in the epoch `captured`.
pub fn epoch_is_current(state: &WorkspaceState, captured: u64) -> (current: bool)
    ensures
        current == (state@.epoch == captured),
{
    state.workspace_epoch == captured
}

impl WorkspaceState {
    /// The root of the workspace and its epoch, if the window shows a workspace.
    pub fn workspace_snapshot(&self) -> (snapshot: Option<(WorkspacePath, u64)>)
        ensures
            match snapshot {
                Some((root, epoch)) => self@.root == Some(root@) && epoch == self@.epoch,
                None => self@.root is None,
            },
    {
        match &self.workspace_root {
            Some(root) => Some((root.clone(), self.workspace_epoch)),
            None => None,
        }
    }

    /// The snapshot, or the error that is reported where the window shows no workspace.
    pub fn require_workspace(&self) -> (snapshot: Result<(WorkspacePath, u64), AppError>)
        ensures
            match snapshot {
                Ok((root, epoch)) => self@.root == Some(root@) && epoch == self@.epoch,
                Err(error) => self@.root is None && error@ == ErrorView::NoWorkspace,
            },
    {
        match self.workspace_snapshot() {
            Some(snapshot) => Ok(snapshot),
            None => Err(AppError::NoWorkspace),
        }
    }

    /// Whether the window still shows `root`, and has shown it without a break since `epoch`.
    pub fn snapshot_is_current(&self, root: &WorkspacePath, epoch: u64) -> (current: bool)
        ensures
            current == self@.shows(root@, epoch),
    {
        match &self.workspace_root {
            Some(current) => current.same(root) && epoch_is_current(self, epoch),
            None => false,
        }
    }

    /// Puts `root` in the place of the window's root and returns the epoch that begins.
    pub fn replace_workspace_root(&mut self, root: WorkspacePath) -> (epoch: u64)
        requires
            old(self).workspace_epoch < u64::MAX,
        ensures
            final(self)@ == old(self)@.with_root(root@),
            epoch == old(self)@.epoch + 1,
    {
        self.workspace_root = Some(root);
        self.workspace_epoch = self.workspace_epoch + 1;
        self.workspace_epoch
    }

    /// Turns the window to the workspace `root` and returns the epoch that begins. What belonged
    /// to the workspace before is reset.
    pub fn transition_to_workspace(&mut self, root: WorkspacePath) -> (epoch: u64)
        requires
            old(self).workspace_epoch < u64::MAX,
        ensures
            final(self)@ == old(self)@.turned_to(root@),
            epoch == old(self)@.epoch + 1,
    {
        let epoch: u64 = self.replace_workspace_root(root);
        self.standalone_file = None;
        self.index_ready = false;
        epoch
    }

    /// Closes the workspace if the window still shows `root`; otherwise changes nothing.
    pub fn clear_workspace_if_current(&mut self, root: &WorkspacePath) -> (cleared: Result<(), ()>)
        requires
            old(self).workspace_epoch < u64::MAX,
        ensures
            match cleared {
                Ok(()) => old(self)@.shows(root@, old(self)@.epoch) && final(self)@ == old(
                    self,
                )@.closed(),
                Err(()) => !old(self)@.shows(root@, old(self)@.epoch) && *final(self) == *old(self),
            },
    {
        let current = match &self.workspace_root {
            Some(current) => current.same(root),
            None => false,
        };
        if !current {
            return Err(());
        }
        self.workspace_root = None;
        self.workspace_epoch = self.workspace_epoch + 1;
        self.index_ready = false;
        Ok(())
    }

    /// Marks the file index as ready and counts one revision more.
    pub fn index_replaced(&mut self)
        ensures
            final(self)@ == old(self)@.indexed(),
    {
        self.index_ready = true;
        if self.file_index_revision == u64::MAX {
            self.file_index_revision = 0;
        } else {
            self.file_index_revision = self.file_index_revision + 1;
        }
    }
}

/// The changes by which a window leaves what it shows.
pub enum Turn {
    Root(PathView),
    Workspace(PathView),
    Close,
    File(PathView),
}

/// The window after one such change.
pub open spec fn after_turn(state: StateView, turn: Turn) -> StateView {
    match turn {
        Turn::Root(root) => state.with_root(root),
        Turn::Workspace(root) => state.turned_to(root),
        Turn::Close => state.closed(),
        Turn::File(file) => state.watching(file),
    }
}

/// The window after several such changes.
pub open spec fn after_turns(state: StateView, turns: Seq<Turn>) -> StateView
    decreases turns.len(),
{
    if turns.len() == 0 {
        state
    } else {
        after_turn(after_turns(state, turns.drop_last()), turns.last())
    }
}

/// A snapshot stays stale once the window has turned away, even if it turns back to the same
/// root: no later epoch equals an earlier one.
pub proof fn snapshot_stays_stale_after_any_turn(state: StateView, turns: Seq<Turn>, root: PathView)
    requires
        turns.len() > 0,
        state.epoch + turns.len() <= u64::MAX,
    ensures
        after_turns(state, turns).epoch == state.epoch + turns.len(),
        !after_turns(state, turns).shows(root, state.epoch),
    decreases turns.len(),
{
    if turns.len() > 1 {
        snapshot_stays_stale_after_any_turn(state, turns.drop_last(), root);
    } else {
        assert(after_turns(state, turns.drop_last()) == state);
    }
}

/// Whatever well-formed path a window turns to, and when its workspace is closed or indexed, its
/// paths stay well formed. Those of a new window are.
pub proof fn turns_keep_the_state_well_formed(state: StateView, turn: Turn)
    requires
        state.well_formed(),
        match turn {
            Turn::Root(path) => path.well_formed(),
            Turn::Workspace(path) => path.well_formed(),
            Turn::File(path) => path.well_formed(),
            Turn::Close => true,
        },
    ensures
        after_turn(state, turn).well_formed(),
        state.indexed().well_formed(),
        StateView::initial().well_formed(),
{
}

/// A fresh file index leaves every snapshot as it was, current or stale.
pub proof fn indexing_keeps_snapshots(state: StateView, root: PathView, epoch: u64)
    ensures
        state.indexed().shows(root, epoch) == state.shows(root, epoch),
        state.indexed().index_ready,
{
}

/// The content of a window's state is all that is in it.
pub proof fn state_content_is_the_whole_state(state: WorkspaceState)
    ensures
        state@.epoch == state.workspace_epoch,
        state@.index_ready == state.index_ready,
        state@.file_index_revision == state.file_index_revision,
        state.workspace_root is None <==> state@.root is None,
        state.workspace_root matches Some(root) ==> state@.root == Some(root@),
        state.standalone_file is None <==> state@.standalone_file is None,
        state.standalone_file matches Some(file) ==> state@.standalone_file == Some(file@),
{
}

/// A window shows its own root, by whatever text that is written, in its own epoch, and nothing
/// else: no other path, in no other epoch, and nothing at all without a root.
pub proof fn window_shows_its_root_in_its_epoch(state: StateView, path: PathView, epoch: u64)
    ensures
        state.root is None ==> !state.shows(path, epoch),
        state.root matches Some(root) ==> (state.shows(path, epoch) <==> epoch == state.epoch
            && root.components.len() == path.components.len() && (forall|i: int|
            0 <= i < root.components.len() ==> (#[trigger] root.components[i]).kind
                == path.components[i].kind && root.components[i].encoded
                == path.components[i].encoded)),
{
    if let Some(root) = state.root {
        same_paths_agree_in_every_component(root, path);
    }
}

/// What a turn changes, and what it leaves: the epoch always grows by one. A root that is replaced
/// changes nothing else. A window that turns to a workspace forgets its file and its index. One
/// that is closed has no root and no index any more. One that turns to a file keeps its root and
/// its index. The count of revisions is never touched.
pub proof fn turns_change_this_and_no_more(state: StateView, path: PathView)
    requires
        state.epoch < u64::MAX,
    ensures
        ({
            let replaced = state.with_root(path);
            &&& replaced.root == Some(path)
            &&& replaced.epoch == state.epoch + 1
            &&& replaced.standalone_file == state.standalone_file
            &&& replaced.index_ready == state.index_ready
            &&& replaced.file_index_revision == state.file_index_revision
        }),
        ({
            let turned = state.turned_to(path);
            &&& turned.root == Some(path)
            &&& turned.epoch == state.epoch + 1
            &&& turned.standalone_file is None
            &&& !turned.index_ready
            &&& turned.file_index_revision == state.file_index_revision
        }),
        ({
            let closed = state.closed();
            &&& closed.root is None
            &&& closed.epoch == state.epoch + 1
            &&& closed.standalone_file == state.standalone_file
            &&& !closed.index_ready
            &&& closed.file_index_revision == state.file_index_revision
        }),
        ({
            let watching = state.watching(path);
            &&& watching.root == state.root
            &&& watching.epoch == state.epoch + 1
            &&& watching.standalone_file == Some(path)
            &&& watching.index_ready == state.index_ready
            &&& watching.file_index_revision == state.file_index_revision
        }),
{
}

/// A fresh index makes the index ready and the revision another one than before, the next one as
/// long as there is a next. Nothing else changes.
pub proof fn fresh_index_is_the_next_revision(state: StateView)
    ensures
        ({
            let indexed = state.indexed();
            &&& indexed.index_ready
            &&& indexed.file_index_revision != state.file_index_revision
            &&& state.file_index_revision < u64::MAX ==> indexed.file_index_revision
                == state.file_index_revision + 1
            &&& state.file_index_revision == u64::MAX ==> indexed.file_index_revision == 0
            &&& indexed.root == state.root
            &&& indexed.epoch == state.epoch
            &&& indexed.standalone_file == state.standalone_file
        }),
{
}

/// A new window shows nothing, has no index, and is in its first epoch.
pub proof fn new_window_shows_nothing(path: PathView, epoch: u64)
    ensures
        ({
            let new = StateView::initial();
            &&& new.root is None && new.standalone_file is None
            &&& new.epoch == 0 && new.file_index_revision == 0 && !new.index_ready
            &&& !new.shows(path, epoch)
        }),
{
}

/// Each kind of turn is the change that it is named after, and several turns are made one after
/// the other.
pub proof fn turns_are_made_in_order(state: StateView, turns: Seq<Turn>, last: Turn, path: PathView)
    ensures
        after_turns(state, Seq::empty()) == state,
        after_turns(state, turns.push(last)) == after_turn(after_turns(state, turns), last),
        after_turn(state, Turn::Root(path)) == state.with_root(path),
        after_turn(state, Turn::Workspace(path)) == state.turned_to(path),
        after_turn(state, Turn::Close) == state.closed(),
        after_turn(state, Turn::File(path)) == state.watching(path),
{
    assert(turns.push(last).drop_last() =~= turns);
}

} // verus!
