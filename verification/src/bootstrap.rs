//! What happens in the background after a workspace was opened: a file watcher is started, the
//! ignore rules are loaded and the files are indexed.
//!
//! Each step takes time, and the window may have turned elsewhere meanwhile. What a step has made
//! is put in place only while the window still shows the workspace for which it was made.

use vstd::prelude::*;
use vstd::string::*;

use crate::paths::PathView;
use crate::paths::WorkspacePath;
use crate::state::StateView;
use crate::state::Turn;
use crate::state::WorkspaceState;
use crate::state::after_turns;
use crate::state::epoch_is_current;
use crate::state::snapshot_stays_stale_after_any_turn;
use crate::window::Discarded;
use crate::window::Window;
use crate::window::WindowView;
use crate::window::WorkspaceIndex;
use crate::window::nothing_discarded;

verus! {

/// The event that tells a window of a change in a directory.
pub const DIRECTORY_CHANGED_EVENT: &'static str = "fs:directory-changed";

/// The event that tells a window that its files are indexed.
pub const INDEX_COMPLETE_EVENT: &'static str = "index:complete";

/// The workspace that an event belongs to.
#[derive(Clone, Debug)]
pub struct WorkspaceIdentity {
    pub root: String,
    pub epoch: u64,
}

/// A change on disk.
#[derive(Clone, Debug)]
pub struct FileChangeEvent {
    pub path: String,
    pub kind: String,
    pub workspace: Option<WorkspaceIdentity>,
}

/// The files of a workspace are indexed.
#[derive(Clone, Debug)]
pub struct IndexCompleteEvent {
    pub workspace: WorkspaceIdentity,
    pub file_count: usize,
}

/// How far the work has come.
#[derive(Clone, Copy, Debug, PartialEq, Eq, Structural)]
pub enum BootstrapPhase {
    Opened,
    StartingWatcher,
    LoadingIgnore,
    WalkingTree,
    Ended,
}

/// The background work for one workspace.
#[derive(Debug)]
pub struct Bootstrap {
    pub root: WorkspacePath,
    pub epoch: u64,
    pub phase: BootstrapPhase,
}

/// What came of the last action, with what it has made.
#[derive(Debug)]
pub enum BootstrapEvent<W, G, F, D> {
    Begin,
    WatcherStarted(W),
    WatcherFailed(String),
    IgnoreLoaded(G),
    /// The tree was walked, or the walk was cancelled on the way.
    TreeWalked { cancelled: bool, index: WorkspaceIndex<F, D> },
}

/// What to do next.
#[derive(Debug)]
pub enum BootstrapAction {
    StartWatcher,
    LoadIgnore,
    /// Report this message, then load the ignore rules.
    ReportWatcherFailure(String),
    /// Tell the window that its directory has changed, then walk the tree.
    AnnounceChange(FileChangeEvent),
    /// Tell the window that its files are indexed. The work is done.
    AnnounceIndex(IndexCompleteEvent),
    /// Do nothing more.
    Stop,
}

/// The mathematical content of a [`WorkspaceIdentity`].
pub struct IdentityView {
    pub root: Seq<char>,
    pub epoch: u64,
}

/// The mathematical content of a [`BootstrapEvent`].
pub enum BootstrapEventView<W, G, F, D> {
    Begin,
    WatcherStarted(W),
    WatcherFailed(Seq<char>),
    IgnoreLoaded(G),
    TreeWalked { cancelled: bool, index: WorkspaceIndex<F, D> },
}

/// The mathematical content of a [`BootstrapAction`].
pub enum BootstrapActionView {
    StartWatcher,
    LoadIgnore,
    ReportWatcherFailure(Seq<char>),
    AnnounceChange { path: Seq<char>, kind: Seq<char>, owner: Option<IdentityView> },
    AnnounceIndex { workspace: IdentityView, file_count: nat },
    Stop,
}

/// The mathematical content of a [`Bootstrap`].
pub struct BootstrapView {
    pub root: PathView,
    pub epoch: u64,
    pub phase: BootstrapPhase,
}

impl View for WorkspaceIdentity {
    type V = IdentityView;

    open spec fn view(&self) -> IdentityView {
        IdentityView { root: self.root@, epoch: self.epoch }
    }
}

impl<W, G, F, D> View for BootstrapEvent<W, G, F, D> {
    type V = BootstrapEventView<W, G, F, D>;

    open spec fn view(&self) -> BootstrapEventView<W, G, F, D> {
        match *self {
            BootstrapEvent::Begin => BootstrapEventView::Begin,
            BootstrapEvent::WatcherStarted(watcher) => BootstrapEventView::WatcherStarted(watcher),
            BootstrapEvent::WatcherFailed(text) => BootstrapEventView::WatcherFailed(text@),
            BootstrapEvent::IgnoreLoaded(ignore) => BootstrapEventView::IgnoreLoaded(ignore),
            BootstrapEvent::TreeWalked { cancelled, index } => BootstrapEventView::TreeWalked {
                cancelled,
                index,
            },
        }
    }
}

impl View for BootstrapAction {
    type V = BootstrapActionView;

    open spec fn view(&self) -> BootstrapActionView {
        match self {
            BootstrapAction::StartWatcher => BootstrapActionView::StartWatcher,
            BootstrapAction::LoadIgnore => BootstrapActionView::LoadIgnore,
            BootstrapAction::ReportWatcherFailure(
                text,
            ) => BootstrapActionView::ReportWatcherFailure(text@),
            BootstrapAction::AnnounceChange(event) => BootstrapActionView::AnnounceChange {
                path: event.path@,
                kind: event.kind@,
                owner: match event.workspace {
                    Some(workspace) => Some(workspace@),
                    None => None,
                },
            },
            BootstrapAction::AnnounceIndex(event) => BootstrapActionView::AnnounceIndex {
                workspace: event.workspace@,
                file_count: event.file_count as nat,
            },
            BootstrapAction::Stop => BootstrapActionView::Stop,
        }
    }
}

impl View for Bootstrap {
    type V = BootstrapView;

    open spec fn view(&self) -> BootstrapView {
        BootstrapView { root: self.root@, epoch: self.epoch, phase: self.phase }
    }
}

impl BootstrapView {
    /// The events that can follow the last action.
    pub open spec fn expects<W, G, F, D>(self, event: BootstrapEventView<W, G, F, D>) -> bool {
        match event {
            BootstrapEventView::Begin => self.phase == BootstrapPhase::Opened,
            BootstrapEventView::WatcherStarted(_) => self.phase == BootstrapPhase::StartingWatcher,
            BootstrapEventView::WatcherFailed(_) => self.phase == BootstrapPhase::StartingWatcher,
            BootstrapEventView::IgnoreLoaded(_) => self.phase == BootstrapPhase::LoadingIgnore,
            BootstrapEventView::TreeWalked { .. } => self.phase == BootstrapPhase::WalkingTree,
        }
    }

    /// The workspace that the work is for.
    pub open spec fn identity(self) -> IdentityView {
        IdentityView { root: self.root.text, epoch: self.epoch }
    }

    /// What is done after an event, with the window as it is then.
    pub open spec fn action_after<W, G, F, D>(
        self,
        state: StateView,
        event: BootstrapEventView<W, G, F, D>,
    ) -> BootstrapActionView {
        let current = state.shows(self.root, self.epoch);
        match event {
            BootstrapEventView::Begin => if state.epoch == self.epoch {
                BootstrapActionView::StartWatcher
            } else {
                BootstrapActionView::Stop
            },
            BootstrapEventView::WatcherStarted(_) => if current {
                BootstrapActionView::LoadIgnore
            } else {
                BootstrapActionView::Stop
            },
            BootstrapEventView::WatcherFailed(
                text,
            ) => BootstrapActionView::ReportWatcherFailure("Failed to start file watcher: "@ + text),
            BootstrapEventView::IgnoreLoaded(_) => if current {
                BootstrapActionView::AnnounceChange {
                    path: self.root.text,
                    kind: "modified"@,
                    owner: Some(self.identity()),
                }
            } else {
                BootstrapActionView::Stop
            },
            BootstrapEventView::TreeWalked { cancelled, index } => if current && !cancelled {
                BootstrapActionView::AnnounceIndex {
                    workspace: self.identity(),
                    file_count: index.files@.len(),
                }
            } else {
                BootstrapActionView::Stop
            },
        }
    }

    /// How far the work has come once an action is chosen.
    pub open spec fn advanced(self, action: BootstrapActionView) -> BootstrapView {
        BootstrapView {
            phase: match action {
                BootstrapActionView::StartWatcher => BootstrapPhase::StartingWatcher,
                BootstrapActionView::LoadIgnore => BootstrapPhase::LoadingIgnore,
                BootstrapActionView::ReportWatcherFailure(_) => BootstrapPhase::LoadingIgnore,
                BootstrapActionView::AnnounceChange { .. } => BootstrapPhase::WalkingTree,
                BootstrapActionView::AnnounceIndex { .. } => BootstrapPhase::Ended,
                BootstrapActionView::Stop => BootstrapPhase::Ended,
            },
            ..self
        }
    }

    /// The work after an event.
    pub open spec fn after<W, G, F, D>(
        self,
        state: StateView,
        event: BootstrapEventView<W, G, F, D>,
    ) -> BootstrapView {
        self.advanced(self.action_after(state, event))
    }

    /// Whether what an event has made is put in place.
    pub open spec fn installs<W, G, F, D>(
        self,
        state: StateView,
        event: BootstrapEventView<W, G, F, D>,
    ) -> bool {
        let current = state.shows(self.root, self.epoch);
        match event {
            BootstrapEventView::WatcherStarted(_) => current,
            BootstrapEventView::IgnoreLoaded(_) => current,
            BootstrapEventView::TreeWalked { cancelled, .. } => current && !cancelled,
            _ => false,
        }
    }

    /// The window after an event: what was made is put in place, or the window stays as it was.
    pub open spec fn window_after<W, G, F, D, C, K>(
        self,
        window: WindowView<W, G, F, D, C, K>,
        event: BootstrapEventView<W, G, F, D>,
    ) -> WindowView<W, G, F, D, C, K> {
        if !self.installs(window.state, event) {
            window
        } else {
            match event {
                BootstrapEventView::WatcherStarted(watcher) => window.with_watcher(watcher),
                BootstrapEventView::IgnoreLoaded(ignore) => window.with_ignore(ignore),
                BootstrapEventView::TreeWalked { index, .. } => window.with_index(index),
                _ => window,
            }
        }
    }

    /// What is to be dropped after an event: what was displaced, or what was made in vain.
    pub open spec fn discarded_after<W, G, F, D, C, K>(
        self,
        window: WindowView<W, G, F, D, C, K>,
        event: BootstrapEventView<W, G, F, D>,
    ) -> Discarded<W, G, F, D, C> {
        let installs = self.installs(window.state, event);
        let nothing = nothing_discarded::<W, G, F, D, C>();
        match event {
            BootstrapEventView::WatcherStarted(watcher) => Discarded {
                watcher: if installs {
                    window.watcher
                } else {
                    Some(watcher)
                },
                ..nothing
            },
            BootstrapEventView::IgnoreLoaded(ignore) => Discarded {
                ignore: if installs {
                    window.ignore
                } else {
                    Some(ignore)
                },
                ..nothing
            },
            BootstrapEventView::TreeWalked { index, .. } => if installs {
                Discarded { index: window.index, recent_files: window.recent_files, ..nothing }
            } else {
                Discarded { index: Some(index), ..nothing }
            },
            _ => nothing,
        }
    }
}

/// The background work for a workspace, before its first event.
pub open spec fn begun_work(root: PathView, epoch: u64) -> BootstrapView {
    BootstrapView { root, epoch, phase: BootstrapPhase::Opened }
}

impl Bootstrap {
    /// The background work for the workspace `root`, opened in `epoch`.
    pub fn new(root: WorkspacePath, epoch: u64) -> (bootstrap: Bootstrap)
        ensures
            bootstrap@ == begun_work(root@, epoch),
    {
        Bootstrap { root, epoch, phase: BootstrapPhase::Opened }
    }

    fn identity(&self) -> (identity: WorkspaceIdentity)
        ensures
            identity@ == self@.identity(),
    {
        WorkspaceIdentity { root: self.root.text.clone(), epoch: self.epoch }
    }

    fn choose_action<W, G, F, D>(
        &self,
        state: &WorkspaceState,
        event: &BootstrapEvent<W, G, F, D>,
    ) -> (action: BootstrapAction)
        ensures
            action@ == self@.action_after(state@, event@),
    {
        match event {
            BootstrapEvent::Begin => if epoch_is_current(state, self.epoch) {
                BootstrapAction::StartWatcher
            } else {
                BootstrapAction::Stop
            },
            BootstrapEvent::WatcherStarted(_) => {
                if state.snapshot_is_current(&self.root, self.epoch) {
                    BootstrapAction::LoadIgnore
                } else {
                    BootstrapAction::Stop
                }
            },
            BootstrapEvent::WatcherFailed(text) => BootstrapAction::ReportWatcherFailure(
                "Failed to start file watcher: ".to_owned().concat(text.as_str()),
            ),
            BootstrapEvent::IgnoreLoaded(_) => {
                if state.snapshot_is_current(&self.root, self.epoch) {
                    BootstrapAction::AnnounceChange(
                        FileChangeEvent {
                            path: self.root.text.clone(),
                            kind: "modified".to_owned(),
                            workspace: Some(self.identity()),
                        },
                    )
                } else {
                    BootstrapAction::Stop
                }
            },
            BootstrapEvent::TreeWalked { cancelled, index } => {
                if *cancelled || !state.snapshot_is_current(&self.root, self.epoch) {
                    BootstrapAction::Stop
                } else {
                    BootstrapAction::AnnounceIndex(
                        IndexCompleteEvent {
                            workspace: self.identity(),
                            file_count: index.files.len(),
                        },
                    )
                }
            },
        }
    }

    /// Takes what came of the last action and puts what it has made in place, if the window still
    /// shows the workspace for which it was made. Says what to do next and hands out what is to be
    /// dropped.
    pub fn step<W, G, F, D, C, K>(
        &mut self,
        window: &mut Window<W, G, F, D, C, K>,
        event: BootstrapEvent<W, G, F, D>,
    ) -> (taken: (BootstrapAction, Discarded<W, G, F, D, C>))
        requires
            old(self)@.expects(event@),
        ensures
            taken.0@ == old(self)@.action_after(old(window)@.state, event@),
            taken.1 == old(self)@.discarded_after(old(window)@, event@),
            final(self)@ == old(self)@.after(old(window)@.state, event@),
            final(window)@ == old(self)@.window_after(old(window)@, event@),
    {
        let action = self.choose_action(&window.state, &event);
        self.phase = match &action {
            BootstrapAction::StartWatcher => BootstrapPhase::StartingWatcher,
            BootstrapAction::LoadIgnore => BootstrapPhase::LoadingIgnore,
            BootstrapAction::ReportWatcherFailure(_) => BootstrapPhase::LoadingIgnore,
            BootstrapAction::AnnounceChange(_) => BootstrapPhase::WalkingTree,
            BootstrapAction::AnnounceIndex(_) => BootstrapPhase::Ended,
            BootstrapAction::Stop => BootstrapPhase::Ended,
        };
        let stopped = match &action {
            BootstrapAction::Stop => true,
            _ => false,
        };
        let mut discarded = Discarded::nothing();
        match event {
            BootstrapEvent::WatcherStarted(watcher) => if stopped {
                discarded.watcher = Some(watcher);
            } else {
                discarded.watcher = window.install_watcher(watcher);
            },
            BootstrapEvent::IgnoreLoaded(ignore) => if stopped {
                discarded.ignore = Some(ignore);
            } else {
                discarded.ignore = window.install_ignore(ignore);
            },
            BootstrapEvent::TreeWalked { index, .. } => if stopped {
                discarded.index = Some(index);
            } else {
                let (index, recent_files) = window.install_index(index);
                discarded.index = index;
                discarded.recent_files = recent_files;
            },
            _ => {},
        }
        (action, discarded)
    }
}

/// Nothing is put in place and nothing is announced for a workspace that the window has left: the
/// window stays as it was, and what was made is dropped.
pub proof fn stale_work_is_dropped<W, G, F, D, C, K>(
    work: BootstrapView,
    window: WindowView<W, G, F, D, C, K>,
    event: BootstrapEventView<W, G, F, D>,
)
    requires
        work.expects(event),
        !window.state.shows(work.root, work.epoch),
    ensures
        ({
            let action = work.action_after(window.state, event);
            let discarded = work.discarded_after(window, event);
            &&& action !is AnnounceChange
            &&& action !is AnnounceIndex
            &&& work.window_after(window, event) == window
            &&& event matches BootstrapEventView::WatcherStarted(watcher) ==> discarded.watcher
                == Some(watcher)
            &&& event matches BootstrapEventView::IgnoreLoaded(ignore) ==> discarded.ignore == Some(
                ignore,
            )
            &&& event matches BootstrapEventView::TreeWalked { index, .. } ==> discarded.index
                == Some(index)
        }),
{
}

/// Once the window has turned elsewhere, however often and even if back to the same root, nothing
/// more is put in place or announced for the workspace that it has left.
pub proof fn left_workspace_gets_nothing<W, G, F, D, C, K>(
    work: BootstrapView,
    state: StateView,
    turns: Seq<Turn>,
    later: WindowView<W, G, F, D, C, K>,
    event: BootstrapEventView<W, G, F, D>,
)
    requires
        state.epoch == work.epoch,
        turns.len() > 0,
        state.epoch + turns.len() <= u64::MAX,
        later.state == after_turns(state, turns),
        work.expects(event),
    ensures
        ({
            let action = work.action_after(later.state, event);
            &&& action is Stop || action is ReportWatcherFailure
            &&& work.window_after(later, event) == later
        }),
{
    snapshot_stays_stale_after_any_turn(state, turns, work.root);
}

/// A walk that was cancelled leaves no trace.
pub proof fn cancelled_walk_is_dropped<W, G, F, D, C, K>(
    work: BootstrapView,
    window: WindowView<W, G, F, D, C, K>,
    index: WorkspaceIndex<F, D>,
)
    requires
        work.phase == BootstrapPhase::WalkingTree,
    ensures
        ({
            let event = BootstrapEventView::<W, G, F, D>::TreeWalked { cancelled: true, index };
            &&& work.action_after(window.state, event) is Stop
            &&& work.window_after(window, event) == window
            &&& work.discarded_after(window, event).index == Some(index)
        }),
{
}

/// Work whose window does not turn elsewhere comes to its end, whether or not the watcher could be
/// started: the window then holds the ignore rules that were loaded and the very index that was
/// walked, a revision further and ready, without the recent files of an index before. It was told
/// first of the change of its directory, then of the index with the number of its files.
pub proof fn undisturbed_work_completes<W, G, F, D, C, K>(
    work: BootstrapView,
    window: WindowView<W, G, F, D, C, K>,
    started: Result<W, Seq<char>>,
    ignore: G,
    index: WorkspaceIndex<F, D>,
)
    requires
        work.phase == BootstrapPhase::Opened,
        window.state.shows(work.root, work.epoch),
    ensures
        ({
            let begin = BootstrapEventView::<W, G, F, D>::Begin;
            let watcher = match started {
                Ok(watcher) => BootstrapEventView::<W, G, F, D>::WatcherStarted(watcher),
                Err(text) => BootstrapEventView::<W, G, F, D>::WatcherFailed(text),
            };
            let loaded = BootstrapEventView::<W, G, F, D>::IgnoreLoaded(ignore);
            let walked = BootstrapEventView::<W, G, F, D>::TreeWalked { cancelled: false, index };
            let starting = work.after(window.state, begin);
            let window1 = work.window_after(window, begin);
            let loading = starting.after(window1.state, watcher);
            let window2 = starting.window_after(window1, watcher);
            let walking = loading.after(window2.state, loaded);
            let window3 = loading.window_after(window2, loaded);
            let ended = walking.after(window3.state, walked);
            let window4 = walking.window_after(window3, walked);
            &&& work.expects(begin) && starting.expects(watcher)
            &&& loading.expects(loaded) && walking.expects(walked)
            &&& loading.action_after(window2.state, loaded)
                == (BootstrapActionView::AnnounceChange {
                path: work.root.text,
                kind: "modified"@,
                owner: Some(work.identity()),
            })
            &&& walking.action_after(window3.state, walked) == (BootstrapActionView::AnnounceIndex {
                workspace: work.identity(),
                file_count: index.files@.len(),
            })
            &&& ended.phase == BootstrapPhase::Ended
            &&& window4.ignore == Some(ignore)
            &&& window4.index == Some(index)
            &&& window4.recent_files is None
            &&& window4.watcher == match started {
                Ok(watcher) => Some(watcher),
                Err(_) => window.watcher,
            }
            &&& window4.walk == window.walk
            &&& window4.state == window.state.indexed()
            &&& window4.state.index_ready
        }),
{
}

/// A watcher, ignore rules or an index are put in place only for the very workspace that the
/// window shows, and are announced under its root and epoch.
pub proof fn only_the_shown_workspace_is_announced<W, G, F, D, C, K>(
    work: BootstrapView,
    window: WindowView<W, G, F, D, C, K>,
    event: BootstrapEventView<W, G, F, D>,
)
    ensures
        work.window_after(window, event) != window ==> window.state.shows(work.root, work.epoch),
        match work.action_after(window.state, event) {
            BootstrapActionView::AnnounceChange { path, owner, .. } => {
                &&& window.state.shows(work.root, work.epoch)
                &&& path == work.root.text
                &&& owner == Some(work.identity())
            },
            BootstrapActionView::AnnounceIndex { workspace, .. } => {
                &&& window.state.shows(work.root, work.epoch)
                &&& workspace == work.identity()
                &&& workspace.epoch == window.state.epoch
            },
            _ => true,
        },
{
}

/// The content of background work, of its events and of its actions is all that is in them.
pub proof fn bootstrap_content_is_the_whole_of_it<W, G, F, D>(
    work: Bootstrap,
    event: BootstrapEvent<W, G, F, D>,
    action: BootstrapAction,
    identity: WorkspaceIdentity,
)
    ensures
        work@.root == work.root@ && work@.epoch == work.epoch && work@.phase == work.phase,
        identity@.root == identity.root@ && identity@.epoch == identity.epoch,
        event is Begin ==> event@ is Begin,
        event matches BootstrapEvent::WatcherStarted(watcher) ==> event@
            == BootstrapEventView::<W, G, F, D>::WatcherStarted(watcher),
        event matches BootstrapEvent::WatcherFailed(text) ==> event@
            == BootstrapEventView::<W, G, F, D>::WatcherFailed(text@),
        event matches BootstrapEvent::IgnoreLoaded(ignore) ==> event@
            == BootstrapEventView::<W, G, F, D>::IgnoreLoaded(ignore),
        event matches BootstrapEvent::TreeWalked { cancelled, index } ==> event@
            == (BootstrapEventView::<W, G, F, D>::TreeWalked { cancelled, index }),
        action is StartWatcher <==> action@ is StartWatcher,
        action is LoadIgnore <==> action@ is LoadIgnore,
        action is Stop <==> action@ is Stop,
        action matches BootstrapAction::ReportWatcherFailure(text) ==> action@
            == BootstrapActionView::ReportWatcherFailure(text@),
        action matches BootstrapAction::AnnounceChange(change) ==> {
            &&& action@ is AnnounceChange
            &&& action@->path == change.path@
            &&& action@->kind == change.kind@
            &&& change.workspace is None <==> action@->owner is None
            &&& change.workspace matches Some(owner) ==> action@->owner == Some(owner@)
        },
        action matches BootstrapAction::AnnounceIndex(complete) ==> {
            &&& action@ is AnnounceIndex
            &&& action@->workspace == complete.workspace@
            &&& action@->file_count == complete.file_count
        },
{
}

/// Background work begins with its first event, for the root and the epoch that it was begun for,
/// and goes under the text of that root in that epoch.
pub proof fn work_begins_with_its_first_event<W, G, F, D>(
    root: PathView,
    epoch: u64,
    event: BootstrapEventView<W, G, F, D>,
)
    ensures
        ({
            let work = begun_work(root, epoch);
            &&& work.root == root && work.epoch == epoch
            &&& work.expects(event) <==> event is Begin
            &&& work.identity().root == root.text
            &&& work.identity().epoch == epoch
        }),
{
}

/// The steps follow each other: first the watcher is started, then the ignore rules are loaded,
/// whether or not it has started, then the tree is walked, then the work has ended. Work that is
/// stopped has ended. Root and epoch never change. After the end no event is expected.
pub proof fn steps_follow_each_other<W, G, F, D>(
    work: BootstrapView,
    action: BootstrapActionView,
    event: BootstrapEventView<W, G, F, D>,
)
    ensures
        ({
            let next = work.advanced(action);
            &&& next.root == work.root && next.epoch == work.epoch
            &&& action is StartWatcher ==> (next.expects(event) <==> event is WatcherStarted
                || event is WatcherFailed)
            &&& action is LoadIgnore || action is ReportWatcherFailure ==> (next.expects(event)
                <==> event is IgnoreLoaded)
            &&& action is AnnounceChange ==> (next.expects(event) <==> event is TreeWalked)
            &&& action is AnnounceIndex || action is Stop ==> !next.expects(event)
            &&& next.phase == BootstrapPhase::Ended <==> action is AnnounceIndex || action is Stop
        }),
{
}

/// An event advances the work by the action that it leads to.
pub proof fn events_advance_the_work<W, G, F, D>(
    work: BootstrapView,
    state: StateView,
    event: BootstrapEventView<W, G, F, D>,
)
    ensures
        work.after(state, event) == work.advanced(work.action_after(state, event)),
{
}

/// Current work goes on. It begins wherever the epoch is still the one it was begun for, and is
/// stopped elsewhere. A watcher that has started and rules that were loaded are put in place, and
/// the rules are announced as a change of the root; an index that was walked to the end is put in
/// place and announced with the number of its files. What was there before is dropped with it, the
/// recent files with the index. A watcher that has not started is reported and changes nothing.
pub proof fn current_work_goes_on<W, G, F, D, C, K>(
    work: BootstrapView,
    window: WindowView<W, G, F, D, C, K>,
    watcher: W,
    failure: Seq<char>,
    ignore: G,
    index: WorkspaceIndex<F, D>,
)
    ensures
        ({
            let begin = BootstrapEventView::<W, G, F, D>::Begin;
            let failed = BootstrapEventView::<W, G, F, D>::WatcherFailed(failure);
            let report = "Failed to start file watcher: "@;
            let action = work.action_after(window.state, failed);
            &&& work.action_after(window.state, begin) == if window.state.epoch == work.epoch {
                BootstrapActionView::StartWatcher
            } else {
                BootstrapActionView::Stop
            }
            &&& work.window_after(window, begin) == window
            &&& work.discarded_after(window, begin) == nothing_discarded::<W, G, F, D, C>()
            &&& action is ReportWatcherFailure
            &&& action->ReportWatcherFailure_0.len() == report.len() + failure.len()
            &&& action->ReportWatcherFailure_0.take(report.len() as int) == report
            &&& action->ReportWatcherFailure_0.skip(report.len() as int) == failure
            &&& work.window_after(window, failed) == window
            &&& work.discarded_after(window, failed) == nothing_discarded::<W, G, F, D, C>()
        }),
        window.state.shows(work.root, work.epoch) ==> {
            let started = BootstrapEventView::<W, G, F, D>::WatcherStarted(watcher);
            let loaded = BootstrapEventView::<W, G, F, D>::IgnoreLoaded(ignore);
            let walked = BootstrapEventView::<W, G, F, D>::TreeWalked { cancelled: false, index };
            let change = work.action_after(window.state, loaded);
            let complete = work.action_after(window.state, walked);
            &&& work.action_after(window.state, started) is LoadIgnore
            &&& work.window_after(window, started) == window.with_watcher(watcher)
            &&& work.discarded_after(window, started).watcher == window.watcher
            &&& work.discarded_after(window, started).ignore is None
            &&& work.discarded_after(window, started).index is None
            &&& work.discarded_after(window, started).recent_files is None
            &&& change is AnnounceChange
            &&& change->path == work.root.text && change->kind == "modified"@
            &&& change->owner == Some(work.identity())
            &&& work.window_after(window, loaded) == window.with_ignore(ignore)
            &&& work.discarded_after(window, loaded).ignore == window.ignore
            &&& work.discarded_after(window, loaded).watcher is None
            &&& work.discarded_after(window, loaded).index is None
            &&& work.discarded_after(window, loaded).recent_files is None
            &&& complete is AnnounceIndex
            &&& complete->workspace == work.identity()
            &&& complete->file_count == index.files@.len()
            &&& work.window_after(window, walked) == window.with_index(index)
            &&& work.discarded_after(window, walked).index == window.index
            &&& work.discarded_after(window, walked).recent_files == window.recent_files
            &&& work.discarded_after(window, walked).watcher is None
            &&& work.discarded_after(window, walked).ignore is None
        },
{
    let report = "Failed to start file watcher: "@;
    assert((report + failure).take(report.len() as int) =~= report);
    assert((report + failure).skip(report.len() as int) =~= failure);
}

/// Stale work is stopped at its next event, and only a watcher that has not started is reported
/// first. Nothing but what was made in vain is dropped with it.
pub proof fn stale_work_is_stopped<W, G, F, D, C, K>(
    work: BootstrapView,
    window: WindowView<W, G, F, D, C, K>,
    watcher: W,
    ignore: G,
    index: WorkspaceIndex<F, D>,
    cancelled: bool,
)
    requires
        !window.state.shows(work.root, work.epoch) || cancelled,
    ensures
        ({
            let started = BootstrapEventView::<W, G, F, D>::WatcherStarted(watcher);
            let loaded = BootstrapEventView::<W, G, F, D>::IgnoreLoaded(ignore);
            let walked = BootstrapEventView::<W, G, F, D>::TreeWalked { cancelled, index };
            &&& !window.state.shows(work.root, work.epoch) ==> {
                &&& work.action_after(window.state, started) is Stop
                &&& work.action_after(window.state, loaded) is Stop
                &&& work.discarded_after(window, started).ignore is None
                &&& work.discarded_after(window, started).index is None
                &&& work.discarded_after(window, started).recent_files is None
                &&& work.discarded_after(window, loaded).watcher is None
                &&& work.discarded_after(window, loaded).index is None
                &&& work.discarded_after(window, loaded).recent_files is None
            }
            &&& work.action_after(window.state, walked) is Stop
            &&& work.window_after(window, walked) == window
            &&& work.discarded_after(window, walked).index == Some(index)
            &&& work.discarded_after(window, walked).watcher is None
            &&& work.discarded_after(window, walked).ignore is None
            &&& work.discarded_after(window, walked).recent_files is None
        }),
{
}

} // verus!
