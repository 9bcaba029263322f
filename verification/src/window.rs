//! A window with all that was made for what it shows: a file watcher, ignore rules, an index of
//! the files, and the flag by which the walk for that index is told to stop.
//!
//! What these things are is left to the application. The library says which of them a window
//! holds, and hands out every one that it holds no longer, so that it can be dropped.

use vstd::prelude::*;

use crate::error::AppError;
use crate::error::ErrorView;
use crate::paths::PathView;
use crate::paths::WorkspacePath;
use crate::state::StateView;
use crate::state::WorkspaceState;

verus! {

/// What a walk of a workspace has found: its files, and the directories that lead to markdown.
#[derive(Debug)]
pub struct WorkspaceIndex<F, D> {
    pub files: Vec<F>,
    pub dirs_with_markdown: D,
}

/// The flag of one walk. The walk holds the token; `set` is what the token has to say, and a walk
/// whose flag is set stops.
#[derive(Debug)]
pub struct WalkFlag<K> {
    pub token: K,
    pub set: bool,
}

/// A window: what it shows, and what it holds for that.
#[derive(Debug)]
pub struct Window<W, G, F, D, C, K> {
    pub state: WorkspaceState,
    pub watcher: Option<W>,
    pub ignore: Option<G>,
    pub index: Option<WorkspaceIndex<F, D>>,
    /// The recent files as they were last listed out of the index.
    pub recent_files: Option<C>,
    pub walk: Option<WalkFlag<K>>,
}

/// Things that no window holds any more.
#[derive(Debug)]
pub struct Discarded<W, G, F, D, C> {
    pub watcher: Option<W>,
    pub ignore: Option<G>,
    pub index: Option<WorkspaceIndex<F, D>>,
    pub recent_files: Option<C>,
}

/// What a window leaves behind when it turns away from a workspace. The flag of the walk is set:
/// its token is to be told so.
#[derive(Debug)]
pub struct LeftBehind<W, G, F, D, C, K> {
    pub discarded: Discarded<W, G, F, D, C>,
    pub walk: Option<WalkFlag<K>>,
}

/// The mathematical content of a [`Window`].
#[verifier::ext_equal]
pub struct WindowView<W, G, F, D, C, K> {
    pub state: StateView,
    pub watcher: Option<W>,
    pub ignore: Option<G>,
    pub index: Option<WorkspaceIndex<F, D>>,
    pub recent_files: Option<C>,
    pub walk: Option<WalkFlag<K>>,
}

impl<W, G, F, D, C, K> View for Window<W, G, F, D, C, K> {
    type V = WindowView<W, G, F, D, C, K>;

    open spec fn view(&self) -> WindowView<W, G, F, D, C, K> {
        WindowView {
            state: self.state@,
            watcher: self.watcher,
            ignore: self.ignore,
            index: self.index,
            recent_files: self.recent_files,
            walk: self.walk,
        }
    }
}

/// Nothing at all.
pub open spec fn nothing_discarded<W, G, F, D, C>() -> Discarded<W, G, F, D, C> {
    Discarded { watcher: None, ignore: None, index: None, recent_files: None }
}

impl<W, G, F, D, C, K> WindowView<W, G, F, D, C, K> {
    /// A window that holds nothing.
    pub open spec fn bare(state: StateView) -> WindowView<W, G, F, D, C, K> {
        WindowView {
            state,
            watcher: None,
            ignore: None,
            index: None,
            recent_files: None,
            walk: None,
        }
    }

    /// What is left behind when the window turns away: all that it holds, with the walk told to
    /// stop.
    pub open spec fn left_behind(self) -> LeftBehind<W, G, F, D, C, K> {
        LeftBehind {
            discarded: Discarded {
                watcher: self.watcher,
                ignore: self.ignore,
                index: self.index,
                recent_files: self.recent_files,
            },
            walk: match self.walk {
                Some(walk) => Some(WalkFlag { token: walk.token, set: true }),
                None => None,
            },
        }
    }

    /// The window after it has turned to the workspace `root`: it holds nothing but the first
    /// ignore rules and the flag of a walk that is free to go on.
    pub open spec fn opened(self, root: PathView, ignore: G, token: K) -> WindowView<
        W,
        G,
        F,
        D,
        C,
        K,
    > {
        WindowView {
            ignore: Some(ignore),
            walk: Some(WalkFlag { token, set: false }),
            ..WindowView::bare(self.state.turned_to(root))
        }
    }

    /// The window after its workspace was closed: it holds nothing.
    pub open spec fn closed(self) -> WindowView<W, G, F, D, C, K> {
        WindowView::bare(self.state.closed())
    }

    /// The window after it has turned to a single file: its watcher is gone.
    pub open spec fn watching(self, file: PathView) -> WindowView<W, G, F, D, C, K> {
        WindowView { state: self.state.watching(file), watcher: None, ..self }
    }

    /// The window with this watcher in place.
    pub open spec fn with_watcher(self, watcher: W) -> WindowView<W, G, F, D, C, K> {
        WindowView { watcher: Some(watcher), ..self }
    }

    /// The window with these ignore rules in place.
    pub open spec fn with_ignore(self, ignore: G) -> WindowView<W, G, F, D, C, K> {
        WindowView { ignore: Some(ignore), ..self }
    }

    /// The window with this index in place: the index is ready, it is a revision further, and the
    /// recent files that were listed out of the one before are forgotten.
    pub open spec fn with_index(self, index: WorkspaceIndex<F, D>) -> WindowView<
        W,
        G,
        F,
        D,
        C,
        K,
    > {
        WindowView {
            state: self.state.indexed(),
            index: Some(index),
            recent_files: None,
            ..self
        }
    }
}

impl<W, G, F, D, C> Discarded<W, G, F, D, C> {
    pub(crate) fn nothing() -> (discarded: Self)
        ensures
            discarded == nothing_discarded::<W, G, F, D, C>(),
    {
        Discarded { watcher: None, ignore: None, index: None, recent_files: None }
    }
}

impl<W, G, F, D, C, K> Default for Window<W, G, F, D, C, K> {
    fn default() -> (window: Self)
        ensures
            window@ == WindowView::<W, G, F, D, C, K>::bare(StateView::initial()),
    {
        Window {
            state: WorkspaceState::default(),
            watcher: None,
            ignore: None,
            index: None,
            recent_files: None,
            walk: None,
        }
    }
}

impl<W, G, F, D, C, K> Window<W, G, F, D, C, K> {
    fn leave(&mut self) -> (left: LeftBehind<W, G, F, D, C, K>)
        ensures
            left == old(self)@.left_behind(),
            final(self)@ == WindowView::<W, G, F, D, C, K>::bare(old(self)@.state),
            final(self).state == old(self).state,
    {
        LeftBehind {
            discarded: Discarded {
                watcher: self.watcher.take(),
                ignore: self.ignore.take(),
                index: self.index.take(),
                recent_files: self.recent_files.take(),
            },
            walk: match self.walk.take() {
                Some(walk) => Some(WalkFlag { token: walk.token, set: true }),
                None => None,
            },
        }
    }

    /// Turns the window to the workspace `root`, with the ignore rules to begin with and the token
    /// of the walk that is to come. Returns the epoch that begins and what is left behind.
    pub fn open(&mut self, root: WorkspacePath, ignore: G, token: K) -> (opened: (
        u64,
        LeftBehind<W, G, F, D, C, K>,
    ))
        requires
            old(self).state.workspace_epoch < u64::MAX,
        ensures
            final(self)@ == old(self)@.opened(root@, ignore, token),
            opened.0 == old(self)@.state.epoch + 1,
            opened.1 == old(self)@.left_behind(),
    {
        let left = self.leave();
        let epoch: u64 = self.state.transition_to_workspace(root);
        self.ignore = Some(ignore);
        self.walk = Some(WalkFlag { token, set: false });
        (epoch, left)
    }

    /// Turns the window to a single file. Returns the epoch that begins and the watcher that the
    /// window held.
    pub fn turn_to_file(&mut self, file: WorkspacePath) -> (turned: (u64, Option<W>))
        requires
            old(self).state.workspace_epoch < u64::MAX,
        ensures
            final(self)@ == old(self)@.watching(file@),
            turned.0 == old(self)@.state.epoch + 1,
            turned.1 == old(self)@.watcher,
    {
        self.state.workspace_epoch = self.state.workspace_epoch + 1;
        self.state.standalone_file = Some(file);
        (self.state.workspace_epoch, self.watcher.take())
    }

    /// Puts a watcher in place and returns the one that was there.
    pub fn install_watcher(&mut self, watcher: W) -> (displaced: Option<W>)
        ensures
            final(self)@ == old(self)@.with_watcher(watcher),
            displaced == old(self)@.watcher,
    {
        let displaced = self.watcher.take();
        self.watcher = Some(watcher);
        displaced
    }

    /// Puts ignore rules in place and returns those that were there.
    pub fn install_ignore(&mut self, ignore: G) -> (displaced: Option<G>)
        ensures
            final(self)@ == old(self)@.with_ignore(ignore),
            displaced == old(self)@.ignore,
    {
        let displaced = self.ignore.take();
        self.ignore = Some(ignore);
        displaced
    }

    /// Puts an index in place, forgets the recent files that were listed out of the one before,
    /// and returns both.
    pub fn install_index(&mut self, index: WorkspaceIndex<F, D>) -> (displaced: (
        Option<WorkspaceIndex<F, D>>,
        Option<C>,
    ))
        ensures
            final(self)@ == old(self)@.with_index(index),
            displaced == (old(self)@.index, old(self)@.recent_files),
    {
        let displaced = (self.index.take(), self.recent_files.take());
        self.index = Some(index);
        self.state.index_replaced();
        displaced
    }
}

/// Closes the workspace `root` and returns what is left behind. The window must still show it.
pub fn close_workspace<W, G, F, D, C, K>(
    window: &mut Window<W, G, F, D, C, K>,
    root: &WorkspacePath,
) -> (closed: Result<LeftBehind<W, G, F, D, C, K>, AppError>)
    requires
        old(window).state.workspace_epoch < u64::MAX,
    ensures
        match closed {
            Ok(left) => {
                &&& old(window)@.state.shows(root@, old(window)@.state.epoch)
                &&& final(window)@ == old(window)@.closed()
                &&& left == old(window)@.left_behind()
            },
            Err(error) => {
                &&& !old(window)@.state.shows(root@, old(window)@.state.epoch)
                &&& *final(window) == *old(window)
                &&& error@ == ErrorView::InvalidPath("Workspace changed before it could be closed"@)
            },
        },
{
    match window.state.clear_workspace_if_current(root) {
        Ok(()) => Ok(window.leave()),
        Err(()) => Err(
            AppError::InvalidPath("Workspace changed before it could be closed".to_owned()),
        ),
    }
}

/// Turning to a workspace tells the walk for the one before to stop, and puts the flag of a walk
/// that is free to go on in its place. Nothing that was held for the workspace before stays, and
/// all of it is handed out.
pub proof fn opening_stops_the_walk_before<W, G, F, D, C, K>(
    window: WindowView<W, G, F, D, C, K>,
    root: PathView,
    ignore: G,
    token: K,
)
    ensures
        ({
            let opened = window.opened(root, ignore, token);
            let left = window.left_behind();
            &&& opened.walk == Some(WalkFlag { token, set: false })
            &&& opened.ignore == Some(ignore)
            &&& opened.watcher is None && opened.index is None && opened.recent_files is None
            &&& !opened.state.index_ready
            &&& left.walk is Some == window.walk is Some
            &&& window.walk is Some ==> left.walk == Some(
                WalkFlag { token: window.walk->0.token, set: true },
            )
            &&& left.discarded.watcher == window.watcher
            &&& left.discarded.ignore == window.ignore
            &&& left.discarded.index == window.index
            &&& left.discarded.recent_files == window.recent_files
        }),
{
}

/// Closing a workspace stops its walk, and the window holds nothing any more.
pub proof fn closing_stops_the_walk<W, G, F, D, C, K>(window: WindowView<W, G, F, D, C, K>)
    ensures
        window.walk is Some ==> window.left_behind().walk == Some(
            WalkFlag { token: window.walk->0.token, set: true },
        ),
        window.closed() == WindowView::<W, G, F, D, C, K>::bare(window.state.closed()),
        window.closed().state.root is None,
{
}

/// An index is put in place with what was found, and nothing of the one before is shown any more,
/// not even the recent files that were listed out of it.
pub proof fn fresh_index_replaces_the_old_one<W, G, F, D, C, K>(
    window: WindowView<W, G, F, D, C, K>,
    index: WorkspaceIndex<F, D>,
)
    ensures
        ({
            let indexed = window.with_index(index);
            &&& indexed.index == Some(index)
            &&& indexed.recent_files is None
            &&& indexed.state.index_ready
            &&& indexed.state.root == window.state.root
            &&& indexed.state.epoch == window.state.epoch
            &&& indexed.watcher == window.watcher && indexed.ignore == window.ignore
        }),
{
}

/// The content of a window is all that is in it.
pub proof fn window_content_is_the_whole_window<W, G, F, D, C, K>(window: Window<W, G, F, D, C, K>)
    ensures
        window@.state == window.state@,
        window@.watcher == window.watcher,
        window@.ignore == window.ignore,
        window@.index == window.index,
        window@.recent_files == window.recent_files,
        window@.walk == window.walk,
{
}

/// A bare window holds nothing, whatever its state, and nothing is nothing.
pub proof fn bare_windows_hold_nothing<W, G, F, D, C, K>(state: StateView)
    ensures
        ({
            let bare = WindowView::<W, G, F, D, C, K>::bare(state);
            &&& bare.state == state
            &&& bare.watcher is None && bare.ignore is None && bare.index is None
            &&& bare.recent_files is None && bare.walk is None
        }),
        ({
            let nothing = nothing_discarded::<W, G, F, D, C>();
            &&& nothing.watcher is None && nothing.ignore is None
            &&& nothing.index is None && nothing.recent_files is None
        }),
{
}

/// A window that turns to a workspace or is closed goes on with the state of that turn. One that
/// turns to a file loses its watcher and nothing else.
pub proof fn windows_turn_with_their_state<W, G, F, D, C, K>(
    window: WindowView<W, G, F, D, C, K>,
    path: PathView,
    ignore: G,
    token: K,
)
    ensures
        window.opened(path, ignore, token).state == window.state.turned_to(path),
        window.closed().state == window.state.closed(),
        window.closed().watcher is None && window.closed().ignore is None,
        window.closed().index is None && window.closed().recent_files is None,
        window.closed().walk is None,
        ({
            let watching = window.watching(path);
            &&& watching.state == window.state.watching(path)
            &&& watching.watcher is None
            &&& watching.ignore == window.ignore
            &&& watching.index == window.index
            &&& watching.recent_files == window.recent_files
            &&& watching.walk == window.walk
        }),
        window.walk is None ==> window.left_behind().walk is None,
{
}

/// What is put in place is there, and all else stays as it was.
pub proof fn things_are_put_in_their_place<W, G, F, D, C, K>(
    window: WindowView<W, G, F, D, C, K>,
    watcher: W,
    ignore: G,
    index: WorkspaceIndex<F, D>,
)
    ensures
        ({
            let watched = window.with_watcher(watcher);
            &&& watched.watcher == Some(watcher)
            &&& watched.state == window.state && watched.ignore == window.ignore
            &&& watched.index == window.index && watched.recent_files == window.recent_files
            &&& watched.walk == window.walk
        }),
        ({
            let ruled = window.with_ignore(ignore);
            &&& ruled.ignore == Some(ignore)
            &&& ruled.state == window.state && ruled.watcher == window.watcher
            &&& ruled.index == window.index && ruled.recent_files == window.recent_files
            &&& ruled.walk == window.walk
        }),
        ({
            let indexed = window.with_index(index);
            &&& indexed.index == Some(index)
            &&& indexed.recent_files is None
            &&& indexed.state == window.state.indexed()
            &&& indexed.watcher == window.watcher && indexed.ignore == window.ignore
            &&& indexed.walk == window.walk
        }),
{
}

} // verus!
