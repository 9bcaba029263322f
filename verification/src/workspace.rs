//! Opening a workspace in a window, and pointing a window at a single file.

use vstd::prelude::*;

use crate::bootstrap::Bootstrap;
use crate::bootstrap::BootstrapActionView;
use crate::bootstrap::BootstrapEventView;
use crate::bootstrap::begun_work;
use crate::boundary::canonical_form;
use crate::boundary::canonical_of;
use crate::boundary::canonicalize_workspace_root;
use crate::boundary::workspace_root_of;
use crate::error::AppError;
use crate::error::ErrorView;
use crate::paths::ComponentKind;
use crate::paths::ComponentView;
use crate::paths::PathProbe;
use crate::paths::PathView;
use crate::paths::ProbeView;
use crate::paths::WorkspacePath;
use crate::paths::file_name_is_the_last_normal_component;
use crate::recents::opening_again_changes_nothing;
use crate::recents::with_recent;
use crate::state::StateView;
use crate::state::epoch_is_current;
use crate::window::LeftBehind;
use crate::window::Window;
use crate::window::WindowView;

verus! {

/// What a window is told about the workspace that it shows.
#[derive(Clone, Debug)]
pub struct WorkspaceInfo {
    pub root: String,
    pub name: String,
    pub file_count: usize,
    pub epoch: u64,
}

/// The mathematical content of a [`WorkspaceInfo`].
pub struct InfoView {
    pub root: Seq<char>,
    pub name: Seq<char>,
    pub file_count: usize,
    pub epoch: u64,
}

impl View for WorkspaceInfo {
    type V = InfoView;

    open spec fn view(&self) -> InfoView {
        InfoView {
            root: self.root@,
            name: self.name@,
            file_count: self.file_count,
            epoch: self.epoch,
        }
    }
}

/// What is said of a workspace when it is opened: it is named after the last part of its root, or
/// after the whole root where that has none, and no files are counted yet.
pub open spec fn opened_info(root: PathView, epoch: u64) -> InfoView {
    InfoView {
        root: root.text,
        name: if root.file_name() is Some {
            root.file_name()->0
        } else {
            root.text
        },
        file_count: 0,
        epoch,
    }
}

/// The name of the workspace with this root.
pub fn workspace_name(root: &WorkspacePath) -> (name: String)
    ensures
        name@ == opened_info(root@, 0).name,
{
    match root.file_name() {
        Some(name) => name,
        None => root.text.clone(),
    }
}

/// A workspace that was opened.
#[derive(Debug)]
pub struct OpenedWorkspace<W, G, F, D, C, K> {
    /// What the window is told. The root in it is also what is kept as a recent workspace.
    pub info: WorkspaceInfo,
    /// The background work to start.
    pub work: Bootstrap,
    /// What the window has left behind.
    pub left: LeftBehind<W, G, F, D, C, K>,
}

/// Turns the window to the workspace at `path`, which must be an existing directory; `probe` is
/// what was seen of it. The window begins with the given ignore rules, and `token` is that of the
/// walk that is to come. Where there is no such directory, the window stays as it was.
pub fn prepare_workspace_state<W, G, F, D, C, K>(
    window: &mut Window<W, G, F, D, C, K>,
    path: &str,
    probe: &PathProbe,
    ignore: G,
    token: K,
) -> (opened: Result<OpenedWorkspace<W, G, F, D, C, K>, AppError>)
    requires
        old(window).state.workspace_epoch < u64::MAX,
    ensures
        match workspace_root_of(path@, probe@) {
            Ok(root) => {
                &&& final(window)@ == old(window)@.opened(root, ignore, token)
                &&& opened matches Ok(workspace)
                &&& workspace.info@ == opened_info(root, final(window)@.state.epoch)
                &&& workspace.work@ == begun_work(root, final(window)@.state.epoch)
                &&& workspace.left == old(window)@.left_behind()
            },
            Err(refusal) => {
                &&& *final(window) == *old(window)
                &&& opened matches Err(error)
                &&& error@ == refusal
            },
        },
{
    let root = match canonicalize_workspace_root(path, probe) {
        Ok(root) => root,
        Err(error) => return Err(error),
    };
    let canonical_path = root.text.clone();
    let name = workspace_name(&root);
    let opened = window.open(root.clone(), ignore, token);
    let epoch: u64 = opened.0;
    let info = WorkspaceInfo { root: canonical_path, name, file_count: 0, epoch };
    Ok(OpenedWorkspace { info, work: Bootstrap::new(root, epoch), left: opened.1 })
}

/// The canonical form of a single file that is asked for by the text of a path.
pub open spec fn standalone_file_of(path: Seq<char>, probe: ProbeView) -> Result<
    PathView,
    ErrorView,
> {
    if !probe.is_file {
        Err(ErrorView::NotFound(path))
    } else {
        canonical_form(probe)
    }
}

/// A window that was pointed at a single file.
#[derive(Debug)]
pub struct WatchedFile<W> {
    /// The file to watch.
    pub file: WorkspacePath,
    pub epoch: u64,
    /// The watcher that the window held before.
    pub dropped: Option<W>,
}

/// Turns the window to the single file at `path`; `probe` is what was seen of it. Any earlier
/// watcher of the window is stale from then on and is taken from it, whatever becomes of the
/// watcher that is to be started. Where there is no such file, the window stays as it was.
pub fn watch_standalone_file<W, G, F, D, C, K>(
    window: &mut Window<W, G, F, D, C, K>,
    path: &str,
    probe: &PathProbe,
) -> (begun: Result<WatchedFile<W>, AppError>)
    requires
        old(window).state.workspace_epoch < u64::MAX,
    ensures
        match standalone_file_of(path@, probe@) {
            Ok(file) => {
                &&& final(window)@ == old(window)@.watching(file)
                &&& begun matches Ok(watched)
                &&& watched.file@ == file
                &&& watched.epoch == final(window)@.state.epoch
                &&& watched.dropped == old(window)@.watcher
            },
            Err(refusal) => {
                &&& *final(window) == *old(window)
                &&& begun matches Err(error)
                &&& error@ == refusal
            },
        },
{
    if !probe.is_file {
        return Err(AppError::NotFound(path.to_owned()));
    }
    let file = match canonical_of(probe) {
        Ok(file) => file,
        Err(error) => return Err(error),
    };
    let turned = window.turn_to_file(file.clone());
    let epoch: u64 = turned.0;
    Ok(WatchedFile { file, epoch, dropped: turned.1 })
}

/// The window after the watcher for a single file was to be started in `epoch`: the watcher is put
/// in place if it has started and the window is still in that epoch.
pub open spec fn after_start<W, G, F, D, C, K>(
    window: WindowView<W, G, F, D, C, K>,
    epoch: u64,
    started: Result<W, String>,
) -> WindowView<W, G, F, D, C, K> {
    match started {
        Ok(watcher) if window.state.epoch == epoch => window.with_watcher(watcher),
        _ => window,
    }
}

/// Puts the watcher that was started for a single file in place, but only while the window is
/// still in the epoch for which it was started. Returns the watcher to drop: the one that was
/// displaced, or the one that came too late. A watcher that did not start is an error.
pub fn accept_file_watcher<W, G, F, D, C, K>(
    window: &mut Window<W, G, F, D, C, K>,
    epoch: u64,
    started: Result<W, String>,
) -> (accepted: Result<Option<W>, AppError>)
    ensures
        final(window)@ == after_start(old(window)@, epoch, started),
        match started {
            Ok(watcher) => accepted == Ok::<Option<W>, AppError>(
                if old(window)@.state.epoch == epoch {
                    old(window)@.watcher
                } else {
                    Some(watcher)
                },
            ),
            Err(text) => accepted matches Err(error) && error@ == ErrorView::Io(text@),
        },
{
    match started {
        Ok(watcher) => if epoch_is_current(&window.state, epoch) {
            Ok(window.install_watcher(watcher))
        } else {
            Ok(Some(watcher))
        },
        Err(text) => Err(AppError::Io(text)),
    }
}

/// A window that has turned to a workspace shows it in the epoch that it was told, with an index
/// that is yet to be built by the background work, which is free to begin, and no earlier snapshot
/// is current any more.
pub proof fn opened_workspace_is_shown(
    state: StateView,
    root: PathView,
    earlier_root: PathView,
    earlier_epoch: u64,
)
    requires
        state.epoch < u64::MAX,
        earlier_epoch <= state.epoch,
    ensures
        ({
            let opened = state.turned_to(root);
            let info = opened_info(root, opened.epoch);
            &&& opened.shows(root, info.epoch)
            &&& info.root == root.text
            &&& !opened.index_ready
            &&& !opened.shows(earlier_root, earlier_epoch)
            &&& begun_work(root, opened.epoch).action_after(
                opened,
                BootstrapEventView::<(), (), (), ()>::Begin,
            ) == BootstrapActionView::StartWatcher
        }),
{
}

/// However a workspace is asked for, it is kept once among the recent ones: paths with the same
/// canonical form stand for one workspace there.
pub proof fn aliases_are_one_recent_workspace(
    path: Seq<char>,
    alias: Seq<char>,
    path_probe: ProbeView,
    alias_probe: ProbeView,
    path_epoch: u64,
    alias_epoch: u64,
    recents: Seq<Seq<char>>,
)
    requires
        path_probe.canonical == alias_probe.canonical,
        workspace_root_of(path, path_probe) is Ok,
        workspace_root_of(alias, alias_probe) is Ok,
    ensures
        ({
            let opened = opened_info(workspace_root_of(path, path_probe)->Ok_0, path_epoch);
            let again = opened_info(workspace_root_of(alias, alias_probe)->Ok_0, alias_epoch);
            let kept = with_recent(recents, opened.root);
            &&& again.root == opened.root
            &&& again.name == opened.name
            &&& with_recent(kept, again.root) == kept
        }),
{
    opening_again_changes_nothing(
        recents,
        opened_info(workspace_root_of(path, path_probe)->Ok_0, path_epoch).root,
    );
}

/// Turning to a single file makes every snapshot of a workspace stale.
pub proof fn watching_a_file_ends_the_epoch(
    state: StateView,
    file: PathView,
    earlier_root: PathView,
    earlier_epoch: u64,
)
    requires
        state.epoch < u64::MAX,
        earlier_epoch <= state.epoch,
    ensures
        !state.watching(file).shows(earlier_root, earlier_epoch),
        state.watching(file).standalone_file == Some(file),
{
}

/// A window that was pointed at a file does not keep its earlier watcher: it holds the one that
/// was started for the file, or none where that did not start.
pub proof fn earlier_watcher_is_not_kept<W, G, F, D, C, K>(
    window: WindowView<W, G, F, D, C, K>,
    file: PathView,
    started: Result<W, String>,
)
    ensures
        ({
            let turned = window.watching(file);
            let settled = after_start(turned, turned.state.epoch, started);
            &&& turned.watcher is None
            &&& settled.watcher == match started {
                Ok(watcher) => Some(watcher),
                Err(_) => None,
            }
            &&& settled.state == turned.state
        }),
{
}

/// The content of what a window is told is all of it.
pub proof fn info_content_is_the_whole_info(info: WorkspaceInfo)
    ensures
        info@.root == info.root@,
        info@.name == info.name@,
        info@.file_count == info.file_count,
        info@.epoch == info.epoch,
{
}

/// A window is told the canonical root as it is written, and a name: the text of the last
/// component where that is a normal one, and the whole root otherwise. It is told the epoch that
/// has begun, and no files yet.
pub proof fn workspaces_are_named_after_their_last_component(
    text: Seq<char>,
    leading: Seq<ComponentView>,
    last: ComponentView,
    epoch: u64,
)
    ensures
        ({
            let root = PathView { text, components: leading.push(last) };
            let info = opened_info(root, epoch);
            &&& info.root == text
            &&& info.name == if last.kind == ComponentKind::Normal {
                last.text
            } else {
                text
            }
            &&& info.file_count == 0
            &&& info.epoch == epoch
        }),
        ({
            let info = opened_info(PathView { text, components: Seq::empty() }, epoch);
            info.root == text && info.name == text && info.file_count == 0 && info.epoch == epoch
        }),
{
    file_name_is_the_last_normal_component(text, leading, last);
}

/// Every file with a canonical form can be watched, under that form. What is no file is not found,
/// under the text by which it was asked for; a canonical form that could not be had is an error
/// with its own text.
pub proof fn every_file_can_be_watched(path: Seq<char>, probe: ProbeView)
    ensures
        probe.is_file && probe.canonical is Ok ==> standalone_file_of(path, probe) == Ok::<
            PathView,
            ErrorView,
        >(probe.canonical->Ok_0),
        probe.is_file && probe.canonical is Err ==> standalone_file_of(path, probe) == Err::<
            PathView,
            ErrorView,
        >(ErrorView::Io(probe.canonical->Err_0)),
        !probe.is_file ==> standalone_file_of(path, probe) == Err::<PathView, ErrorView>(
            ErrorView::NotFound(path),
        ),
{
}

/// A watcher that was started in the epoch of the window is put in place and changes nothing else.
/// One that comes too late, or did not start, leaves the window as it was.
pub proof fn watchers_count_in_their_epoch<W, G, F, D, C, K>(
    window: WindowView<W, G, F, D, C, K>,
    epoch: u64,
    watcher: W,
    failure: String,
)
    ensures
        window.state.epoch == epoch ==> {
            let settled = after_start(window, epoch, Ok(watcher));
            &&& settled.watcher == Some(watcher)
            &&& settled.state == window.state && settled.ignore == window.ignore
            &&& settled.index == window.index && settled.recent_files == window.recent_files
            &&& settled.walk == window.walk
        },
        window.state.epoch != epoch ==> after_start(window, epoch, Ok(watcher)) == window,
        after_start(window, epoch, Err(failure)) == window,
{
}

} // verus!
