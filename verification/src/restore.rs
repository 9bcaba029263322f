//! What a window is given at once when its workspace is restored.

use vstd::prelude::*;

use crate::boundary::workspace_root_of;
use crate::error::AppError;
use crate::error::ErrorView;
use crate::paths::ProbeView;
use crate::session::SessionData;
use crate::session::active_file;
use crate::session::active_session_path;
use crate::session::session_key_of;
use crate::text::opt_string;
use crate::workspace::InfoView;
use crate::workspace::WorkspaceInfo;
use crate::workspace::opened_info;

verus! {

/// A workspace with all that is shown of it first: the entries of its root directory, the recent
/// workspaces, its session and the file of the active tab.
#[derive(Debug)]
pub struct RestoreWorkspaceResponse<D, F> {
    pub workspace: WorkspaceInfo,
    pub entries: Vec<D>,
    pub recent_workspaces: Vec<String>,
    pub session: Option<SessionData>,
    pub active_file: Option<F>,
    pub open_file: Option<String>,
}

/// What came of a read that ran as a task of its own.
#[derive(Debug)]
pub enum TaskOutcome<T> {
    /// The task did not come to its end; this is what is known of it.
    Lost(String),
    /// The read failed.
    Failed(AppError),
    Done(T),
}

/// What was read of a workspace, and the file of its active tab, which is yet to be read.
#[derive(Debug)]
pub struct RestoreReads<D> {
    pub workspace: WorkspaceInfo,
    pub entries: Vec<D>,
    pub recent_workspaces: Vec<String>,
    pub session: Option<SessionData>,
    pub active_path: Option<String>,
}

/// The root by which everything is read of a workspace: the canonical one that the window was
/// told, so that the paths that are read agree with those that watchers report.
pub open spec fn root_of_reads(workspace: InfoView) -> Seq<char> {
    workspace.root
}

/// The root by which the directory and the session of a workspace are read.
pub fn root_to_read(workspace: &WorkspaceInfo) -> (root: String)
    ensures
        root@ == root_of_reads(workspace@),
        root@ == workspace.root@,
{
    workspace.root.clone()
}

/// The error that a read ended in, if it did.
pub open spec fn task_error<T>(outcome: TaskOutcome<T>) -> Option<ErrorView> {
    match outcome {
        TaskOutcome::Lost(text) => Some(ErrorView::Io(text@)),
        TaskOutcome::Failed(error) => Some(error@),
        TaskOutcome::Done(_) => None,
    }
}

/// The error of several reads: that of the first one that has one.
pub open spec fn first_error(
    first: Option<ErrorView>,
    second: Option<ErrorView>,
    third: Option<ErrorView>,
) -> Option<ErrorView> {
    if first is Some {
        first
    } else if second is Some {
        second
    } else {
        third
    }
}

/// The value of a read, or the error that it ended in.
pub fn finished<T>(outcome: TaskOutcome<T>) -> (value: Result<T, AppError>)
    ensures
        match value {
            Ok(value) => outcome == TaskOutcome::Done(value),
            Err(error) => task_error(outcome) == Some(error@),
        },
{
    match outcome {
        TaskOutcome::Lost(text) => Err(AppError::Io(text)),
        TaskOutcome::Failed(error) => Err(error),
        TaskOutcome::Done(value) => Ok(value),
    }
}

/// Brings together what was read of a workspace. Of several errors, that of the directory counts
/// before that of the recent workspaces and that before that of the session.
pub fn gather_restore_reads<D>(
    workspace: WorkspaceInfo,
    entries: TaskOutcome<Vec<D>>,
    recent_workspaces: TaskOutcome<Vec<String>>,
    session: TaskOutcome<Option<SessionData>>,
) -> (reads: Result<RestoreReads<D>, AppError>)
    ensures
        match first_error(
            task_error(entries),
            task_error(recent_workspaces),
            task_error(session),
        ) {
            Some(error) => reads matches Err(reported) && reported@ == error,
            None => {
                &&& reads matches Ok(read)
                &&& read.workspace == workspace
                &&& entries == TaskOutcome::Done(read.entries)
                &&& recent_workspaces == TaskOutcome::Done(read.recent_workspaces)
                &&& session == TaskOutcome::Done(read.session)
                &&& opt_string(read.active_path) == active_file(read.session)
            },
        },
{
    let entries = match finished(entries) {
        Ok(entries) => entries,
        Err(error) => return Err(error),
    };
    let recent_workspaces = match finished(recent_workspaces) {
        Ok(recent_workspaces) => recent_workspaces,
        Err(error) => return Err(error),
    };
    let session = match finished(session) {
        Ok(session) => session,
        Err(error) => return Err(error),
    };
    let active_path = active_session_path(session.as_ref());
    Ok(RestoreReads { workspace, entries, recent_workspaces, session, active_path })
}

/// The response for what was read, with what came of the read of the active tab's file, which
/// counts only where there is such a file. A file that could not be read is left out; a read that
/// was lost is an error.
pub fn build_restore_bundle<D, F>(
    reads: RestoreReads<D>,
    active_file: TaskOutcome<Option<F>>,
) -> (response: Result<RestoreWorkspaceResponse<D, F>, AppError>)
    ensures
        match active_file {
            TaskOutcome::Done(content) => response is Ok && response->Ok_0.active_file
                == if reads.active_path is Some {
                content
            } else {
                None
            },
            _ => if reads.active_path is Some {
                response matches Err(error) && task_error(active_file) == Some(error@)
            } else {
                response is Ok && response->Ok_0.active_file is None
            },
        },
        response matches Ok(bundle) ==> {
            &&& bundle.workspace == reads.workspace
            &&& bundle.entries == reads.entries
            &&& bundle.recent_workspaces == reads.recent_workspaces
            &&& bundle.session == reads.session
            &&& bundle.open_file is None
        },
{
    let active_file = match &reads.active_path {
        Some(_) => match finished(active_file) {
            Ok(content) => content,
            Err(error) => return Err(error),
        },
        None => None,
    };
    Ok(
        RestoreWorkspaceResponse {
            workspace: reads.workspace,
            entries: reads.entries,
            recent_workspaces: reads.recent_workspaces,
            session: reads.session,
            active_file,
            open_file: None,
        },
    )
}

/// A workspace is read by its canonical root, however it was asked for: by whatever paths with the
/// same canonical form it is restored, the same directory and the same session are read.
pub proof fn reads_go_by_the_canonical_root(
    path: Seq<char>,
    alias: Seq<char>,
    path_probe: ProbeView,
    alias_probe: ProbeView,
    path_epoch: u64,
    alias_epoch: u64,
)
    requires
        path_probe.canonical == alias_probe.canonical,
        workspace_root_of(path, path_probe) is Ok,
        workspace_root_of(alias, alias_probe) is Ok,
    ensures
        ({
            let opened = opened_info(workspace_root_of(path, path_probe)->Ok_0, path_epoch);
            let again = opened_info(workspace_root_of(alias, alias_probe)->Ok_0, alias_epoch);
            &&& path_probe.canonical matches Ok(canonical)
            &&& root_of_reads(opened) == canonical.text
            &&& root_of_reads(again) == canonical.text
            &&& session_key_of(root_of_reads(again)) == session_key_of(root_of_reads(opened))
        }),
{
}

/// A read that was done has no error. One that failed has its own error, and one that was lost has
/// what is known of it. Of three reads the first error counts.
pub proof fn first_read_that_fails_is_reported<T>(
    value: T,
    error: AppError,
    text: String,
    first: Option<ErrorView>,
    second: Option<ErrorView>,
    third: Option<ErrorView>,
)
    ensures
        task_error(TaskOutcome::Done(value)) is None,
        task_error(TaskOutcome::<T>::Failed(error)) == Some(error@),
        task_error(TaskOutcome::<T>::Lost(text)) == Some(ErrorView::Io(text@)),
        first is Some ==> first_error(first, second, third) == first,
        first is None && second is Some ==> first_error(first, second, third) == second,
        first is None && second is None ==> first_error(first, second, third) == third,
{
}

} // verus!
