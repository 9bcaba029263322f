//! The checks that stand between a captured workspace and a program that is launched in it.
//!
//! A workspace is captured as a root and an epoch. Before anything is launched, the window must
//! still show that root in that epoch, and what is on disk must still lie where it lay.

use vstd::prelude::*;

use crate::error::AppError;
use crate::error::ErrorView;
use crate::paths::PathProbe;
use crate::paths::PathView;
use crate::paths::ProbeView;
use crate::paths::WorkspacePath;
use crate::paths::lawful_disk;
use crate::paths::paths_within_begin_with_the_directory;
use crate::paths::same_paths_agree_in_every_component;
use crate::paths::within_is_a_partial_order;
use crate::state::StateView;
use crate::state::Turn;
use crate::state::WorkspaceState;
use crate::state::after_turns;
use crate::state::epoch_is_current;
use crate::state::snapshot_stays_stale_after_any_turn;

verus! {

/// The mathematical content of a path or an error.
pub open spec fn path_outcome(outcome: Result<WorkspacePath, AppError>) -> Result<
    PathView,
    ErrorView,
> {
    match outcome {
        Ok(path) => Ok(path@),
        Err(error) => Err(error@),
    }
}

/// The mathematical content of a check's outcome.
pub open spec fn check_outcome(outcome: Result<(), AppError>) -> Result<(), ErrorView> {
    match outcome {
        Ok(()) => Ok(()),
        Err(error) => Err(error@),
    }
}

/// The canonical form of what was probed, if that could be had.
pub open spec fn canonical_form(probe: ProbeView) -> Result<PathView, ErrorView> {
    match probe.canonical {
        Ok(canonical) => Ok(canonical),
        Err(text) => Err(ErrorView::Io(text)),
    }
}

/// A directory that something may be launched in, in its canonical form.
pub open spec fn launch_root(path: PathView, probe: ProbeView) -> Result<PathView, ErrorView> {
    if !probe.is_dir {
        Err(ErrorView::NotFound(path.text))
    } else {
        canonical_form(probe)
    }
}

/// The directory in which a terminal opens, in its canonical form: the one that was asked for, or
/// the root. The root must be canonical itself, and the directory must lie within it.
pub open spec fn terminal_target(
    root: PathView,
    requested: Option<PathView>,
    root_probe: ProbeView,
    target_probe: ProbeView,
) -> Result<PathView, ErrorView> {
    match launch_root(root, root_probe) {
        Err(error) => Err(error),
        Ok(canonical_root) => if !canonical_root.same(root) {
            Err(ErrorView::InvalidPath(root.text))
        } else {
            let asked = if requested is Some {
                requested->0
            } else {
                root
            };
            match launch_root(asked, target_probe) {
                Err(error) => Err(error),
                Ok(target) => if target.within(canonical_root) {
                    Ok(target)
                } else {
                    Err(ErrorView::InvalidPath(asked.text))
                },
            }
        },
    }
}

/// Whether the window and the disk are as they were when a terminal was asked for.
pub open spec fn terminal_boundary(
    state: StateView,
    root: PathView,
    epoch: u64,
    requested: Option<PathView>,
    target: PathView,
    root_probe: ProbeView,
    target_probe: ProbeView,
) -> Result<(), ErrorView> {
    if !state.shows(root, epoch) {
        Err(ErrorView::InvalidPath("Workspace changed before the terminal could be opened"@))
    } else {
        match terminal_target(root, requested, root_probe, target_probe) {
            Err(error) => Err(error),
            Ok(live_target) => if !live_target.same(target) {
                Err(
                    ErrorView::InvalidPath(
                        "Selected folder changed before the terminal could be opened"@,
                    ),
                )
            } else {
                Ok(())
            },
        }
    }
}

/// Whether the window still shows a root that is still where it was.
pub open spec fn snapshot_boundary(
    state: StateView,
    root: PathView,
    epoch: u64,
    root_probe: ProbeView,
) -> Result<(), ErrorView> {
    if !state.shows(root, epoch) {
        Err(ErrorView::InvalidPath("Workspace changed before the terminal could be opened"@))
    } else {
        match launch_root(root, root_probe) {
            Err(error) => Err(error),
            Ok(live_root) => if !live_root.same(root) {
                Err(
                    ErrorView::InvalidPath(
                        "Workspace folder changed before the terminal could be opened"@,
                    ),
                )
            } else {
                Ok(())
            },
        }
    }
}

/// The root that a file manager may open.
pub open spec fn file_manager_root(
    state: StateView,
    root: PathView,
    epoch: u64,
    root_probe: ProbeView,
) -> Result<PathView, ErrorView> {
    if !state.shows(root, epoch) {
        Err(ErrorView::InvalidPath("Workspace changed before it could be opened"@))
    } else {
        match launch_root(root, root_probe) {
            Err(error) => Err(error),
            Ok(live_root) => if !live_root.same(root) {
                Err(ErrorView::InvalidPath("Workspace folder changed before it could be opened"@))
            } else {
                Ok(live_root)
            },
        }
    }
}

/// The canonical root of the workspace that was asked for by the text of a path.
pub open spec fn workspace_root_of(path: Seq<char>, probe: ProbeView) -> Result<
    PathView,
    ErrorView,
> {
    if !probe.exists || !probe.is_dir {
        Err(ErrorView::NotFound(path))
    } else {
        canonical_form(probe)
    }
}

/// The canonical form of what was probed; an error on the way to it is reported as it is.
pub fn canonical_of(probe: &PathProbe) -> (canonical: Result<WorkspacePath, AppError>)
    ensures
        path_outcome(canonical) == canonical_form(probe@),
{
    match &probe.canonical {
        Ok(canonical) => Ok(canonical.clone()),
        Err(text) => Err(AppError::Io(text.clone())),
    }
}

/// The canonical form of `path`, which must be a directory; `probe` is what was seen of it.
pub fn validate_workspace_launch_root(path: &WorkspacePath, probe: &PathProbe) -> (root: Result<
    WorkspacePath,
    AppError,
>)
    ensures
        path_outcome(root) == launch_root(path@, probe@),
{
    if !probe.is_dir {
        return Err(AppError::NotFound(path.text.clone()));
    }
    canonical_of(probe)
}

/// The canonical directory in which a terminal opens: the one that was asked for, or the root.
///
/// `root_probe` is what was seen of the root, `target_probe` of the directory that was asked for,
/// or of the root where none was.
pub fn validate_terminal_target(
    captured_root: &WorkspacePath,
    requested_path: Option<&WorkspacePath>,
    root_probe: &PathProbe,
    target_probe: &PathProbe,
) -> (target: Result<WorkspacePath, AppError>)
    ensures
        path_outcome(target) == terminal_target(
            captured_root@,
            match requested_path {
                Some(path) => Some(path@),
                None => None,
            },
            root_probe@,
            target_probe@,
        ),
{
    let canonical_root = match validate_workspace_launch_root(captured_root, root_probe) {
        Ok(root) => root,
        Err(error) => return Err(error),
    };
    if !canonical_root.same(captured_root) {
        return Err(AppError::InvalidPath(captured_root.text.clone()));
    }
    let requested = match requested_path {
        Some(path) => path,
        None => captured_root,
    };
    let target = match validate_workspace_launch_root(requested, target_probe) {
        Ok(target) => target,
        Err(error) => return Err(error),
    };
    proof {
        within_is_a_partial_order(target@, canonical_root@, canonical_root@);
    }
    if !target.same(&canonical_root) && !target.starts_with(&canonical_root) {
        return Err(AppError::InvalidPath(requested.text.clone()));
    }
    Ok(target)
}

/// Checks that the window still shows the captured workspace, and that its root is still where
/// it was.
pub fn validate_terminal_launch_snapshot(
    state: &WorkspaceState,
    captured_root: &WorkspacePath,
    captured_epoch: u64,
    root_probe: &PathProbe,
) -> (outcome: Result<(), AppError>)
    ensures
        check_outcome(outcome) == snapshot_boundary(
            state@,
            captured_root@,
            captured_epoch,
            root_probe@,
        ),
{
    let root_is_current = match &state.workspace_root {
        Some(root) => root.same(captured_root),
        None => false,
    };
    if !root_is_current || !epoch_is_current(state, captured_epoch) {
        return Err(
            AppError::InvalidPath(
                "Workspace changed before the terminal could be opened".to_owned(),
            ),
        );
    }
    let live_root = match validate_workspace_launch_root(captured_root, root_probe) {
        Ok(root) => root,
        Err(error) => return Err(error),
    };
    if !live_root.same(captured_root) {
        return Err(
            AppError::InvalidPath(
                "Workspace folder changed before the terminal could be opened".to_owned(),
            ),
        );
    }
    Ok(())
}

/// Runs `launch` if the window and the disk are as they were when the terminal was asked for, and
/// never otherwise: it need not be fit to run where the launch is refused. The borrow of the state
/// lasts while `launch` runs.
pub fn with_terminal_launch_snapshot<T, F: FnOnce() -> Result<T, AppError>>(
    state: &WorkspaceState,
    captured_root: &WorkspacePath,
    captured_epoch: u64,
    requested_path: Option<&WorkspacePath>,
    captured_target: &WorkspacePath,
    root_probe: &PathProbe,
    target_probe: &PathProbe,
    launch: F,
) -> (outcome: Result<T, AppError>)
    requires
        terminal_boundary(
            state@,
            captured_root@,
            captured_epoch,
            match requested_path {
                Some(path) => Some(path@),
                None => None,
            },
            captured_target@,
            root_probe@,
            target_probe@,
        ) is Ok ==> call_requires(launch, ()),
    ensures
        match terminal_boundary(
            state@,
            captured_root@,
            captured_epoch,
            match requested_path {
                Some(path) => Some(path@),
                None => None,
            },
            captured_target@,
            root_probe@,
            target_probe@,
        ) {
            Ok(()) => call_ensures(launch, (), outcome),
            Err(refusal) => outcome matches Err(error) && error@ == refusal,
        },
{
    if !state.snapshot_is_current(captured_root, captured_epoch) {
        return Err(
            AppError::InvalidPath(
                "Workspace changed before the terminal could be opened".to_owned(),
            ),
        );
    }
    let live_target = match validate_terminal_target(
        captured_root,
        requested_path,
        root_probe,
        target_probe,
    ) {
        Ok(target) => target,
        Err(error) => return Err(error),
    };
    if !live_target.same(captured_target) {
        return Err(
            AppError::InvalidPath(
                "Selected folder changed before the terminal could be opened".to_owned(),
            ),
        );
    }
    launch()
}

/// Checks that the window and the disk are as they were when the terminal was asked for.
pub fn validate_terminal_launch_boundary(
    state: &WorkspaceState,
    captured_root: &WorkspacePath,
    captured_epoch: u64,
    requested_path: Option<&WorkspacePath>,
    captured_target: &WorkspacePath,
    root_probe: &PathProbe,
    target_probe: &PathProbe,
) -> (outcome: Result<(), AppError>)
    ensures
        check_outcome(outcome) == terminal_boundary(
            state@,
            captured_root@,
            captured_epoch,
            match requested_path {
                Some(path) => Some(path@),
                None => None,
            },
            captured_target@,
            root_probe@,
            target_probe@,
        ),
{
    let nothing = || -> (done: Result<(), AppError>)
        ensures
            done is Ok,
        {
            Ok(())
        };
    with_terminal_launch_snapshot(
        state,
        captured_root,
        captured_epoch,
        requested_path,
        captured_target,
        root_probe,
        target_probe,
        nothing,
    )
}

/// Runs `open` on the live root if the window still shows the captured workspace, and its root is
/// still where it was, and never otherwise: it need not be fit to run on any other path, or at all
/// where the opening is refused. The borrow of the state lasts while `open` runs.
pub fn open_workspace_in_file_manager_for_snapshot<T, F>(
    state: &WorkspaceState,
    captured_root: &WorkspacePath,
    captured_epoch: u64,
    root_probe: &PathProbe,
    open: F,
) -> (outcome: Result<T, AppError>) where F: FnOnce(&WorkspacePath) -> Result<T, AppError>
    requires
        forall|root: &WorkspacePath|
            file_manager_root(state@, captured_root@, captured_epoch, root_probe@) == Ok::<
                PathView,
                ErrorView,
            >(root@) ==> #[trigger] call_requires(open, (root,)),
    ensures
        match file_manager_root(state@, captured_root@, captured_epoch, root_probe@) {
            Ok(live_root) => exists|root: &WorkspacePath|
                root@ == live_root && #[trigger] call_ensures(open, (root,), outcome),
            Err(refusal) => outcome matches Err(error) && error@ == refusal,
        },
{
    if !state.snapshot_is_current(captured_root, captured_epoch) {
        return Err(
            AppError::InvalidPath("Workspace changed before it could be opened".to_owned()),
        );
    }
    let live_root = match validate_workspace_launch_root(captured_root, root_probe) {
        Ok(root) => root,
        Err(error) => return Err(error),
    };
    if !live_root.same(captured_root) {
        return Err(
            AppError::InvalidPath("Workspace folder changed before it could be opened".to_owned()),
        );
    }
    open(&live_root)
}

/// The canonical root of the workspace at `path`, which must be an existing directory; `probe` is
/// what was seen of it.
///
/// The canonical form is what file watchers report, so a workspace that was opened by an alias is
/// still recognised in their events.
pub fn canonicalize_workspace_root(path: &str, probe: &PathProbe) -> (root: Result<
    WorkspacePath,
    AppError,
>)
    ensures
        path_outcome(root) == workspace_root_of(path@, probe@),
{
    if !probe.exists || !probe.is_dir {
        return Err(AppError::NotFound(path.to_owned()));
    }
    canonical_of(probe)
}

/// Checks that a workspace can be opened in a window of its own: `path` must be an existing
/// directory.
pub fn open_workspace_in_new_window(path: &str, probe: &PathProbe) -> (outcome: Result<
    (),
    AppError,
>)
    ensures
        check_outcome(outcome) == if probe@.exists && probe@.is_dir {
            Ok::<(), ErrorView>(())
        } else {
            Err(ErrorView::NotFound(path@))
        },
{
    if !probe.exists || !probe.is_dir {
        return Err(AppError::NotFound(path.to_owned()));
    }
    Ok(())
}

/// Whether a directory is asked for by a path or by the text of that path makes no difference: on
/// one disk both ways give the same canonical form or the same error. A canonical form that was
/// given is its own canonical form.
pub proof fn both_ways_to_a_root_agree(path: PathView, disk: spec_fn(PathView) -> ProbeView)
    requires
        lawful_disk(disk),
    ensures
        launch_root(path, disk(path)) == workspace_root_of(path.text, disk(path)),
        launch_root(path, disk(path)) matches Ok(root) ==> {
            &&& launch_root(root, disk(root)) == Ok::<PathView, ErrorView>(root)
            &&& workspace_root_of(root.text, disk(root)) == Ok::<PathView, ErrorView>(root)
        },
{
    assert(disk(path).well_formed());
}

/// Every path that a check hands on is well formed.
pub proof fn accepted_paths_are_well_formed(
    root: PathView,
    requested: Option<PathView>,
    text: Seq<char>,
    root_probe: ProbeView,
    target_probe: ProbeView,
)
    requires
        root_probe.well_formed(),
        target_probe.well_formed(),
    ensures
        launch_root(root, root_probe) matches Ok(path) ==> path.well_formed(),
        workspace_root_of(text, root_probe) matches Ok(path) ==> path.well_formed(),
        terminal_target(root, requested, root_probe, target_probe) matches Ok(path)
            ==> path.well_formed(),
{
}

/// A terminal only ever opens in the canonical form of a directory within the captured root, and
/// only while that root is its own canonical form.
pub proof fn terminal_target_stays_within_the_root(
    root: PathView,
    requested: Option<PathView>,
    root_probe: ProbeView,
    target_probe: ProbeView,
)
    ensures
        terminal_target(root, requested, root_probe, target_probe) matches Ok(target) ==> {
            &&& target.within(root)
            &&& root_probe.is_dir && target_probe.is_dir
            &&& root_probe.canonical matches Ok(canonical)
            &&& canonical.same(root)
            &&& target_probe.canonical == Ok::<PathView, Seq<char>>(target)
        },
{
}

/// The root itself is always a target, as long as it is a directory in its canonical form.
pub proof fn root_is_a_terminal_target(root: PathView, probe: ProbeView)
    requires
        probe.is_dir,
        probe.canonical matches Ok(canonical) && canonical.same(root),
    ensures
        terminal_target(root, None, probe, probe) == Ok::<PathView, ErrorView>(
            probe.canonical->Ok_0,
        ),
        terminal_target(root, Some(root), probe, probe) == Ok::<PathView, ErrorView>(
            probe.canonical->Ok_0,
        ),
{
    let canonical = probe.canonical->Ok_0;
    within_is_a_partial_order(canonical, canonical, canonical);
}

/// A directory outside the root is refused, however it is reached, and the refusal names the path
/// that was asked for.
pub proof fn outside_directories_are_refused(
    root: PathView,
    requested: PathView,
    root_probe: ProbeView,
    target_probe: ProbeView,
)
    requires
        root_probe.is_dir,
        root_probe.canonical matches Ok(canonical) && canonical.same(root),
        target_probe.is_dir,
        target_probe.canonical matches Ok(target) && !target.within(root),
    ensures
        terminal_target(root, Some(requested), root_probe, target_probe) == Err::<
            PathView,
            ErrorView,
        >(ErrorView::InvalidPath(requested.text)),
{
}

/// A target that was validated passes the boundary as long as neither the window nor the disk has
/// changed.
pub proof fn validated_target_passes_the_boundary(
    state: StateView,
    root: PathView,
    epoch: u64,
    requested: Option<PathView>,
    root_probe: ProbeView,
    target_probe: ProbeView,
)
    requires
        state.shows(root, epoch),
    ensures
        terminal_target(root, requested, root_probe, target_probe) matches Ok(target)
            ==> terminal_boundary(
            state,
            root,
            epoch,
            requested,
            target,
            root_probe,
            target_probe,
        ) is Ok,
{
}

/// Nothing is launched for a stale snapshot, and a stale snapshot is refused before the disk is
/// even looked at: the answer is the same whatever was seen there.
pub proof fn stale_snapshots_are_refused(
    state: StateView,
    root: PathView,
    epoch: u64,
    requested: Option<PathView>,
    target: PathView,
    root_probe: ProbeView,
    target_probe: ProbeView,
)
    requires
        !state.shows(root, epoch),
    ensures
        terminal_boundary(state, root, epoch, requested, target, root_probe, target_probe) == Err::<
            (),
            ErrorView,
        >(ErrorView::InvalidPath("Workspace changed before the terminal could be opened"@)),
        snapshot_boundary(state, root, epoch, root_probe) == Err::<(), ErrorView>(
            ErrorView::InvalidPath("Workspace changed before the terminal could be opened"@),
        ),
        file_manager_root(state, root, epoch, root_probe) == Err::<PathView, ErrorView>(
            ErrorView::InvalidPath("Workspace changed before it could be opened"@),
        ),
{
}

/// Once the window has turned elsewhere, however often and even if back to the same root, nothing
/// is launched for the snapshot that was captured before.
pub proof fn nothing_is_launched_after_a_turn(
    state: StateView,
    turns: Seq<Turn>,
    root: PathView,
    requested: Option<PathView>,
    target: PathView,
    root_probe: ProbeView,
    target_probe: ProbeView,
)
    requires
        turns.len() > 0,
        state.epoch + turns.len() <= u64::MAX,
    ensures
        ({
            let later = after_turns(state, turns);
            let epoch = state.epoch;
            &&& terminal_boundary(later, root, epoch, requested, target, root_probe, target_probe)
                is Err
            &&& file_manager_root(later, root, epoch, root_probe) is Err
        }),
{
    snapshot_stays_stale_after_any_turn(state, turns, root);
}

/// The snapshot of a root that was just put in place passes as long as the root is where it was.
/// After any turn it is refused with the same error whatever is on disk, also when the window has
/// turned to another root and back.
pub proof fn snapshot_is_refused_from_the_first_turn_on(
    before: StateView,
    first: PathView,
    second: PathView,
    turns: Seq<Turn>,
    probe: ProbeView,
    later_probe: ProbeView,
)
    requires
        probe.is_dir,
        probe.canonical matches Ok(canonical) && canonical.same(first),
        turns.len() > 0,
        before.epoch + 1 + turns.len() <= u64::MAX,
        before.epoch + 3 <= u64::MAX,
    ensures
        ({
            let state = before.with_root(first);
            let refusal = Err::<(), ErrorView>(
                ErrorView::InvalidPath("Workspace changed before the terminal could be opened"@),
            );
            let away = state.with_root(second);
            let back = away.with_root(first);
            &&& snapshot_boundary(state, first, state.epoch, probe) == Ok::<(), ErrorView>(())
            &&& snapshot_boundary(away, first, state.epoch, later_probe) == refusal
            &&& snapshot_boundary(back, first, state.epoch, later_probe) == refusal
            &&& snapshot_boundary(after_turns(state, turns), first, state.epoch, later_probe)
                == refusal
        }),
{
    let state = before.with_root(first);
    snapshot_stays_stale_after_any_turn(state, turns, first);
}

/// What passes the boundary also passes the plain check of the snapshot.
pub proof fn boundary_implies_snapshot(
    state: StateView,
    root: PathView,
    epoch: u64,
    requested: Option<PathView>,
    target: PathView,
    root_probe: ProbeView,
    target_probe: ProbeView,
)
    ensures
        terminal_boundary(state, root, epoch, requested, target, root_probe, target_probe) is Ok
            ==> snapshot_boundary(state, root, epoch, root_probe) is Ok,
{
}

/// The content of an outcome is its path or its error.
pub proof fn outcomes_hold_their_path_or_error(
    path: Result<WorkspacePath, AppError>,
    check: Result<(), AppError>,
)
    ensures
        path matches Ok(found) ==> path_outcome(path) == Ok::<PathView, ErrorView>(found@),
        path matches Err(error) ==> path_outcome(path) == Err::<PathView, ErrorView>(error@),
        check is Ok <==> check_outcome(check) is Ok,
        check matches Err(error) ==> check_outcome(check) == Err::<(), ErrorView>(error@),
{
}

/// Every directory with a canonical form is a root to launch in, and that form is what is given.
/// What is no directory is not found, under the text by which it was asked for; a canonical form
/// that could not be had is an error with its own text.
pub proof fn every_directory_is_a_launch_root(path: PathView, probe: ProbeView)
    ensures
        probe.is_dir && probe.canonical is Ok ==> launch_root(path, probe) == Ok::<
            PathView,
            ErrorView,
        >(probe.canonical->Ok_0),
        probe.is_dir && probe.canonical is Err ==> launch_root(path, probe) == Err::<
            PathView,
            ErrorView,
        >(ErrorView::Io(probe.canonical->Err_0)),
        !probe.is_dir ==> launch_root(path, probe) == Err::<PathView, ErrorView>(
            ErrorView::NotFound(path.text),
        ),
{
}

/// Every existing directory with a canonical form can be opened as a workspace, and that form is
/// its root. What does not exist or is no directory is not found, under the text by which it was
/// asked for; a canonical form that could not be had is an error with its own text.
pub proof fn every_existing_directory_is_a_workspace(path: Seq<char>, probe: ProbeView)
    ensures
        probe.exists && probe.is_dir && probe.canonical is Ok ==> workspace_root_of(path, probe)
            == Ok::<PathView, ErrorView>(probe.canonical->Ok_0),
        probe.exists && probe.is_dir && probe.canonical is Err ==> workspace_root_of(path, probe)
            == Err::<PathView, ErrorView>(ErrorView::Io(probe.canonical->Err_0)),
        !(probe.exists && probe.is_dir) ==> workspace_root_of(path, probe) == Err::<
            PathView,
            ErrorView,
        >(ErrorView::NotFound(path)),
{
}

/// A terminal opens in every directory within the root, however deep it lies and by whatever path
/// it was asked for: where the root is a directory in its canonical form, and what was asked for
/// is a directory whose canonical form begins with the components of the root, the target is that
/// canonical form.
pub proof fn every_directory_within_the_root_is_a_target(
    root: PathView,
    requested: PathView,
    root_probe: ProbeView,
    target_probe: ProbeView,
)
    requires
        root_probe.is_dir,
        root_probe.canonical is Ok,
        root_probe.canonical->Ok_0.same(root),
        target_probe.is_dir,
        target_probe.canonical is Ok,
        root.components.len() <= target_probe.canonical->Ok_0.components.len(),
        forall|i: int|
            0 <= i < root.components.len() ==> (#[trigger] root.components[i]).kind
                == target_probe.canonical->Ok_0.components[i].kind && root.components[i].encoded
                == target_probe.canonical->Ok_0.components[i].encoded,
    ensures
        terminal_target(root, Some(requested), root_probe, target_probe) == Ok::<
            PathView,
            ErrorView,
        >(target_probe.canonical->Ok_0),
        terminal_target(root, None, root_probe, target_probe) == Ok::<PathView, ErrorView>(
            target_probe.canonical->Ok_0,
        ),
{
    let canonical_root = root_probe.canonical->Ok_0;
    let target = target_probe.canonical->Ok_0;
    same_paths_agree_in_every_component(canonical_root, root);
    paths_within_begin_with_the_directory(target, canonical_root);
    assert forall|i: int| 0 <= i < canonical_root.components.len() implies (
    #[trigger] canonical_root.components[i]).kind == target.components[i].kind
        && canonical_root.components[i].encoded == target.components[i].encoded by {
        assert(root.components[i].kind == target.components[i].kind);
        assert(canonical_root.components[i].kind == root.components[i].kind);
    }
}

/// Why a terminal is refused. The root is looked at first: it must be a directory with a canonical
/// form, and be that form itself. Then the directory that was asked for, or the root where none
/// was: it must be a directory with a canonical form, and that must lie within the root. A refusal
/// names the path that fell short. Where nothing falls short, nothing is refused.
pub proof fn terminals_are_refused_for_cause(
    root: PathView,
    requested: Option<PathView>,
    root_probe: ProbeView,
    target_probe: ProbeView,
)
    ensures
        ({
            let outcome = terminal_target(root, requested, root_probe, target_probe);
            let asked = match requested {
                Some(path) => path,
                None => root,
            };
            let root_found = root_probe.is_dir && root_probe.canonical is Ok;
            let root_live = root_found && root_probe.canonical->Ok_0.same(root);
            let target_found = target_probe.is_dir && target_probe.canonical is Ok;
            let inside = target_probe.canonical->Ok_0.within(root);
            &&& !root_probe.is_dir ==> outcome == Err::<PathView, ErrorView>(
                ErrorView::NotFound(root.text),
            )
            &&& root_probe.is_dir && root_probe.canonical is Err ==> outcome == Err::<
                PathView,
                ErrorView,
            >(ErrorView::Io(root_probe.canonical->Err_0))
            &&& root_found && !root_live ==> outcome == Err::<PathView, ErrorView>(
                ErrorView::InvalidPath(root.text),
            )
            &&& root_live && !target_probe.is_dir ==> outcome == Err::<PathView, ErrorView>(
                ErrorView::NotFound(asked.text),
            )
            &&& root_live && target_probe.is_dir && target_probe.canonical is Err ==> outcome
                == Err::<PathView, ErrorView>(ErrorView::Io(target_probe.canonical->Err_0))
            &&& root_live && target_found && !inside ==> outcome == Err::<PathView, ErrorView>(
                ErrorView::InvalidPath(asked.text),
            )
            &&& root_live && target_found && inside ==> outcome == Ok::<PathView, ErrorView>(
                target_probe.canonical->Ok_0,
            )
        }),
{
}

/// A launch goes ahead exactly while the window shows the captured root in the captured epoch and
/// the directory that was asked for is still the captured target. Otherwise it is refused: for the
/// window first, then for what is found on disk, then for a target that has moved.
pub proof fn launches_go_ahead_while_nothing_changed(
    state: StateView,
    root: PathView,
    epoch: u64,
    requested: Option<PathView>,
    target: PathView,
    root_probe: ProbeView,
    target_probe: ProbeView,
)
    ensures
        ({
            let found = terminal_target(root, requested, root_probe, target_probe);
            let outcome = terminal_boundary(
                state,
                root,
                epoch,
                requested,
                target,
                root_probe,
                target_probe,
            );
            let shown = state.epoch == epoch && state.root is Some && state.root->0.same(root);
            &&& outcome is Ok <==> shown && found is Ok && found->Ok_0.same(target)
            &&& !shown ==> outcome == Err::<(), ErrorView>(
                ErrorView::InvalidPath("Workspace changed before the terminal could be opened"@),
            )
            &&& shown && found is Err ==> outcome == Err::<(), ErrorView>(found->Err_0)
            &&& shown && found is Ok && !found->Ok_0.same(target) ==> outcome == Err::<
                (),
                ErrorView,
            >(
                ErrorView::InvalidPath(
                    "Selected folder changed before the terminal could be opened"@,
                ),
            )
        }),
{
}

/// A snapshot passes, and a file manager opens the live root, exactly while the window shows the
/// captured root in the captured epoch and that root is a directory in its canonical form.
/// Otherwise each is refused with words of its own: for the window first, then for what is found
/// on disk, then for a root that has moved.
pub proof fn snapshots_pass_while_nothing_changed(
    state: StateView,
    root: PathView,
    epoch: u64,
    probe: ProbeView,
)
    ensures
        ({
            let snapshot = snapshot_boundary(state, root, epoch, probe);
            let opened = file_manager_root(state, root, epoch, probe);
            let shown = state.epoch == epoch && state.root is Some && state.root->0.same(root);
            let live = probe.is_dir && probe.canonical is Ok;
            let moved = live && !probe.canonical->Ok_0.same(root);
            &&& snapshot is Ok <==> shown && live && !moved
            &&& shown && live && !moved ==> opened == Ok::<PathView, ErrorView>(
                probe.canonical->Ok_0,
            )
            &&& !shown ==> snapshot == Err::<(), ErrorView>(
                ErrorView::InvalidPath("Workspace changed before the terminal could be opened"@),
            ) && opened == Err::<PathView, ErrorView>(
                ErrorView::InvalidPath("Workspace changed before it could be opened"@),
            )
            &&& shown && !probe.is_dir ==> snapshot == Err::<(), ErrorView>(
                ErrorView::NotFound(root.text),
            ) && opened == Err::<PathView, ErrorView>(ErrorView::NotFound(root.text))
            &&& shown && probe.is_dir && probe.canonical is Err ==> snapshot == Err::<
                (),
                ErrorView,
            >(ErrorView::Io(probe.canonical->Err_0)) && opened == Err::<PathView, ErrorView>(
                ErrorView::Io(probe.canonical->Err_0),
            )
            &&& shown && moved ==> snapshot == Err::<(), ErrorView>(
                ErrorView::InvalidPath(
                    "Workspace folder changed before the terminal could be opened"@,
                ),
            ) && opened == Err::<PathView, ErrorView>(
                ErrorView::InvalidPath("Workspace folder changed before it could be opened"@),
            )
        }),
{
}

} // verus!
