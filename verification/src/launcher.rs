//! The course of a terminal launch: one way after the other is tried until one succeeds.

use vstd::prelude::*;
use vstd::string::*;

use crate::boundary::check_outcome;
use crate::error::AppError;
use crate::error::ErrorView;
use crate::paths::PathView;
use crate::paths::WorkspacePath;
use crate::terminal::LaunchPlatform;
use crate::terminal::LaunchSpecView;
use crate::terminal::TerminalExecution;
use crate::terminal::TerminalLaunchSpec;
use crate::terminal::each_platform_launches_in_its_own_way;
use crate::terminal::every_try_runs_in_the_target;
use crate::terminal::launch_error;
use crate::terminal::launch_specs;
use crate::terminal::linux_programs;
use crate::terminal::spec_views;
use crate::terminal::terminal_launch_error;
use crate::terminal::terminal_launch_specs;
use crate::text::from_utf8_lossy;
use crate::text::lossy_text;
use crate::text::opt_string;
use crate::text::opt_text;
use crate::text::trim;
use crate::text::trimmed;
use crate::text::trimming_gives_what_stands_between;
use crate::text::white_space;

verus! {

/// A terminal launch in progress.
#[derive(Debug)]
pub struct TerminalLauncher {
    pub specs: Vec<TerminalLaunchSpec>,
    /// The way that is being tried.
    pub index: usize,
    /// Whether the program of that way was started and its end is awaited.
    pub waiting: bool,
    pub preferred: Option<String>,
    pub last_error: Option<String>,
}

/// What came of the last action.
#[derive(Debug)]
pub enum LaunchEvent {
    /// The launch was refused before the program was started.
    Refused(AppError),
    /// The program could not be started.
    SpawnFailed(String),
    /// The program was started.
    Spawned,
    /// The end of the program could not be awaited.
    WaitFailed(String),
    /// The program has ended; `status` is its exit status as a text.
    Exited { success: bool, status: String, stderr: Vec<u8> },
}

/// What to do next.
#[derive(Debug)]
pub enum LaunchAction {
    /// Start the program of the current way.
    Spawn,
    /// Await the end of the program.
    Wait,
    /// Report this outcome.
    Finish(Result<(), AppError>),
}

/// The mathematical content of a [`TerminalLauncher`].
#[verifier::ext_equal]
pub struct LauncherView {
    pub specs: Seq<LaunchSpecView>,
    pub index: int,
    pub waiting: bool,
    pub preferred: Option<Seq<char>>,
    pub last_error: Option<Seq<char>>,
}

/// The mathematical content of a [`LaunchEvent`].
pub enum LaunchEventView {
    Refused(ErrorView),
    SpawnFailed(Seq<char>),
    Spawned,
    WaitFailed(Seq<char>),
    Exited { success: bool, status: Seq<char>, stderr: Seq<u8> },
}

/// The mathematical content of a [`LaunchAction`].
pub enum LaunchActionView {
    Spawn,
    Wait,
    Finish(Result<(), ErrorView>),
}

impl View for TerminalLauncher {
    type V = LauncherView;

    open spec fn view(&self) -> LauncherView {
        LauncherView {
            specs: spec_views(self.specs@),
            index: self.index as int,
            waiting: self.waiting,
            preferred: opt_string(self.preferred),
            last_error: opt_string(self.last_error),
        }
    }
}

impl View for LaunchEvent {
    type V = LaunchEventView;

    open spec fn view(&self) -> LaunchEventView {
        match self {
            LaunchEvent::Refused(error) => LaunchEventView::Refused(error@),
            LaunchEvent::SpawnFailed(text) => LaunchEventView::SpawnFailed(text@),
            LaunchEvent::Spawned => LaunchEventView::Spawned,
            LaunchEvent::WaitFailed(text) => LaunchEventView::WaitFailed(text@),
            LaunchEvent::Exited { success, status, stderr } => LaunchEventView::Exited {
                success: *success,
                status: status@,
                stderr: stderr@,
            },
        }
    }
}

impl View for LaunchAction {
    type V = LaunchActionView;

    open spec fn view(&self) -> LaunchActionView {
        match self {
            LaunchAction::Spawn => LaunchActionView::Spawn,
            LaunchAction::Wait => LaunchActionView::Wait,
            LaunchAction::Finish(outcome) => LaunchActionView::Finish(check_outcome(*outcome)),
        }
    }
}

/// Why a program that ended without success is said to have failed: what it wrote to its error
/// output, or its exit status where it wrote nothing.
pub open spec fn exit_reason_of(
    program: Seq<char>,
    status: Seq<char>,
    stderr: Seq<char>,
) -> Seq<char> {
    if trimmed(stderr).len() == 0 {
        program + " exited with "@ + status
    } else {
        trimmed(stderr)
    }
}

impl LauncherView {
    /// The launcher before its first action.
    pub open spec fn initial(
        platform: LaunchPlatform,
        dir: PathView,
        preferred: Seq<char>,
        terminal_env: Option<Seq<char>>,
    ) -> LauncherView {
        let named = if preferred.len() == 0 {
            None
        } else {
            Some(preferred)
        };
        LauncherView {
            specs: launch_specs(platform, dir, named, terminal_env),
            index: 0,
            waiting: false,
            preferred: named,
            last_error: None,
        }
    }

    /// A way is being tried, and an end is awaited only of a program whose success counts.
    pub open spec fn in_progress(self) -> bool {
        &&& 0 <= self.index < self.specs.len()
        &&& self.waiting ==> self.specs[self.index].execution == TerminalExecution::WaitForSuccess
    }

    /// The events that can follow the last action.
    pub open spec fn expects(self, event: LaunchEventView) -> bool {
        match event {
            LaunchEventView::Refused(_) => !self.waiting,
            LaunchEventView::SpawnFailed(_) => !self.waiting,
            LaunchEventView::Spawned => !self.waiting,
            LaunchEventView::WaitFailed(_) => self.waiting,
            LaunchEventView::Exited { .. } => self.waiting,
        }
    }

    /// The action with which a way, or the lack of one, is met.
    pub open spec fn next_action(self) -> LaunchActionView {
        if self.index < self.specs.len() {
            LaunchActionView::Spawn
        } else {
            LaunchActionView::Finish(
                Err(
                    launch_error(
                        self.preferred,
                        if self.last_error is Some {
                            self.last_error->0
                        } else {
                            "No terminal launcher is available"@
                        },
                    ),
                ),
            )
        }
    }

    /// The launcher after the current way has failed.
    pub open spec fn failed(self, reason: Seq<char>) -> LauncherView {
        LauncherView {
            index: self.index + 1,
            waiting: false,
            last_error: Some(reason),
            ..self
        }
    }

    /// The launcher after an event, and what is done next.
    pub open spec fn after(self, event: LaunchEventView) -> (LauncherView, LaunchActionView) {
        match event {
            LaunchEventView::Refused(error) => (self, LaunchActionView::Finish(Err(error))),
            LaunchEventView::SpawnFailed(reason) => {
                (self.failed(reason), self.failed(reason).next_action())
            },
            LaunchEventView::Spawned => match self.specs[self.index].execution {
                TerminalExecution::Detached => (self, LaunchActionView::Finish(Ok(()))),
                TerminalExecution::WaitForSuccess => (
                    LauncherView { waiting: true, ..self },
                    LaunchActionView::Wait,
                ),
            },
            LaunchEventView::WaitFailed(reason) => {
                (self.failed(reason), self.failed(reason).next_action())
            },
            LaunchEventView::Exited { success, status, stderr } => if success {
                (self, LaunchActionView::Finish(Ok(())))
            } else {
                let reason = exit_reason_of(
                    self.specs[self.index].program,
                    status,
                    lossy_text(stderr),
                );
                (self.failed(reason), self.failed(reason).next_action())
            },
        }
    }
}

/// Why a program that ended without success is said to have failed, given its exit status and
/// its error output as texts.
pub fn exit_reason(program: &str, status: &str, stderr: &str) -> (reason: String)
    ensures
        reason@ == exit_reason_of(program@, status@, stderr@),
{
    let stderr = trim(stderr);
    if stderr.is_empty() {
        program.to_owned().concat(" exited with ").concat(status)
    } else {
        stderr.to_owned()
    }
}

/// A launch of a terminal in `target_dir`. An empty preference is none.
pub fn launch_terminal(
    platform: LaunchPlatform,
    target_dir: &WorkspacePath,
    preferred_terminal: &str,
    terminal_env: Option<&str>,
) -> (launcher: TerminalLauncher)
    ensures
        launcher@ == LauncherView::initial(
            platform,
            target_dir@,
            preferred_terminal@,
            opt_text(terminal_env),
        ),
        launcher@.in_progress(),
{
    let preferred: Option<&str> = if preferred_terminal.is_empty() {
        None
    } else {
        Some(preferred_terminal)
    };
    let specs = terminal_launch_specs(platform, target_dir, preferred, terminal_env);
    proof {
        every_try_runs_in_the_target(
            platform,
            target_dir@,
            opt_text(preferred),
            opt_text(terminal_env),
        );
    }
    let preferred: Option<String> = match preferred {
        Some(name) => Some(name.to_owned()),
        None => None,
    };
    TerminalLauncher { specs, index: 0, waiting: false, preferred, last_error: None }
}

impl TerminalLauncher {
    /// The way that is being tried.
    pub fn current(&self) -> (spec: &TerminalLaunchSpec)
        requires
            self@.in_progress(),
        ensures
            spec@ == self@.specs[self@.index],
    {
        assert(self@.specs[self@.index] == self.specs@[self.index as int]@);
        &self.specs[self.index]
    }

    /// The action with which the current way, or the lack of one, is met.
    pub fn next_action(&self) -> (action: LaunchAction)
        ensures
            action@ == self@.next_action(),
    {
        if self.index < self.specs.len() {
            return LaunchAction::Spawn;
        }
        let preferred: Option<&str> = match &self.preferred {
            Some(name) => Some(name.as_str()),
            None => None,
        };
        let reason: &str = match &self.last_error {
            Some(reason) => reason.as_str(),
            None => "No terminal launcher is available",
        };
        LaunchAction::Finish(Err(terminal_launch_error(preferred, reason)))
    }

    fn fail(&mut self, reason: String) -> (action: LaunchAction)
        requires
            old(self)@.in_progress(),
        ensures
            final(self)@ == old(self)@.failed(reason@),
            action@ == old(self)@.failed(reason@).next_action(),
    {
        assert(self.index < self.specs.len());
        self.index = self.index + 1;
        self.waiting = false;
        self.last_error = Some(reason);
        self.next_action()
    }

    /// Takes what came of the last action and says what to do next.
    pub fn step(&mut self, event: LaunchEvent) -> (action: LaunchAction)
        requires
            old(self)@.in_progress(),
            old(self)@.expects(event@),
        ensures
            final(self)@ == old(self)@.after(event@).0,
            action@ == old(self)@.after(event@).1,
            !(action is Finish) ==> final(self)@.in_progress(),
    {
        match event {
            LaunchEvent::Refused(error) => LaunchAction::Finish(Err(error)),
            LaunchEvent::SpawnFailed(reason) => self.fail(reason),
            LaunchEvent::Spawned => {
                let execution = self.current().execution;
                match execution {
                    TerminalExecution::Detached => LaunchAction::Finish(Ok(())),
                    TerminalExecution::WaitForSuccess => {
                        self.waiting = true;
                        LaunchAction::Wait
                    },
                }
            },
            LaunchEvent::WaitFailed(reason) => self.fail(reason),
            LaunchEvent::Exited { success, status, stderr } => if success {
                LaunchAction::Finish(Ok(()))
            } else {
                let stderr = from_utf8_lossy(&stderr);
                let reason = exit_reason(
                    self.current().program.as_str(),
                    status.as_str(),
                    stderr.as_str(),
                );
                self.fail(reason)
            },
        }
    }
}

/// The launcher after several ways have failed, one after the other.
pub open spec fn after_failures(launcher: LauncherView, reasons: Seq<Seq<char>>) -> LauncherView
    decreases reasons.len(),
{
    if reasons.len() == 0 {
        launcher
    } else {
        after_failures(launcher, reasons.drop_last()).failed(reasons.last())
    }
}

/// However a way fails, the launcher goes on from it in the same manner: a program that cannot be
/// started, one whose end cannot be awaited, and one that ends without success.
pub proof fn failures_are_alike(
    launcher: LauncherView,
    reason: Seq<char>,
    status: Seq<char>,
    stderr: Seq<u8>,
)
    requires
        launcher.in_progress(),
        !launcher.waiting,
    ensures
        ({
            let way = launcher.specs[launcher.index];
            let started = launcher.after(LaunchEventView::Spawned).0;
            let ended = LaunchEventView::Exited { success: false, status, stderr };
            let told = exit_reason_of(way.program, status, lossy_text(stderr));
            let next = launcher.failed(reason);
            &&& launcher.after(LaunchEventView::SpawnFailed(reason)) == (next, next.next_action())
            &&& way.execution == TerminalExecution::WaitForSuccess ==> {
                &&& started.after(LaunchEventView::WaitFailed(reason)) == (next, next.next_action())
                &&& started.after(ended) == (
                    launcher.failed(told),
                    launcher.failed(told).next_action(),
                )
            }
        }),
{
}

/// The ways are tried in their order: after as many failures as there were ways before it, a way
/// is the current one and is started. When every way has failed, the error tells the last
/// failure.
pub proof fn ways_are_tried_in_order(launcher: LauncherView, reasons: Seq<Seq<char>>)
    requires
        launcher.in_progress(),
        !launcher.waiting,
        launcher.index + reasons.len() <= launcher.specs.len(),
    ensures
        ({
            let later = after_failures(launcher, reasons);
            &&& later.specs == launcher.specs
            &&& later.preferred == launcher.preferred
            &&& !later.waiting
            &&& later.index == launcher.index + reasons.len()
            &&& later.index < launcher.specs.len() ==> later.next_action()
                == LaunchActionView::Spawn
            &&& reasons.len() > 0 && later.index == launcher.specs.len() ==> later.next_action()
                == LaunchActionView::Finish(Err(launch_error(launcher.preferred, reasons.last())))
        }),
    decreases reasons.len(),
{
    if reasons.len() > 0 {
        ways_are_tried_in_order(launcher, reasons.drop_last());
    }
}

/// The first way that succeeds ends the launch with success, and a refusal ends it with the error
/// of the refusal, however many ways have failed before and remain.
pub proof fn first_success_or_refusal_ends_the_launch(
    launcher: LauncherView,
    reasons: Seq<Seq<char>>,
    refusal: ErrorView,
    status: Seq<char>,
    stderr: Seq<u8>,
)
    requires
        launcher.in_progress(),
        !launcher.waiting,
        launcher.index + reasons.len() < launcher.specs.len(),
    ensures
        ({
            let later = after_failures(launcher, reasons);
            let started = later.after(LaunchEventView::Spawned);
            let ended = LaunchEventView::Exited { success: true, status, stderr };
            &&& later.after(LaunchEventView::Refused(refusal)).1 == LaunchActionView::Finish(
                Err(refusal),
            )
            &&& if later.specs[later.index].execution == TerminalExecution::Detached {
                started.1 == LaunchActionView::Finish(Ok(()))
            } else {
                &&& started.1 == LaunchActionView::Wait
                &&& started.0.expects(ended)
                &&& started.0.after(ended).1 == LaunchActionView::Finish(Ok(()))
            }
        }),
{
    ways_are_tried_in_order(launcher, reasons);
}

/// A launch comes to an end: with every event the remaining ways grow fewer, or the end of the
/// current program is awaited.
pub proof fn every_event_makes_progress(launcher: LauncherView, event: LaunchEventView)
    requires
        launcher.in_progress(),
        launcher.expects(event),
    ensures
        ({
            let (next, action) = launcher.after(event);
            ||| action is Finish
            ||| next.index == launcher.index + 1 && !next.waiting && next.in_progress()
            ||| next.index == launcher.index && !launcher.waiting && next.waiting
                && next.in_progress()
        }),
{
}

/// The content of a launcher is all that is in it.
pub proof fn launcher_content_is_the_whole_launcher(launcher: TerminalLauncher)
    ensures
        launcher@.specs == spec_views(launcher.specs@),
        launcher@.index == launcher.index,
        launcher@.waiting == launcher.waiting,
        launcher@.preferred == opt_string(launcher.preferred),
        launcher@.last_error == opt_string(launcher.last_error),
{
}

/// The content of an event or an action tells which one it is, with all that it carries.
pub proof fn launch_events_and_actions_are_told_apart(
    event: LaunchEvent,
    action: LaunchAction,
)
    ensures
        event matches LaunchEvent::Refused(error) ==> event@ == LaunchEventView::Refused(error@),
        event matches LaunchEvent::SpawnFailed(text) ==> event@ == LaunchEventView::SpawnFailed(
            text@,
        ),
        event is Spawned ==> event@ == LaunchEventView::Spawned,
        event matches LaunchEvent::WaitFailed(text) ==> event@ == LaunchEventView::WaitFailed(text@),
        event matches LaunchEvent::Exited { success, status, stderr } ==> event@
            == (LaunchEventView::Exited { success, status: status@, stderr: stderr@ }),
        action is Spawn <==> action@ == LaunchActionView::Spawn,
        action is Wait <==> action@ == LaunchActionView::Wait,
        action is Finish <==> action@ is Finish,
        action matches LaunchAction::Finish(Ok(())) ==> action@ == LaunchActionView::Finish(Ok(())),
        action matches LaunchAction::Finish(Err(error)) ==> action@ == LaunchActionView::Finish(
            Err(error@),
        ),
{
}

/// A launch with a preferred terminal has that terminal as its only way, in the directory that was
/// asked for, whatever terminal the environment names: on macOS as the application to open,
/// elsewhere as the program to start. The launcher remembers the preference.
pub proof fn preferred_terminal_is_the_only_way(
    platform: LaunchPlatform,
    dir: PathView,
    preferred: Seq<char>,
    env: Option<Seq<char>>,
)
    requires
        preferred.len() > 0,
    ensures
        ({
            let launcher = LauncherView::initial(platform, dir, preferred, env);
            let way = launcher.specs[0];
            &&& launcher.specs.len() == 1
            &&& launcher.preferred == Some(preferred)
            &&& way.current_dir == dir
            &&& if platform == LaunchPlatform::MacOs {
                way.program == "open"@ && way.args == seq!["-a"@, preferred, dir.text]
            } else {
                way.program == preferred && way.args == Seq::<Seq<char>>::empty()
            }
        }),
{
    each_platform_launches_in_its_own_way(dir, preferred, env);
}

/// A launch without a preferred terminal tries what the platform offers: its own terminal on macOS
/// and Windows, and on Linux the environment's terminal and the usual ones, each in the directory
/// that was asked for. The launcher knows of no preference.
pub proof fn without_preference_the_platform_decides(dir: PathView, env: Option<Seq<char>>)
    ensures
        ({
            let none = Seq::<char>::empty();
            let mac = LauncherView::initial(LaunchPlatform::MacOs, dir, none, env);
            let windows = LauncherView::initial(LaunchPlatform::Windows, dir, none, env);
            let linux = LauncherView::initial(LaunchPlatform::Linux, dir, none, env);
            &&& mac.preferred is None && windows.preferred is None && linux.preferred is None
            &&& mac.specs.len() == 1 && mac.specs[0].program == "open"@
            &&& mac.specs[0].args == seq!["-a"@, "Terminal"@, dir.text]
            &&& windows.specs.len() == 1 && windows.specs[0].program == "cmd.exe"@
            &&& windows.specs[0].args == seq!["/K"@]
            &&& linux.specs.len() == linux_programs(env).len()
            &&& forall|i: int|
                0 <= i < linux.specs.len() ==> {
                    &&& (#[trigger] linux.specs[i]).program == linux_programs(env)[i]
                    &&& linux.specs[i].args == Seq::<Seq<char>>::empty()
                    &&& linux.specs[i].current_dir == dir
                }
        }),
{
    each_platform_launches_in_its_own_way(dir, Seq::empty(), env);
    every_try_runs_in_the_target(LaunchPlatform::Linux, dir, None, env);
}

/// A launch begins with its first way, nothing started, nothing failed, and something to try. Each
/// way runs in the directory that was asked for, in a console of its own on Windows alone, and is
/// waited for on macOS alone.
pub proof fn launches_begin_with_the_first_way(
    platform: LaunchPlatform,
    dir: PathView,
    preferred: Seq<char>,
    env: Option<Seq<char>>,
)
    ensures
        ({
            let launcher = LauncherView::initial(platform, dir, preferred, env);
            &&& launcher.index == 0 && !launcher.waiting && launcher.last_error is None
            &&& launcher.in_progress()
            &&& launcher.next_action() == LaunchActionView::Spawn
            &&& forall|i: int|
                0 <= i < launcher.specs.len() ==> {
                    &&& (#[trigger] launcher.specs[i]).current_dir == dir
                    &&& launcher.specs[i].new_console == (platform == LaunchPlatform::Windows)
                    &&& (launcher.specs[i].execution == TerminalExecution::WaitForSuccess) == (
                    platform == LaunchPlatform::MacOs)
                }
        }),
{
    every_try_runs_in_the_target(platform, dir, None, env);
    every_try_runs_in_the_target(platform, dir, Some(preferred), env);
}

/// A launch is in progress while there is a way to try, and a program is waited for only where its
/// success counts. Before a program was started the launch can be refused, the program started or
/// not; after that its end can be had or not.
pub proof fn launches_expect_what_can_come(launcher: LauncherView, event: LaunchEventView)
    ensures
        launcher.in_progress() <==> 0 <= launcher.index && launcher.index < launcher.specs.len()
            && (launcher.waiting ==> launcher.specs[launcher.index].execution
            == TerminalExecution::WaitForSuccess),
        event is Refused || event is SpawnFailed || event is Spawned ==> (launcher.expects(event)
            <==> !launcher.waiting),
        event is WaitFailed || event is Exited ==> (launcher.expects(event) <==> launcher.waiting),
{
}

/// A way that has failed is behind the launcher, with its reason and nothing else changed: the
/// next way is started, or the launch ends with the reason of the last one. A launch that had
/// nothing to try says so.
pub proof fn failed_ways_are_left_behind(launcher: LauncherView, reason: Seq<char>)
    requires
        0 <= launcher.index,
    ensures
        ({
            let next = launcher.failed(reason);
            &&& next.index == launcher.index + 1
            &&& !next.waiting
            &&& next.last_error == Some(reason)
            &&& next.specs == launcher.specs
            &&& next.preferred == launcher.preferred
            &&& launcher.index + 1 < launcher.specs.len() ==> next.next_action()
                == LaunchActionView::Spawn
            &&& launcher.index + 1 >= launcher.specs.len() ==> next.next_action()
                == LaunchActionView::Finish(Err(launch_error(launcher.preferred, reason)))
        }),
        launcher.index >= launcher.specs.len() && launcher.last_error is None
            ==> launcher.next_action() == LaunchActionView::Finish(
            Err(launch_error(launcher.preferred, "No terminal launcher is available"@)),
        ),
{
}

/// What each event brings about. A refusal ends the launch with its error. A program that was
/// started ends it with success, or is waited for where its success counts. A program that has
/// ended well ends it with success. Every failure leaves the way behind.
pub proof fn each_event_has_its_consequence(
    launcher: LauncherView,
    refusal: ErrorView,
    reason: Seq<char>,
    status: Seq<char>,
    stderr: Seq<u8>,
)
    requires
        launcher.in_progress(),
    ensures
        ({
            let way = launcher.specs[launcher.index];
            let started = launcher.after(LaunchEventView::Spawned);
            let ended_well = LaunchEventView::Exited { success: true, status, stderr };
            let ended_badly = LaunchEventView::Exited { success: false, status, stderr };
            let told = exit_reason_of(way.program, status, lossy_text(stderr));
            &&& launcher.after(LaunchEventView::Refused(refusal)) == (
                launcher,
                LaunchActionView::Finish(Err(refusal)),
            )
            &&& way.execution == TerminalExecution::Detached ==> started == (
                launcher,
                LaunchActionView::Finish(Ok(())),
            )
            &&& way.execution == TerminalExecution::WaitForSuccess ==> {
                &&& started.1 == LaunchActionView::Wait
                &&& started.0.waiting
                &&& started.0.index == launcher.index
                &&& started.0.specs == launcher.specs
                &&& started.0.preferred == launcher.preferred
                &&& started.0.last_error == launcher.last_error
            }
            &&& launcher.after(ended_well) == (launcher, LaunchActionView::Finish(Ok(())))
            &&& launcher.after(ended_badly) == (
                launcher.failed(told),
                launcher.failed(told).next_action(),
            )
            &&& launcher.after(LaunchEventView::SpawnFailed(reason)) == (
                launcher.failed(reason),
                launcher.failed(reason).next_action(),
            )
            &&& launcher.after(LaunchEventView::WaitFailed(reason)) == (
                launcher.failed(reason),
                launcher.failed(reason).next_action(),
            )
        }),
{
}

/// What a program wrote to its error output is the reason of its failure, without the white space
/// around it. Of a program that wrote nothing, or only white space, its name and its exit status
/// are told.
pub proof fn error_output_is_the_reason(
    program: Seq<char>,
    status: Seq<char>,
    before: Seq<char>,
    said: Seq<char>,
    behind: Seq<char>,
)
    requires
        forall|i: int| 0 <= i < before.len() ==> white_space(#[trigger] before[i]),
        forall|i: int| 0 <= i < behind.len() ==> white_space(#[trigger] behind[i]),
        said.len() > 0,
        !white_space(said.first()),
        !white_space(said.last()),
    ensures
        exit_reason_of(program, status, before + said + behind) == said,
        exit_reason_of(program, status, before + behind) == program + " exited with "@ + status,
{
    trimming_gives_what_stands_between(before, said, behind);
    let none = Seq::<char>::empty();
    trimming_gives_what_stands_between(before, none, behind);
    assert(before + none + behind =~= before + behind);
}

} // verus!
