//! Which terminal programs are tried for a directory, and how a failure is reported.

use vstd::prelude::*;
use vstd::string::*;

use crate::error::AppError;
use crate::error::ErrorView;
use crate::lists::lemma_others_of_nothing;
use crate::lists::lemma_others_of_push;
use crate::lists::others;
use crate::lists::others_keeps_exactly_the_others;
use crate::paths::PathView;
use crate::paths::WorkspacePath;
use crate::text::debug_text;
use crate::text::opt_text;
use crate::text::plain_character;
use crate::text::quoted;
use crate::text::text_equal;
use crate::text::texts;
use crate::text::trim;
use crate::text::trimmed;
use crate::text::trimming_gives_what_stands_between;
use crate::text::white_space;

verus! {

/// The setting that names the terminal a user prefers.
pub const DEFAULT_TERMINAL_SETTING_KEY: &'static str = "workspace.default-terminal";

/// The platforms whose terminals are launched differently.
#[derive(Clone, Copy, Debug, PartialEq, Eq, Structural)]
pub enum LaunchPlatform {
    MacOs,
    Windows,
    Linux,
}

/// When a launch counts as a success.
#[derive(Clone, Copy, Debug, PartialEq, Eq, Structural)]
pub enum TerminalExecution {
    /// As soon as the program was started.
    Detached,
    /// When the program has ended with success.
    WaitForSuccess,
}

/// One way to launch a terminal.
#[derive(Debug)]
pub struct TerminalLaunchSpec {
    pub program: String,
    pub args: Vec<String>,
    pub current_dir: WorkspacePath,
    pub new_console: bool,
    pub execution: TerminalExecution,
}

/// The mathematical content of a [`TerminalLaunchSpec`].
#[verifier::ext_equal]
pub struct LaunchSpecView {
    pub program: Seq<char>,
    pub args: Seq<Seq<char>>,
    pub current_dir: PathView,
    pub new_console: bool,
    pub execution: TerminalExecution,
}

impl View for TerminalLaunchSpec {
    type V = LaunchSpecView;

    open spec fn view(&self) -> LaunchSpecView {
        LaunchSpecView {
            program: self.program@,
            args: texts(self.args@),
            current_dir: self.current_dir@,
            new_console: self.new_console,
            execution: self.execution,
        }
    }
}

/// The mathematical content of a list of launch specs.
pub open spec fn spec_views(specs: Seq<TerminalLaunchSpec>) -> Seq<LaunchSpecView> {
    Seq::new(specs.len(), |i: int| specs[i]@)
}

/// The platform that an operating system's name stands for.
pub open spec fn platform_of(os: Seq<char>) -> LaunchPlatform {
    if os == "macos"@ {
        LaunchPlatform::MacOs
    } else if os == "windows"@ {
        LaunchPlatform::Windows
    } else {
        LaunchPlatform::Linux
    }
}

/// The terminals that are tried on Linux, in order.
pub open spec fn fallback_programs() -> Seq<Seq<char>> {
    seq![
        "xdg-terminal-exec"@,
        "foot"@,
        "kitty"@,
        "alacritty"@,
        "ghostty"@,
        "x-terminal-emulator"@,
        "gnome-terminal"@,
        "konsole"@,
        "xfce4-terminal"@,
    ]
}

/// The terminals that are tried on Linux where none is preferred: the one that the environment
/// names, unless it names none, then the usual ones that are not that one.
pub open spec fn linux_programs(terminal_env: Option<Seq<char>>) -> Seq<Seq<char>> {
    match terminal_env {
        Some(value) if trimmed(value).len() > 0 => seq![trimmed(value)] + others(
            fallback_programs(),
            trimmed(value),
        ),
        _ => fallback_programs(),
    }
}

/// A program that is started in a directory without arguments and left alone.
pub open spec fn detached(program: Seq<char>, dir: PathView) -> LaunchSpecView {
    LaunchSpecView {
        program,
        args: seq![],
        current_dir: dir,
        new_console: false,
        execution: TerminalExecution::Detached,
    }
}

/// Programs that are started in a directory without arguments and left alone.
pub open spec fn all_detached(programs: Seq<Seq<char>>, dir: PathView) -> Seq<LaunchSpecView> {
    Seq::new(programs.len(), |i: int| detached(programs[i], dir))
}

/// The ways to launch a terminal in `dir`, in the order in which they are tried.
pub open spec fn launch_specs(
    platform: LaunchPlatform,
    dir: PathView,
    preferred: Option<Seq<char>>,
    terminal_env: Option<Seq<char>>,
) -> Seq<LaunchSpecView> {
    match (platform, preferred) {
        (LaunchPlatform::MacOs, _) => seq![
            LaunchSpecView {
                program: "open"@,
                args: seq![
                    "-a"@,
                    if preferred is Some {
                        preferred->0
                    } else {
                        "Terminal"@
                    },
                    dir.text,
                ],
                current_dir: dir,
                new_console: false,
                execution: TerminalExecution::WaitForSuccess,
            },
        ],
        (LaunchPlatform::Windows, Some(program)) => seq![
            LaunchSpecView { new_console: true, ..detached(program, dir) },
        ],
        (LaunchPlatform::Windows, None) => seq![
            LaunchSpecView {
                args: seq!["/K"@],
                new_console: true,
                ..detached("cmd.exe"@, dir)
            },
        ],
        (LaunchPlatform::Linux, Some(program)) => seq![detached(program, dir)],
        (LaunchPlatform::Linux, None) => all_detached(linux_programs(terminal_env), dir),
    }
}

/// The platform that the operating system's name `os` stands for.
pub fn current_launch_platform(os: &str) -> (platform: LaunchPlatform)
    ensures
        platform == platform_of(os@),
{
    if text_equal(os, "macos") {
        LaunchPlatform::MacOs
    } else if text_equal(os, "windows") {
        LaunchPlatform::Windows
    } else {
        LaunchPlatform::Linux
    }
}

fn fallback_list() -> (list: Vec<&'static str>)
    ensures
        list@.len() == fallback_programs().len(),
        forall|i: int| 0 <= i < list@.len() ==> (#[trigger] list@[i])@ == fallback_programs()[i],
{
    vec![
        "xdg-terminal-exec",
        "foot",
        "kitty",
        "alacritty",
        "ghostty",
        "x-terminal-emulator",
        "gnome-terminal",
        "konsole",
        "xfce4-terminal",
    ]
}

fn linux_program_list(terminal_env: Option<&str>) -> (programs: Vec<String>)
    ensures
        texts(programs@) == linux_programs(opt_text(terminal_env)),
{
    let mut programs: Vec<String> = Vec::new();
    let first: Option<&str> = match terminal_env {
        Some(value) => {
            let value = trim(value);
            if value.is_empty() {
                None
            } else {
                Some(value)
            }
        },
        None => None,
    };
    if let Some(program) = first {
        programs.push(program.to_owned());
    }
    let ghost head = texts(programs@);
    let ghost all = fallback_programs();
    let fallbacks = fallback_list();
    let mut i: usize = 0;
    proof {
        assert(all.take(0) =~= Seq::<Seq<char>>::empty());
        if first is Some {
            lemma_others_of_nothing(first->0@);
            assert(head =~= seq![first->0@]);
        } else {
            assert(head =~= Seq::<Seq<char>>::empty());
        }
        assert(texts(programs@) =~= head + Seq::<Seq<char>>::empty());
    }
    while i < fallbacks.len()
        invariant
            i <= fallbacks@.len(),
            all == fallback_programs(),
            fallbacks@.len() == all.len(),
            forall|j: int| 0 <= j < fallbacks@.len() ==> (#[trigger] fallbacks@[j])@ == all[j],
            texts(programs@) == head + match first {
                Some(program) => others(all.take(i as int), program@),
                None => all.take(i as int),
            },
        decreases fallbacks@.len() - i,
    {
        let fallback = fallbacks[i];
        let wanted = match first {
            Some(program) => !text_equal(program, fallback),
            None => true,
        };
        let ghost before = programs@;
        if wanted {
            programs.push(fallback.to_owned());
            assert(texts(programs@) =~= texts(before).push(fallback@));
        }
        proof {
            assert(all.take(i + 1) =~= all.take(i as int).push(fallback@));
            if first is Some {
                lemma_others_of_push(all.take(i as int), fallback@, first->0@);
                let kept = others(all.take(i as int), first->0@);
                assert((head + kept).push(fallback@) =~= head + kept.push(fallback@));
            } else {
                let kept = all.take(i as int);
                assert((head + kept).push(fallback@) =~= head + kept.push(fallback@));
            }
        }
        i += 1;
    }
    proof {
        assert(all.take(i as int) =~= all);
        assert(Seq::<Seq<char>>::empty() + all =~= all);
    }
    programs
}

fn one_spec(spec: TerminalLaunchSpec) -> (specs: Vec<TerminalLaunchSpec>)
    ensures
        spec_views(specs@) == seq![spec@],
{
    let mut specs: Vec<TerminalLaunchSpec> = Vec::new();
    specs.push(spec);
    assert(spec_views(specs@) =~= seq![spec@]);
    specs
}

fn open_with(application: &str, target_dir: &WorkspacePath) -> (spec: TerminalLaunchSpec)
    ensures
        spec@ == (LaunchSpecView {
            program: "open"@,
            args: seq!["-a"@, application@, target_dir@.text],
            current_dir: target_dir@,
            new_console: false,
            execution: TerminalExecution::WaitForSuccess,
        }),
{
    let mut args: Vec<String> = Vec::new();
    args.push("-a".to_owned());
    args.push(application.to_owned());
    args.push(target_dir.text.clone());
    assert(texts(args@) =~= seq!["-a"@, application@, target_dir@.text]);
    TerminalLaunchSpec {
        program: "open".to_owned(),
        args,
        current_dir: target_dir.clone(),
        new_console: false,
        execution: TerminalExecution::WaitForSuccess,
    }
}

fn start_detached(program: &str, target_dir: &WorkspacePath) -> (spec: TerminalLaunchSpec)
    ensures
        spec@ == detached(program@, target_dir@),
        spec.args@.len() == 0,
{
    let args: Vec<String> = Vec::new();
    assert(texts(args@) =~= Seq::<Seq<char>>::empty());
    TerminalLaunchSpec {
        program: program.to_owned(),
        args,
        current_dir: target_dir.clone(),
        new_console: false,
        execution: TerminalExecution::Detached,
    }
}

/// The ways to launch a terminal in `target_dir`, in the order in which they are tried.
///
/// A preferred terminal is the only one that is tried, and its name is taken as it is. The
/// environment's terminal counts on Linux only.
pub fn terminal_launch_specs(
    platform: LaunchPlatform,
    target_dir: &WorkspacePath,
    preferred_terminal: Option<&str>,
    terminal_env: Option<&str>,
) -> (specs: Vec<TerminalLaunchSpec>)
    ensures
        spec_views(specs@) == launch_specs(
            platform,
            target_dir@,
            opt_text(preferred_terminal),
            opt_text(terminal_env),
        ),
{
    match (platform, preferred_terminal) {
        (LaunchPlatform::MacOs, Some(program)) => one_spec(open_with(program, target_dir)),
        (LaunchPlatform::MacOs, None) => one_spec(open_with("Terminal", target_dir)),
        (LaunchPlatform::Windows, Some(program)) => {
            let mut spec = start_detached(program, target_dir);
            spec.new_console = true;
            one_spec(spec)
        },
        (LaunchPlatform::Windows, None) => {
            let mut spec = start_detached("cmd.exe", target_dir);
            spec.args.push("/K".to_owned());
            spec.new_console = true;
            assert(texts(spec.args@) =~= seq!["/K"@]);
            one_spec(spec)
        },
        (LaunchPlatform::Linux, Some(program)) => one_spec(start_detached(program, target_dir)),
        (LaunchPlatform::Linux, None) => {
            let programs = linux_program_list(terminal_env);
            let ghost names = linux_programs(opt_text(terminal_env));
            let mut specs: Vec<TerminalLaunchSpec> = Vec::new();
            let mut i: usize = 0;
            while i < programs.len()
                invariant
                    i <= programs@.len(),
                    texts(programs@) == names,
                    specs@.len() == i,
                    forall|j: int|
                        0 <= j < i ==> (#[trigger] specs@[j])@ == detached(names[j], target_dir@),
                decreases programs@.len() - i,
            {
                assert(programs@[i as int]@ == names[i as int]);
                specs.push(start_detached(programs[i].as_str(), target_dir));
                i += 1;
            }
            assert(texts(programs@).len() == programs@.len());
            assert(spec_views(specs@) =~= all_detached(names, target_dir@));
            specs
        },
    }
}

/// The message for a configured terminal that could not be launched, given its quoted name.
pub open spec fn configured_message(quote: Seq<char>, reason: Seq<char>) -> Seq<char> {
    "Could not launch configured terminal "@ + quote + ": "@ + reason
        + ". Clear or reset Default Terminal in Preferences."@
}

/// The error for a terminal that could not be launched.
pub open spec fn launch_error(preferred: Option<Seq<char>>, reason: Seq<char>) -> ErrorView {
    match preferred {
        Some(name) => ErrorView::Io(configured_message(debug_text(name), reason)),
        None => ErrorView::Io(reason),
    }
}

/// The message for a configured terminal that could not be launched, given its quoted name.
pub fn configured_terminal_message(quote: &str, reason: &str) -> (message: String)
    ensures
        message@ == configured_message(quote@, reason@),
{
    "Could not launch configured terminal ".to_owned().concat(quote).concat(": ").concat(
        reason,
    ).concat(". Clear or reset Default Terminal in Preferences.")
}

/// The error for a terminal that could not be launched: where it was configured, the message
/// names it and says how to recover.
pub fn terminal_launch_error(preferred_terminal: Option<&str>, reason: &str) -> (error: AppError)
    ensures
        error@ == launch_error(opt_text(preferred_terminal), reason@),
        preferred_terminal matches Some(name) ==> (forall|i: int|
            0 <= i < name@.len() ==> plain_character(#[trigger] name@[i])) ==> error@
            == ErrorView::Io(configured_message(seq!['"'] + name@ + seq!['"'], reason@)),
{
    match preferred_terminal {
        Some(name) => {
            let quote = quoted(name);
            AppError::Io(configured_terminal_message(quote.as_str(), reason))
        },
        None => AppError::Io(reason.to_owned()),
    }
}

/// The usual terminals of Linux are all different.
pub proof fn fallback_programs_are_distinct()
    ensures
        fallback_programs().no_duplicates(),
{
    reveal_strlit("xdg-terminal-exec");
    reveal_strlit("foot");
    reveal_strlit("kitty");
    reveal_strlit("alacritty");
    reveal_strlit("ghostty");
    reveal_strlit("x-terminal-emulator");
    reveal_strlit("gnome-terminal");
    reveal_strlit("konsole");
    reveal_strlit("xfce4-terminal");
    let all = fallback_programs();
    assert(all.map_values(|program: Seq<char>| program.len()) =~= seq![
        17nat,
        4,
        5,
        9,
        7,
        19,
        14,
        7,
        14,
    ]);
    assert(all[4][0] == 'g' && all[7][0] == 'k');
    assert(all[6][0] == 'g' && all[8][0] == 'x');
    assert forall|i: int, j: int| 0 <= i < all.len() && 0 <= j < all.len() && i != j implies all[i]
        != all[j] by {
        let lengths = all.map_values(|program: Seq<char>| program.len());
        assert(lengths[i] == all[i].len() && lengths[j] == all[j].len());
    }
}

/// On Linux no terminal is tried twice, every usual terminal is among those that are tried, and
/// the one that the environment names comes first, without the white space around it.
pub proof fn linux_tries_each_program_once(terminal_env: Option<Seq<char>>)
    ensures
        linux_programs(terminal_env).no_duplicates(),
        forall|program: Seq<char>|
            fallback_programs().contains(program) ==> #[trigger] linux_programs(
                terminal_env,
            ).contains(program),
        terminal_env matches Some(value) ==> trimmed(value).len() > 0 ==> linux_programs(
            terminal_env,
        )[0] == trimmed(value),
        linux_programs(terminal_env).len() > 0,
{
    fallback_programs_are_distinct();
    let all = fallback_programs();
    if let Some(value) = terminal_env {
        if trimmed(value).len() > 0 {
            let first = trimmed(value);
            let rest = others(all, first);
            let programs = seq![first] + rest;
            others_keeps_exactly_the_others(all, first);
            assert forall|i: int, j: int|
                0 <= i < programs.len() && 0 <= j < programs.len() && i != j implies programs[i]
                != programs[j] by {
                if i == 0 {
                    assert(rest.contains(rest[j - 1]));
                } else if j == 0 {
                    assert(rest.contains(rest[i - 1]));
                }
            }
            assert forall|program: Seq<char>| all.contains(program) implies #[trigger]
                programs.contains(program) by {
                if program == first {
                    assert(programs[0] == program);
                } else {
                    assert(rest.contains(program));
                    let i = rest.index_of(program);
                    assert(programs[i + 1] == program);
                }
            }
        }
    }
}

/// Whatever the platform and the preferences, there is something to try, every try runs in the
/// directory that was asked for, only Windows opens a new console, and only macOS waits for the
/// launcher's success.
pub proof fn every_try_runs_in_the_target(
    platform: LaunchPlatform,
    dir: PathView,
    preferred: Option<Seq<char>>,
    terminal_env: Option<Seq<char>>,
)
    ensures
        ({
            let specs = launch_specs(platform, dir, preferred, terminal_env);
            &&& specs.len() > 0
            &&& forall|i: int|
                0 <= i < specs.len() ==> {
                    &&& (#[trigger] specs[i]).current_dir == dir
                    &&& specs[i].new_console == (platform == LaunchPlatform::Windows)
                    &&& (specs[i].execution == TerminalExecution::WaitForSuccess) == (platform
                        == LaunchPlatform::MacOs)
                }
        }),
{
    linux_tries_each_program_once(terminal_env);
}

/// A preferred terminal is the only thing that is tried, whatever the environment says, and its
/// name is handed on unchanged: as the program, or on macOS as the application to open.
pub proof fn preference_is_the_only_try(
    platform: LaunchPlatform,
    dir: PathView,
    preferred: Seq<char>,
    env: Option<Seq<char>>,
    other_env: Option<Seq<char>>,
)
    ensures
        ({
            let specs = launch_specs(platform, dir, Some(preferred), env);
            &&& specs.len() == 1
            &&& specs == launch_specs(platform, dir, Some(preferred), other_env)
            &&& if platform == LaunchPlatform::MacOs {
                specs[0].program == "open"@ && specs[0].args == seq!["-a"@, preferred, dir.text]
            } else {
                specs[0].program == preferred && specs[0].args == Seq::<Seq<char>>::empty()
            }
        }),
{
}

/// A value of the environment that is blank names no terminal.
pub proof fn blank_environment_counts_as_none(value: Seq<char>)
    requires
        forall|i: int| 0 <= i < value.len() ==> white_space(#[trigger] value[i]),
    ensures
        linux_programs(Some(value)) == linux_programs(None),
    decreases value.len(),
{
    if value.len() > 0 {
        let rest = value.drop_first();
        assert forall|i: int| 0 <= i < rest.len() implies white_space(#[trigger] rest[i]) by {
            assert(rest[i] == value[i + 1]);
        }
        blank_environment_counts_as_none(rest);
    }
}

/// The message for a configured terminal contains its quoted name and the reason as they are.
pub proof fn configured_message_names_the_terminal(quote: Seq<char>, reason: Seq<char>)
    ensures
        ({
            let message = configured_message(quote, reason);
            let head = "Could not launch configured terminal "@.len() as int;
            let named = head + quote.len();
            &&& message.subrange(head, named) == quote
            &&& message.subrange(named + ": "@.len(), named + ": "@.len() + reason.len()) == reason
        }),
{
    let message = configured_message(quote, reason);
    let head = "Could not launch configured terminal "@.len() as int;
    let named = head + quote.len();
    assert(message.subrange(head, named) =~= quote);
    assert(message.subrange(named + ": "@.len(), named + ": "@.len() + reason.len()) =~= reason);
}

/// The content of a way to launch is all that is in it, and that of a list of ways is what each of
/// them holds.
pub proof fn launch_content_is_the_whole_spec(
    spec: TerminalLaunchSpec,
    specs: Seq<TerminalLaunchSpec>,
)
    ensures
        spec@.program == spec.program@,
        spec@.args == texts(spec.args@),
        spec@.current_dir == spec.current_dir@,
        spec@.new_console == spec.new_console,
        spec@.execution == spec.execution,
        spec_views(specs).len() == specs.len(),
        forall|i: int| 0 <= i < specs.len() ==> (#[trigger] spec_views(specs)[i]) == specs[i]@,
{
}

/// The name `macos` and no other stands for macOS, and `windows` and no other for Windows. Every
/// other system is treated as Linux.
pub proof fn platforms_go_by_their_name(os: Seq<char>)
    ensures
        platform_of(os) == LaunchPlatform::MacOs <==> os == "macos"@,
        platform_of(os) == LaunchPlatform::Windows <==> os == "windows"@,
        os != "macos"@ && os != "windows"@ ==> platform_of(os) == LaunchPlatform::Linux,
{
    reveal_strlit("macos");
    reveal_strlit("windows");
    assert("macos"@.len() == 5 && "windows"@.len() == 7);
}

/// The usual terminals of Linux in the order in which they are tried.
pub proof fn usual_terminals_in_their_order()
    ensures
        fallback_programs().len() == 9,
        fallback_programs()[0] == "xdg-terminal-exec"@,
        fallback_programs()[1] == "foot"@,
        fallback_programs()[2] == "kitty"@,
        fallback_programs()[3] == "alacritty"@,
        fallback_programs()[4] == "ghostty"@,
        fallback_programs()[5] == "x-terminal-emulator"@,
        fallback_programs()[6] == "gnome-terminal"@,
        fallback_programs()[7] == "konsole"@,
        fallback_programs()[8] == "xfce4-terminal"@,
{
}

/// A terminal that the environment names, with whatever white space around it, is tried first, and
/// behind it the usual ones in their order without that one. Where the environment names none, the
/// usual ones are tried.
pub proof fn environment_terminal_comes_first(
    before: Seq<char>,
    name: Seq<char>,
    behind: Seq<char>,
)
    requires
        forall|i: int| 0 <= i < before.len() ==> white_space(#[trigger] before[i]),
        forall|i: int| 0 <= i < behind.len() ==> white_space(#[trigger] behind[i]),
        name.len() > 0,
        !white_space(name.first()),
        !white_space(name.last()),
    ensures
        linux_programs(Some(before + name + behind)) == seq![name] + others(
            fallback_programs(),
            name,
        ),
        linux_programs(Some(before + behind)) == fallback_programs(),
        linux_programs(None) == fallback_programs(),
{
    trimming_gives_what_stands_between(before, name, behind);
    let none = Seq::<char>::empty();
    trimming_gives_what_stands_between(before, none, behind);
    assert(before + none + behind =~= before + behind);
}

/// How a terminal is launched on each platform. macOS is asked to open the application, which is
/// the preferred one or else the system's own, on the directory. Windows starts the preferred
/// program as it is, or else its command interpreter, told to stay. Linux starts the preferred
/// program as it is, or else its terminals one after the other, each without arguments.
pub proof fn each_platform_launches_in_its_own_way(
    dir: PathView,
    preferred: Seq<char>,
    env: Option<Seq<char>>,
)
    ensures
        ({
            let named = launch_specs(LaunchPlatform::MacOs, dir, Some(preferred), env);
            let own = launch_specs(LaunchPlatform::MacOs, dir, None, env);
            &&& named.len() == 1 && own.len() == 1
            &&& named[0].program == "open"@ && own[0].program == "open"@
            &&& named[0].args == seq!["-a"@, preferred, dir.text]
            &&& own[0].args == seq!["-a"@, "Terminal"@, dir.text]
        }),
        ({
            let named = launch_specs(LaunchPlatform::Windows, dir, Some(preferred), env);
            let own = launch_specs(LaunchPlatform::Windows, dir, None, env);
            &&& named.len() == 1 && own.len() == 1
            &&& named[0].program == preferred && own[0].program == "cmd.exe"@
            &&& named[0].args == Seq::<Seq<char>>::empty()
            &&& own[0].args == seq!["/K"@]
        }),
        ({
            let named = launch_specs(LaunchPlatform::Linux, dir, Some(preferred), env);
            let own = launch_specs(LaunchPlatform::Linux, dir, None, env);
            &&& named.len() == 1
            &&& named[0].program == preferred && named[0].args == Seq::<Seq<char>>::empty()
            &&& own.len() == linux_programs(env).len()
            &&& forall|i: int|
                0 <= i < own.len() ==> (#[trigger] own[i]).program == linux_programs(env)[i]
                    && own[i].args == Seq::<Seq<char>>::empty()
        }),
{
}

/// The error for a terminal that was configured says so, names it as it is quoted, gives the
/// reason, and tells how to recover, with nothing in between. The error for any other terminal is
/// the reason alone.
pub proof fn launch_errors_tell_what_happened(name: Seq<char>, quote: Seq<char>, reason: Seq<char>)
    ensures
        ({
            let message = configured_message(quote, reason);
            let opening = "Could not launch configured terminal "@;
            let closing = ". Clear or reset Default Terminal in Preferences."@;
            let named = opening.len() as int + quote.len() as int;
            &&& message.len() == opening.len() + quote.len() + 2 + reason.len() + closing.len()
            &&& message.subrange(0, opening.len() as int) == opening
            &&& message.subrange(opening.len() as int, named) == quote
            &&& message.subrange(named, named + 2) == ": "@
            &&& message.subrange(named + 2, named + 2 + reason.len()) == reason
            &&& message.subrange(named + 2 + reason.len(), message.len() as int) == closing
        }),
        launch_error(Some(name), reason) == ErrorView::Io(
            configured_message(debug_text(name), reason),
        ),
        launch_error(None, reason) == ErrorView::Io(reason),
{
    reveal_strlit(": ");
    let message = configured_message(quote, reason);
    let opening = "Could not launch configured terminal "@;
    let closing = ". Clear or reset Default Terminal in Preferences."@;
    let named = opening.len() as int + quote.len() as int;
    assert(": "@.len() == 2);
    assert(message.subrange(0, opening.len() as int) =~= opening);
    assert(message.subrange(opening.len() as int, named) =~= quote);
    assert(message.subrange(named, named + 2) =~= ": "@);
    assert(message.subrange(named + 2, named + 2 + reason.len()) =~= reason);
    assert(message.subrange(named + 2 + reason.len(), message.len() as int) =~= closing);
}

} // verus!
