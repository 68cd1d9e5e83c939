//! Launching: from a catalogued target and what the disk says of it to the
//! one thing that is to be started, or to the reason why nothing is.
//!
//! Nothing here starts a process. A plan names the program, its arguments
//! and its working directory, and says whether the program is left to
//! itself and whether its output is discarded. Whoever carries the plan out
//! hands the arguments over one by one, never through a shell.

use vstd::prelude::*;
use crate::arguments::{is_token, lemma_tokens_are_tokens, split_arguments, tokens_of};
use crate::classify::PathProbe;
use crate::models::AppSettings;
use crate::paths::{parent, parent_of};
use crate::platform::Platform;
use crate::shortcut::{kind_of_path, shortcut_kind, ShortcutKind};
use crate::text::{joined, opt_view, string_views};

verus! {

/// What is asked of the launcher.
#[derive(Clone, Debug, PartialEq)]
pub struct LaunchRequest {
    /// The catalogued path or address.
    pub target: String,
    /// Arguments for the target, split at white space before use.
    pub arguments: Option<String>,
    /// Whether the target is to run with raised privileges.
    pub elevate: bool,
}

/// What the disk says of a target at the moment of launching.
#[derive(Debug, PartialEq)]
pub struct TargetFacts {
    /// What stands at the catalogued path.
    pub probe: PathProbe,
    /// Where the path leads, when it is a shortcut that could be resolved.
    pub resolved: Option<String>,
    /// What stands at the resolved path; `Missing` when there is none.
    pub target_probe: PathProbe,
}

/// Why nothing was launched.
#[derive(Clone, Copy, Debug, PartialEq, Eq, Structural)]
pub enum LaunchError {
    /// The catalogued path does not exist.
    NotFound,
    /// A shell link names no target, or one that does not exist.
    UnresolvedShortcut,
    /// An internet shortcut names no address.
    UnresolvedUrlShortcut,
    /// The folder to open does not exist.
    FolderNotFound,
    /// The path to open as a folder is not a directory.
    NotAFolder,
    /// None of the known file managers could be started.
    NoFileManager,
    /// The platform has no way to open an address.
    UrlUnsupported,
    /// The platform has no way to open a folder.
    FolderUnsupported,
    /// A file has no directory that could be shown.
    NoParentDirectory,
    /// The platform has no way to raise privileges.
    ElevationUnsupported,
}

/// What the launcher can be asked to do.
#[derive(Clone, Copy, Debug, PartialEq, Eq, Structural)]
pub enum Operation {
    LaunchApp,
    OpenUrl,
    OpenFolder,
    RunAsAdmin,
    OpenFileLocation,
}

/// What is reported when nothing was launched for the given reason.
pub open spec fn error_message_of(error: LaunchError) -> Seq<char> {
    match error {
        LaunchError::NotFound => "应用文件不存在"@,
        LaunchError::UnresolvedShortcut => "无法解析快捷方式目标路径"@,
        LaunchError::UnresolvedUrlShortcut => "无法解析URL快捷方式"@,
        LaunchError::FolderNotFound => "文件夹不存在"@,
        LaunchError::NotAFolder => "路径不是文件夹"@,
        LaunchError::NoFileManager => "未找到可用的文件管理器"@,
        LaunchError::UrlUnsupported => "当前平台不支持打开网址"@,
        LaunchError::FolderUnsupported => "当前平台不支持打开文件夹"@,
        LaunchError::NoParentDirectory => "无法获取文件目录"@,
        LaunchError::ElevationUnsupported => "当前平台不支持以管理员权限启动应用"@,
    }
}

/// What is reported when an operation went through.
pub open spec fn success_message_of(operation: Operation) -> Seq<char> {
    match operation {
        Operation::LaunchApp => "应用启动成功"@,
        Operation::OpenUrl => "网址打开成功"@,
        Operation::OpenFolder => "文件夹打开成功"@,
        Operation::RunAsAdmin => "应用以管理员权限启动成功"@,
        Operation::OpenFileLocation => "已打开文件所在目录"@,
    }
}

/// What begins the report of a program that could not be started.
pub open spec fn failure_prefix_of(operation: Operation) -> Seq<char> {
    match operation {
        Operation::LaunchApp => "启动应用失败: "@,
        Operation::OpenUrl => "打开网址失败: "@,
        Operation::OpenFolder => "打开文件夹失败: "@,
        Operation::RunAsAdmin => "以管理员权限启动应用失败: "@,
        Operation::OpenFileLocation => "打开目录失败: "@,
    }
}

impl LaunchError {
    /// The reason in words, as it is shown to the user.
    pub fn message(&self) -> (text: &'static str)
        ensures
            text@ == error_message_of(*self),
    {
        match self {
            LaunchError::NotFound => "应用文件不存在",
            LaunchError::UnresolvedShortcut => "无法解析快捷方式目标路径",
            LaunchError::UnresolvedUrlShortcut => "无法解析URL快捷方式",
            LaunchError::FolderNotFound => "文件夹不存在",
            LaunchError::NotAFolder => "路径不是文件夹",
            LaunchError::NoFileManager => "未找到可用的文件管理器",
            LaunchError::UrlUnsupported => "当前平台不支持打开网址",
            LaunchError::FolderUnsupported => "当前平台不支持打开文件夹",
            LaunchError::NoParentDirectory => "无法获取文件目录",
            LaunchError::ElevationUnsupported => "当前平台不支持以管理员权限启动应用",
        }
    }
}

impl Operation {
    /// What is reported when the operation went through.
    pub fn success_message(&self) -> (text: &'static str)
        ensures
            text@ == success_message_of(*self),
    {
        match self {
            Operation::LaunchApp => "应用启动成功",
            Operation::OpenUrl => "网址打开成功",
            Operation::OpenFolder => "文件夹打开成功",
            Operation::RunAsAdmin => "应用以管理员权限启动成功",
            Operation::OpenFileLocation => "已打开文件所在目录",
        }
    }

    /// What is reported when the program of the operation could not be
    /// started: the operation in words, then what the system said.
    pub fn failure_message(&self, detail: &str) -> (text: String)
        ensures
            text@ == failure_prefix_of(*self) + detail@,
    {
        let prefix = match self {
            Operation::LaunchApp => "启动应用失败: ",
            Operation::OpenUrl => "打开网址失败: ",
            Operation::OpenFolder => "打开文件夹失败: ",
            Operation::RunAsAdmin => "以管理员权限启动应用失败: ",
            Operation::OpenFileLocation => "打开目录失败: ",
        };
        joined(prefix, detail)
    }
}

/// A program to start.
#[derive(Debug, PartialEq)]
pub struct Command {
    pub program: String,
    pub arguments: Vec<String>,
    /// The directory to start in; `None` leaves it as it is.
    pub working_dir: Option<String>,
    /// Creation flags for Windows; 0 elsewhere.
    pub creation_flags: u32,
    /// Whether the program is left to itself: the launcher neither waits
    /// for it nor ends it.
    pub detached: bool,
    /// Whether what the program prints goes nowhere.
    pub discard_output: bool,
}

/// The mathematical content of a [`Command`].
pub struct CommandView {
    pub program: Seq<char>,
    pub arguments: Seq<Seq<char>>,
    pub working_dir: Option<Seq<char>>,
    pub creation_flags: u32,
    pub detached: bool,
    pub discard_output: bool,
}

impl View for Command {
    type V = CommandView;

    open spec fn view(&self) -> CommandView {
        CommandView {
            program: self.program@,
            arguments: string_views(self.arguments@),
            working_dir: opt_view(self.working_dir),
            creation_flags: self.creation_flags,
            detached: self.detached,
            discard_output: self.discard_output,
        }
    }
}

/// What the launcher decided.
#[derive(Debug, PartialEq)]
pub enum LaunchPlan {
    /// Start the program, detached and with its output discarded.
    Spawn(Command),
    /// Start one of the system's openers, which takes it from there.
    Open(Command),
    /// Start the first of these openers that can be started.
    OpenFirst(Vec<Command>),
    /// Launch nothing.
    Fail(LaunchError),
}

/// The mathematical content of a [`LaunchPlan`].
pub enum PlanView {
    Spawn(CommandView),
    Open(CommandView),
    OpenFirst(Seq<CommandView>),
    Fail(LaunchError),
}

/// The views of a vector of commands.
pub open spec fn command_views(v: Seq<Command>) -> Seq<CommandView> {
    Seq::new(v.len(), |i: int| v[i]@)
}

impl View for LaunchPlan {
    type V = PlanView;

    open spec fn view(&self) -> PlanView {
        match self {
            LaunchPlan::Spawn(c) => PlanView::Spawn(c@),
            LaunchPlan::Open(c) => PlanView::Open(c@),
            LaunchPlan::OpenFirst(v) => PlanView::OpenFirst(command_views(v@)),
            LaunchPlan::Fail(e) => PlanView::Fail(*e),
        }
    }
}

/// The process is not attached to the launcher's console.
pub const DETACHED_PROCESS: u32 = 0x0000_0008;

/// The process gets no console window.
pub const CREATE_NO_WINDOW: u32 = 0x0800_0000;

/// The two flags together.
pub const DETACHED_NO_WINDOW: u32 = 0x0800_0008;

/// The file managers that are tried on Linux, best first.
pub open spec fn file_managers() -> Seq<Seq<char>> {
    seq!["nautilus"@, "dolphin"@, "thunar"@, "pcmanfm"@]
}

/// The creation flags of a launched target.
pub open spec fn target_flags(platform: Platform) -> u32 {
    if platform == Platform::Windows {
        DETACHED_NO_WINDOW
    } else {
        0
    }
}

/// The directory in which a program is started: the one that holds it, or
/// `.` when its path names none.
pub open spec fn working_dir_of(program: Seq<char>) -> Seq<char> {
    match parent_of(program) {
        Some(dir) => dir,
        None => "."@,
    }
}

/// The tokens of an optional argument string.
pub open spec fn argument_tokens(arguments: Option<Seq<char>>) -> Seq<Seq<char>> {
    match arguments {
        Some(a) => tokens_of(a),
        None => Seq::empty(),
    }
}

/// How a target is started, on every platform: the target itself, with
/// the tokens as its arguments, in the directory that holds it, left to
/// itself and with its output discarded. Only the creation flags differ.
pub open spec fn start_of(program: Seq<char>, tokens: Seq<Seq<char>>, platform: Platform) -> PlanView {
    PlanView::Spawn(
        CommandView {
            program: program,
            arguments: tokens,
            working_dir: Some(working_dir_of(program)),
            creation_flags: target_flags(platform),
            detached: true,
            discard_output: true,
        },
    )
}

/// How an address is opened: by the opener of the platform. The Windows
/// shell takes no further arguments.
pub open spec fn url_plan_of(url: Seq<char>, tokens: Seq<Seq<char>>, platform: Platform) -> PlanView {
    match platform {
        Platform::Windows => PlanView::Open(
            CommandView {
                program: "explorer"@,
                arguments: seq![url],
                working_dir: None,
                creation_flags: 0,
                detached: false,
                discard_output: false,
            },
        ),
        Platform::MacOs => PlanView::Open(
            CommandView {
                program: "open"@,
                arguments: seq![url] + tokens,
                working_dir: None,
                creation_flags: 0,
                detached: false,
                discard_output: false,
            },
        ),
        Platform::Linux => PlanView::Open(
            CommandView {
                program: "xdg-open"@,
                arguments: seq![url] + tokens,
                working_dir: None,
                creation_flags: 0,
                detached: false,
                discard_output: false,
            },
        ),
        Platform::Other => PlanView::Fail(LaunchError::UrlUnsupported),
    }
}

/// The plan for a target whose path denotes a container of the given
/// kind. The path must exist. A shell link is followed to its target, which
/// must exist too; an internet shortcut is opened as the address it names;
/// anything else is started as it is.
pub open spec fn launch_plan_for(
    kind: ShortcutKind,
    target: Seq<char>,
    arguments: Option<Seq<char>>,
    platform: Platform,
    probe: PathProbe,
    resolved: Option<Seq<char>>,
    target_probe: PathProbe,
) -> PlanView {
    let tokens = argument_tokens(arguments);
    if probe == PathProbe::Missing {
        PlanView::Fail(LaunchError::NotFound)
    } else {
        match kind {
            ShortcutKind::ShellLink => match resolved {
                Some(program) => if target_probe == PathProbe::Missing {
                    PlanView::Fail(LaunchError::UnresolvedShortcut)
                } else {
                    start_of(program, tokens, platform)
                },
                None => PlanView::Fail(LaunchError::UnresolvedShortcut),
            },
            ShortcutKind::InternetShortcut => match resolved {
                Some(url) => url_plan_of(url, tokens, platform),
                None => PlanView::Fail(LaunchError::UnresolvedUrlShortcut),
            },
            _ => start_of(target, tokens, platform),
        }
    }
}

/// The plan for a target: the plan for the kind of container that its
/// extension denotes.
pub open spec fn launch_plan_of(
    target: Seq<char>,
    arguments: Option<Seq<char>>,
    platform: Platform,
    probe: PathProbe,
    resolved: Option<Seq<char>>,
    target_probe: PathProbe,
) -> PlanView {
    launch_plan_for(
        kind_of_path(target),
        target,
        arguments,
        platform,
        probe,
        resolved,
        target_probe,
    )
}

/// The command that opens `folder` with the file manager `manager`.
pub open spec fn manager_command(
    manager: Seq<char>,
    folder: Seq<char>,
    tokens: Seq<Seq<char>>,
) -> CommandView {
    CommandView {
        program: manager,
        arguments: seq![folder] + tokens,
        working_dir: None,
        creation_flags: 0,
        detached: false,
        discard_output: false,
    }
}

/// The plan for opening a folder, which must exist and be a directory.
pub open spec fn folder_plan_of(
    folder: Seq<char>,
    tokens: Seq<Seq<char>>,
    platform: Platform,
    probe: PathProbe,
) -> PlanView {
    match probe {
        PathProbe::Missing => PlanView::Fail(LaunchError::FolderNotFound),
        PathProbe::File => PlanView::Fail(LaunchError::NotAFolder),
        PathProbe::Directory => match platform {
            Platform::Windows => PlanView::Open(
                CommandView {
                    program: "explorer"@,
                    arguments: seq![folder],
                    working_dir: None,
                    creation_flags: 0,
                    detached: false,
                    discard_output: false,
                },
            ),
            Platform::MacOs => PlanView::Open(manager_command("open"@, folder, tokens)),
            Platform::Linux => PlanView::OpenFirst(
                Seq::new(
                    file_managers().len(),
                    |i: int| manager_command(file_managers()[i], folder, tokens),
                ),
            ),
            Platform::Other => PlanView::Fail(LaunchError::FolderUnsupported),
        },
    }
}

/// The tokens of an optional argument string.
pub fn tokens_of_arguments(arguments: &Option<String>) -> (tokens: Vec<String>)
    ensures
        string_views(tokens@) == argument_tokens(opt_view(*arguments)),
{
    match arguments {
        Some(a) => split_arguments(a.as_str()),
        None => {
            let tokens: Vec<String> = Vec::new();
            assert(string_views(tokens@) == Seq::<Seq<char>>::empty());
            tokens
        },
    }
}

/// A command with one argument before the given ones.
fn opener(program: &str, first: &str, rest: Vec<String>) -> (c: Command)
    ensures
        c@ == (CommandView {
            program: program@,
            arguments: seq![first@] + string_views(rest@),
            working_dir: None,
            creation_flags: 0,
            detached: false,
            discard_output: false,
        }),
{
    let mut arguments: Vec<String> = Vec::new();
    arguments.push(first.to_owned());
    let mut i: usize = 0;
    while i < rest.len()
        invariant
            i <= rest.len(),
            string_views(arguments@) == seq![first@] + string_views(rest@).take(i as int),
        decreases rest.len() - i,
    {
        let ghost before = string_views(arguments@);
        arguments.push(rest[i].clone());
        assert(string_views(arguments@) == before + seq![rest@[i as int]@]);
        assert(string_views(rest@).take(i + 1) == string_views(rest@).take(i as int) + seq![
            rest@[i as int]@,
        ]);
        i += 1;
    }
    assert(string_views(rest@).take(rest@.len() as int) == string_views(rest@));
    Command {
        program: program.to_owned(),
        arguments,
        working_dir: None,
        creation_flags: 0,
        detached: false,
        discard_output: false,
    }
}

/// The directory in which a program is started.
pub fn working_dir(program: &str) -> (dir: String)
    ensures
        dir@ == working_dir_of(program@),
{
    match parent(program) {
        Some(dir) => dir,
        None => ".".to_owned(),
    }
}

/// How a target is started with the given arguments.
fn start(program: &str, tokens: Vec<String>, platform: Platform) -> (plan: LaunchPlan)
    ensures
        plan@ == start_of(program@, string_views(tokens@), platform),
{
    let creation_flags: u32 = match platform {
        Platform::Windows => DETACHED_NO_WINDOW,
        _ => 0,
    };
    LaunchPlan::Spawn(
        Command {
            program: program.to_owned(),
            arguments: tokens,
            working_dir: Some(working_dir(program)),
            creation_flags,
            detached: true,
            discard_output: true,
        },
    )
}

/// The plan for opening an address with the opener of the platform. No
/// check is made of the disk.
pub fn open_url(url: &str, launch_args: &Option<String>, platform: Platform) -> (plan: LaunchPlan)
    ensures
        plan@ == url_plan_of(url@, argument_tokens(opt_view(*launch_args)), platform),
{
    match platform {
        Platform::Windows => {
            let c = opener("explorer", url, Vec::new());
            assert(c@.arguments == seq![url@]);
            LaunchPlan::Open(c)
        },
        Platform::MacOs => LaunchPlan::Open(opener("open", url, tokens_of_arguments(launch_args))),
        Platform::Linux => LaunchPlan::Open(
            opener("xdg-open", url, tokens_of_arguments(launch_args)),
        ),
        Platform::Other => LaunchPlan::Fail(LaunchError::UrlUnsupported),
    }
}

/// The plan for launching a target whose path denotes a container of the
/// given kind, given what the disk says of it at this moment.
pub fn launch_as(
    kind: ShortcutKind,
    app_path: &str,
    launch_args: &Option<String>,
    platform: Platform,
    facts: &TargetFacts,
) -> (plan: LaunchPlan)
    ensures
        plan@ == launch_plan_for(
            kind,
            app_path@,
            opt_view(*launch_args),
            platform,
            facts.probe,
            opt_view(facts.resolved),
            facts.target_probe,
        ),
{
    match facts.probe {
        PathProbe::Missing => {
            return LaunchPlan::Fail(LaunchError::NotFound);
        },
        _ => {},
    }
    match kind {
        ShortcutKind::ShellLink => match &facts.resolved {
            Some(program) => match facts.target_probe {
                PathProbe::Missing => LaunchPlan::Fail(LaunchError::UnresolvedShortcut),
                _ => start(program.as_str(), tokens_of_arguments(launch_args), platform),
            },
            None => LaunchPlan::Fail(LaunchError::UnresolvedShortcut),
        },
        ShortcutKind::InternetShortcut => match &facts.resolved {
            Some(url) => open_url(url.as_str(), launch_args, platform),
            None => LaunchPlan::Fail(LaunchError::UnresolvedUrlShortcut),
        },
        _ => start(app_path, tokens_of_arguments(launch_args), platform),
    }
}

/// The plan for launching a catalogued target, given what the disk says of
/// it at this moment. The target itself is started, or the target of the
/// shell link that it is; the arguments are split at white space and handed
/// over one by one, and where there are none the target gets none.
pub fn launch_app(
    app_path: &str,
    launch_args: &Option<String>,
    platform: Platform,
    facts: &TargetFacts,
) -> (plan: LaunchPlan)
    ensures
        plan@ == launch_plan_of(
            app_path@,
            opt_view(*launch_args),
            platform,
            facts.probe,
            opt_view(facts.resolved),
            facts.target_probe,
        ),
{
    launch_as(shortcut_kind(app_path), app_path, launch_args, platform, facts)
}

/// The plan for opening a folder in a file manager. On Linux the known file
/// managers are to be tried in order until one starts.
pub fn open_folder(
    folder_path: &str,
    launch_args: &Option<String>,
    platform: Platform,
    probe: PathProbe,
) -> (plan: LaunchPlan)
    ensures
        plan@ == folder_plan_of(
            folder_path@,
            argument_tokens(opt_view(*launch_args)),
            platform,
            probe,
        ),
{
    match probe {
        PathProbe::Missing => {
            return LaunchPlan::Fail(LaunchError::FolderNotFound);
        },
        PathProbe::File => {
            return LaunchPlan::Fail(LaunchError::NotAFolder);
        },
        PathProbe::Directory => {},
    }
    match platform {
        Platform::Windows => {
            let c = opener("explorer", folder_path, Vec::new());
            assert(c@.arguments == seq![folder_path@]);
            LaunchPlan::Open(c)
        },
        Platform::MacOs => LaunchPlan::Open(
            opener("open", folder_path, tokens_of_arguments(launch_args)),
        ),
        Platform::Linux => {
            let mut candidates: Vec<Command> = Vec::new();
            candidates.push(opener("nautilus", folder_path, tokens_of_arguments(launch_args)));
            candidates.push(opener("dolphin", folder_path, tokens_of_arguments(launch_args)));
            candidates.push(opener("thunar", folder_path, tokens_of_arguments(launch_args)));
            candidates.push(opener("pcmanfm", folder_path, tokens_of_arguments(launch_args)));
            assert(command_views(candidates@) =~= Seq::new(
                file_managers().len(),
                |i: int|
                    manager_command(
                        file_managers()[i],
                        folder_path@,
                        argument_tokens(opt_view(*launch_args)),
                    ),
            ));
            LaunchPlan::OpenFirst(candidates)
        },
        Platform::Other => LaunchPlan::Fail(LaunchError::FolderUnsupported),
    }
}

/// How long the main window stays after a launch before it hides, in
/// milliseconds.
pub const HIDE_DELAY_MILLIS: u64 = 300;

/// After how many milliseconds the main window hides once the plan was
/// carried out: after a short while where the settings ask for it and the
/// plan launches something, and never otherwise.
pub open spec fn hide_delay_of(plan: PlanView, auto_hide_after_launch: Option<bool>) -> Option<u64> {
    if auto_hide_after_launch == Some(true) && !(plan is Fail) {
        Some(HIDE_DELAY_MILLIS)
    } else {
        None
    }
}

/// The plan for launching a catalogued target, and after how many
/// milliseconds the main window is to hide once the target was started.
/// The window stays when the launch fails.
pub fn launch_app_with_auto_hide(
    app_path: &str,
    launch_args: &Option<String>,
    platform: Platform,
    facts: &TargetFacts,
    settings: &AppSettings,
) -> (r: (LaunchPlan, Option<u64>))
    ensures
        r.0@ == launch_plan_of(
            app_path@,
            opt_view(*launch_args),
            platform,
            facts.probe,
            opt_view(facts.resolved),
            facts.target_probe,
        ),
        r.1 == hide_delay_of(r.0@, settings.auto_hide_after_launch),
{
    let plan = launch_app(app_path, launch_args, platform, facts);
    let launches = match &plan {
        LaunchPlan::Fail(_) => false,
        _ => true,
    };
    let hide = match settings.auto_hide_after_launch {
        Some(true) => if launches {
            Some(HIDE_DELAY_MILLIS)
        } else {
            None
        },
        _ => None,
    };
    (plan, hide)
}

/// The plan for a request. A request for raised privileges goes to the
/// elevation prompt of Windows, for a target that exists; any other request
/// is planned as `launch_plan_of` says.
pub open spec fn request_plan_of(
    request: LaunchRequest,
    platform: Platform,
    probe: PathProbe,
    resolved: Option<Seq<char>>,
    target_probe: PathProbe,
) -> PlanView {
    if !request.elevate {
        launch_plan_of(
            request.target@,
            opt_view(request.arguments),
            platform,
            probe,
            resolved,
            target_probe,
        )
    } else if probe == PathProbe::Missing {
        PlanView::Fail(LaunchError::NotFound)
    } else if platform == Platform::Windows {
        PlanView::Open(crate::shell::elevated_command_of(request.target@))
    } else {
        PlanView::Fail(LaunchError::ElevationUnsupported)
    }
}

/// The plan for a request, given what the disk says of its target at this
/// moment.
pub fn launch(request: &LaunchRequest, platform: Platform, facts: &TargetFacts) -> (plan:
    LaunchPlan)
    ensures
        plan@ == request_plan_of(
            *request,
            platform,
            facts.probe,
            opt_view(facts.resolved),
            facts.target_probe,
        ),
{
    if !request.elevate {
        return launch_app(request.target.as_str(), &request.arguments, platform, facts);
    }
    match facts.probe {
        PathProbe::Missing => {
            return LaunchPlan::Fail(LaunchError::NotFound);
        },
        _ => {},
    }
    match platform {
        Platform::Windows => LaunchPlan::Open(crate::shell::run_as_admin(request.target.as_str())),
        _ => LaunchPlan::Fail(LaunchError::ElevationUnsupported),
    }
}

/// What to do after an opener of an `OpenFirst` plan was tried.
#[derive(Clone, Copy, Debug, PartialEq, Eq, Structural)]
pub enum NextOpener {
    /// The folder is open.
    Opened,
    /// Try the candidate at this position.
    Try(usize),
    /// Every candidate failed; the reason is `NoFileManager`.
    Failed(LaunchError),
}

/// What follows the attempt to start candidate `tried` out of `count`: the
/// first success ends the search, a failure leads to the next candidate, and
/// after the last one nothing is left.
pub fn after_attempt(count: usize, tried: usize, started: bool) -> (next: NextOpener)
    ensures
        started ==> next == NextOpener::Opened,
        !started && tried + 1 < count ==> next == NextOpener::Try((tried + 1) as usize),
        !started && tried + 1 >= count ==> next == NextOpener::Failed(LaunchError::NoFileManager),
{
    if started {
        NextOpener::Opened
    } else if tried < count && tried + 1 < count {
        NextOpener::Try(tried + 1)
    } else {
        NextOpener::Failed(LaunchError::NoFileManager)
    }
}

/// Nothing is started for a target that does not exist on disk, whatever
/// is known of it from earlier.
pub proof fn lemma_missing_target_is_not_launched(
    target: Seq<char>,
    arguments: Option<Seq<char>>,
    platform: Platform,
    resolved: Option<Seq<char>>,
    target_probe: PathProbe,
)
    ensures
        launch_plan_of(target, arguments, platform, PathProbe::Missing, resolved, target_probe)
            == PlanView::Fail(LaunchError::NotFound),
{
}

/// A shell link that names no target, or one that is gone, is never
/// launched, and the link file is not started in its place.
pub proof fn lemma_broken_shell_link_is_not_launched(
    target: Seq<char>,
    arguments: Option<Seq<char>>,
    platform: Platform,
    probe: PathProbe,
    resolved: Option<Seq<char>>,
    target_probe: PathProbe,
)
    requires
        kind_of_path(target) == ShortcutKind::ShellLink,
        probe != PathProbe::Missing,
        resolved is None || target_probe == PathProbe::Missing,
    ensures
        launch_plan_of(target, arguments, platform, probe, resolved, target_probe)
            == PlanView::Fail(LaunchError::UnresolvedShortcut),
{
}

/// A target that is started receives the tokens of the argument string one
/// by one, none of them empty and none with white space in it. It is
/// started in the directory that holds it, detached, and with its output
/// discarded, on every platform.
pub proof fn lemma_spawn_receives_tokens(
    target: Seq<char>,
    arguments: Option<Seq<char>>,
    platform: Platform,
    probe: PathProbe,
    resolved: Option<Seq<char>>,
    target_probe: PathProbe,
)
    requires
        launch_plan_of(target, arguments, platform, probe, resolved, target_probe) is Spawn,
    ensures
        ({
            let c = launch_plan_of(
                target,
                arguments,
                platform,
                probe,
                resolved,
                target_probe,
            )->Spawn_0;
            &&& c.arguments == argument_tokens(arguments)
            &&& forall|k: int| 0 <= k < c.arguments.len() ==> is_token(#[trigger] c.arguments[k])
            &&& c.working_dir == Some(working_dir_of(c.program))
            &&& c.detached
            &&& c.discard_output
            &&& c.program == target || resolved == Some(c.program)
        }),
{
    match arguments {
        Some(a) => {
            lemma_tokens_are_tokens(a, 0);
        },
        None => {},
    }
}

/// A target that exists and is no shortcut to follow is itself started,
/// on every platform and with or without arguments: in the directory that
/// holds it, left to itself, with its output discarded, and with exactly
/// the tokens of the argument string, which are none where the string is
/// absent or blank. A shell link whose target exists is started the same
/// way at its target.
pub proof fn lemma_existing_target_is_spawned(
    kind: ShortcutKind,
    target: Seq<char>,
    arguments: Option<Seq<char>>,
    platform: Platform,
    probe: PathProbe,
    resolved: Option<Seq<char>>,
    target_probe: PathProbe,
)
    requires
        probe != PathProbe::Missing,
        kind != ShortcutKind::InternetShortcut,
        kind == ShortcutKind::ShellLink ==> resolved is Some && target_probe != PathProbe::Missing,
    ensures
        ({
            let program = if kind == ShortcutKind::ShellLink {
                resolved->0
            } else {
                target
            };
            launch_plan_for(kind, target, arguments, platform, probe, resolved, target_probe)
                == PlanView::Spawn(
                CommandView {
                    program: program,
                    arguments: argument_tokens(arguments),
                    working_dir: Some(working_dir_of(program)),
                    creation_flags: target_flags(platform),
                    detached: true,
                    discard_output: true,
                },
            )
        }),
{
}

} // verus!
