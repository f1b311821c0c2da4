//! The command that initializes a local repository.

use vstd::pervasive::unreached;
use vstd::prelude::*;

use crate::model::outcome;

verus! {

/// The name of the command.
pub const INIT: &'static str = "init";

/// What the user is told once the repository is there, behind its directory.
pub const AFTER_INIT_MSG: &'static str = "
    📖 If this is your first time using Oxen, check out the CLI docs at:
            https://docs.oxen.ai/getting-started/cli

    💬 For more support, or to chat with the Oxen team, join our Discord:
            https://discord.gg/s3tBEn7Ptg
";

/// What the user is told in front of the repository's directory.
pub const INITIALIZED_MSG: &'static str = "🐂 repository initialized at: ";

/// One argument of a command. It takes one value, and may be left out.
#[derive(Debug, PartialEq, Eq)]
pub struct ArgSpec {
    pub id: &'static str,
    /// The letter of its flag; with neither letter nor word it is known by its position.
    pub short: Option<char>,
    /// The word of its flag.
    pub long: Option<&'static str>,
    pub help: &'static str,
}

/// The model of an `ArgSpec`.
pub struct ArgSpecView {
    pub id: Seq<char>,
    pub short: Option<char>,
    pub long: Option<Seq<char>>,
    pub help: Seq<char>,
}

impl DeepView for ArgSpec {
    type V = ArgSpecView;

    open spec fn deep_view(&self) -> ArgSpecView {
        ArgSpecView {
            id: self.id@,
            short: self.short,
            long: self.long.deep_view(),
            help: self.help@,
        }
    }
}

/// A command and what it can be called with.
#[derive(Debug, PartialEq, Eq)]
pub struct CommandSpec {
    pub name: &'static str,
    pub about: &'static str,
    pub args: Vec<ArgSpec>,
}

/// The model of a `CommandSpec`.
pub struct CommandSpecView {
    pub name: Seq<char>,
    pub about: Seq<char>,
    pub args: Seq<ArgSpecView>,
}

impl DeepView for CommandSpec {
    type V = CommandSpecView;

    open spec fn deep_view(&self) -> CommandSpecView {
        CommandSpecView { name: self.name@, about: self.about@, args: self.args.deep_view() }
    }
}

/// How the command can be called: with the directory and with a version, both optional.
pub open spec fn init_command() -> CommandSpecView {
    CommandSpecView {
        name: INIT@,
        about: "Initializes a local repository"@,
        args: seq![
            ArgSpecView {
                id: "PATH"@,
                short: None,
                long: None,
                help:
                    "The directory to establish the repo in. Defaults to the current directory."@,
            },
            ArgSpecView {
                id: "oxen-version"@,
                short: Some('v'),
                long: Some("oxen-version"@),
                help:
                    "The oxen version to use, if you want to test older CLI versions (default: latest)"@,
            },
        ],
    }
}

/// What the command was called with.
#[derive(Debug, PartialEq, Eq)]
pub struct InitArgs {
    pub path: Option<String>,
    pub version: Option<String>,
}

/// The model of `InitArgs`.
pub struct InitArgsView {
    pub path: Option<Seq<char>>,
    pub version: Option<Seq<char>>,
}

impl DeepView for InitArgs {
    type V = InitArgsView;

    open spec fn deep_view(&self) -> InitArgsView {
        InitArgsView { path: self.path.deep_view(), version: self.version.deep_view() }
    }
}

/// The host that repositories are pushed to.
#[derive(Debug, PartialEq, Eq)]
pub struct RemoteHost {
    pub scheme: String,
    pub host: String,
}

/// The model of a `RemoteHost`.
pub struct RemoteHostView {
    pub scheme: Seq<char>,
    pub host: Seq<char>,
}

impl DeepView for RemoteHost {
    type V = RemoteHostView;

    open spec fn deep_view(&self) -> RemoteHostView {
        RemoteHostView { scheme: self.scheme@, host: self.host@ }
    }
}

/// How far the command has come, and what the rest of it needs.
#[derive(Debug, PartialEq, Eq)]
pub enum InitState {
    Start,
    AwaitVersion { path: String },
    AwaitHost { path: String, version: String },
    AwaitRemote { path: String, version: String },
    AwaitDirectory { version: String },
    AwaitRepository { directory: String },
    AwaitAnnounced,
    Done,
}

/// The model of an `InitState`.
pub enum InitStateView {
    Start,
    AwaitVersion { path: Seq<char> },
    AwaitHost { path: Seq<char>, version: Seq<char> },
    AwaitRemote { path: Seq<char>, version: Seq<char> },
    AwaitDirectory { version: Seq<char> },
    AwaitRepository { directory: Seq<char> },
    AwaitAnnounced,
    Done,
}

impl DeepView for InitState {
    type V = InitStateView;

    open spec fn deep_view(&self) -> InitStateView {
        match self {
            InitState::Start => InitStateView::Start,
            InitState::AwaitVersion { path } => InitStateView::AwaitVersion { path: path@ },
            InitState::AwaitHost { path, version } => InitStateView::AwaitHost {
                path: path@,
                version: version@,
            },
            InitState::AwaitRemote { path, version } => InitStateView::AwaitRemote {
                path: path@,
                version: version@,
            },
            InitState::AwaitDirectory { version } => InitStateView::AwaitDirectory {
                version: version@,
            },
            InitState::AwaitRepository { directory } => InitStateView::AwaitRepository {
                directory: directory@,
            },
            InitState::AwaitAnnounced => InitStateView::AwaitAnnounced,
            InitState::Done => InitStateView::Done,
        }
    }
}

/// What the command is told: its arguments, and then what came of the work it asked for.
#[derive(Debug, PartialEq, Eq)]
pub enum InitEvent<E> {
    Called(InitArgs),
    /// The version that the given text stands for, or the latest.
    Version(Result<String, E>),
    Host(Result<RemoteHost, E>),
    /// Whether the version of the remote is compatible.
    RemoteChecked(Result<(), E>),
    /// The absolute path of the directory.
    Directory(Result<String, E>),
    Initialized(Result<(), E>),
    Announced,
}

/// The model of an `InitEvent`.
pub enum InitEventView<E> {
    Called(InitArgsView),
    Version(Result<Seq<char>, E>),
    Host(Result<RemoteHostView, E>),
    RemoteChecked(Result<(), E>),
    Directory(Result<Seq<char>, E>),
    Initialized(Result<(), E>),
    Announced,
}

impl<E> DeepView for InitEvent<E> {
    type V = InitEventView<E>;

    open spec fn deep_view(&self) -> InitEventView<E> {
        match self {
            InitEvent::Called(args) => InitEventView::Called(args.deep_view()),
            InitEvent::Version(version) => InitEventView::Version(outcome(*version)),
            InitEvent::Host(host) => InitEventView::Host(outcome(*host)),
            InitEvent::RemoteChecked(checked) => InitEventView::RemoteChecked(*checked),
            InitEvent::Directory(directory) => InitEventView::Directory(outcome(*directory)),
            InitEvent::Initialized(made) => InitEventView::Initialized(*made),
            InitEvent::Announced => InitEventView::Announced,
        }
    }
}

/// What the command asks for next; `Finish` ends it.
#[derive(Debug, PartialEq, Eq)]
pub enum InitAction<E> {
    /// Find the version that the text stands for; without one, the latest.
    ResolveVersion { requested: Option<String> },
    /// Find the host that is configured, or the default.
    ResolveHost,
    CheckRemote { scheme: String, host: String },
    /// Make the path absolute.
    Canonicalize { path: String },
    InitRepository { directory: String, version: String },
    /// Print `opening` with the directory behind it, quoted, and `closing` on the next line.
    Announce { opening: String, directory: String, closing: String },
    Finish(Result<(), E>),
}

/// The model of an `InitAction`.
pub enum InitActionView<E> {
    ResolveVersion { requested: Option<Seq<char>> },
    ResolveHost,
    CheckRemote { scheme: Seq<char>, host: Seq<char> },
    Canonicalize { path: Seq<char> },
    InitRepository { directory: Seq<char>, version: Seq<char> },
    Announce { opening: Seq<char>, directory: Seq<char>, closing: Seq<char> },
    Finish(Result<(), E>),
}

impl<E> DeepView for InitAction<E> {
    type V = InitActionView<E>;

    open spec fn deep_view(&self) -> InitActionView<E> {
        match self {
            InitAction::ResolveVersion { requested } => InitActionView::ResolveVersion {
                requested: requested.deep_view(),
            },
            InitAction::ResolveHost => InitActionView::ResolveHost,
            InitAction::CheckRemote { scheme, host } => InitActionView::CheckRemote {
                scheme: scheme@,
                host: host@,
            },
            InitAction::Canonicalize { path } => InitActionView::Canonicalize { path: path@ },
            InitAction::InitRepository { directory, version } => InitActionView::InitRepository {
                directory: directory@,
                version: version@,
            },
            InitAction::Announce { opening, directory, closing } => InitActionView::Announce {
                opening: opening@,
                directory: directory@,
                closing: closing@,
            },
            InitAction::Finish(result) => InitActionView::Finish(*result),
        }
    }
}

/// Whether an event can follow in a state: it is the one that the last action asked for.
pub open spec fn init_expects<E>(state: InitStateView, event: InitEventView<E>) -> bool {
    match state {
        InitStateView::Start => event is Called,
        InitStateView::AwaitVersion { .. } => event is Version,
        InitStateView::AwaitHost { .. } => event is Host,
        InitStateView::AwaitRemote { .. } => event is RemoteChecked,
        InitStateView::AwaitDirectory { .. } => event is Directory,
        InitStateView::AwaitRepository { .. } => event is Initialized,
        InitStateView::AwaitAnnounced => event is Announced,
        InitStateView::Done => false,
    }
}

/// The command is over.
pub open spec fn init_finished<E>(result: Result<(), E>) -> (InitStateView, InitActionView<E>) {
    (InitStateView::Done, InitActionView::Finish(result))
}

/// The directory that the command is called for: the current one where none is given.
pub open spec fn init_path(args: InitArgsView) -> Seq<char> {
    match args.path {
        Some(path) => path,
        None => "."@,
    }
}

/// What the command does on an event.
pub open spec fn init_step<E>(state: InitStateView, event: InitEventView<E>) -> (
    InitStateView,
    InitActionView<E>,
) {
    match (state, event) {
        (InitStateView::Start, InitEventView::Called(args)) => (
            InitStateView::AwaitVersion { path: init_path(args) },
            InitActionView::ResolveVersion { requested: args.version },
        ),
        (InitStateView::AwaitVersion { path }, InitEventView::Version(version)) => match version {
            Err(error) => init_finished(Err(error)),
            Ok(version) => (
                InitStateView::AwaitHost { path, version },
                InitActionView::ResolveHost,
            ),
        },
        (InitStateView::AwaitHost { path, version }, InitEventView::Host(host)) => match host {
            Err(error) => init_finished(Err(error)),
            Ok(remote) => (
                InitStateView::AwaitRemote { path, version },
                InitActionView::CheckRemote { scheme: remote.scheme, host: remote.host },
            ),
        },
        (
            InitStateView::AwaitRemote { path, version },
            InitEventView::RemoteChecked(checked),
        ) => match checked {
            Err(error) => init_finished(Err(error)),
            Ok(_) => (
                InitStateView::AwaitDirectory { version },
                InitActionView::Canonicalize { path },
            ),
        },
        (InitStateView::AwaitDirectory { version }, InitEventView::Directory(directory)) => {
            match directory {
                Err(error) => init_finished(Err(error)),
                Ok(directory) => (
                    InitStateView::AwaitRepository { directory },
                    InitActionView::InitRepository { directory, version },
                ),
            }
        },
        (InitStateView::AwaitRepository { directory }, InitEventView::Initialized(made)) => {
            match made {
                Err(error) => init_finished(Err(error)),
                Ok(_) => (
                    InitStateView::AwaitAnnounced,
                    InitActionView::Announce {
                        opening: INITIALIZED_MSG@,
                        directory,
                        closing: AFTER_INIT_MSG@,
                    },
                ),
            }
        },
        (InitStateView::AwaitAnnounced, InitEventView::Announced) => init_finished(Ok(())),
        _ => arbitrary(),
    }
}

fn finish<E>(result: Result<(), E>) -> (step: (InitState, InitAction<E>))
    ensures
        (step.0.deep_view(), step.1.deep_view()) == init_finished(result),
{
    (InitState::Done, InitAction::Finish(result))
}

/// The `init` command.
#[derive(Debug, PartialEq, Eq)]
pub struct InitCmd;

impl InitCmd {
    /// The name that the command is called by.
    pub fn name(&self) -> (name: &str)
        ensures
            name@ == INIT@,
    {
        INIT
    }

    /// How the command can be called.
    pub fn args(&self) -> (command: CommandSpec)
        ensures
            command.deep_view() == init_command(),
    {
        let path = ArgSpec {
            id: "PATH",
            short: None,
            long: None,
            help: "The directory to establish the repo in. Defaults to the current directory.",
        };
        let version = ArgSpec {
            id: "oxen-version",
            short: Some('v'),
            long: Some("oxen-version"),
            help:
                "The oxen version to use, if you want to test older CLI versions (default: latest)",
        };
        let ghost both = seq![path.deep_view(), version.deep_view()];
        let mut args: Vec<ArgSpec> = Vec::new();
        args.push(path);
        args.push(version);
        assert(args.deep_view() == both);
        CommandSpec { name: INIT, about: "Initializes a local repository", args }
    }

    /// Initializes a repository: takes the command one event further.
    pub fn run<E>(&self, state: InitState, event: InitEvent<E>) -> (step: (
        InitState,
        InitAction<E>,
    ))
        requires
            init_expects(state.deep_view(), event.deep_view()),
        ensures
            (step.0.deep_view(), step.1.deep_view()) == init_step(
                state.deep_view(),
                event.deep_view(),
            ),
    {
        match (state, event) {
            (InitState::Start, InitEvent::Called(args)) => {
                let path = match args.path {
                    Some(path) => path,
                    None => ".".to_owned(),
                };
                (
                    InitState::AwaitVersion { path },
                    InitAction::ResolveVersion { requested: args.version },
                )
            },
            (InitState::AwaitVersion { path }, InitEvent::Version(version)) => match version {
                Err(error) => finish(Err(error)),
                Ok(version) => (InitState::AwaitHost { path, version }, InitAction::ResolveHost),
            },
            (InitState::AwaitHost { path, version }, InitEvent::Host(host)) => match host {
                Err(error) => finish(Err(error)),
                Ok(remote) => (
                    InitState::AwaitRemote { path, version },
                    InitAction::CheckRemote { scheme: remote.scheme, host: remote.host },
                ),
            },
            (InitState::AwaitRemote { path, version }, InitEvent::RemoteChecked(checked)) => {
                match checked {
                    Err(error) => finish(Err(error)),
                    Ok(_) => (
                        InitState::AwaitDirectory { version },
                        InitAction::Canonicalize { path },
                    ),
                }
            },
            (InitState::AwaitDirectory { version }, InitEvent::Directory(directory)) => {
                match directory {
                    Err(error) => finish(Err(error)),
                    Ok(directory) => (
                        InitState::AwaitRepository { directory: directory.clone() },
                        InitAction::InitRepository { directory, version },
                    ),
                }
            },
            (InitState::AwaitRepository { directory }, InitEvent::Initialized(made)) => {
                match made {
                    Err(error) => finish(Err(error)),
                    Ok(_) => (
                        InitState::AwaitAnnounced,
                        InitAction::Announce {
                            opening: INITIALIZED_MSG.to_owned(),
                            directory,
                            closing: AFTER_INIT_MSG.to_owned(),
                        },
                    ),
                }
            },
            (InitState::AwaitAnnounced, InitEvent::Announced) => finish(Ok(())),
            _ => unreached(),
        }
    }
}

/// What the work outside the library gives back while the command runs.
pub struct InitWorld<E> {
    /// By the text of the version.
    pub version: spec_fn(Option<Seq<char>>) -> Result<Seq<char>, E>,
    pub host: Result<RemoteHostView, E>,
    /// By scheme and host.
    pub remote: spec_fn(Seq<char>, Seq<char>) -> Result<(), E>,
    /// By path.
    pub directory: spec_fn(Seq<char>) -> Result<Seq<char>, E>,
    /// By directory and version.
    pub initialized: spec_fn(Seq<char>, Seq<char>) -> Result<(), E>,
}

/// The event that reports what came of an action.
pub open spec fn init_report<E>(world: InitWorld<E>, action: InitActionView<E>) -> InitEventView<
    E,
> {
    match action {
        InitActionView::ResolveVersion { requested } => InitEventView::Version(
            (world.version)(requested),
        ),
        InitActionView::ResolveHost => InitEventView::Host(world.host),
        InitActionView::CheckRemote { scheme, host } => InitEventView::RemoteChecked(
            (world.remote)(scheme, host),
        ),
        InitActionView::Canonicalize { path } => InitEventView::Directory((world.directory)(path)),
        InitActionView::InitRepository { directory, version } => InitEventView::Initialized(
            (world.initialized)(directory, version),
        ),
        InitActionView::Announce { .. } => InitEventView::Announced,
        InitActionView::Finish(_) => arbitrary(),
    }
}

/// How many events the command can still take.
pub open spec fn init_rank(state: InitStateView) -> nat {
    match state {
        InitStateView::Start => 7,
        InitStateView::AwaitVersion { .. } => 6,
        InitStateView::AwaitHost { .. } => 5,
        InitStateView::AwaitRemote { .. } => 4,
        InitStateView::AwaitDirectory { .. } => 3,
        InitStateView::AwaitRepository { .. } => 2,
        InitStateView::AwaitAnnounced => 1,
        InitStateView::Done => 0,
    }
}

/// All that the command asks for from `state` on, in order, when `event` comes first. It
/// stops short where an event comes that the state does not expect.
pub open spec fn init_actions<E>(
    world: InitWorld<E>,
    state: InitStateView,
    event: InitEventView<E>,
) -> Seq<InitActionView<E>>
    decreases init_rank(state),
{
    if !init_expects(state, event) {
        Seq::empty()
    } else {
        let (next, action) = init_step(state, event);
        if action is Finish {
            seq![action]
        } else {
            seq![action] + init_actions(world, next, init_report(world, action))
        }
    }
}

/// All that a call of the command asks for.
pub open spec fn init_run<E>(world: InitWorld<E>, args: InitArgsView) -> Seq<InitActionView<E>> {
    init_actions(world, InitStateView::Start, InitEventView::Called(args))
}

/// What has to be in order before a repository is made: the version, the remote and the
/// directory. They give the directory and the version of the repository.
pub open spec fn init_prepared<E>(world: InitWorld<E>, args: InitArgsView) -> Result<
    (Seq<char>, Seq<char>),
    E,
> {
    match (world.version)(args.version) {
        Err(error) => Err(error),
        Ok(version) => match world.host {
            Err(error) => Err(error),
            Ok(remote) => match (world.remote)(remote.scheme, remote.host) {
                Err(error) => Err(error),
                Ok(_) => match (world.directory)(init_path(args)) {
                    Err(error) => Err(error),
                    Ok(directory) => Ok((directory, version)),
                },
            },
        },
    }
}

/// The command makes no repository unless the version, the remote and the directory are in
/// order, and ends with the first error where they are not. Where they are, it makes one
/// repository, in the directory it was called for and of the version it was called with, and
/// announces it only if that worked.
pub proof fn law_init_checks_before_it_makes<E>(world: InitWorld<E>, args: InitArgsView)
    ensures
        match init_prepared(world, args) {
            Err(error) => {
                let run = init_run(world, args);
                &&& run.len() > 0
                &&& run.last() == InitActionView::<E>::Finish(Err(error))
                &&& forall|i: int|
                    0 <= i < run.len() ==> !(#[trigger] run[i] is InitRepository) && !(
                    run[i] is Announce)
            },
            Ok((directory, version)) => init_run(world, args) == seq![
                InitActionView::<E>::ResolveVersion { requested: args.version },
                InitActionView::ResolveHost,
                InitActionView::CheckRemote {
                    scheme: world.host->Ok_0.scheme,
                    host: world.host->Ok_0.host,
                },
                InitActionView::Canonicalize { path: init_path(args) },
                InitActionView::InitRepository { directory, version },
            ] + match (world.initialized)(directory, version) {
                Err(error) => seq![InitActionView::<E>::Finish(Err(error))],
                Ok(_) => seq![
                    InitActionView::<E>::Announce {
                        opening: INITIALIZED_MSG@,
                        directory,
                        closing: AFTER_INIT_MSG@,
                    },
                    InitActionView::Finish(Ok(())),
                ],
            },
        },
{
    reveal_with_fuel(init_actions, 7);
}

} // verus!
