//! The `init` command.

use oxen_files::init::{
    ArgSpec, CommandSpec, InitAction, InitArgs, InitEvent, InitState, RemoteHost, AFTER_INIT_MSG,
    INIT,
};
use oxen_files::InitCmd;

type Fault = &'static str;

fn text(s: &str) -> String {
    s.to_string()
}

fn run(args: InitArgs, made: Result<(), Fault>) -> (Vec<InitAction<Fault>>, Result<(), Fault>) {
    let mut log = vec![];
    let (mut state, mut action) = InitCmd.run(InitState::Start, InitEvent::Called(args));
    loop {
        let event = match &action {
            InitAction::ResolveVersion { requested } => {
                InitEvent::Version(Ok(requested.clone().unwrap_or(text("0.36.0"))))
            }
            InitAction::ResolveHost => {
                InitEvent::Host(Ok(RemoteHost { scheme: text("https"), host: text("hub.oxen.ai") }))
            }
            InitAction::CheckRemote { .. } => InitEvent::RemoteChecked(Ok(())),
            InitAction::Canonicalize { path } => InitEvent::Directory(Ok(format!("/home/ox/{path}"))),
            InitAction::InitRepository { .. } => InitEvent::Initialized(made),
            InitAction::Announce { .. } => InitEvent::Announced,
            InitAction::Finish(result) => return (log, *result),
        };
        log.push(action);
        let step = InitCmd.run(state, event);
        state = step.0;
        action = step.1;
    }
}

#[test]
fn the_command_is_called_init() {
    assert_eq!(InitCmd.name(), "init");
    assert_eq!(INIT, "init");
    assert_eq!(
        InitCmd.args(),
        CommandSpec {
            name: "init",
            about: "Initializes a local repository",
            args: vec![
                ArgSpec {
                    id: "PATH",
                    short: None,
                    long: None,
                    help: "The directory to establish the repo in. Defaults to the current directory.",
                },
                ArgSpec {
                    id: "oxen-version",
                    short: Some('v'),
                    long: Some("oxen-version"),
                    help: "The oxen version to use, if you want to test older CLI versions (default: latest)",
                },
            ],
        }
    );
}

#[test]
fn a_repository_is_made_in_the_current_directory() {
    let (log, result) = run(InitArgs { path: None, version: None }, Ok(()));
    assert_eq!(result, Ok(()));
    assert_eq!(
        log,
        vec![
            InitAction::ResolveVersion { requested: None },
            InitAction::ResolveHost,
            InitAction::CheckRemote { scheme: text("https"), host: text("hub.oxen.ai") },
            InitAction::Canonicalize { path: text(".") },
            InitAction::InitRepository { directory: text("/home/ox/."), version: text("0.36.0") },
            InitAction::Announce {
                opening: text("\u{1f402} repository initialized at: "),
                directory: text("/home/ox/."),
                closing: text(AFTER_INIT_MSG),
            },
        ]
    );
    assert!(AFTER_INIT_MSG.starts_with("\n    \u{1f4d6} If this is your first time using Oxen"));
    assert!(AFTER_INIT_MSG.ends_with("https://discord.gg/s3tBEn7Ptg\n"));
}

#[test]
fn a_repository_is_made_where_and_as_it_is_asked_for() {
    let args = InitArgs { path: Some(text("cows")), version: Some(text("0.25.0")) };
    let (log, _) = run(args, Ok(()));
    assert_eq!(log[0], InitAction::ResolveVersion { requested: Some(text("0.25.0")) });
    assert_eq!(
        log[4],
        InitAction::InitRepository { directory: text("/home/ox/cows"), version: text("0.25.0") }
    );
}

#[test]
fn a_repository_that_is_not_made_is_not_announced() {
    let (log, result) = run(InitArgs { path: None, version: None }, Err("exists"));
    assert_eq!(result, Err("exists"));
    assert_eq!(log.len(), 5);
}

#[test]
fn the_first_error_ends_the_command() {
    let failed = InitAction::Finish(Err("bad"));
    let version = || text("1");
    let path = || text(".");
    for (state, event) in [
        (InitState::AwaitVersion { path: path() }, InitEvent::Version(Err("bad"))),
        (InitState::AwaitHost { path: path(), version: version() }, InitEvent::Host(Err("bad"))),
        (
            InitState::AwaitRemote { path: path(), version: version() },
            InitEvent::RemoteChecked(Err("bad")),
        ),
        (InitState::AwaitDirectory { version: version() }, InitEvent::Directory(Err("bad"))),
    ] {
        let (state, action) = InitCmd.run(state, event);
        assert_eq!(state, InitState::Done);
        assert_eq!(action, failed);
    }
}
