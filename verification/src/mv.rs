//! Moving or renaming a file on a branch and committing the change.

use vstd::pervasive::unreached;
use vstd::prelude::*;
use vstd::string::StringExecFns;

use crate::model::{
    answer_view, branch_target, outcome, require_branch, BranchTarget, BranchTargetView,
    CommitResponse, CommitResponseView, FileMoveBody, FileMoveBodyView, HttpError, HttpErrorView,
    NewCommitBody, NewCommitBodyView, ParsedResource, ParsedResourceView, ResourceStatus,
};

verus! {

/// How far a move has come, and what the rest of it needs. `target` is where the file is;
/// `new_path` is where it goes.
#[derive(Debug, PartialEq, Eq)]
pub enum MoveState {
    Start,
    AwaitResource,
    AwaitBody { target: BranchTarget },
    AwaitNewPath { target: BranchTarget, request: FileMoveBody },
    AwaitSource { target: BranchTarget, request: FileMoveBody, new_path: String },
    AwaitVacancy { target: BranchTarget, request: FileMoveBody, new_path: String },
    AwaitWorkspace { target: BranchTarget, request: FileMoveBody, new_path: String },
    AwaitMoved { branch: String, body: NewCommitBody },
    AwaitCommit,
    Done,
}

/// The model of a `MoveState`.
pub enum MoveStateView {
    Start,
    AwaitResource,
    AwaitBody { target: BranchTargetView },
    AwaitNewPath { target: BranchTargetView, request: FileMoveBodyView },
    AwaitSource { target: BranchTargetView, request: FileMoveBodyView, new_path: Seq<char> },
    AwaitVacancy { target: BranchTargetView, request: FileMoveBodyView, new_path: Seq<char> },
    AwaitWorkspace { target: BranchTargetView, request: FileMoveBodyView, new_path: Seq<char> },
    AwaitMoved { branch: Seq<char>, body: NewCommitBodyView },
    AwaitCommit,
    Done,
}

impl DeepView for MoveState {
    type V = MoveStateView;

    open spec fn deep_view(&self) -> MoveStateView {
        match self {
            MoveState::Start => MoveStateView::Start,
            MoveState::AwaitResource => MoveStateView::AwaitResource,
            MoveState::AwaitBody { target } => MoveStateView::AwaitBody {
                target: target.deep_view(),
            },
            MoveState::AwaitNewPath { target, request } => MoveStateView::AwaitNewPath {
                target: target.deep_view(),
                request: request.deep_view(),
            },
            MoveState::AwaitSource { target, request, new_path } => MoveStateView::AwaitSource {
                target: target.deep_view(),
                request: request.deep_view(),
                new_path: new_path@,
            },
            MoveState::AwaitVacancy { target, request, new_path } => MoveStateView::AwaitVacancy {
                target: target.deep_view(),
                request: request.deep_view(),
                new_path: new_path@,
            },
            MoveState::AwaitWorkspace { target, request, new_path } => {
                MoveStateView::AwaitWorkspace {
                    target: target.deep_view(),
                    request: request.deep_view(),
                    new_path: new_path@,
                }
            },
            MoveState::AwaitMoved { branch, body } => MoveStateView::AwaitMoved {
                branch: branch@,
                body: body.deep_view(),
            },
            MoveState::AwaitCommit => MoveStateView::AwaitCommit,
            MoveState::Done => MoveStateView::Done,
        }
    }
}

/// What a move is told: that there is a request, and then what came of the work it asked
/// for.
#[derive(Debug, PartialEq, Eq)]
pub enum MoveEvent<E> {
    Received,
    Resource(Result<ParsedResource, E>),
    Body(Result<FileMoveBody, E>),
    /// The new path in its normal form, or why it is not a valid one.
    NewPath(Result<String, E>),
    /// Whether the file to move exists.
    Source(Result<bool, E>),
    /// Whether there is something at the new path already.
    Taken(Result<bool, E>),
    Workspace(Result<(), E>),
    Moved(Result<(), E>),
    /// The id of the commit that was made.
    Committed(Result<String, E>),
}

/// The model of a `MoveEvent`.
pub enum MoveEventView<E> {
    Received,
    Resource(Result<ParsedResourceView, E>),
    Body(Result<FileMoveBodyView, E>),
    NewPath(Result<Seq<char>, E>),
    Source(Result<bool, E>),
    Taken(Result<bool, E>),
    Workspace(Result<(), E>),
    Moved(Result<(), E>),
    Committed(Result<Seq<char>, E>),
}

impl<E> DeepView for MoveEvent<E> {
    type V = MoveEventView<E>;

    open spec fn deep_view(&self) -> MoveEventView<E> {
        match self {
            MoveEvent::Received => MoveEventView::Received,
            MoveEvent::Resource(resource) => MoveEventView::Resource(outcome(*resource)),
            MoveEvent::Body(body) => MoveEventView::Body(outcome(*body)),
            MoveEvent::NewPath(path) => MoveEventView::NewPath(outcome(*path)),
            MoveEvent::Source(exists) => MoveEventView::Source(*exists),
            MoveEvent::Taken(taken) => MoveEventView::Taken(*taken),
            MoveEvent::Workspace(made) => MoveEventView::Workspace(*made),
            MoveEvent::Moved(moved) => MoveEventView::Moved(*moved),
            MoveEvent::Committed(commit) => MoveEventView::Committed(outcome(*commit)),
        }
    }
}

/// What a move asks for next; `Answer` ends it.
#[derive(Debug, PartialEq, Eq)]
pub enum MoveAction<E> {
    /// Find out what the resource of the URL stands for.
    ResolveResource,
    /// Read the body of the request.
    ParseBody,
    /// Check the new path and bring it into its normal form.
    NormalizePath { path: String },
    LookUpFile { commit: String, path: String },
    LookUpNode { commit: String, path: String },
    /// Make a temporary workspace on the commit.
    CreateWorkspace { commit: String },
    /// Stage the move.
    Move { from: String, to: String },
    /// Commit the workspace to the branch.
    Commit { body: NewCommitBody, branch: String },
    Answer(Result<CommitResponse, HttpError<E>>),
}

/// The model of a `MoveAction`.
pub enum MoveActionView<E> {
    ResolveResource,
    ParseBody,
    NormalizePath { path: Seq<char> },
    LookUpFile { commit: Seq<char>, path: Seq<char> },
    LookUpNode { commit: Seq<char>, path: Seq<char> },
    CreateWorkspace { commit: Seq<char> },
    Move { from: Seq<char>, to: Seq<char> },
    Commit { body: NewCommitBodyView, branch: Seq<char> },
    Answer(Result<CommitResponseView, HttpErrorView<E>>),
}

impl<E> DeepView for MoveAction<E> {
    type V = MoveActionView<E>;

    open spec fn deep_view(&self) -> MoveActionView<E> {
        match self {
            MoveAction::ResolveResource => MoveActionView::ResolveResource,
            MoveAction::ParseBody => MoveActionView::ParseBody,
            MoveAction::NormalizePath { path } => MoveActionView::NormalizePath { path: path@ },
            MoveAction::LookUpFile { commit, path } => MoveActionView::LookUpFile {
                commit: commit@,
                path: path@,
            },
            MoveAction::LookUpNode { commit, path } => MoveActionView::LookUpNode {
                commit: commit@,
                path: path@,
            },
            MoveAction::CreateWorkspace { commit } => MoveActionView::CreateWorkspace {
                commit: commit@,
            },
            MoveAction::Move { from, to } => MoveActionView::Move { from: from@, to: to@ },
            MoveAction::Commit { body, branch } => MoveActionView::Commit {
                body: body.deep_view(),
                branch: branch@,
            },
            MoveAction::Answer(answer) => MoveActionView::Answer(answer_view(*answer)),
        }
    }
}

/// Whether an event can follow in a state: it is the one that the last action asked for.
pub open spec fn mv_expects<E>(state: MoveStateView, event: MoveEventView<E>) -> bool {
    match state {
        MoveStateView::Start => event is Received,
        MoveStateView::AwaitResource => event is Resource,
        MoveStateView::AwaitBody { .. } => event is Body,
        MoveStateView::AwaitNewPath { .. } => event is NewPath,
        MoveStateView::AwaitSource { .. } => event is Source,
        MoveStateView::AwaitVacancy { .. } => event is Taken,
        MoveStateView::AwaitWorkspace { .. } => event is Workspace,
        MoveStateView::AwaitMoved { .. } => event is Moved,
        MoveStateView::AwaitCommit => event is Committed,
        MoveStateView::Done => false,
    }
}

/// A text that may be missing, with nothing in its place.
pub open spec fn text_or_empty(text: Option<Seq<char>>) -> Seq<char> {
    match text {
        Some(text) => text,
        None => Seq::empty(),
    }
}

/// What the commit of a move is made with: what the body of the request says, and where it
/// has no message one that names both paths.
pub open spec fn mv_commit_body(
    request: FileMoveBodyView,
    from: Seq<char>,
    to: Seq<char>,
) -> NewCommitBodyView {
    NewCommitBodyView {
        author: text_or_empty(request.name),
        email: text_or_empty(request.email),
        message: match request.message {
            Some(message) => message,
            None => "Move "@ + from + " to "@ + to,
        },
    }
}

/// The move is over, with an error for an answer.
pub open spec fn mv_refused<E>(error: HttpErrorView<E>) -> (MoveStateView, MoveActionView<E>) {
    (MoveStateView::Done, MoveActionView::Answer(Err(error)))
}

/// What a move does on an event.
pub open spec fn mv_step<E>(state: MoveStateView, event: MoveEventView<E>) -> (
    MoveStateView,
    MoveActionView<E>,
) {
    match (state, event) {
        (MoveStateView::Start, MoveEventView::Received) => (
            MoveStateView::AwaitResource,
            MoveActionView::ResolveResource,
        ),
        (MoveStateView::AwaitResource, MoveEventView::Resource(resource)) => match resource {
            Err(error) => mv_refused(HttpErrorView::Outside(error)),
            Ok(resource) => match branch_target::<E>(resource) {
                Err(error) => mv_refused(error),
                Ok(target) => (MoveStateView::AwaitBody { target }, MoveActionView::ParseBody),
            },
        },
        (MoveStateView::AwaitBody { target }, MoveEventView::Body(request)) => match request {
            Err(error) => mv_refused(HttpErrorView::Outside(error)),
            Ok(request) => if request.new_path.len() == 0 {
                mv_refused(HttpErrorView::BadRequest("new_path cannot be empty"@))
            } else {
                (
                    MoveStateView::AwaitNewPath { target, request },
                    MoveActionView::NormalizePath { path: request.new_path },
                )
            },
        },
        (MoveStateView::AwaitNewPath { target, request }, MoveEventView::NewPath(new_path)) => {
            match new_path {
                Err(error) => mv_refused(HttpErrorView::Outside(error)),
                Ok(new_path) => (
                    MoveStateView::AwaitSource { target, request, new_path },
                    MoveActionView::LookUpFile { commit: target.commit, path: target.path },
                ),
            }
        },
        (
            MoveStateView::AwaitSource { target, request, new_path },
            MoveEventView::Source(exists),
        ) => match exists {
            Err(error) => mv_refused(HttpErrorView::Outside(error)),
            Ok(false) => mv_refused(HttpErrorView::NotFound),
            Ok(true) => (
                MoveStateView::AwaitVacancy { target, request, new_path },
                MoveActionView::LookUpNode { commit: target.commit, path: new_path },
            ),
        },
        (
            MoveStateView::AwaitVacancy { target, request, new_path },
            MoveEventView::Taken(taken),
        ) => match taken {
            Err(error) => mv_refused(HttpErrorView::Outside(error)),
            Ok(true) => mv_refused(
                HttpErrorView::BadRequest("new_path already exists in the repository"@),
            ),
            Ok(false) => (
                MoveStateView::AwaitWorkspace { target, request, new_path },
                MoveActionView::CreateWorkspace { commit: target.commit },
            ),
        },
        (
            MoveStateView::AwaitWorkspace { target, request, new_path },
            MoveEventView::Workspace(made),
        ) => match made {
            Err(error) => mv_refused(HttpErrorView::Outside(error)),
            Ok(_) => (
                MoveStateView::AwaitMoved {
                    branch: target.branch,
                    body: mv_commit_body(request, target.path, new_path),
                },
                MoveActionView::Move { from: target.path, to: new_path },
            ),
        },
        (MoveStateView::AwaitMoved { branch, body }, MoveEventView::Moved(moved)) => match moved {
            Err(error) => mv_refused(HttpErrorView::Outside(error)),
            Ok(_) => (MoveStateView::AwaitCommit, MoveActionView::Commit { body, branch }),
        },
        (MoveStateView::AwaitCommit, MoveEventView::Committed(commit)) => match commit {
            Err(error) => mv_refused(HttpErrorView::Outside(error)),
            Ok(commit) => (
                MoveStateView::Done,
                MoveActionView::Answer(
                    Ok(CommitResponseView { status: ResourceStatus::Updated, commit }),
                ),
            ),
        },
        _ => arbitrary(),
    }
}

fn refuse<E>(error: HttpError<E>) -> (step: (MoveState, MoveAction<E>))
    ensures
        (step.0.deep_view(), step.1.deep_view()) == mv_refused(error.deep_view()),
{
    (MoveState::Done, MoveAction::Answer(Err(error)))
}

fn or_empty(text: Option<String>) -> (plain: String)
    ensures
        plain@ == text_or_empty(text.deep_view()),
{
    match text {
        Some(text) => text,
        None => String::new(),
    }
}

/// Decides what the commit of a move is made with.
pub fn move_commit_body(request: FileMoveBody, from: &str, to: &str) -> (body: NewCommitBody)
    ensures
        body.deep_view() == mv_commit_body(request.deep_view(), from@, to@),
{
    let message = match request.message {
        Some(message) => message,
        None => {
            let mut message = "Move ".to_owned();
            message.append(from);
            message.append(" to ");
            message.append(to);
            message
        },
    };
    NewCommitBody { author: or_empty(request.name), email: or_empty(request.email), message }
}

/// Moves a file on a branch: takes the move one event further.
pub fn mv<E>(state: MoveState, event: MoveEvent<E>) -> (step: (MoveState, MoveAction<E>))
    requires
        mv_expects(state.deep_view(), event.deep_view()),
    ensures
        (step.0.deep_view(), step.1.deep_view()) == mv_step(state.deep_view(), event.deep_view()),
{
    match (state, event) {
        (MoveState::Start, MoveEvent::Received) => (
            MoveState::AwaitResource,
            MoveAction::ResolveResource,
        ),
        (MoveState::AwaitResource, MoveEvent::Resource(resource)) => match resource {
            Err(error) => refuse(HttpError::Outside(error)),
            Ok(resource) => match require_branch(resource) {
                Err(error) => refuse(error),
                Ok(target) => (MoveState::AwaitBody { target }, MoveAction::ParseBody),
            },
        },
        (MoveState::AwaitBody { target }, MoveEvent::Body(request)) => match request {
            Err(error) => refuse(HttpError::Outside(error)),
            Ok(request) => {
                if request.new_path.as_str().is_empty() {
                    return refuse(HttpError::BadRequest("new_path cannot be empty".to_owned()));
                }
                let path = request.new_path.clone();
                (
                    MoveState::AwaitNewPath { target, request },
                    MoveAction::NormalizePath { path },
                )
            },
        },
        (MoveState::AwaitNewPath { target, request }, MoveEvent::NewPath(new_path)) => {
            match new_path {
                Err(error) => refuse(HttpError::Outside(error)),
                Ok(new_path) => {
                    let commit = target.commit.clone();
                    let path = target.path.clone();
                    (
                        MoveState::AwaitSource { target, request, new_path },
                        MoveAction::LookUpFile { commit, path },
                    )
                },
            }
        },
        (MoveState::AwaitSource { target, request, new_path }, MoveEvent::Source(exists)) => {
            match exists {
                Err(error) => refuse(HttpError::Outside(error)),
                Ok(exists) => {
                    if !exists {
                        return refuse(HttpError::NotFound);
                    }
                    let commit = target.commit.clone();
                    let path = new_path.clone();
                    (
                        MoveState::AwaitVacancy { target, request, new_path },
                        MoveAction::LookUpNode { commit, path },
                    )
                },
            }
        },
        (MoveState::AwaitVacancy { target, request, new_path }, MoveEvent::Taken(taken)) => {
            match taken {
                Err(error) => refuse(HttpError::Outside(error)),
                Ok(taken) => {
                    if taken {
                        return refuse(
                            HttpError::BadRequest(
                                "new_path already exists in the repository".to_owned(),
                            ),
                        );
                    }
                    let commit = target.commit.clone();
                    (
                        MoveState::AwaitWorkspace { target, request, new_path },
                        MoveAction::CreateWorkspace { commit },
                    )
                },
            }
        },
        (MoveState::AwaitWorkspace { target, request, new_path }, MoveEvent::Workspace(made)) => {
            match made {
                Err(error) => refuse(HttpError::Outside(error)),
                Ok(_) => {
                    let body = move_commit_body(request, target.path.as_str(), new_path.as_str());
                    (
                        MoveState::AwaitMoved { branch: target.branch, body },
                        MoveAction::Move { from: target.path, to: new_path },
                    )
                },
            }
        },
        (MoveState::AwaitMoved { branch, body }, MoveEvent::Moved(moved)) => match moved {
            Err(error) => refuse(HttpError::Outside(error)),
            Ok(_) => (MoveState::AwaitCommit, MoveAction::Commit { body, branch }),
        },
        (MoveState::AwaitCommit, MoveEvent::Committed(commit)) => match commit {
            Err(error) => refuse(HttpError::Outside(error)),
            Ok(commit) => (
                MoveState::Done,
                MoveAction::Answer(Ok(CommitResponse { status: ResourceStatus::Updated, commit })),
            ),
        },
        _ => unreached(),
    }
}

/// What the work outside the library gives back while one move is served.
pub struct MoveWorld<E> {
    pub resource: Result<ParsedResourceView, E>,
    pub body: Result<FileMoveBodyView, E>,
    /// By the path as it stands in the request.
    pub normalized: spec_fn(Seq<char>) -> Result<Seq<char>, E>,
    /// Whether there is a file, by commit and path.
    pub file: spec_fn(Seq<char>, Seq<char>) -> Result<bool, E>,
    /// Whether there is a file or a directory, by commit and path.
    pub node: spec_fn(Seq<char>, Seq<char>) -> Result<bool, E>,
    /// By the commit that the workspace is made on.
    pub workspace: spec_fn(Seq<char>) -> Result<(), E>,
    /// By the two paths.
    pub moved: spec_fn(Seq<char>, Seq<char>) -> Result<(), E>,
    /// By the body and the branch of the commit.
    pub committed: spec_fn(NewCommitBodyView, Seq<char>) -> Result<Seq<char>, E>,
}

/// The event that reports what came of an action.
pub open spec fn mv_report<E>(world: MoveWorld<E>, action: MoveActionView<E>) -> MoveEventView<E> {
    match action {
        MoveActionView::ResolveResource => MoveEventView::Resource(world.resource),
        MoveActionView::ParseBody => MoveEventView::Body(world.body),
        MoveActionView::NormalizePath { path } => MoveEventView::NewPath((world.normalized)(path)),
        MoveActionView::LookUpFile { commit, path } => MoveEventView::Source(
            (world.file)(commit, path),
        ),
        MoveActionView::LookUpNode { commit, path } => MoveEventView::Taken(
            (world.node)(commit, path),
        ),
        MoveActionView::CreateWorkspace { commit } => MoveEventView::Workspace(
            (world.workspace)(commit),
        ),
        MoveActionView::Move { from, to } => MoveEventView::Moved((world.moved)(from, to)),
        MoveActionView::Commit { body, branch } => MoveEventView::Committed(
            (world.committed)(body, branch),
        ),
        MoveActionView::Answer(_) => arbitrary(),
    }
}

/// How many events a move can still take.
pub open spec fn mv_rank(state: MoveStateView) -> nat {
    match state {
        MoveStateView::Start => 9,
        MoveStateView::AwaitResource => 8,
        MoveStateView::AwaitBody { .. } => 7,
        MoveStateView::AwaitNewPath { .. } => 6,
        MoveStateView::AwaitSource { .. } => 5,
        MoveStateView::AwaitVacancy { .. } => 4,
        MoveStateView::AwaitWorkspace { .. } => 3,
        MoveStateView::AwaitMoved { .. } => 2,
        MoveStateView::AwaitCommit => 1,
        MoveStateView::Done => 0,
    }
}

/// All that a move asks for from `state` on, in order, when `event` comes first. It stops
/// short where an event comes that the state does not expect.
pub open spec fn mv_actions<E>(
    world: MoveWorld<E>,
    state: MoveStateView,
    event: MoveEventView<E>,
) -> Seq<MoveActionView<E>>
    decreases mv_rank(state),
{
    if !mv_expects(state, event) {
        Seq::empty()
    } else {
        let (next, action) = mv_step(state, event);
        if action is Answer {
            seq![action]
        } else {
            seq![action] + mv_actions(world, next, mv_report(world, action))
        }
    }
}

/// All that the move of a request asks for.
pub open spec fn mv_run<E>(world: MoveWorld<E>) -> Seq<MoveActionView<E>> {
    mv_actions(world, MoveStateView::Start, MoveEventView::Received)
}

/// What a move has passed once it may change the repository.
pub struct MoveGrant {
    pub target: BranchTargetView,
    pub request: FileMoveBodyView,
    pub new_path: Seq<char>,
}

/// The checks of a move, in their order: what the URL names, the body of the request, the
/// new path, that the file is there, and that nothing is at the new path.
pub open spec fn mv_granted<E>(world: MoveWorld<E>) -> Result<MoveGrant, HttpErrorView<E>> {
    match world.resource {
        Err(error) => Err(HttpErrorView::Outside(error)),
        Ok(resource) => match branch_target::<E>(resource) {
            Err(error) => Err(error),
            Ok(target) => match world.body {
                Err(error) => Err(HttpErrorView::Outside(error)),
                Ok(request) => if request.new_path.len() == 0 {
                    Err(HttpErrorView::BadRequest("new_path cannot be empty"@))
                } else {
                    match (world.normalized)(request.new_path) {
                        Err(error) => Err(HttpErrorView::Outside(error)),
                        Ok(new_path) => match (world.file)(target.commit, target.path) {
                            Err(error) => Err(HttpErrorView::Outside(error)),
                            Ok(false) => Err(HttpErrorView::NotFound),
                            Ok(true) => match (world.node)(target.commit, new_path) {
                                Err(error) => Err(HttpErrorView::Outside(error)),
                                Ok(true) => Err(
                                    HttpErrorView::BadRequest(
                                        "new_path already exists in the repository"@,
                                    ),
                                ),
                                Ok(false) => Ok(MoveGrant { target, request, new_path }),
                            },
                        },
                    }
                },
            },
        },
    }
}

/// What the repository is asked to do for a move that passed its checks.
pub open spec fn mv_changes<E>(world: MoveWorld<E>, grant: MoveGrant) -> Seq<MoveActionView<E>> {
    let from = grant.target.path;
    let to = grant.new_path;
    let branch = grant.target.branch;
    let create = MoveActionView::CreateWorkspace { commit: grant.target.commit };
    let body = mv_commit_body(grant.request, from, to);
    match (world.workspace)(grant.target.commit) {
        Err(error) => seq![create, MoveActionView::Answer(Err(HttpErrorView::Outside(error)))],
        Ok(_) => match (world.moved)(from, to) {
            Err(error) => seq![
                create,
                MoveActionView::Move { from, to },
                MoveActionView::Answer(Err(HttpErrorView::Outside(error))),
            ],
            Ok(_) => seq![
                create,
                MoveActionView::Move { from, to },
                MoveActionView::Commit { body, branch },
                match (world.committed)(body, branch) {
                    Err(error) => MoveActionView::Answer(Err(HttpErrorView::Outside(error))),
                    Ok(commit) => MoveActionView::Answer(
                        Ok(CommitResponseView { status: ResourceStatus::Updated, commit }),
                    ),
                },
            ],
        },
    }
}

/// Whether an action changes the repository.
pub open spec fn mv_writes<E>(action: MoveActionView<E>) -> bool {
    action is CreateWorkspace || action is Move || action is Commit
}

/// A move runs its checks before it touches anything. One that fails a check is answered
/// with the error of the first check that it fails, and has asked for no change; so nothing
/// is ever overwritten. Any other ends with exactly these changes, in this order: a workspace
/// on the commit that the URL names, the move of the file from its path to the new one, and
/// one commit to the branch that the URL names.
pub proof fn law_mv_checks_before_it_changes<E>(world: MoveWorld<E>)
    ensures
        match mv_granted(world) {
            Err(error) => {
                let run = mv_run(world);
                &&& run.len() > 0
                &&& run.last() == MoveActionView::<E>::Answer(Err(error))
                &&& forall|i: int| 0 <= i < run.len() ==> !mv_writes(#[trigger] run[i])
            },
            Ok(grant) => mv_run(world) == seq![
                MoveActionView::<E>::ResolveResource,
                MoveActionView::ParseBody,
                MoveActionView::NormalizePath { path: grant.request.new_path },
                MoveActionView::LookUpFile {
                    commit: grant.target.commit,
                    path: grant.target.path,
                },
                MoveActionView::LookUpNode { commit: grant.target.commit, path: grant.new_path },
            ] + mv_changes(world, grant),
        },
{
    reveal_with_fuel(mv_actions, 9);
}

} // verus!
