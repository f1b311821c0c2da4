//! Removing a file from a branch and committing the removal.

use vstd::pervasive::unreached;
use vstd::prelude::*;
use vstd::string::StringExecFns;

use crate::model::{
    answer_view, branch_target, outcome, require_branch, BranchTarget, BranchTargetView,
    CommitResponse, CommitResponseView, HttpError, HttpErrorView, NewCommitBody, NewCommitBodyView,
    NodeInfo, NodeInfoView, ParsedResource, ParsedResourceView, ResourceStatus, User, UserView,
};
use crate::revision::{check_claim, claim_holds, stale_claim_message};
use crate::text::{header_bytes, optional_header_text, read_header};

verus! {

/// How far a removal has come, and what the rest of it needs.
#[derive(Debug, PartialEq, Eq)]
pub enum DeleteState {
    Start,
    AwaitResource { based_on: Option<Vec<u8>> },
    AwaitNode { based_on: Option<Vec<u8>>, target: BranchTarget },
    AwaitUser { target: BranchTarget },
    AwaitWorkspace { target: BranchTarget, author: User },
    AwaitRemoved { target: BranchTarget, author: User },
    AwaitCommit,
    Done,
}

/// The model of a `DeleteState`.
pub enum DeleteStateView {
    Start,
    AwaitResource { based_on: Option<Seq<u8>> },
    AwaitNode { based_on: Option<Seq<u8>>, target: BranchTargetView },
    AwaitUser { target: BranchTargetView },
    AwaitWorkspace { target: BranchTargetView, author: UserView },
    AwaitRemoved { target: BranchTargetView, author: UserView },
    AwaitCommit,
    Done,
}

impl DeepView for DeleteState {
    type V = DeleteStateView;

    open spec fn deep_view(&self) -> DeleteStateView {
        match self {
            DeleteState::Start => DeleteStateView::Start,
            DeleteState::AwaitResource { based_on } => DeleteStateView::AwaitResource {
                based_on: header_bytes(*based_on),
            },
            DeleteState::AwaitNode { based_on, target } => DeleteStateView::AwaitNode {
                based_on: header_bytes(*based_on),
                target: target.deep_view(),
            },
            DeleteState::AwaitUser { target } => DeleteStateView::AwaitUser {
                target: target.deep_view(),
            },
            DeleteState::AwaitWorkspace { target, author } => DeleteStateView::AwaitWorkspace {
                target: target.deep_view(),
                author: author.deep_view(),
            },
            DeleteState::AwaitRemoved { target, author } => DeleteStateView::AwaitRemoved {
                target: target.deep_view(),
                author: author.deep_view(),
            },
            DeleteState::AwaitCommit => DeleteStateView::AwaitCommit,
            DeleteState::Done => DeleteStateView::Done,
        }
    }
}

/// What a removal is told: the request itself, and then what came of the work it asked for.
#[derive(Debug, PartialEq, Eq)]
pub enum DeleteEvent<E> {
    /// `oxen-based-on`: the revision of the file that the client knows.
    Received(Option<Vec<u8>>),
    Resource(Result<ParsedResource, E>),
    /// What the revision has at the path.
    Node(Result<Option<NodeInfo<E>>, E>),
    /// The user that the bearer token belongs to.
    User(Result<Option<User>, E>),
    Workspace(Result<(), E>),
    Removed(Result<(), E>),
    /// The id of the commit that was made.
    Committed(Result<String, E>),
}

/// The model of a `DeleteEvent`.
pub enum DeleteEventView<E> {
    Received(Option<Seq<u8>>),
    Resource(Result<ParsedResourceView, E>),
    Node(Result<Option<NodeInfoView<E>>, E>),
    User(Result<Option<UserView>, E>),
    Workspace(Result<(), E>),
    Removed(Result<(), E>),
    Committed(Result<Seq<char>, E>),
}

impl<E> DeepView for DeleteEvent<E> {
    type V = DeleteEventView<E>;

    open spec fn deep_view(&self) -> DeleteEventView<E> {
        match self {
            DeleteEvent::Received(based_on) => DeleteEventView::Received(header_bytes(*based_on)),
            DeleteEvent::Resource(resource) => DeleteEventView::Resource(outcome(*resource)),
            DeleteEvent::Node(node) => DeleteEventView::Node(outcome(*node)),
            DeleteEvent::User(user) => DeleteEventView::User(outcome(*user)),
            DeleteEvent::Workspace(made) => DeleteEventView::Workspace(*made),
            DeleteEvent::Removed(removed) => DeleteEventView::Removed(*removed),
            DeleteEvent::Committed(commit) => DeleteEventView::Committed(outcome(*commit)),
        }
    }
}

/// What a removal asks for next; `Answer` ends it.
#[derive(Debug, PartialEq, Eq)]
pub enum DeleteAction<E> {
    /// Find out what the resource of the URL stands for.
    ResolveResource,
    LookUpNode { commit: String, path: String },
    /// Find the user that the request's bearer token belongs to.
    Authenticate,
    /// Make a temporary workspace on the commit.
    CreateWorkspace { commit: String },
    /// Stage the removal of the file.
    Remove { path: String },
    /// Commit the workspace to the branch.
    Commit { body: NewCommitBody, branch: String },
    Answer(Result<CommitResponse, HttpError<E>>),
}

/// The model of a `DeleteAction`.
pub enum DeleteActionView<E> {
    ResolveResource,
    LookUpNode { commit: Seq<char>, path: Seq<char> },
    Authenticate,
    CreateWorkspace { commit: Seq<char> },
    Remove { path: Seq<char> },
    Commit { body: NewCommitBodyView, branch: Seq<char> },
    Answer(Result<CommitResponseView, HttpErrorView<E>>),
}

impl<E> DeepView for DeleteAction<E> {
    type V = DeleteActionView<E>;

    open spec fn deep_view(&self) -> DeleteActionView<E> {
        match self {
            DeleteAction::ResolveResource => DeleteActionView::ResolveResource,
            DeleteAction::LookUpNode { commit, path } => DeleteActionView::LookUpNode {
                commit: commit@,
                path: path@,
            },
            DeleteAction::Authenticate => DeleteActionView::Authenticate,
            DeleteAction::CreateWorkspace { commit } => DeleteActionView::CreateWorkspace {
                commit: commit@,
            },
            DeleteAction::Remove { path } => DeleteActionView::Remove { path: path@ },
            DeleteAction::Commit { body, branch } => DeleteActionView::Commit {
                body: body.deep_view(),
                branch: branch@,
            },
            DeleteAction::Answer(answer) => DeleteActionView::Answer(answer_view(*answer)),
        }
    }
}

/// Whether an event can follow in a state: it is the one that the last action asked for.
pub open spec fn delete_expects<E>(state: DeleteStateView, event: DeleteEventView<E>) -> bool {
    match state {
        DeleteStateView::Start => event is Received,
        DeleteStateView::AwaitResource { .. } => event is Resource,
        DeleteStateView::AwaitNode { .. } => event is Node,
        DeleteStateView::AwaitUser { .. } => event is User,
        DeleteStateView::AwaitWorkspace { .. } => event is Workspace,
        DeleteStateView::AwaitRemoved { .. } => event is Removed,
        DeleteStateView::AwaitCommit => event is Committed,
        DeleteStateView::Done => false,
    }
}

/// Whether what the revision has at the path may be removed: it must be a file, and the
/// claim on its revision must hold.
pub open spec fn delete_removable<E>(
    node: Option<NodeInfoView<E>>,
    path: Seq<char>,
    claimed: Option<Seq<char>>,
) -> Result<(), HttpErrorView<E>> {
    match node {
        None => Err(HttpErrorView::NotFound),
        Some(node) => if !node.is_file {
            Err(HttpErrorView::BadRequest("Cannot delete directory: "@ + path))
        } else {
            match node.latest_commit {
                Err(error) => Err(HttpErrorView::Outside(error)),
                Ok(current) => claim_holds(current, claimed),
            }
        },
    }
}

/// What the commit of a removal is made with.
pub open spec fn delete_commit_body(path: Seq<char>, author: UserView) -> NewCommitBodyView {
    NewCommitBodyView {
        author: author.name,
        email: author.email,
        message: "Delete file "@ + path,
    }
}

/// The removal is over, with an error for an answer.
pub open spec fn delete_refused<E>(error: HttpErrorView<E>) -> (
    DeleteStateView,
    DeleteActionView<E>,
) {
    (DeleteStateView::Done, DeleteActionView::Answer(Err(error)))
}

/// What a removal does on an event.
pub open spec fn delete_step<E>(state: DeleteStateView, event: DeleteEventView<E>) -> (
    DeleteStateView,
    DeleteActionView<E>,
) {
    match (state, event) {
        (DeleteStateView::Start, DeleteEventView::Received(based_on)) => (
            DeleteStateView::AwaitResource { based_on },
            DeleteActionView::ResolveResource,
        ),
        (DeleteStateView::AwaitResource { based_on }, DeleteEventView::Resource(resource)) => {
            match resource {
                Err(error) => delete_refused(HttpErrorView::Outside(error)),
                Ok(resource) => match branch_target::<E>(resource) {
                    Err(error) => delete_refused(error),
                    Ok(target) => (
                        DeleteStateView::AwaitNode { based_on, target },
                        DeleteActionView::LookUpNode { commit: target.commit, path: target.path },
                    ),
                },
            }
        },
        (DeleteStateView::AwaitNode { based_on, target }, DeleteEventView::Node(node)) => {
            match node {
                Err(error) => delete_refused(HttpErrorView::Outside(error)),
                Ok(node) => match delete_removable(
                    node,
                    target.path,
                    optional_header_text(based_on),
                ) {
                    Err(error) => delete_refused(error),
                    Ok(_) => (
                        DeleteStateView::AwaitUser { target },
                        DeleteActionView::Authenticate,
                    ),
                },
            }
        },
        (DeleteStateView::AwaitUser { target }, DeleteEventView::User(user)) => match user {
            Err(error) => delete_refused(HttpErrorView::Outside(error)),
            Ok(None) => delete_refused(
                HttpErrorView::BadRequest("Bearer token required for DELETE operations"@),
            ),
            Ok(Some(author)) => (
                DeleteStateView::AwaitWorkspace { target, author },
                DeleteActionView::CreateWorkspace { commit: target.commit },
            ),
        },
        (DeleteStateView::AwaitWorkspace { target, author }, DeleteEventView::Workspace(made)) => {
            match made {
                Err(error) => delete_refused(HttpErrorView::Outside(error)),
                Ok(_) => (
                    DeleteStateView::AwaitRemoved { target, author },
                    DeleteActionView::Remove { path: target.path },
                ),
            }
        },
        (DeleteStateView::AwaitRemoved { target, author }, DeleteEventView::Removed(removed)) => {
            match removed {
                Err(error) => delete_refused(HttpErrorView::Outside(error)),
                Ok(_) => (
                    DeleteStateView::AwaitCommit,
                    DeleteActionView::Commit {
                        body: delete_commit_body(target.path, author),
                        branch: target.branch,
                    },
                ),
            }
        },
        (DeleteStateView::AwaitCommit, DeleteEventView::Committed(commit)) => match commit {
            Err(error) => delete_refused(HttpErrorView::Outside(error)),
            Ok(commit) => (
                DeleteStateView::Done,
                DeleteActionView::Answer(
                    Ok(CommitResponseView { status: ResourceStatus::Deleted, commit }),
                ),
            ),
        },
        _ => arbitrary(),
    }
}

fn refuse<E>(error: HttpError<E>) -> (step: (DeleteState, DeleteAction<E>))
    ensures
        (step.0.deep_view(), step.1.deep_view()) == delete_refused(error.deep_view()),
{
    (DeleteState::Done, DeleteAction::Answer(Err(error)))
}

/// Checks what the revision has at the path of a removal.
pub fn check_removable<E>(node: Option<NodeInfo<E>>, path: &str, claimed: &Option<String>) -> (
verdict: Result<(), HttpError<E>>)
    ensures
        verdict is Ok <==> delete_removable(node.deep_view(), path@, claimed.deep_view()) is Ok,
        verdict matches Err(error) ==> Err::<(), HttpErrorView<E>>(error.deep_view())
            == delete_removable(node.deep_view(), path@, claimed.deep_view()),
{
    match node {
        None => Err(HttpError::NotFound),
        Some(node) => {
            if !node.is_file {
                let mut message = "Cannot delete directory: ".to_owned();
                message.append(path);
                return Err(HttpError::BadRequest(message));
            }
            match node.latest_commit {
                Err(error) => Err(HttpError::Outside(error)),
                Ok(current) => check_claim(current.as_str(), claimed),
            }
        },
    }
}

/// Removes a file from a branch: takes the removal one event further.
pub fn delete<E>(state: DeleteState, event: DeleteEvent<E>) -> (step: (DeleteState, DeleteAction<E>))
    requires
        delete_expects(state.deep_view(), event.deep_view()),
    ensures
        (step.0.deep_view(), step.1.deep_view()) == delete_step(
            state.deep_view(),
            event.deep_view(),
        ),
{
    match (state, event) {
        (DeleteState::Start, DeleteEvent::Received(based_on)) => (
            DeleteState::AwaitResource { based_on },
            DeleteAction::ResolveResource,
        ),
        (DeleteState::AwaitResource { based_on }, DeleteEvent::Resource(resource)) => {
            match resource {
                Err(error) => refuse(HttpError::Outside(error)),
                Ok(resource) => match require_branch(resource) {
                    Err(error) => refuse(error),
                    Ok(target) => {
                        let commit = target.commit.clone();
                        let path = target.path.clone();
                        (
                            DeleteState::AwaitNode { based_on, target },
                            DeleteAction::LookUpNode { commit, path },
                        )
                    },
                },
            }
        },
        (DeleteState::AwaitNode { based_on, target }, DeleteEvent::Node(node)) => match node {
            Err(error) => refuse(HttpError::Outside(error)),
            Ok(node) => {
                let claimed = read_header(&based_on);
                match check_removable(node, target.path.as_str(), &claimed) {
                    Err(error) => refuse(error),
                    Ok(_) => (DeleteState::AwaitUser { target }, DeleteAction::Authenticate),
                }
            },
        },
        (DeleteState::AwaitUser { target }, DeleteEvent::User(user)) => match user {
            Err(error) => refuse(HttpError::Outside(error)),
            Ok(None) => refuse(
                HttpError::BadRequest("Bearer token required for DELETE operations".to_owned()),
            ),
            Ok(Some(author)) => {
                let commit = target.commit.clone();
                (
                    DeleteState::AwaitWorkspace { target, author },
                    DeleteAction::CreateWorkspace { commit },
                )
            },
        },
        (DeleteState::AwaitWorkspace { target, author }, DeleteEvent::Workspace(made)) => {
            match made {
                Err(error) => refuse(HttpError::Outside(error)),
                Ok(_) => {
                    let path = target.path.clone();
                    (DeleteState::AwaitRemoved { target, author }, DeleteAction::Remove { path })
                },
            }
        },
        (DeleteState::AwaitRemoved { target, author }, DeleteEvent::Removed(removed)) => {
            match removed {
                Err(error) => refuse(HttpError::Outside(error)),
                Ok(_) => {
                    let mut message = "Delete file ".to_owned();
                    message.append(target.path.as_str());
                    let body = NewCommitBody { author: author.name, email: author.email, message };
                    (
                        DeleteState::AwaitCommit,
                        DeleteAction::Commit { body, branch: target.branch },
                    )
                },
            }
        },
        (DeleteState::AwaitCommit, DeleteEvent::Committed(commit)) => match commit {
            Err(error) => refuse(HttpError::Outside(error)),
            Ok(commit) => (
                DeleteState::Done,
                DeleteAction::Answer(
                    Ok(CommitResponse { status: ResourceStatus::Deleted, commit }),
                ),
            ),
        },
        _ => unreached(),
    }
}

/// What the work outside the library gives back while one removal is served.
pub struct DeleteWorld<E> {
    pub resource: Result<ParsedResourceView, E>,
    /// By commit and path.
    pub node: spec_fn(Seq<char>, Seq<char>) -> Result<Option<NodeInfoView<E>>, E>,
    pub user: Result<Option<UserView>, E>,
    /// By the commit that the workspace is made on.
    pub workspace: spec_fn(Seq<char>) -> Result<(), E>,
    /// By path.
    pub removed: spec_fn(Seq<char>) -> Result<(), E>,
    /// By the body and the branch of the commit.
    pub committed: spec_fn(NewCommitBodyView, Seq<char>) -> Result<Seq<char>, E>,
}

/// The event that reports what came of an action.
pub open spec fn delete_report<E>(
    world: DeleteWorld<E>,
    action: DeleteActionView<E>,
) -> DeleteEventView<E> {
    match action {
        DeleteActionView::ResolveResource => DeleteEventView::Resource(world.resource),
        DeleteActionView::LookUpNode { commit, path } => DeleteEventView::Node(
            (world.node)(commit, path),
        ),
        DeleteActionView::Authenticate => DeleteEventView::User(world.user),
        DeleteActionView::CreateWorkspace { commit } => DeleteEventView::Workspace(
            (world.workspace)(commit),
        ),
        DeleteActionView::Remove { path } => DeleteEventView::Removed((world.removed)(path)),
        DeleteActionView::Commit { body, branch } => DeleteEventView::Committed(
            (world.committed)(body, branch),
        ),
        DeleteActionView::Answer(_) => arbitrary(),
    }
}

/// How many events a removal can still take.
pub open spec fn delete_rank(state: DeleteStateView) -> nat {
    match state {
        DeleteStateView::Start => 7,
        DeleteStateView::AwaitResource { .. } => 6,
        DeleteStateView::AwaitNode { .. } => 5,
        DeleteStateView::AwaitUser { .. } => 4,
        DeleteStateView::AwaitWorkspace { .. } => 3,
        DeleteStateView::AwaitRemoved { .. } => 2,
        DeleteStateView::AwaitCommit => 1,
        DeleteStateView::Done => 0,
    }
}

/// All that a removal asks for from `state` on, in order, when `event` comes first. It stops
/// short where an event comes that the state does not expect.
pub open spec fn delete_actions<E>(
    world: DeleteWorld<E>,
    state: DeleteStateView,
    event: DeleteEventView<E>,
) -> Seq<DeleteActionView<E>>
    decreases delete_rank(state),
{
    if !delete_expects(state, event) {
        Seq::empty()
    } else {
        let (next, action) = delete_step(state, event);
        if action is Answer {
            seq![action]
        } else {
            seq![action] + delete_actions(world, next, delete_report(world, action))
        }
    }
}

/// All that the removal of a request asks for.
pub open spec fn delete_run<E>(world: DeleteWorld<E>, based_on: Option<Seq<u8>>) -> Seq<
    DeleteActionView<E>,
> {
    delete_actions(world, DeleteStateView::Start, DeleteEventView::Received(based_on))
}

/// The checks of a removal, in their order: what the URL names, that it is a file, the claim
/// on its revision, and the user.
pub open spec fn delete_granted<E>(world: DeleteWorld<E>, based_on: Option<Seq<u8>>) -> Result<
    (BranchTargetView, UserView),
    HttpErrorView<E>,
> {
    match world.resource {
        Err(error) => Err(HttpErrorView::Outside(error)),
        Ok(resource) => match branch_target::<E>(resource) {
            Err(error) => Err(error),
            Ok(target) => match (world.node)(target.commit, target.path) {
                Err(error) => Err(HttpErrorView::Outside(error)),
                Ok(node) => match delete_removable(
                    node,
                    target.path,
                    optional_header_text(based_on),
                ) {
                    Err(error) => Err(error),
                    Ok(_) => match world.user {
                        Err(error) => Err(HttpErrorView::Outside(error)),
                        Ok(None) => Err(
                            HttpErrorView::BadRequest(
                                "Bearer token required for DELETE operations"@,
                            ),
                        ),
                        Ok(Some(author)) => Ok((target, author)),
                    },
                },
            },
        },
    }
}

/// What the repository is asked to do for a removal that passed its checks.
pub open spec fn delete_changes<E>(
    world: DeleteWorld<E>,
    target: BranchTargetView,
    author: UserView,
) -> Seq<DeleteActionView<E>> {
    let create = DeleteActionView::CreateWorkspace { commit: target.commit };
    let remove = DeleteActionView::Remove { path: target.path };
    let body = delete_commit_body(target.path, author);
    match (world.workspace)(target.commit) {
        Err(error) => seq![create, DeleteActionView::Answer(Err(HttpErrorView::Outside(error)))],
        Ok(_) => match (world.removed)(target.path) {
            Err(error) => seq![
                create,
                remove,
                DeleteActionView::Answer(Err(HttpErrorView::Outside(error))),
            ],
            Ok(_) => seq![
                create,
                remove,
                DeleteActionView::Commit { body, branch: target.branch },
                match (world.committed)(body, target.branch) {
                    Err(error) => DeleteActionView::Answer(Err(HttpErrorView::Outside(error))),
                    Ok(commit) => DeleteActionView::Answer(
                        Ok(CommitResponseView { status: ResourceStatus::Deleted, commit }),
                    ),
                },
            ],
        },
    }
}

/// Whether an action changes the repository.
pub open spec fn delete_writes<E>(action: DeleteActionView<E>) -> bool {
    action is CreateWorkspace || action is Remove || action is Commit
}

/// A removal runs its checks before it touches anything. One that fails a check is answered
/// with the error of the first check that it fails, and has asked for no change. Any other
/// ends with exactly these changes, in this order: a workspace on the commit that the URL
/// names, the removal of the file at its path, and one commit by the user of the bearer
/// token to the branch that the URL names.
pub proof fn law_delete_checks_before_it_changes<E>(
    world: DeleteWorld<E>,
    based_on: Option<Seq<u8>>,
)
    ensures
        match delete_granted(world, based_on) {
            Err(error) => {
                let run = delete_run(world, based_on);
                &&& run.len() > 0
                &&& run.last() == DeleteActionView::<E>::Answer(Err(error))
                &&& forall|i: int| 0 <= i < run.len() ==> !delete_writes(#[trigger] run[i])
            },
            Ok((target, author)) => delete_run(world, based_on) == seq![
                DeleteActionView::<E>::ResolveResource,
                DeleteActionView::LookUpNode { commit: target.commit, path: target.path },
                DeleteActionView::Authenticate,
            ] + delete_changes(world, target, author),
        },
{
    reveal_with_fuel(delete_actions, 7);
}

/// A removal of a file that was changed since the claimed revision is refused with the two
/// revisions, and changes nothing.
pub proof fn law_delete_refuses_a_stale_claim<E>(
    world: DeleteWorld<E>,
    based_on: Option<Seq<u8>>,
    target: BranchTargetView,
    current: Seq<char>,
    claimed: Seq<char>,
)
    requires
        world.resource matches Ok(resource) && branch_target::<E>(resource) == Ok::<
            BranchTargetView,
            HttpErrorView<E>,
        >(target),
        (world.node)(target.commit, target.path) matches Ok(Some(node)) && node.is_file
            && node.latest_commit == Ok::<Seq<char>, E>(current),
        optional_header_text(based_on) == Some(claimed),
        claimed != current,
    ensures
        delete_run(world, based_on).last() == DeleteActionView::<E>::Answer(
            Err(HttpErrorView::BasicError(stale_claim_message(current, claimed))),
        ),
        forall|i: int|
            0 <= i < delete_run(world, based_on).len() ==> !delete_writes(
                #[trigger] delete_run(world, based_on)[i],
            ),
{
    law_delete_checks_before_it_changes(world, based_on);
}

/// Without a user behind the bearer token a removal changes nothing.
pub proof fn law_delete_needs_a_user<E>(world: DeleteWorld<E>, based_on: Option<Seq<u8>>)
    requires
        world.user matches Ok(user) && user is None,
    ensures
        forall|i: int|
            0 <= i < delete_run(world, based_on).len() ==> !delete_writes(
                #[trigger] delete_run(world, based_on)[i],
            ),
{
    law_delete_checks_before_it_changes(world, based_on);
}

} // verus!
