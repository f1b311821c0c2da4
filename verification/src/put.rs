//! Uploading files to a branch and committing them.

use vstd::pervasive::unreached;
use vstd::prelude::*;

use crate::model::{
    answer_view, attribute, attributed, branch_target, outcome, require_branch, BranchTarget,
    BranchTargetView, CommitResponse, CommitResponseView, FileNew, FileNewView, HttpError,
    HttpErrorView, NewCommitBody, NewCommitBodyView, NodeInfo, NodeInfoView, ParsedResource,
    ParsedResourceView, ResourceStatus, UploadForm, UploadFormView, User, UserView,
};
use crate::revision::{check_claim, claim_holds, stale_claim_message};
use crate::text::{header_bytes, optional_header_text, read_header};
use crate::upload::{
    choose_author, choose_message, choose_target, is_form, message_header_usable, payload_is_form,
    upload_author, upload_message, upload_target, usable_message_header, UploadTarget,
    UploadTargetView,
};

verus! {

/// The headers of an upload that the handler reads.
#[derive(Debug, PartialEq, Eq)]
pub struct PutRequest {
    /// `authorization`
    pub authorization: Option<Vec<u8>>,
    /// `oxen-based-on`: the revision of the file that the client knows.
    pub based_on: Option<Vec<u8>>,
    /// `oxen-commit-message`
    pub commit_message: Option<Vec<u8>>,
    /// `content-type`
    pub content_type: Option<Vec<u8>>,
}

/// The model of a `PutRequest`.
pub struct PutRequestView {
    pub authorization: Option<Seq<u8>>,
    pub based_on: Option<Seq<u8>>,
    pub commit_message: Option<Seq<u8>>,
    pub content_type: Option<Seq<u8>>,
}

impl DeepView for PutRequest {
    type V = PutRequestView;

    open spec fn deep_view(&self) -> PutRequestView {
        PutRequestView {
            authorization: header_bytes(self.authorization),
            based_on: header_bytes(self.based_on),
            commit_message: header_bytes(self.commit_message),
            content_type: header_bytes(self.content_type),
        }
    }
}

/// How far an upload has come, and what the rest of it needs.
#[derive(Debug, PartialEq, Eq)]
pub enum PutState {
    Start,
    AwaitHead { request: PutRequest },
    AwaitResource { request: PutRequest },
    AwaitNode { request: PutRequest, target: BranchTarget },
    AwaitForm { request: PutRequest, target: BranchTarget, upload: UploadTarget },
    AwaitUser {
        request: PutRequest,
        target: BranchTarget,
        upload: UploadTarget,
        form: UploadForm,
    },
    AwaitWorkspace { branch: String, upload: UploadTarget, files: Vec<FileNew>, body: NewCommitBody },
    AwaitAdded { branch: String, body: NewCommitBody },
    AwaitCommit,
    Done,
}

/// The model of a `PutState`.
pub enum PutStateView {
    Start,
    AwaitHead { request: PutRequestView },
    AwaitResource { request: PutRequestView },
    AwaitNode { request: PutRequestView, target: BranchTargetView },
    AwaitForm { request: PutRequestView, target: BranchTargetView, upload: UploadTargetView },
    AwaitUser {
        request: PutRequestView,
        target: BranchTargetView,
        upload: UploadTargetView,
        form: UploadFormView,
    },
    AwaitWorkspace {
        branch: Seq<char>,
        upload: UploadTargetView,
        files: Seq<FileNewView>,
        body: NewCommitBodyView,
    },
    AwaitAdded { branch: Seq<char>, body: NewCommitBodyView },
    AwaitCommit,
    Done,
}

impl DeepView for PutState {
    type V = PutStateView;

    open spec fn deep_view(&self) -> PutStateView {
        match self {
            PutState::Start => PutStateView::Start,
            PutState::AwaitHead { request } => PutStateView::AwaitHead {
                request: request.deep_view(),
            },
            PutState::AwaitResource { request } => PutStateView::AwaitResource {
                request: request.deep_view(),
            },
            PutState::AwaitNode { request, target } => PutStateView::AwaitNode {
                request: request.deep_view(),
                target: target.deep_view(),
            },
            PutState::AwaitForm { request, target, upload } => PutStateView::AwaitForm {
                request: request.deep_view(),
                target: target.deep_view(),
                upload: upload.deep_view(),
            },
            PutState::AwaitUser { request, target, upload, form } => PutStateView::AwaitUser {
                request: request.deep_view(),
                target: target.deep_view(),
                upload: upload.deep_view(),
                form: form.deep_view(),
            },
            PutState::AwaitWorkspace { branch, upload, files, body } => {
                PutStateView::AwaitWorkspace {
                    branch: branch@,
                    upload: upload.deep_view(),
                    files: files.deep_view(),
                    body: body.deep_view(),
                }
            },
            PutState::AwaitAdded { branch, body } => PutStateView::AwaitAdded {
                branch: branch@,
                body: body.deep_view(),
            },
            PutState::AwaitCommit => PutStateView::AwaitCommit,
            PutState::Done => PutStateView::Done,
        }
    }
}

/// What an upload is told: the request itself, and then what came of the work it asked for.
#[derive(Debug, PartialEq, Eq)]
pub enum PutEvent<E> {
    Received(PutRequest),
    /// Whether the repository has a head commit.
    Head(Result<bool, E>),
    Resource(Result<ParsedResource, E>),
    /// What the revision has at the path of the upload.
    Node(Result<Option<NodeInfo<E>>, E>),
    /// What the payload holds.
    Form(Result<UploadForm, HttpError<E>>),
    /// The user that the bearer token belongs to.
    User(Result<Option<User>, E>),
    Workspace(Result<(), E>),
    Added(Result<(), E>),
    /// The id of the commit that was made.
    Committed(Result<String, E>),
}

/// The model of a `PutEvent`.
pub enum PutEventView<E> {
    Received(PutRequestView),
    Head(Result<bool, E>),
    Resource(Result<ParsedResourceView, E>),
    Node(Result<Option<NodeInfoView<E>>, E>),
    Form(Result<UploadFormView, HttpErrorView<E>>),
    User(Result<Option<UserView>, E>),
    Workspace(Result<(), E>),
    Added(Result<(), E>),
    Committed(Result<Seq<char>, E>),
}

impl<E> DeepView for PutEvent<E> {
    type V = PutEventView<E>;

    open spec fn deep_view(&self) -> PutEventView<E> {
        match self {
            PutEvent::Received(request) => PutEventView::Received(request.deep_view()),
            PutEvent::Head(head) => PutEventView::Head(*head),
            PutEvent::Resource(resource) => PutEventView::Resource(outcome(*resource)),
            PutEvent::Node(node) => PutEventView::Node(outcome(*node)),
            PutEvent::Form(form) => PutEventView::Form(answer_view(*form)),
            PutEvent::User(user) => PutEventView::User(outcome(*user)),
            PutEvent::Workspace(made) => PutEventView::Workspace(*made),
            PutEvent::Added(added) => PutEventView::Added(*added),
            PutEvent::Committed(commit) => PutEventView::Committed(outcome(*commit)),
        }
    }
}

/// What an upload asks for next. Whoever carries an action out reports back with the event
/// that tells what came of it; the last two end the upload.
#[derive(Debug, PartialEq, Eq)]
pub enum PutAction<E> {
    /// Find the repository, and whether it has a head commit.
    OpenRepository,
    /// Find out what the resource of the URL stands for.
    ResolveResource,
    LookUpNode { commit: String, path: String },
    /// Read the payload as a form.
    ReadForm,
    /// Read the payload as the contents of a file.
    ReadPayload,
    /// Find the user that the request's bearer token belongs to.
    Authenticate,
    /// Make a temporary workspace on the commit.
    CreateWorkspace { commit: String },
    /// Write the files into the workspace and stage them.
    AddFiles { target: UploadTarget, files: Vec<FileNew> },
    /// Commit the workspace to the branch.
    Commit { body: NewCommitBody, branch: String },
    /// Take the upload as the first commit of the repository.
    HandleInitialPut,
    Answer(Result<CommitResponse, HttpError<E>>),
}

/// The model of a `PutAction`.
pub enum PutActionView<E> {
    OpenRepository,
    ResolveResource,
    LookUpNode { commit: Seq<char>, path: Seq<char> },
    ReadForm,
    ReadPayload,
    Authenticate,
    CreateWorkspace { commit: Seq<char> },
    AddFiles { target: UploadTargetView, files: Seq<FileNewView> },
    Commit { body: NewCommitBodyView, branch: Seq<char> },
    HandleInitialPut,
    Answer(Result<CommitResponseView, HttpErrorView<E>>),
}

impl<E> DeepView for PutAction<E> {
    type V = PutActionView<E>;

    open spec fn deep_view(&self) -> PutActionView<E> {
        match self {
            PutAction::OpenRepository => PutActionView::OpenRepository,
            PutAction::ResolveResource => PutActionView::ResolveResource,
            PutAction::LookUpNode { commit, path } => PutActionView::LookUpNode {
                commit: commit@,
                path: path@,
            },
            PutAction::ReadForm => PutActionView::ReadForm,
            PutAction::ReadPayload => PutActionView::ReadPayload,
            PutAction::Authenticate => PutActionView::Authenticate,
            PutAction::CreateWorkspace { commit } => PutActionView::CreateWorkspace {
                commit: commit@,
            },
            PutAction::AddFiles { target, files } => PutActionView::AddFiles {
                target: target.deep_view(),
                files: files.deep_view(),
            },
            PutAction::Commit { body, branch } => PutActionView::Commit {
                body: body.deep_view(),
                branch: branch@,
            },
            PutAction::HandleInitialPut => PutActionView::HandleInitialPut,
            PutAction::Answer(answer) => PutActionView::Answer(answer_view(*answer)),
        }
    }
}

/// Whether an event can follow in a state: it is the one that the last action asked for.
pub open spec fn put_expects<E>(state: PutStateView, event: PutEventView<E>) -> bool {
    match state {
        PutStateView::Start => event is Received,
        PutStateView::AwaitHead { .. } => event is Head,
        PutStateView::AwaitResource { .. } => event is Resource,
        PutStateView::AwaitNode { .. } => event is Node,
        PutStateView::AwaitForm { .. } => event is Form,
        PutStateView::AwaitUser { .. } => event is User,
        PutStateView::AwaitWorkspace { .. } => event is Workspace,
        PutStateView::AwaitAdded { .. } => event is Added,
        PutStateView::AwaitCommit => event is Committed,
        PutStateView::Done => false,
    }
}

/// The upload is over, with an error for an answer.
pub open spec fn put_refused<E>(error: HttpErrorView<E>) -> (PutStateView, PutActionView<E>) {
    (PutStateView::Done, PutActionView::Answer(Err(error)))
}

/// Whether the upload may replace what the revision has at its path, and if so whether that
/// is a file. Only a file whose last change is not the claimed one stands in the way.
pub open spec fn put_replaces<E>(
    node: Option<NodeInfoView<E>>,
    claimed: Option<Seq<char>>,
) -> Result<bool, HttpErrorView<E>> {
    match node {
        Some(node) if node.is_file => match node.latest_commit {
            Err(error) => Err(HttpErrorView::Outside(error)),
            Ok(current) => match claim_holds::<E>(current, claimed) {
                Err(error) => Err(error),
                Ok(_) => Ok(true),
            },
        },
        _ => Ok(false),
    }
}

/// Who the commit of an upload is by. A message header that cannot be used is refused first,
/// then an upload without an author.
pub open spec fn put_author<E>(
    request: PutRequestView,
    form: UploadFormView,
    user: Option<UserView>,
) -> Result<UserView, HttpErrorView<E>> {
    if !usable_message_header(request.commit_message) {
        Err(HttpErrorView::BadRequest("Invalid oxen-commit-message header value"@))
    } else {
        match upload_author(user, request.authorization, form.name, form.email) {
            None => Err(HttpErrorView::BadRequest("Bearer token required for PUT operations"@)),
            Some(author) => Ok(author),
        }
    }
}

/// What the commit of an upload is made with.
pub open spec fn put_commit_body(
    request: PutRequestView,
    path: Seq<char>,
    form: UploadFormView,
    author: UserView,
) -> NewCommitBodyView {
    NewCommitBodyView {
        author: author.name,
        email: author.email,
        message: upload_message(request.commit_message, form.message, path),
    }
}

/// What an upload does on an event.
pub open spec fn put_step<E>(state: PutStateView, event: PutEventView<E>) -> (
    PutStateView,
    PutActionView<E>,
) {
    match (state, event) {
        (PutStateView::Start, PutEventView::Received(request)) => (
            PutStateView::AwaitHead { request },
            PutActionView::OpenRepository,
        ),
        (PutStateView::AwaitHead { request }, PutEventView::Head(head)) => match head {
            Err(error) => put_refused(HttpErrorView::Outside(error)),
            Ok(false) => (PutStateView::Done, PutActionView::HandleInitialPut),
            Ok(true) => (PutStateView::AwaitResource { request }, PutActionView::ResolveResource),
        },
        (PutStateView::AwaitResource { request }, PutEventView::Resource(resource)) => {
            match resource {
                Err(error) => put_refused(HttpErrorView::Outside(error)),
                Ok(resource) => match branch_target::<E>(resource) {
                    Err(error) => put_refused(error),
                    Ok(target) => (
                        PutStateView::AwaitNode { request, target },
                        PutActionView::LookUpNode { commit: target.commit, path: target.path },
                    ),
                },
            }
        },
        (PutStateView::AwaitNode { request, target }, PutEventView::Node(node)) => match node {
            Err(error) => put_refused(HttpErrorView::Outside(error)),
            Ok(node) => match put_replaces(node, optional_header_text(request.based_on)) {
                Err(error) => put_refused(error),
                Ok(path_is_file) => (
                    PutStateView::AwaitForm {
                        request,
                        target,
                        upload: upload_target(request.content_type, target.path, path_is_file),
                    },
                    if is_form(request.content_type) {
                        PutActionView::ReadForm
                    } else {
                        PutActionView::ReadPayload
                    },
                ),
            },
        },
        (PutStateView::AwaitForm { request, target, upload }, PutEventView::Form(form)) => {
            match form {
                Err(error) => put_refused(error),
                Ok(form) => (
                    PutStateView::AwaitUser { request, target, upload, form },
                    PutActionView::Authenticate,
                ),
            }
        },
        (PutStateView::AwaitUser { request, target, upload, form }, PutEventView::User(user)) => {
            match user {
                Err(error) => put_refused(HttpErrorView::Outside(error)),
                Ok(user) => match put_author::<E>(request, form, user) {
                    Err(error) => put_refused(error),
                    Ok(author) => (
                        PutStateView::AwaitWorkspace {
                            branch: target.branch,
                            upload,
                            files: attributed(form.files, author),
                            body: put_commit_body(request, target.path, form, author),
                        },
                        PutActionView::CreateWorkspace { commit: target.commit },
                    ),
                },
            }
        },
        (
            PutStateView::AwaitWorkspace { branch, upload, files, body },
            PutEventView::Workspace(made),
        ) => match made {
            Err(error) => put_refused(HttpErrorView::Outside(error)),
            Ok(_) => (
                PutStateView::AwaitAdded { branch, body },
                PutActionView::AddFiles { target: upload, files },
            ),
        },
        (PutStateView::AwaitAdded { branch, body }, PutEventView::Added(added)) => match added {
            Err(error) => put_refused(HttpErrorView::Outside(error)),
            Ok(_) => (PutStateView::AwaitCommit, PutActionView::Commit { body, branch }),
        },
        (PutStateView::AwaitCommit, PutEventView::Committed(commit)) => match commit {
            Err(error) => put_refused(HttpErrorView::Outside(error)),
            Ok(commit) => (
                PutStateView::Done,
                PutActionView::Answer(
                    Ok(CommitResponseView { status: ResourceStatus::Created, commit }),
                ),
            ),
        },
        _ => arbitrary(),
    }
}

fn refuse<E>(error: HttpError<E>) -> (step: (PutState, PutAction<E>))
    ensures
        (step.0.deep_view(), step.1.deep_view()) == put_refused(error.deep_view()),
{
    (PutState::Done, PutAction::Answer(Err(error)))
}

/// Checks what the revision has at the path of an upload.
pub fn check_replacement<E>(node: Option<NodeInfo<E>>, claimed: &Option<String>) -> (verdict:
    Result<bool, HttpError<E>>)
    ensures
        answer_view(verdict) == put_replaces(node.deep_view(), claimed.deep_view()),
{
    match node {
        Some(node) => {
            if !node.is_file {
                return Ok(false);
            }
            match node.latest_commit {
                Err(error) => Err(HttpError::Outside(error)),
                Ok(current) => match check_claim::<E>(current.as_str(), claimed) {
                    Err(error) => Err(error),
                    Ok(_) => Ok(true),
                },
            }
        },
        None => Ok(false),
    }
}

/// Uploads files to a branch: takes the upload one event further.
pub fn put<E>(state: PutState, event: PutEvent<E>) -> (step: (PutState, PutAction<E>))
    requires
        put_expects(state.deep_view(), event.deep_view()),
    ensures
        (step.0.deep_view(), step.1.deep_view()) == put_step(state.deep_view(), event.deep_view()),
{
    match (state, event) {
        (PutState::Start, PutEvent::Received(request)) => (
            PutState::AwaitHead { request },
            PutAction::OpenRepository,
        ),
        (PutState::AwaitHead { request }, PutEvent::Head(head)) => match head {
            Err(error) => refuse(HttpError::Outside(error)),
            Ok(committed) => if committed {
                (PutState::AwaitResource { request }, PutAction::ResolveResource)
            } else {
                (PutState::Done, PutAction::HandleInitialPut)
            },
        },
        (PutState::AwaitResource { request }, PutEvent::Resource(resource)) => match resource {
            Err(error) => refuse(HttpError::Outside(error)),
            Ok(resource) => match require_branch(resource) {
                Err(error) => refuse(error),
                Ok(target) => {
                    let commit = target.commit.clone();
                    let path = target.path.clone();
                    (
                        PutState::AwaitNode { request, target },
                        PutAction::LookUpNode { commit, path },
                    )
                },
            },
        },
        (PutState::AwaitNode { request, target }, PutEvent::Node(node)) => match node {
            Err(error) => refuse(HttpError::Outside(error)),
            Ok(node) => {
                let claimed = read_header(&request.based_on);
                match check_replacement(node, &claimed) {
                    Err(error) => refuse(error),
                    Ok(path_is_file) => {
                        let upload = choose_target(
                            &request.content_type,
                            target.path.clone(),
                            path_is_file,
                        );
                        let action = if payload_is_form(&request.content_type) {
                            PutAction::ReadForm
                        } else {
                            PutAction::ReadPayload
                        };
                        (PutState::AwaitForm { request, target, upload }, action)
                    },
                }
            },
        },
        (PutState::AwaitForm { request, target, upload }, PutEvent::Form(form)) => match form {
            Err(error) => refuse(error),
            Ok(form) => (
                PutState::AwaitUser { request, target, upload, form },
                PutAction::Authenticate,
            ),
        },
        (PutState::AwaitUser { request, target, upload, form }, PutEvent::User(user)) => {
            match user {
                Err(error) => refuse(HttpError::Outside(error)),
                Ok(user) => {
                    if !message_header_usable(&request.commit_message) {
                        return refuse(
                            HttpError::BadRequest(
                                "Invalid oxen-commit-message header value".to_owned(),
                            ),
                        );
                    }
                    match choose_author(user, &request.authorization, form.name, form.email) {
                        None => refuse(
                            HttpError::BadRequest(
                                "Bearer token required for PUT operations".to_owned(),
                            ),
                        ),
                        Some(author) => {
                            let message = choose_message(
                                &request.commit_message,
                                form.message,
                                target.path.as_str(),
                            );
                            let files = attribute(form.files, &author);
                            let body = NewCommitBody {
                                author: author.name,
                                email: author.email,
                                message,
                            };
                            (
                                PutState::AwaitWorkspace {
                                    branch: target.branch,
                                    upload,
                                    files,
                                    body,
                                },
                                PutAction::CreateWorkspace { commit: target.commit },
                            )
                        },
                    }
                },
            }
        },
        (
            PutState::AwaitWorkspace { branch, upload, files, body },
            PutEvent::Workspace(made),
        ) => match made {
            Err(error) => refuse(HttpError::Outside(error)),
            Ok(_) => (
                PutState::AwaitAdded { branch, body },
                PutAction::AddFiles { target: upload, files },
            ),
        },
        (PutState::AwaitAdded { branch, body }, PutEvent::Added(added)) => match added {
            Err(error) => refuse(HttpError::Outside(error)),
            Ok(_) => (PutState::AwaitCommit, PutAction::Commit { body, branch }),
        },
        (PutState::AwaitCommit, PutEvent::Committed(commit)) => match commit {
            Err(error) => refuse(HttpError::Outside(error)),
            Ok(commit) => (
                PutState::Done,
                PutAction::Answer(Ok(CommitResponse { status: ResourceStatus::Created, commit })),
            ),
        },
        _ => unreached(),
    }
}

/// What the work outside the library gives back while one upload is served.
pub struct PutWorld<E> {
    pub head: Result<bool, E>,
    pub resource: Result<ParsedResourceView, E>,
    /// By commit and path.
    pub node: spec_fn(Seq<char>, Seq<char>) -> Result<Option<NodeInfoView<E>>, E>,
    /// The payload, read as a form.
    pub form: Result<UploadFormView, HttpErrorView<E>>,
    /// The payload, read as the contents of a file.
    pub payload: Result<UploadFormView, HttpErrorView<E>>,
    pub user: Result<Option<UserView>, E>,
    /// By the commit that the workspace is made on.
    pub workspace: spec_fn(Seq<char>) -> Result<(), E>,
    /// By the place of the files and the files.
    pub added: spec_fn(UploadTargetView, Seq<FileNewView>) -> Result<(), E>,
    /// By the body and the branch of the commit.
    pub committed: spec_fn(NewCommitBodyView, Seq<char>) -> Result<Seq<char>, E>,
}

/// Whether an action ends the upload.
pub open spec fn put_ends<E>(action: PutActionView<E>) -> bool {
    action is Answer || action is HandleInitialPut
}

/// The event that reports what came of an action.
pub open spec fn put_report<E>(world: PutWorld<E>, action: PutActionView<E>) -> PutEventView<E> {
    match action {
        PutActionView::OpenRepository => PutEventView::Head(world.head),
        PutActionView::ResolveResource => PutEventView::Resource(world.resource),
        PutActionView::LookUpNode { commit, path } => PutEventView::Node((world.node)(commit, path)),
        PutActionView::ReadForm => PutEventView::Form(world.form),
        PutActionView::ReadPayload => PutEventView::Form(world.payload),
        PutActionView::Authenticate => PutEventView::User(world.user),
        PutActionView::CreateWorkspace { commit } => PutEventView::Workspace(
            (world.workspace)(commit),
        ),
        PutActionView::AddFiles { target, files } => PutEventView::Added(
            (world.added)(target, files),
        ),
        PutActionView::Commit { body, branch } => PutEventView::Committed(
            (world.committed)(body, branch),
        ),
        _ => arbitrary(),
    }
}

/// How many events an upload can still take.
pub open spec fn put_rank(state: PutStateView) -> nat {
    match state {
        PutStateView::Start => 9,
        PutStateView::AwaitHead { .. } => 8,
        PutStateView::AwaitResource { .. } => 7,
        PutStateView::AwaitNode { .. } => 6,
        PutStateView::AwaitForm { .. } => 5,
        PutStateView::AwaitUser { .. } => 4,
        PutStateView::AwaitWorkspace { .. } => 3,
        PutStateView::AwaitAdded { .. } => 2,
        PutStateView::AwaitCommit => 1,
        PutStateView::Done => 0,
    }
}

/// All that an upload asks for from `state` on, in order, when `event` comes first. It stops
/// short where an event comes that the state does not expect.
pub open spec fn put_actions<E>(
    world: PutWorld<E>,
    state: PutStateView,
    event: PutEventView<E>,
) -> Seq<PutActionView<E>>
    decreases put_rank(state),
{
    if !put_expects(state, event) {
        Seq::empty()
    } else {
        let (next, action) = put_step(state, event);
        if put_ends(action) {
            seq![action]
        } else {
            seq![action] + put_actions(world, next, put_report(world, action))
        }
    }
}

/// All that the upload of a request asks for.
pub open spec fn put_run<E>(world: PutWorld<E>, request: PutRequestView) -> Seq<PutActionView<E>> {
    put_actions(world, PutStateView::Start, PutEventView::Received(request))
}

/// What an upload has passed once it may change the repository.
pub struct PutGrant {
    pub target: BranchTargetView,
    pub upload: UploadTargetView,
    pub form: UploadFormView,
    pub author: UserView,
}

/// The checks of an upload, in their order: whether the repository has a commit at all (an
/// upload is handed on where it has none: `Ok(None)`), what the URL names, the claim on the
/// revision, the payload, the message header and the author.
pub open spec fn put_granted<E>(world: PutWorld<E>, request: PutRequestView) -> Result<
    Option<PutGrant>,
    HttpErrorView<E>,
> {
    match world.head {
        Err(error) => Err(HttpErrorView::Outside(error)),
        Ok(false) => Ok(None),
        Ok(true) => match world.resource {
            Err(error) => Err(HttpErrorView::Outside(error)),
            Ok(resource) => match branch_target::<E>(resource) {
                Err(error) => Err(error),
                Ok(target) => match (world.node)(target.commit, target.path) {
                    Err(error) => Err(HttpErrorView::Outside(error)),
                    Ok(node) => match put_replaces(node, optional_header_text(request.based_on)) {
                        Err(error) => Err(error),
                        Ok(path_is_file) => match put_payload(world, request) {
                            Err(error) => Err(error),
                            Ok(form) => match world.user {
                                Err(error) => Err(HttpErrorView::Outside(error)),
                                Ok(user) => match put_author::<E>(request, form, user) {
                                    Err(error) => Err(error),
                                    Ok(author) => Ok(
                                        Some(
                                            PutGrant {
                                                target,
                                                upload: upload_target(
                                                    request.content_type,
                                                    target.path,
                                                    path_is_file,
                                                ),
                                                form,
                                                author,
                                            },
                                        ),
                                    ),
                                },
                            },
                        },
                    },
                },
            },
        },
    }
}

/// What is uploaded: the payload, read in the way that its content type says.
pub open spec fn put_payload<E>(world: PutWorld<E>, request: PutRequestView) -> Result<
    UploadFormView,
    HttpErrorView<E>,
> {
    if is_form(request.content_type) {
        world.form
    } else {
        world.payload
    }
}

/// What the repository is asked to do for an upload that passed its checks.
pub open spec fn put_changes<E>(
    world: PutWorld<E>,
    request: PutRequestView,
    grant: PutGrant,
) -> Seq<PutActionView<E>> {
    let create = PutActionView::CreateWorkspace { commit: grant.target.commit };
    let files = attributed(grant.form.files, grant.author);
    let add_files = PutActionView::AddFiles { target: grant.upload, files };
    let body = put_commit_body(request, grant.target.path, grant.form, grant.author);
    let commit = PutActionView::Commit { body, branch: grant.target.branch };
    match (world.workspace)(grant.target.commit) {
        Err(error) => seq![create, PutActionView::Answer(Err(HttpErrorView::Outside(error)))],
        Ok(_) => match (world.added)(grant.upload, files) {
            Err(error) => seq![
                create,
                add_files,
                PutActionView::Answer(Err(HttpErrorView::Outside(error))),
            ],
            Ok(_) => seq![
                create,
                add_files,
                commit,
                match (world.committed)(body, grant.target.branch) {
                    Err(error) => PutActionView::Answer(Err(HttpErrorView::Outside(error))),
                    Ok(commit) => PutActionView::Answer(
                        Ok(CommitResponseView { status: ResourceStatus::Created, commit }),
                    ),
                },
            ],
        },
    }
}

/// Whether an action changes the repository.
pub open spec fn put_writes<E>(action: PutActionView<E>) -> bool {
    action is CreateWorkspace || action is AddFiles || action is Commit
}

/// An upload runs its checks before it touches anything. One that fails a check is answered
/// with the error of the first check that it fails, and has asked for no change. One to a
/// repository without commits is handed on. Any other ends with exactly these changes, in
/// this order: a workspace on the commit that the URL names, the files, each by the author
/// of the upload, and one commit by that author to the branch that the URL names.
pub proof fn law_put_checks_before_it_changes<E>(world: PutWorld<E>, request: PutRequestView)
    ensures
        match put_granted(world, request) {
            Err(error) => {
                let run = put_run(world, request);
                &&& run.len() > 0
                &&& run.last() == PutActionView::<E>::Answer(Err(error))
                &&& forall|i: int| 0 <= i < run.len() ==> !put_writes(#[trigger] run[i])
            },
            Ok(None) => put_run(world, request) == seq![
                PutActionView::<E>::OpenRepository,
                PutActionView::HandleInitialPut,
            ],
            Ok(Some(grant)) => put_run(world, request) == seq![
                PutActionView::<E>::OpenRepository,
                PutActionView::ResolveResource,
                PutActionView::LookUpNode { commit: grant.target.commit, path: grant.target.path },
                if is_form(request.content_type) {
                    PutActionView::ReadForm
                } else {
                    PutActionView::ReadPayload
                },
                PutActionView::Authenticate,
            ] + put_changes(world, request, grant),
        },
{
    reveal_with_fuel(put_actions, 9);
}

/// An upload to a file that was changed since the claimed revision is refused with the two
/// revisions, and changes nothing.
pub proof fn law_put_refuses_a_stale_claim<E>(
    world: PutWorld<E>,
    request: PutRequestView,
    target: BranchTargetView,
    current: Seq<char>,
    claimed: Seq<char>,
)
    requires
        world.head == Ok::<bool, E>(true),
        world.resource matches Ok(resource) && branch_target::<E>(resource) == Ok::<
            BranchTargetView,
            HttpErrorView<E>,
        >(target),
        (world.node)(target.commit, target.path) matches Ok(Some(node)) && node.is_file
            && node.latest_commit == Ok::<Seq<char>, E>(current),
        optional_header_text(request.based_on) == Some(claimed),
        claimed != current,
    ensures
        put_run(world, request).last() == PutActionView::<E>::Answer(
            Err(HttpErrorView::BasicError(stale_claim_message(current, claimed))),
        ),
        forall|i: int|
            0 <= i < put_run(world, request).len() ==> !put_writes(
                #[trigger] put_run(world, request)[i],
            ),
{
    law_put_checks_before_it_changes(world, request);
}

/// An upload without a user changes nothing where it comes with an `authorization` header,
/// whatever its payload holds; and where it comes without one, unless the payload holds both
/// a name and an email.
pub proof fn law_put_needs_an_author<E>(world: PutWorld<E>, request: PutRequestView)
    requires
        world.user matches Ok(user) && user is None,
        request.authorization is Some || (put_payload(world, request) matches Ok(form)
            ==> form.name is None || form.email is None),
    ensures
        forall|i: int|
            0 <= i < put_run(world, request).len() ==> !put_writes(
                #[trigger] put_run(world, request)[i],
            ),
{
    law_put_checks_before_it_changes(world, request);
}

} // verus!
