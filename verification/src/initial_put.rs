//! The upload that becomes the first commit of a repository.

use vstd::pervasive::unreached;
use vstd::prelude::*;

use crate::model::{
    answer_view, attribute, attributed, outcome, CommitResponse, CommitResponseView, FileNew,
    FileNewView, HttpError, HttpErrorView, ResourceStatus, UploadForm, UploadFormView, User,
    UserView,
};
use crate::text::{
    components, header_bytes, is_plain_name, join_components, joined, lemma_components_of_joined,
    path_components,
};
use crate::upload::{
    choose_target, is_form, payload_is_form, upload_target, UploadTarget, UploadTargetView,
};

verus! {

/// The branch that a first upload creates: the first component of the URL's resource, or
/// `main` where it has none.
pub open spec fn initial_branch(resource: Seq<char>) -> Seq<char> {
    let found = path_components(resource);
    if found.len() == 0 {
        "main"@
    } else {
        found[0]
    }
}

/// The path of a first upload: the components of the URL's resource behind the branch.
pub open spec fn initial_path(resource: Seq<char>) -> Seq<char> {
    let found = path_components(resource);
    if found.len() == 0 {
        Seq::empty()
    } else {
        joined(found.skip(1), '/')
    }
}

/// Splits the resource of a first upload into branch and path.
pub fn split_resource(resource: &str) -> (parts: (String, String))
    ensures
        parts.0@ == initial_branch(resource@),
        parts.1@ == initial_path(resource@),
{
    let found = components(resource);
    assert(found.deep_view().len() == found.len());
    if found.len() == 0 {
        ("main".to_owned(), String::new())
    } else {
        assert(found.deep_view()[0] == found[0]@);
        (found[0].clone(), join_components(&found, 1))
    }
}

/// The parts of a first upload that the handler reads.
#[derive(Debug, PartialEq, Eq)]
pub struct InitialPutRequest {
    /// The resource part of the URL.
    pub resource: String,
    /// `content-type`
    pub content_type: Option<Vec<u8>>,
}

/// The model of an `InitialPutRequest`.
pub struct InitialPutRequestView {
    pub resource: Seq<char>,
    pub content_type: Option<Seq<u8>>,
}

impl DeepView for InitialPutRequest {
    type V = InitialPutRequestView;

    open spec fn deep_view(&self) -> InitialPutRequestView {
        InitialPutRequestView {
            resource: self.resource@,
            content_type: header_bytes(self.content_type),
        }
    }
}

/// How far a first upload has come, and what the rest of it needs.
#[derive(Debug, PartialEq, Eq)]
pub enum InitialPutState {
    Start,
    AwaitForm { branch: String, upload: UploadTarget },
    AwaitUser { branch: String, upload: UploadTarget, form: UploadForm },
    AwaitAdded { branch: String, author: User },
    AwaitCommit { branch: String },
    AwaitBranch { commit: String },
    Done,
}

/// The model of an `InitialPutState`.
pub enum InitialPutStateView {
    Start,
    AwaitForm { branch: Seq<char>, upload: UploadTargetView },
    AwaitUser { branch: Seq<char>, upload: UploadTargetView, form: UploadFormView },
    AwaitAdded { branch: Seq<char>, author: UserView },
    AwaitCommit { branch: Seq<char> },
    AwaitBranch { commit: Seq<char> },
    Done,
}

impl DeepView for InitialPutState {
    type V = InitialPutStateView;

    open spec fn deep_view(&self) -> InitialPutStateView {
        match self {
            InitialPutState::Start => InitialPutStateView::Start,
            InitialPutState::AwaitForm { branch, upload } => InitialPutStateView::AwaitForm {
                branch: branch@,
                upload: upload.deep_view(),
            },
            InitialPutState::AwaitUser { branch, upload, form } => InitialPutStateView::AwaitUser {
                branch: branch@,
                upload: upload.deep_view(),
                form: form.deep_view(),
            },
            InitialPutState::AwaitAdded { branch, author } => InitialPutStateView::AwaitAdded {
                branch: branch@,
                author: author.deep_view(),
            },
            InitialPutState::AwaitCommit { branch } => InitialPutStateView::AwaitCommit {
                branch: branch@,
            },
            InitialPutState::AwaitBranch { commit } => InitialPutStateView::AwaitBranch {
                commit: commit@,
            },
            InitialPutState::Done => InitialPutStateView::Done,
        }
    }
}

/// What a first upload is told: the request itself, and then what came of the work it asked
/// for.
#[derive(Debug, PartialEq, Eq)]
pub enum InitialPutEvent<E> {
    Received(InitialPutRequest),
    Form(Result<UploadForm, HttpError<E>>),
    User(Result<Option<User>, E>),
    Added(Result<(), E>),
    /// The id of the commit that was made.
    Committed(Result<String, E>),
    BranchCreated(Result<(), E>),
}

/// The model of an `InitialPutEvent`.
pub enum InitialPutEventView<E> {
    Received(InitialPutRequestView),
    Form(Result<UploadFormView, HttpErrorView<E>>),
    User(Result<Option<UserView>, E>),
    Added(Result<(), E>),
    Committed(Result<Seq<char>, E>),
    BranchCreated(Result<(), E>),
}

impl<E> DeepView for InitialPutEvent<E> {
    type V = InitialPutEventView<E>;

    open spec fn deep_view(&self) -> InitialPutEventView<E> {
        match self {
            InitialPutEvent::Received(request) => InitialPutEventView::Received(
                request.deep_view(),
            ),
            InitialPutEvent::Form(form) => InitialPutEventView::Form(answer_view(*form)),
            InitialPutEvent::User(user) => InitialPutEventView::User(outcome(*user)),
            InitialPutEvent::Added(added) => InitialPutEventView::Added(*added),
            InitialPutEvent::Committed(commit) => InitialPutEventView::Committed(outcome(*commit)),
            InitialPutEvent::BranchCreated(made) => InitialPutEventView::BranchCreated(*made),
        }
    }
}

/// What a first upload asks for next; `Answer` ends it.
#[derive(Debug, PartialEq, Eq)]
pub enum InitialPutAction<E> {
    /// Read the payload as a form.
    ReadForm,
    /// Read the payload as the contents of a file.
    ReadPayload,
    /// Find the user that the request's bearer token belongs to.
    Authenticate,
    /// Write the files into the repository and stage them.
    AddFiles { target: UploadTarget, files: Vec<FileNew> },
    /// Commit what is staged.
    Commit { message: String, user: User },
    CreateBranch { name: String, commit: String },
    Answer(Result<CommitResponse, HttpError<E>>),
}

/// The model of an `InitialPutAction`.
pub enum InitialPutActionView<E> {
    ReadForm,
    ReadPayload,
    Authenticate,
    AddFiles { target: UploadTargetView, files: Seq<FileNewView> },
    Commit { message: Seq<char>, user: UserView },
    CreateBranch { name: Seq<char>, commit: Seq<char> },
    Answer(Result<CommitResponseView, HttpErrorView<E>>),
}

impl<E> DeepView for InitialPutAction<E> {
    type V = InitialPutActionView<E>;

    open spec fn deep_view(&self) -> InitialPutActionView<E> {
        match self {
            InitialPutAction::ReadForm => InitialPutActionView::ReadForm,
            InitialPutAction::ReadPayload => InitialPutActionView::ReadPayload,
            InitialPutAction::Authenticate => InitialPutActionView::Authenticate,
            InitialPutAction::AddFiles { target, files } => InitialPutActionView::AddFiles {
                target: target.deep_view(),
                files: files.deep_view(),
            },
            InitialPutAction::Commit { message, user } => InitialPutActionView::Commit {
                message: message@,
                user: user.deep_view(),
            },
            InitialPutAction::CreateBranch { name, commit } => InitialPutActionView::CreateBranch {
                name: name@,
                commit: commit@,
            },
            InitialPutAction::Answer(answer) => InitialPutActionView::Answer(answer_view(*answer)),
        }
    }
}

/// Whether a first upload has a user but no file, and so makes no commit that it could
/// be answered with.
pub open spec fn nothing_to_commit<E>(
    state: InitialPutStateView,
    event: InitialPutEventView<E>,
) -> bool {
    match (state, event) {
        (InitialPutStateView::AwaitUser { form, .. }, InitialPutEventView::User(Ok(user))) => {
            form.files.len() == 0 && user is Some
        },
        _ => false,
    }
}

/// Whether an event can follow in a state: it is the one that the last action asked for, and
/// there is something to commit.
pub open spec fn initial_put_expects<E>(
    state: InitialPutStateView,
    event: InitialPutEventView<E>,
) -> bool {
    &&& match state {
        InitialPutStateView::Start => event is Received,
        InitialPutStateView::AwaitForm { .. } => event is Form,
        InitialPutStateView::AwaitUser { .. } => event is User,
        InitialPutStateView::AwaitAdded { .. } => event is Added,
        InitialPutStateView::AwaitCommit { .. } => event is Committed,
        InitialPutStateView::AwaitBranch { .. } => event is BranchCreated,
        InitialPutStateView::Done => false,
    }
    &&& !nothing_to_commit(state, event)
}

/// The upload is over, with an error for an answer.
pub open spec fn initial_put_refused<E>(error: HttpErrorView<E>) -> (
    InitialPutStateView,
    InitialPutActionView<E>,
) {
    (InitialPutStateView::Done, InitialPutActionView::Answer(Err(error)))
}

/// What a first upload does on an event.
pub open spec fn initial_put_step<E>(
    state: InitialPutStateView,
    event: InitialPutEventView<E>,
) -> (InitialPutStateView, InitialPutActionView<E>) {
    match (state, event) {
        (InitialPutStateView::Start, InitialPutEventView::Received(request)) => (
            InitialPutStateView::AwaitForm {
                branch: initial_branch(request.resource),
                upload: upload_target(
                    request.content_type,
                    initial_path(request.resource),
                    false,
                ),
            },
            if is_form(request.content_type) {
                InitialPutActionView::ReadForm
            } else {
                InitialPutActionView::ReadPayload
            },
        ),
        (InitialPutStateView::AwaitForm { branch, upload }, InitialPutEventView::Form(form)) => {
            match form {
                Err(error) => initial_put_refused(error),
                Ok(form) => (
                    InitialPutStateView::AwaitUser { branch, upload, form },
                    InitialPutActionView::Authenticate,
                ),
            }
        },
        (
            InitialPutStateView::AwaitUser { branch, upload, form },
            InitialPutEventView::User(user),
        ) => match user {
            Err(error) => initial_put_refused(HttpErrorView::Outside(error)),
            Ok(None) => initial_put_refused(
                HttpErrorView::BadRequest("Bearer token required for PUT operations"@),
            ),
            Ok(Some(author)) => (
                InitialPutStateView::AwaitAdded { branch, author },
                InitialPutActionView::AddFiles {
                    target: upload,
                    files: attributed(form.files, author),
                },
            ),
        },
        (InitialPutStateView::AwaitAdded { branch, author }, InitialPutEventView::Added(added)) => {
            match added {
                Err(error) => initial_put_refused(HttpErrorView::Outside(error)),
                Ok(_) => (
                    InitialPutStateView::AwaitCommit { branch },
                    InitialPutActionView::Commit { message: "Initial commit"@, user: author },
                ),
            }
        },
        (InitialPutStateView::AwaitCommit { branch }, InitialPutEventView::Committed(commit)) => {
            match commit {
                Err(error) => initial_put_refused(HttpErrorView::Outside(error)),
                Ok(commit) => (
                    InitialPutStateView::AwaitBranch { commit },
                    InitialPutActionView::CreateBranch { name: branch, commit },
                ),
            }
        },
        (InitialPutStateView::AwaitBranch { commit }, InitialPutEventView::BranchCreated(made)) => {
            match made {
                Err(error) => initial_put_refused(HttpErrorView::Outside(error)),
                Ok(_) => (
                    InitialPutStateView::Done,
                    InitialPutActionView::Answer(
                        Ok(CommitResponseView { status: ResourceStatus::Created, commit }),
                    ),
                ),
            }
        },
        _ => arbitrary(),
    }
}

fn refuse<E>(error: HttpError<E>) -> (step: (InitialPutState, InitialPutAction<E>))
    ensures
        (step.0.deep_view(), step.1.deep_view()) == initial_put_refused(error.deep_view()),
{
    (InitialPutState::Done, InitialPutAction::Answer(Err(error)))
}

/// Tells whether a first upload has a user but nothing to commit; it must not be taken
/// any further.
pub fn has_nothing_to_commit<E>(state: &InitialPutState, event: &InitialPutEvent<E>) -> (yes: bool)
    ensures
        yes == nothing_to_commit(state.deep_view(), event.deep_view()),
{
    match (state, event) {
        (InitialPutState::AwaitUser { form, .. }, InitialPutEvent::User(Ok(user))) => {
            form.files.len() == 0 && user.is_some()
        },
        _ => false,
    }
}

/// Accepts an upload as the first commit: takes it one event further.
pub fn handle_initial_put_empty_repo<E>(state: InitialPutState, event: InitialPutEvent<E>) -> (step:
    (InitialPutState, InitialPutAction<E>))
    requires
        initial_put_expects(state.deep_view(), event.deep_view()),
    ensures
        (step.0.deep_view(), step.1.deep_view()) == initial_put_step(
            state.deep_view(),
            event.deep_view(),
        ),
{
    match (state, event) {
        (InitialPutState::Start, InitialPutEvent::Received(request)) => {
            let (branch, path) = split_resource(request.resource.as_str());
            let upload = choose_target(&request.content_type, path, false);
            let action = if payload_is_form(&request.content_type) {
                InitialPutAction::ReadForm
            } else {
                InitialPutAction::ReadPayload
            };
            (InitialPutState::AwaitForm { branch, upload }, action)
        },
        (InitialPutState::AwaitForm { branch, upload }, InitialPutEvent::Form(form)) => match form {
            Err(error) => refuse(error),
            Ok(form) => (
                InitialPutState::AwaitUser { branch, upload, form },
                InitialPutAction::Authenticate,
            ),
        },
        (InitialPutState::AwaitUser { branch, upload, form }, InitialPutEvent::User(user)) => {
            match user {
                Err(error) => refuse(HttpError::Outside(error)),
                Ok(None) => refuse(
                    HttpError::BadRequest("Bearer token required for PUT operations".to_owned()),
                ),
                Ok(Some(author)) => {
                    let files = attribute(form.files, &author);
                    (
                        InitialPutState::AwaitAdded { branch, author },
                        InitialPutAction::AddFiles { target: upload, files },
                    )
                },
            }
        },
        (InitialPutState::AwaitAdded { branch, author }, InitialPutEvent::Added(added)) => {
            match added {
                Err(error) => refuse(HttpError::Outside(error)),
                Ok(_) => (
                    InitialPutState::AwaitCommit { branch },
                    InitialPutAction::Commit { message: "Initial commit".to_owned(), user: author },
                ),
            }
        },
        (InitialPutState::AwaitCommit { branch }, InitialPutEvent::Committed(commit)) => {
            match commit {
                Err(error) => refuse(HttpError::Outside(error)),
                Ok(commit) => {
                    let made = commit.clone();
                    (
                        InitialPutState::AwaitBranch { commit },
                        InitialPutAction::CreateBranch { name: branch, commit: made },
                    )
                },
            }
        },
        (InitialPutState::AwaitBranch { commit }, InitialPutEvent::BranchCreated(made)) => {
            match made {
                Err(error) => refuse(HttpError::Outside(error)),
                Ok(_) => (
                    InitialPutState::Done,
                    InitialPutAction::Answer(
                        Ok(CommitResponse { status: ResourceStatus::Created, commit }),
                    ),
                ),
            }
        },
        _ => unreached(),
    }
}

/// What the work outside the library gives back while one first upload is served.
pub struct InitialPutWorld<E> {
    /// The payload, read as a form.
    pub form: Result<UploadFormView, HttpErrorView<E>>,
    /// The payload, read as the contents of a file.
    pub payload: Result<UploadFormView, HttpErrorView<E>>,
    pub user: Result<Option<UserView>, E>,
    /// By the place of the files and the files.
    pub added: spec_fn(UploadTargetView, Seq<FileNewView>) -> Result<(), E>,
    /// By the message and the author of the commit.
    pub committed: spec_fn(Seq<char>, UserView) -> Result<Seq<char>, E>,
    /// By the name and the commit of the branch.
    pub branch: spec_fn(Seq<char>, Seq<char>) -> Result<(), E>,
}

/// The event that reports what came of an action.
pub open spec fn initial_put_report<E>(
    world: InitialPutWorld<E>,
    action: InitialPutActionView<E>,
) -> InitialPutEventView<E> {
    match action {
        InitialPutActionView::ReadForm => InitialPutEventView::Form(world.form),
        InitialPutActionView::ReadPayload => InitialPutEventView::Form(world.payload),
        InitialPutActionView::Authenticate => InitialPutEventView::User(world.user),
        InitialPutActionView::AddFiles { target, files } => InitialPutEventView::Added(
            (world.added)(target, files),
        ),
        InitialPutActionView::Commit { message, user } => InitialPutEventView::Committed(
            (world.committed)(message, user),
        ),
        InitialPutActionView::CreateBranch { name, commit } => InitialPutEventView::BranchCreated(
            (world.branch)(name, commit),
        ),
        InitialPutActionView::Answer(_) => arbitrary(),
    }
}

/// How many events a first upload can still take.
pub open spec fn initial_put_rank(state: InitialPutStateView) -> nat {
    match state {
        InitialPutStateView::Start => 6,
        InitialPutStateView::AwaitForm { .. } => 5,
        InitialPutStateView::AwaitUser { .. } => 4,
        InitialPutStateView::AwaitAdded { .. } => 3,
        InitialPutStateView::AwaitCommit { .. } => 2,
        InitialPutStateView::AwaitBranch { .. } => 1,
        InitialPutStateView::Done => 0,
    }
}

/// All that a first upload asks for from `state` on, in order, when `event` comes first. It
/// stops short where an event comes that the state does not expect.
pub open spec fn initial_put_actions<E>(
    world: InitialPutWorld<E>,
    state: InitialPutStateView,
    event: InitialPutEventView<E>,
) -> Seq<InitialPutActionView<E>>
    decreases initial_put_rank(state),
{
    if !initial_put_expects(state, event) {
        Seq::empty()
    } else {
        let (next, action) = initial_put_step(state, event);
        if action is Answer {
            seq![action]
        } else {
            seq![action] + initial_put_actions(world, next, initial_put_report(world, action))
        }
    }
}

/// All that the first upload of a request asks for.
pub open spec fn initial_put_run<E>(
    world: InitialPutWorld<E>,
    request: InitialPutRequestView,
) -> Seq<InitialPutActionView<E>> {
    initial_put_actions(
        world,
        InitialPutStateView::Start,
        InitialPutEventView::Received(request),
    )
}

/// What is uploaded: the payload, read in the way that its content type says.
pub open spec fn initial_put_payload<E>(
    world: InitialPutWorld<E>,
    request: InitialPutRequestView,
) -> Result<UploadFormView, HttpErrorView<E>> {
    if is_form(request.content_type) {
        world.form
    } else {
        world.payload
    }
}

/// The checks of a first upload, in their order: the payload and the user.
pub open spec fn initial_put_granted<E>(
    world: InitialPutWorld<E>,
    request: InitialPutRequestView,
) -> Result<(UploadFormView, UserView), HttpErrorView<E>> {
    match initial_put_payload(world, request) {
        Err(error) => Err(error),
        Ok(form) => match world.user {
            Err(error) => Err(HttpErrorView::Outside(error)),
            Ok(None) => Err(
                HttpErrorView::BadRequest("Bearer token required for PUT operations"@),
            ),
            Ok(Some(author)) => Ok((form, author)),
        },
    }
}

/// What the repository is asked to do for a first upload that passed its checks.
pub open spec fn initial_put_changes<E>(
    world: InitialPutWorld<E>,
    request: InitialPutRequestView,
    form: UploadFormView,
    author: UserView,
) -> Seq<InitialPutActionView<E>> {
    let target = upload_target(request.content_type, initial_path(request.resource), false);
    let files = attributed(form.files, author);
    let message = "Initial commit"@;
    let name = initial_branch(request.resource);
    let add_files = InitialPutActionView::AddFiles { target, files };
    let make_commit = InitialPutActionView::Commit { message, user: author };
    match (world.added)(target, files) {
        Err(error) => seq![
            add_files,
            InitialPutActionView::Answer(Err(HttpErrorView::Outside(error))),
        ],
        Ok(_) => match (world.committed)(message, author) {
            Err(error) => seq![
                add_files,
                make_commit,
                InitialPutActionView::Answer(Err(HttpErrorView::Outside(error))),
            ],
            Ok(commit) => seq![
                add_files,
                make_commit,
                InitialPutActionView::CreateBranch { name, commit },
                match (world.branch)(name, commit) {
                    Err(error) => InitialPutActionView::Answer(Err(HttpErrorView::Outside(error))),
                    Ok(_) => InitialPutActionView::Answer(
                        Ok(CommitResponseView { status: ResourceStatus::Created, commit }),
                    ),
                },
            ],
        },
    }
}

/// Whether an action changes the repository.
pub open spec fn initial_put_writes<E>(action: InitialPutActionView<E>) -> bool {
    action is AddFiles || action is Commit || action is CreateBranch
}

/// A first upload runs its checks before it touches anything. One that fails a check is
/// answered with that error and has asked for no change. Any other with at least one file
/// ends with exactly these changes, in this order: the files, each by the user of the bearer
/// token, one commit by that user, and the branch that the URL names on that commit.
pub proof fn law_initial_put_checks_before_it_changes<E>(
    world: InitialPutWorld<E>,
    request: InitialPutRequestView,
)
    requires
        initial_put_granted(world, request) matches Ok((form, _)) ==> form.files.len() > 0,
    ensures
        match initial_put_granted(world, request) {
            Err(error) => {
                let run = initial_put_run(world, request);
                &&& run.len() > 0
                &&& run.last() == InitialPutActionView::<E>::Answer(Err(error))
                &&& forall|i: int| 0 <= i < run.len() ==> !initial_put_writes(#[trigger] run[i])
            },
            Ok((form, author)) => initial_put_run(world, request) == seq![
                if is_form(request.content_type) {
                    InitialPutActionView::<E>::ReadForm
                } else {
                    InitialPutActionView::ReadPayload
                },
                InitialPutActionView::Authenticate,
            ] + initial_put_changes(world, request, form, author),
        },
{
    reveal_with_fuel(initial_put_actions, 6);
}

/// Without a user behind the bearer token a first upload changes nothing, whatever its
/// payload holds.
pub proof fn law_initial_put_needs_a_user<E>(
    world: InitialPutWorld<E>,
    request: InitialPutRequestView,
)
    requires
        world.user matches Ok(user) && user is None,
    ensures
        forall|i: int|
            0 <= i < initial_put_run(world, request).len() ==> !initial_put_writes(
                #[trigger] initial_put_run(world, request)[i],
            ),
{
    law_initial_put_checks_before_it_changes(world, request);
}

/// A resource that is a branch and a path in their plainest form is split at the first
/// separator: the components come back as they are.
pub proof fn law_initial_put_splits_off_the_branch(branch: Seq<char>, names: Seq<Seq<char>>)
    requires
        is_plain_name(branch),
        forall|i: int| 0 <= i < names.len() ==> is_plain_name(#[trigger] names[i]),
    ensures
        initial_branch(joined(seq![branch] + names, '/')) == branch,
        initial_path(joined(seq![branch] + names, '/')) == joined(names, '/'),
{
    let parts = seq![branch] + names;
    assert forall|i: int| 0 <= i < parts.len() implies is_plain_name(#[trigger] parts[i]) by {
        if i > 0 {
            assert(parts[i] == names[i - 1]);
        }
    }
    lemma_components_of_joined(parts);
    assert(parts.skip(1) == names);
}

} // verus!
