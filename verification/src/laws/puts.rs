//! Uploads to a repository with commits.

use vstd::prelude::*;

use crate::model::{
    CommitResponseView, HttpErrorView, NewCommitBodyView, NodeInfoView, OxenErrorView,
    ParsedResourceView, ResourceStatus, UploadFormView, UserView,
};
use crate::put::{put_actions, put_run, PutActionView, PutRequestView, PutWorld};
use crate::text::{header_text, is_white_space};
use crate::upload::UploadTargetView;

verus! {

/// Whether the content type of a request is that of a form.
pub open spec fn sends_form(request: PutRequestView) -> bool {
    request.content_type matches Some(value) && (header_text(value) matches Some(text)
        && "multipart/form-data"@.is_prefix_of(text))
}

/// Whether a request claims to know this revision.
pub open spec fn claims(request: PutRequestView, revision: Seq<char>) -> bool {
    request.based_on matches Some(value) && header_text(value) == Some(revision)
}

/// Whether a header holds a message that can be used: one with a character that is no white
/// space.
pub open spec fn holds_message(value: Seq<u8>) -> bool {
    header_text(value) matches Some(text) && exists|i: int|
        0 <= i < text.len() && !is_white_space(#[trigger] text[i])
}

/// Whether an upload is to this branch, commit and path, where the revision has this node.
pub open spec fn put_finds<E>(
    world: PutWorld<E>,
    resource: ParsedResourceView,
    branch: Seq<char>,
    commit: Seq<char>,
    node: Option<NodeInfoView<E>>,
) -> bool {
    &&& world.head matches Ok(committed) && committed
    &&& world.resource == Ok::<ParsedResourceView, E>(resource)
    &&& resource.branch == Some(branch)
    &&& resource.commit == Some(commit)
    &&& (world.node)(commit, resource.path) == Ok::<Option<NodeInfoView<E>>, E>(node)
}

/// Whether an upload may replace a node: a file only where its last change is known and is
/// the claimed one, if one is claimed.
pub open spec fn put_may_replace<E>(request: PutRequestView, node: Option<NodeInfoView<E>>) -> bool {
    match node {
        Some(found) if found.is_file => found.latest_commit is Ok && forall|revision: Seq<char>|
            #[trigger] claims(request, revision) ==> revision == found.latest_commit->Ok_0,
        _ => true,
    }
}

/// Whether what an upload sends was read as this form.
pub open spec fn put_sends<E>(
    world: PutWorld<E>,
    request: PutRequestView,
    form: UploadFormView,
) -> bool {
    if sends_form(request) {
        world.form == Ok::<UploadFormView, HttpErrorView<E>>(form)
    } else {
        world.payload == Ok::<UploadFormView, HttpErrorView<E>>(form)
    }
}

/// Where there is a user behind the bearer token, every commit of an upload is by that user,
/// and so is every file, whatever the payload says.
pub proof fn law_put_commits_as_the_user<E>(
    world: PutWorld<E>,
    request: PutRequestView,
    user: UserView,
    i: int,
)
    requires
        world.user == Ok::<Option<UserView>, E>(Some(user)),
        0 <= i < put_run(world, request).len(),
    ensures
        put_run(world, request)[i] matches PutActionView::Commit { body, .. } ==> body.author
            == user.name && body.email == user.email,
        put_run(world, request)[i] matches PutActionView::AddFiles { files, .. } ==> forall|j: int|
            0 <= j < files.len() ==> (#[trigger] files[j]).user == user,
{
    reveal_with_fuel(put_actions, 9);
}

/// Without a user, and with an `authorization` header or without both a name and an email in
/// the payload, nothing is ever written.
pub proof fn law_put_without_an_author_writes_nothing<E>(
    world: PutWorld<E>,
    request: PutRequestView,
    i: int,
)
    requires
        world.user matches Ok(user) && user is None,
        request.authorization is Some || forall|form: UploadFormView| #[trigger]
            put_sends(world, request, form) ==> form.name is None || form.email is None,
        0 <= i < put_run(world, request).len(),
    ensures
        !(put_run(world, request)[i] is CreateWorkspace),
        !(put_run(world, request)[i] is AddFiles),
        !(put_run(world, request)[i] is Commit),
{
    reveal_with_fuel(put_actions, 9);
    assert(world.form matches Ok(form) && sends_form(request) ==> put_sends(
        world,
        request,
        world.form->Ok_0,
    ));
    assert(world.payload matches Ok(form) && !sends_form(request) ==> put_sends(
        world,
        request,
        world.payload->Ok_0,
    ));
}

/// Every workspace of an upload is made on the commit of its resource, every lookup is of the
/// path of its resource in that commit, and every commit goes to the branch of its resource.
pub proof fn law_put_stays_on_its_resource<E>(
    world: PutWorld<E>,
    request: PutRequestView,
    resource: ParsedResourceView,
    i: int,
)
    requires
        world.resource == Ok::<ParsedResourceView, E>(resource),
        0 <= i < put_run(world, request).len(),
    ensures
        put_run(world, request)[i] matches PutActionView::CreateWorkspace { commit }
            ==> resource.commit == Some(commit),
        put_run(world, request)[i] matches PutActionView::LookUpNode { commit, path }
            ==> resource.commit == Some(commit) && path == resource.path,
        put_run(world, request)[i] matches PutActionView::Commit { branch, .. } ==> resource.branch
            == Some(branch),
        put_run(world, request)[i] matches PutActionView::AddFiles { target, .. } ==> target
            == UploadTargetView::File(resource.path) || target == UploadTargetView::Directory(
            resource.path,
        ),
{
    reveal_with_fuel(put_actions, 9);
}

/// An upload that nothing stands against, from its first action to its answer.
pub proof fn law_put_in_full<E>(
    world: PutWorld<E>,
    request: PutRequestView,
    resource: ParsedResourceView,
    branch: Seq<char>,
    commit: Seq<char>,
    node: Option<NodeInfoView<E>>,
    form: UploadFormView,
    author: UserView,
    message: Seq<char>,
    made: Seq<char>,
)
    requires
        put_finds(world, resource, branch, commit, node),
        put_may_replace(request, node),
        put_sends(world, request, form),
        world.user == Ok::<Option<UserView>, E>(Some(author)) || (world.user == Ok::<
            Option<UserView>,
            E,
        >(None) && request.authorization is None && form.name == Some(author.name) && form.email
            == Some(author.email)),
        match (request.commit_message, form.message) {
            (Some(value), _) => holds_message(value) && header_text(value) == Some(message),
            (None, Some(said)) => message == said,
            (None, None) => message == "Auto-commit files to "@ + resource.path,
        },
        (world.workspace)(commit) is Ok,
        forall|target, files| (#[trigger] (world.added)(target, files)) is Ok,
        forall|body, name| #[trigger]
            (world.committed)(body, name) == Ok::<Seq<char>, E>(made),
    ensures
        ({
            let run = put_run(world, request);
            &&& run.len() == 9
            &&& run[0] == PutActionView::<E>::OpenRepository
            &&& run[1] == PutActionView::<E>::ResolveResource
            &&& run[2] == PutActionView::<E>::LookUpNode { commit, path: resource.path }
            &&& run[3] == if sends_form(request) {
                PutActionView::<E>::ReadForm
            } else {
                PutActionView::<E>::ReadPayload
            }
            &&& run[4] == PutActionView::<E>::Authenticate
            &&& run[5] == PutActionView::<E>::CreateWorkspace { commit }
            &&& run[6] matches PutActionView::AddFiles { target, files } && {
                &&& target == if sends_form(request) && !(node matches Some(found)
                    && found.is_file) {
                    UploadTargetView::Directory(resource.path)
                } else {
                    UploadTargetView::File(resource.path)
                }
                &&& files.len() == form.files.len()
                &&& forall|i: int|
                    0 <= i < files.len() ==> {
                        &&& (#[trigger] files[i]).path == form.files[i].path
                        &&& files[i].contents == form.files[i].contents
                        &&& files[i].user == author
                    }
            }
            &&& run[7] == PutActionView::<E>::Commit {
                body: NewCommitBodyView { author: author.name, email: author.email, message },
                branch,
            }
            &&& run[8] == PutActionView::<E>::Answer(
                Ok(CommitResponseView { status: ResourceStatus::Created, commit: made }),
            )
        }),
{
    reveal_with_fuel(put_actions, 9);
    if let Some(value) = request.based_on {
        if let Some(text) = header_text(value) {
            assert(claims(request, text));
        }
    }
}

/// What an upload is answered with when something is missing before its payload is read.
pub proof fn law_put_refusals_before_the_payload<E>(world: PutWorld<E>, request: PutRequestView)
    ensures
        ({
            let run = put_run(world, request);
            &&& world.head matches Err(error) ==> run == seq![
                PutActionView::<E>::OpenRepository,
                PutActionView::Answer(Err(HttpErrorView::Outside(error))),
            ]
            &&& world.head matches Ok(false) ==> run == seq![
                PutActionView::<E>::OpenRepository,
                PutActionView::HandleInitialPut,
            ]
            &&& world.head matches Ok(true) ==> {
                &&& run.len() >= 3
                &&& world.resource matches Err(error) ==> run.len() == 3 && run[2]
                    == PutActionView::<E>::Answer(Err(HttpErrorView::Outside(error)))
                &&& world.resource matches Ok(resource) ==> {
                    &&& resource.branch is None ==> run.len() == 3 && run[2] == PutActionView::<
                        E,
                    >::Answer(
                        Err(
                            HttpErrorView::InternalOxenError(
                                OxenErrorView::LocalBranchNotFound(resource.version),
                            ),
                        ),
                    )
                    &&& resource.branch is Some && resource.commit is None ==> run.len() == 3
                        && run[2] == PutActionView::<E>::Answer(Err(HttpErrorView::NotFound))
                    &&& resource.branch is Some && resource.commit is Some ==> run.len() >= 4
                }
            }
        }),
{
    reveal_with_fuel(put_actions, 4);
}

/// What an upload is answered with when the file at its path stands against it.
pub proof fn law_put_refusals_at_the_path<E>(
    world: PutWorld<E>,
    request: PutRequestView,
    resource: ParsedResourceView,
    branch: Seq<char>,
    commit: Seq<char>,
)
    requires
        world.head matches Ok(committed) && committed,
        world.resource == Ok::<ParsedResourceView, E>(resource),
        resource.branch == Some(branch),
        resource.commit == Some(commit),
    ensures
        ({
            let run = put_run(world, request);
            let stale = |current: Seq<char>, claimed: Seq<char>|
                "File has been modified since claimed revision. Current: "@ + current
                    + ", Claimed: "@ + claimed
                    + ". Your changes would overwrite another change without that being from a merge"@;
            match (world.node)(commit, resource.path) {
                Err(error) => run.len() == 4 && run[3] == PutActionView::<E>::Answer(
                    Err(HttpErrorView::Outside(error)),
                ),
                Ok(Some(found)) => {
                    &&& found.is_file && found.latest_commit is Err ==> run.len() == 4 && run[3]
                        == PutActionView::<E>::Answer(
                        Err(HttpErrorView::Outside(found.latest_commit->Err_0)),
                    )
                    &&& forall|claimed: Seq<char>| #[trigger]
                        claims(request, claimed) && found.is_file && found.latest_commit is Ok
                            && found.latest_commit->Ok_0 != claimed ==> run.len() == 4 && run[3]
                            == PutActionView::<E>::Answer(
                            Err(
                                HttpErrorView::BasicError(
                                    stale(found.latest_commit->Ok_0, claimed),
                                ),
                            ),
                        )
                    &&& !found.is_file ==> run.len() >= 5
                },
                Ok(None) => run.len() >= 5,
            }
        }),
{
    reveal_with_fuel(put_actions, 5);
}

/// What an upload is answered with when its payload, its message or its author stands against
/// it.
pub proof fn law_put_refusals_at_the_payload<E>(
    world: PutWorld<E>,
    request: PutRequestView,
    resource: ParsedResourceView,
    branch: Seq<char>,
    commit: Seq<char>,
    node: Option<NodeInfoView<E>>,
)
    requires
        put_finds(world, resource, branch, commit, node),
        put_may_replace(request, node),
    ensures
        ({
            let run = put_run(world, request);
            let sent = if sends_form(request) {
                world.form
            } else {
                world.payload
            };
            match sent {
                Err(error) => run.len() == 5 && run[4] == PutActionView::<E>::Answer(Err(error)),
                Ok(form) => match world.user {
                    Err(error) => run.len() == 6 && run[5] == PutActionView::<E>::Answer(
                        Err(HttpErrorView::Outside(error)),
                    ),
                    Ok(user) => {
                        let unusable = request.commit_message matches Some(value)
                            && !holds_message(value);
                        let nobody = user is None && (request.authorization is Some
                            || form.name is None || form.email is None);
                        &&& unusable ==> run.len() == 6 && run[5] == PutActionView::<E>::Answer(
                            Err(
                                HttpErrorView::BadRequest(
                                    "Invalid oxen-commit-message header value"@,
                                ),
                            ),
                        )
                        &&& !unusable && nobody ==> run.len() == 6 && run[5] == PutActionView::<
                            E,
                        >::Answer(
                            Err(
                                HttpErrorView::BadRequest(
                                    "Bearer token required for PUT operations"@,
                                ),
                            ),
                        )
                        &&& !unusable && !nobody ==> run.len() >= 7 && run[5]
                            == PutActionView::<E>::CreateWorkspace { commit } && (
                        (world.workspace)(commit) matches Err(error) ==> run.len() == 7 && run[6]
                            == PutActionView::<E>::Answer(Err(HttpErrorView::Outside(error))))
                    },
                },
            }
        }),
{
    reveal_with_fuel(put_actions, 9);
    if let Some(value) = request.based_on {
        if let Some(text) = header_text(value) {
            assert(claims(request, text));
        }
    }
}

/// What an upload is answered with when its changes fail: the error as it came, and nothing is
/// asked for after it.
pub proof fn law_put_failures_of_the_changes<E>(
    world: PutWorld<E>,
    request: PutRequestView,
    i: int,
)
    requires
        0 <= i < put_run(world, request).len(),
    ensures
        ({
            let run = put_run(world, request);
            &&& run[i] matches PutActionView::AddFiles { target, files } ==> i + 1 < run.len()
                && match (world.added)(target, files) {
                Err(error) => run.len() == i + 2 && run[i + 1] == PutActionView::<E>::Answer(
                    Err(HttpErrorView::Outside(error)),
                ),
                Ok(_) => run[i + 1] is Commit,
            }
            &&& run[i] matches PutActionView::Commit { body, branch } ==> run.len() == i + 2
                && run[i + 1] == PutActionView::<E>::Answer(
                match (world.committed)(body, branch) {
                    Err(error) => Err(HttpErrorView::Outside(error)),
                    Ok(made) => Ok(
                        CommitResponseView { status: ResourceStatus::Created, commit: made },
                    ),
                },
            )
            &&& run[i] is Answer ==> i == run.len() - 1
        }),
{
    reveal_with_fuel(put_actions, 9);
}

} // verus!
