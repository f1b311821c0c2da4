//! Uploads to a repository without commits.

use vstd::prelude::*;

use crate::initial_put::{
    initial_put_actions, initial_put_run, InitialPutActionView, InitialPutRequestView,
    InitialPutWorld,
};
use crate::model::{
    CommitResponseView, HttpErrorView, ResourceStatus, UploadFormView, UserView,
};
use crate::text::{header_text, joined, path_components};
use crate::upload::UploadTargetView;

verus! {

/// Whether the content type of a first upload is that of a form.
pub open spec fn first_sends_form(request: InitialPutRequestView) -> bool {
    request.content_type matches Some(value) && (header_text(value) matches Some(text)
        && "multipart/form-data"@.is_prefix_of(text))
}

/// What a first upload sends, as it was read.
pub open spec fn first_sent<E>(
    world: InitialPutWorld<E>,
    request: InitialPutRequestView,
) -> Result<UploadFormView, HttpErrorView<E>> {
    if first_sends_form(request) {
        world.form
    } else {
        world.payload
    }
}

/// Every commit of a first upload is by the user of the bearer token, and so is every file;
/// where there is none, nothing is written, whatever the payload says.
pub proof fn law_initial_put_commits_as_the_user<E>(
    world: InitialPutWorld<E>,
    request: InitialPutRequestView,
    i: int,
)
    requires
        0 <= i < initial_put_run(world, request).len(),
    ensures
        initial_put_run(world, request)[i] matches InitialPutActionView::Commit { message, user }
            ==> world.user == Ok::<Option<UserView>, E>(Some(user)) && message
            == "Initial commit"@,
        initial_put_run(world, request)[i] matches InitialPutActionView::AddFiles { files, .. }
            ==> forall|j: int|
            0 <= j < files.len() ==> world.user == Ok::<Option<UserView>, E>(
                Some((#[trigger] files[j]).user),
            ),
        !(world.user matches Ok(Some(_))) ==> {
            &&& !(initial_put_run(world, request)[i] is AddFiles)
            &&& !(initial_put_run(world, request)[i] is Commit)
            &&& !(initial_put_run(world, request)[i] is CreateBranch)
        },
{
    reveal_with_fuel(initial_put_actions, 6);
}

/// A first upload that nothing stands against, from its first action to its answer. The first
/// component of the resource is the branch, `main` where there is none, and the rest is the
/// path.
pub proof fn law_initial_put_in_full<E>(
    world: InitialPutWorld<E>,
    request: InitialPutRequestView,
    form: UploadFormView,
    user: UserView,
    made: Seq<char>,
)
    requires
        first_sent(world, request) == Ok::<UploadFormView, HttpErrorView<E>>(form),
        form.files.len() > 0,
        world.user == Ok::<Option<UserView>, E>(Some(user)),
        forall|target, files| (#[trigger] (world.added)(target, files)) is Ok,
        forall|message, author| #[trigger]
            (world.committed)(message, author) == Ok::<Seq<char>, E>(made),
        forall|name, commit| (#[trigger] (world.branch)(name, commit)) is Ok,
    ensures
        ({
            let run = initial_put_run(world, request);
            let found = path_components(request.resource);
            let path = if found.len() == 0 {
                Seq::<char>::empty()
            } else {
                joined(found.skip(1), '/')
            };
            &&& run.len() == 6
            &&& run[0] == if first_sends_form(request) {
                InitialPutActionView::<E>::ReadForm
            } else {
                InitialPutActionView::<E>::ReadPayload
            }
            &&& run[1] == InitialPutActionView::<E>::Authenticate
            &&& run[2] matches InitialPutActionView::AddFiles { target, files } && {
                &&& target == if first_sends_form(request) {
                    UploadTargetView::Directory(path)
                } else {
                    UploadTargetView::File(path)
                }
                &&& files.len() == form.files.len()
                &&& forall|i: int|
                    0 <= i < files.len() ==> {
                        &&& (#[trigger] files[i]).path == form.files[i].path
                        &&& files[i].contents == form.files[i].contents
                        &&& files[i].user == user
                    }
            }
            &&& run[3] == InitialPutActionView::<E>::Commit { message: "Initial commit"@, user }
            &&& run[4] == InitialPutActionView::<E>::CreateBranch {
                name: if found.len() == 0 {
                    "main"@
                } else {
                    found[0]
                },
                commit: made,
            }
            &&& run[5] == InitialPutActionView::<E>::Answer(
                Ok(CommitResponseView { status: ResourceStatus::Created, commit: made }),
            )
        }),
{
    reveal_with_fuel(initial_put_actions, 6);
}

/// What a first upload is answered with when its payload or the lack of a user stands against
/// it.
pub proof fn law_initial_put_refusals<E>(world: InitialPutWorld<E>, request: InitialPutRequestView)
    ensures
        ({
            let run = initial_put_run(world, request);
            &&& run.len() >= 2
            &&& match first_sent(world, request) {
                Err(error) => run.len() == 2 && run[1] == InitialPutActionView::<E>::Answer(
                    Err(error),
                ),
                Ok(form) => run[1] == InitialPutActionView::<E>::Authenticate && match world.user {
                    Err(error) => run.len() == 3 && run[2] == InitialPutActionView::<E>::Answer(
                        Err(HttpErrorView::Outside(error)),
                    ),
                    Ok(None) => run.len() == 3 && run[2] == InitialPutActionView::<E>::Answer(
                        Err(HttpErrorView::BadRequest("Bearer token required for PUT operations"@)),
                    ),
                    Ok(Some(_)) => form.files.len() > 0 ==> run.len() >= 4 && run[2] is AddFiles,
                },
            }
        }),
{
    reveal_with_fuel(initial_put_actions, 4);
}

/// What a first upload is answered with when its changes fail or are made: the error as it
/// came, or the commit that the branch was put on.
pub proof fn law_initial_put_failures_of_the_changes<E>(
    world: InitialPutWorld<E>,
    request: InitialPutRequestView,
    i: int,
)
    requires
        0 <= i < initial_put_run(world, request).len(),
    ensures
        ({
            let run = initial_put_run(world, request);
            let failed = |error: E|
                run.len() == i + 2 && run[i + 1] == InitialPutActionView::<E>::Answer(
                    Err(HttpErrorView::Outside(error)),
                );
            &&& run[i] matches InitialPutActionView::AddFiles { target, files } ==> i + 1
                < run.len() && match (world.added)(target, files) {
                Err(error) => failed(error),
                Ok(_) => run[i + 1] is Commit,
            }
            &&& run[i] matches InitialPutActionView::Commit { message, user } ==> i + 1 < run.len()
                && match (world.committed)(message, user) {
                Err(error) => failed(error),
                Ok(made) => run[i + 1] matches InitialPutActionView::CreateBranch { commit, .. }
                    && commit == made,
            }
            &&& run[i] matches InitialPutActionView::CreateBranch { name, commit } ==> run.len()
                == i + 2 && match (world.branch)(name, commit) {
                Err(error) => failed(error),
                Ok(_) => run[i + 1] == InitialPutActionView::<E>::Answer(
                    Ok(CommitResponseView { status: ResourceStatus::Created, commit }),
                ),
            }
            &&& run[i] is Answer ==> i == run.len() - 1
        }),
{
    reveal_with_fuel(initial_put_actions, 6);
}

} // verus!
