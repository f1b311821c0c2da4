//! Removals and moves.

use vstd::prelude::*;

use crate::delete::{delete_actions, delete_run, DeleteActionView, DeleteWorld};
use crate::model::{
    CommitResponseView, FileMoveBodyView, HttpErrorView, NewCommitBodyView, NodeInfoView,
    OxenErrorView, ParsedResourceView, ResourceStatus, UserView,
};
use crate::mv::{mv_actions, mv_run, MoveActionView, MoveWorld};
use crate::text::header_text;

verus! {

/// Whether a removal is of this path of this branch and commit.
pub open spec fn delete_finds<E>(
    world: DeleteWorld<E>,
    resource: ParsedResourceView,
    branch: Seq<char>,
    commit: Seq<char>,
) -> bool {
    &&& world.resource == Ok::<ParsedResourceView, E>(resource)
    &&& resource.branch == Some(branch)
    &&& resource.commit == Some(commit)
}

/// Every workspace of a removal is made on the commit of its resource, only the path of its
/// resource is removed, and every commit goes to the branch of its resource, by the user of
/// the bearer token.
pub proof fn law_delete_stays_on_its_resource<E>(
    world: DeleteWorld<E>,
    based_on: Option<Seq<u8>>,
    resource: ParsedResourceView,
    i: int,
)
    requires
        world.resource == Ok::<ParsedResourceView, E>(resource),
        0 <= i < delete_run(world, based_on).len(),
    ensures
        delete_run(world, based_on)[i] matches DeleteActionView::CreateWorkspace { commit }
            ==> resource.commit == Some(commit),
        delete_run(world, based_on)[i] matches DeleteActionView::LookUpNode { commit, path }
            ==> resource.commit == Some(commit) && path == resource.path,
        delete_run(world, based_on)[i] matches DeleteActionView::Remove { path } ==> path
            == resource.path,
        delete_run(world, based_on)[i] matches DeleteActionView::Commit { body, branch } ==> {
            &&& resource.branch == Some(branch)
            &&& world.user == Ok::<Option<UserView>, E>(
                Some(UserView { name: body.author, email: body.email }),
            )
            &&& body.message == "Delete file "@ + resource.path
        },
{
    reveal_with_fuel(delete_actions, 7);
}

/// A removal that nothing stands against, from its first action to its answer.
pub proof fn law_delete_in_full<E>(
    world: DeleteWorld<E>,
    based_on: Option<Seq<u8>>,
    resource: ParsedResourceView,
    branch: Seq<char>,
    commit: Seq<char>,
    node: NodeInfoView<E>,
    current: Seq<char>,
    user: UserView,
    made: Seq<char>,
)
    requires
        delete_finds(world, resource, branch, commit),
        (world.node)(commit, resource.path) == Ok::<Option<NodeInfoView<E>>, E>(Some(node)),
        node.is_file,
        node.latest_commit == Ok::<Seq<char>, E>(current),
        based_on matches Some(value) ==> header_text(value) is None || header_text(value) == Some(
            current,
        ),
        world.user == Ok::<Option<UserView>, E>(Some(user)),
        (world.workspace)(commit) is Ok,
        (world.removed)(resource.path) is Ok,
        forall|body, name| #[trigger]
            (world.committed)(body, name) == Ok::<Seq<char>, E>(made),
    ensures
        delete_run(world, based_on) == seq![
            DeleteActionView::<E>::ResolveResource,
            DeleteActionView::LookUpNode { commit, path: resource.path },
            DeleteActionView::Authenticate,
            DeleteActionView::CreateWorkspace { commit },
            DeleteActionView::Remove { path: resource.path },
            DeleteActionView::Commit {
                body: NewCommitBodyView {
                    author: user.name,
                    email: user.email,
                    message: "Delete file "@ + resource.path,
                },
                branch,
            },
            DeleteActionView::Answer(
                Ok(CommitResponseView { status: ResourceStatus::Deleted, commit: made }),
            ),
        ],
{
    reveal_with_fuel(delete_actions, 7);
}

/// What a removal is answered with when its resource stands for nothing that can be changed.
pub proof fn law_delete_refusals_of_the_resource<E>(
    world: DeleteWorld<E>,
    based_on: Option<Seq<u8>>,
)
    ensures
        ({
            let run = delete_run(world, based_on);
            &&& run.len() >= 2
            &&& run[0] == DeleteActionView::<E>::ResolveResource
            &&& match world.resource {
                Err(error) => run.len() == 2 && run[1] == DeleteActionView::<E>::Answer(
                    Err(HttpErrorView::Outside(error)),
                ),
                Ok(resource) => {
                    &&& resource.branch is None ==> run.len() == 2 && run[1] == DeleteActionView::<
                        E,
                    >::Answer(
                        Err(
                            HttpErrorView::InternalOxenError(
                                OxenErrorView::LocalBranchNotFound(resource.version),
                            ),
                        ),
                    )
                    &&& resource.branch is Some && resource.commit is None ==> run.len() == 2
                        && run[1] == DeleteActionView::<E>::Answer(Err(HttpErrorView::NotFound))
                    &&& resource.branch is Some && resource.commit is Some ==> run.len() >= 3
                },
            }
        }),
{
    reveal_with_fuel(delete_actions, 3);
}

/// What a removal is answered with when what is at its path, or the lack of a user, stands
/// against it.
pub proof fn law_delete_refusals_at_the_path<E>(
    world: DeleteWorld<E>,
    based_on: Option<Seq<u8>>,
    resource: ParsedResourceView,
    branch: Seq<char>,
    commit: Seq<char>,
)
    requires
        delete_finds(world, resource, branch, commit),
    ensures
        ({
            let run = delete_run(world, based_on);
            let refused = |error: HttpErrorView<E>|
                run.len() == 3 && run[2] == DeleteActionView::<E>::Answer(Err(error));
            match (world.node)(commit, resource.path) {
                Err(error) => refused(HttpErrorView::Outside(error)),
                Ok(None) => refused(HttpErrorView::NotFound),
                Ok(Some(node)) => if !node.is_file {
                    refused(
                        HttpErrorView::BadRequest("Cannot delete directory: "@ + resource.path),
                    )
                } else {
                    match node.latest_commit {
                        Err(error) => refused(HttpErrorView::Outside(error)),
                        Ok(current) => {
                            let stale = based_on matches Some(value) && header_text(value) is Some
                                && header_text(value) != Some(current);
                            &&& stale ==> refused(
                                HttpErrorView::BasicError(
                                    "File has been modified since claimed revision. Current: "@
                                        + current + ", Claimed: "@ + header_text(based_on->0)->0
                                        + ". Your changes would overwrite another change without that being from a merge"@,
                                ),
                            )
                            &&& !stale ==> run.len() >= 4 && match world.user {
                                Err(error) => run.len() == 4 && run[3] == DeleteActionView::<
                                    E,
                                >::Answer(Err(HttpErrorView::Outside(error))),
                                Ok(None) => run.len() == 4 && run[3] == DeleteActionView::<
                                    E,
                                >::Answer(
                                    Err(
                                        HttpErrorView::BadRequest(
                                            "Bearer token required for DELETE operations"@,
                                        ),
                                    ),
                                ),
                                Ok(Some(_)) => run.len() >= 5 && run[3]
                                    == DeleteActionView::<E>::CreateWorkspace { commit },
                            }
                        },
                    }
                },
            }
        }),
{
    reveal_with_fuel(delete_actions, 5);
}

/// What a removal is answered with when its changes fail or are made: the error as it came, or
/// the commit.
pub proof fn law_delete_failures_of_the_changes<E>(
    world: DeleteWorld<E>,
    based_on: Option<Seq<u8>>,
    i: int,
)
    requires
        0 <= i < delete_run(world, based_on).len(),
    ensures
        ({
            let run = delete_run(world, based_on);
            let failed = |error: E|
                run.len() == i + 2 && run[i + 1] == DeleteActionView::<E>::Answer(
                    Err(HttpErrorView::Outside(error)),
                );
            &&& run[i] matches DeleteActionView::CreateWorkspace { commit } ==> i + 1 < run.len()
                && match (world.workspace)(commit) {
                Err(error) => failed(error),
                Ok(_) => run[i + 1] is Remove,
            }
            &&& run[i] matches DeleteActionView::Remove { path } ==> i + 1 < run.len() && match (
            world.removed)(path) {
                Err(error) => failed(error),
                Ok(_) => run[i + 1] is Commit,
            }
            &&& run[i] matches DeleteActionView::Commit { body, branch } ==> run.len() == i + 2
                && match (world.committed)(body, branch) {
                Err(error) => failed(error),
                Ok(made) => run[i + 1] == DeleteActionView::<E>::Answer(
                    Ok(CommitResponseView { status: ResourceStatus::Deleted, commit: made }),
                ),
            }
            &&& run[i] is Answer ==> i == run.len() - 1
        }),
{
    reveal_with_fuel(delete_actions, 7);
}

/// Every workspace of a move is made on the commit of its resource, only the file of its
/// resource is moved, only to the path that the body asks for, and every commit goes to the
/// branch of its resource. What the body says of the commit, name, email or message, the
/// commit has, each for itself; what it leaves out is empty, or names the two paths.
pub proof fn law_mv_stays_on_its_resource<E>(
    world: MoveWorld<E>,
    resource: ParsedResourceView,
    request: FileMoveBodyView,
    i: int,
)
    requires
        world.resource == Ok::<ParsedResourceView, E>(resource),
        world.body == Ok::<FileMoveBodyView, E>(request),
        0 <= i < mv_run(world).len(),
    ensures
        mv_run(world)[i] matches MoveActionView::CreateWorkspace { commit } ==> resource.commit
            == Some(commit),
        mv_run(world)[i] matches MoveActionView::NormalizePath { path } ==> path
            == request.new_path,
        mv_run(world)[i] matches MoveActionView::LookUpFile { commit, path } ==> resource.commit
            == Some(commit) && path == resource.path,
        mv_run(world)[i] matches MoveActionView::LookUpNode { commit, path } ==> resource.commit
            == Some(commit) && (world.normalized)(request.new_path) == Ok::<Seq<char>, E>(path),
        mv_run(world)[i] matches MoveActionView::Move { from, to } ==> from == resource.path && (
        world.normalized)(request.new_path) == Ok::<Seq<char>, E>(to),
        mv_run(world)[i] matches MoveActionView::Commit { body, branch } ==> {
            &&& resource.branch == Some(branch)
            &&& request.name matches Some(name) ==> body.author == name
            &&& request.name is None ==> body.author.len() == 0
            &&& request.email matches Some(email) ==> body.email == email
            &&& request.email is None ==> body.email.len() == 0
            &&& request.message matches Some(message) ==> body.message == message
            &&& request.message is None ==> body.message == "Move "@ + resource.path + " to "@ + (
            world.normalized)(request.new_path)->Ok_0
        },
{
    reveal_with_fuel(mv_actions, 9);
}

/// A move that nothing stands against, from its first action to its answer.
pub proof fn law_mv_in_full<E>(
    world: MoveWorld<E>,
    resource: ParsedResourceView,
    branch: Seq<char>,
    commit: Seq<char>,
    request: FileMoveBodyView,
    to: Seq<char>,
    body: NewCommitBodyView,
    made: Seq<char>,
)
    requires
        world.resource == Ok::<ParsedResourceView, E>(resource),
        resource.branch == Some(branch),
        resource.commit == Some(commit),
        world.body == Ok::<FileMoveBodyView, E>(request),
        request.new_path.len() > 0,
        (world.normalized)(request.new_path) == Ok::<Seq<char>, E>(to),
        (world.file)(commit, resource.path) matches Ok(exists) && exists,
        (world.node)(commit, to) matches Ok(taken) && !taken,
        (world.workspace)(commit) is Ok,
        (world.moved)(resource.path, to) is Ok,
        forall|body, name| #[trigger]
            (world.committed)(body, name) == Ok::<Seq<char>, E>(made),
        request.name == Some(body.author) || (request.name is None && body.author == Seq::<
            char,
        >::empty()),
        request.email == Some(body.email) || (request.email is None && body.email == Seq::<
            char,
        >::empty()),
        request.message == Some(body.message) || (request.message is None && body.message
            == "Move "@ + resource.path + " to "@ + to),
    ensures
        mv_run(world) == seq![
            MoveActionView::<E>::ResolveResource,
            MoveActionView::ParseBody,
            MoveActionView::NormalizePath { path: request.new_path },
            MoveActionView::LookUpFile { commit, path: resource.path },
            MoveActionView::LookUpNode { commit, path: to },
            MoveActionView::CreateWorkspace { commit },
            MoveActionView::Move { from: resource.path, to },
            MoveActionView::Commit { body, branch },
            MoveActionView::Answer(
                Ok(CommitResponseView { status: ResourceStatus::Updated, commit: made }),
            ),
        ],
{
    reveal_with_fuel(mv_actions, 9);
}

/// What a move is answered with when its resource or its body stands against it.
pub proof fn law_mv_refusals_of_the_request<E>(world: MoveWorld<E>)
    ensures
        ({
            let run = mv_run(world);
            &&& run.len() >= 2
            &&& run[0] == MoveActionView::<E>::ResolveResource
            &&& match world.resource {
                Err(error) => run.len() == 2 && run[1] == MoveActionView::<E>::Answer(
                    Err(HttpErrorView::Outside(error)),
                ),
                Ok(resource) => {
                    &&& resource.branch is None ==> run.len() == 2 && run[1] == MoveActionView::<
                        E,
                    >::Answer(
                        Err(
                            HttpErrorView::InternalOxenError(
                                OxenErrorView::LocalBranchNotFound(resource.version),
                            ),
                        ),
                    )
                    &&& resource.branch is Some && resource.commit is None ==> run.len() == 2
                        && run[1] == MoveActionView::<E>::Answer(Err(HttpErrorView::NotFound))
                    &&& resource.branch is Some && resource.commit is Some ==> run.len() >= 3
                        && run[1] == MoveActionView::<E>::ParseBody && match world.body {
                        Err(error) => run.len() == 3 && run[2] == MoveActionView::<E>::Answer(
                            Err(HttpErrorView::Outside(error)),
                        ),
                        Ok(request) => if request.new_path.len() == 0 {
                            run.len() == 3 && run[2] == MoveActionView::<E>::Answer(
                                Err(HttpErrorView::BadRequest("new_path cannot be empty"@)),
                            )
                        } else {
                            run.len() >= 4 && run[2] == MoveActionView::<E>::NormalizePath {
                                path: request.new_path,
                            }
                        },
                    }
                },
            }
        }),
{
    reveal_with_fuel(mv_actions, 4);
}

/// What a move is answered with when one of its paths stands against it.
pub proof fn law_mv_refusals_of_the_paths<E>(
    world: MoveWorld<E>,
    resource: ParsedResourceView,
    branch: Seq<char>,
    commit: Seq<char>,
    request: FileMoveBodyView,
)
    requires
        world.resource == Ok::<ParsedResourceView, E>(resource),
        resource.branch == Some(branch),
        resource.commit == Some(commit),
        world.body == Ok::<FileMoveBodyView, E>(request),
        request.new_path.len() > 0,
    ensures
        ({
            let run = mv_run(world);
            match (world.normalized)(request.new_path) {
                Err(error) => run.len() == 4 && run[3] == MoveActionView::<E>::Answer(
                    Err(HttpErrorView::Outside(error)),
                ),
                Ok(to) => match (world.file)(commit, resource.path) {
                    Err(error) => run.len() == 5 && run[4] == MoveActionView::<E>::Answer(
                        Err(HttpErrorView::Outside(error)),
                    ),
                    Ok(false) => run.len() == 5 && run[4] == MoveActionView::<E>::Answer(
                        Err(HttpErrorView::NotFound),
                    ),
                    Ok(true) => match (world.node)(commit, to) {
                        Err(error) => run.len() == 6 && run[5] == MoveActionView::<E>::Answer(
                            Err(HttpErrorView::Outside(error)),
                        ),
                        Ok(true) => run.len() == 6 && run[5] == MoveActionView::<E>::Answer(
                            Err(
                                HttpErrorView::BadRequest(
                                    "new_path already exists in the repository"@,
                                ),
                            ),
                        ),
                        Ok(false) => run.len() >= 7 && run[5]
                            == MoveActionView::<E>::CreateWorkspace { commit },
                    },
                },
            }
        }),
{
    reveal_with_fuel(mv_actions, 7);
}

/// What a move is answered with when its changes fail or are made: the error as it came, or
/// the commit.
pub proof fn law_mv_failures_of_the_changes<E>(world: MoveWorld<E>, i: int)
    requires
        0 <= i < mv_run(world).len(),
    ensures
        ({
            let run = mv_run(world);
            let failed = |error: E|
                run.len() == i + 2 && run[i + 1] == MoveActionView::<E>::Answer(
                    Err(HttpErrorView::Outside(error)),
                );
            &&& run[i] matches MoveActionView::CreateWorkspace { commit } ==> i + 1 < run.len()
                && match (world.workspace)(commit) {
                Err(error) => failed(error),
                Ok(_) => run[i + 1] is Move,
            }
            &&& run[i] matches MoveActionView::Move { from, to } ==> i + 1 < run.len() && match (
            world.moved)(from, to) {
                Err(error) => failed(error),
                Ok(_) => run[i + 1] is Commit,
            }
            &&& run[i] matches MoveActionView::Commit { body, branch } ==> run.len() == i + 2
                && match (world.committed)(body, branch) {
                Err(error) => failed(error),
                Ok(made) => run[i + 1] == MoveActionView::<E>::Answer(
                    Ok(CommitResponseView { status: ResourceStatus::Updated, commit: made }),
                ),
            }
            &&& run[i] is Answer ==> i == run.len() - 1
        }),
{
    reveal_with_fuel(mv_actions, 9);
}

} // verus!
