//! A model of the repository that the handlers work on, and what holds over several requests
//! to one.
//!
//! The handlers say what is asked of the repository; the model says what comes of it. A
//! workspace starts from the files of a commit, what is staged in it replaces, removes or moves
//! files, and a commit keeps the files of its workspace and becomes the head of its branch.

use vstd::prelude::*;
use vstd::utf8::{decode_utf8, decode_utf8_encode_utf8, valid_utf8};

use crate::delete::{
    delete_expects, delete_rank, delete_report, delete_run, delete_step,
    law_delete_checks_before_it_changes, DeleteActionView, DeleteEventView, DeleteStateView,
    DeleteWorld,
};
use crate::get::{get_run, law_get_answers_with_the_requested_file, GetActionView, GetWorld};
use crate::import::{
    import_actions, import_expects, import_granted, import_rank, import_report, import_run,
    import_step, ImportActionView, ImportEventView, ImportOrderView, ImportStateView, ImportWorld,
};
use crate::initial_put::{
    initial_branch, initial_path, initial_put_actions, initial_put_expects, initial_put_granted,
    initial_put_rank, initial_put_report, initial_put_run, initial_put_step, InitialPutActionView,
    InitialPutEventView, InitialPutRequestView, InitialPutStateView, InitialPutWorld,
};
use crate::model::{
    attributed, branch_target, BranchTargetView, FileNewView, FileQueryParams,
    HttpErrorView, NodeInfoView, ParsedResourceView, UploadFormView,
};
use crate::mv::{
    law_mv_checks_before_it_changes, mv_expects, mv_rank, mv_report, mv_run, mv_step,
    MoveActionView, MoveEventView, MoveStateView, MoveWorld,
};
use crate::put::{
    law_put_checks_before_it_changes, put_ends, put_expects, put_granted, put_rank, put_report, put_run,
    put_step, PutActionView, PutEventView, PutRequestView, PutStateView, PutWorld,
};
use crate::raw_payload::{raw_form, RawRequestView};
use crate::staging::{
    destination, law_staging_follows_the_plan, staging_actions, staging_expects, staging_plan, staging_rank,
    staging_report, staging_start, staging_step, written_bytes, StagingActionView, StagingEvent,
    StagingPhase, StagingStateView, StagingWorld,
};
use crate::text::path_joined;
use crate::upload::{is_form, upload_target, UploadTargetView};

verus! {

/// The bytes of each file, by its path.
pub type Files = Map<Seq<char>, Seq<u8>>;

/// A workspace: what was written into it, and the files that a commit of it would keep.
pub struct WorkspaceView {
    pub disk: Files,
    pub staged: Files,
}

/// A repository: the files of each commit, the head of each branch, and the workspace of the
/// request that is being served.
pub struct RepositoryView {
    pub commits: Map<Seq<char>, Files>,
    pub branches: Map<Seq<char>, Seq<char>>,
    pub workspace: WorkspaceView,
}

impl RepositoryView {
    /// With a fresh workspace on a commit.
    pub open spec fn checked_out(self, commit: Seq<char>) -> RepositoryView {
        RepositoryView {
            workspace: WorkspaceView { disk: Map::empty(), staged: self.commits[commit] },
            ..self
        }
    }

    /// With other files to commit.
    pub open spec fn staging(self, staged: Files) -> RepositoryView {
        RepositoryView { workspace: WorkspaceView { staged, ..self.workspace }, ..self }
    }

    /// With the workspace committed to a branch.
    pub open spec fn committed(self, branch: Seq<char>, commit: Seq<char>) -> RepositoryView {
        RepositoryView {
            commits: self.commits.insert(commit, self.workspace.staged),
            branches: self.branches.insert(branch, commit),
            ..self
        }
    }
}

/// Whether a path is that of a directory: the root is one, and so is what other paths lead
/// through.
pub open spec fn is_directory(files: Files, path: Seq<char>) -> bool {
    ||| path.len() == 0
    ||| exists|file: Seq<char>| #[trigger]
        files.contains_key(file) && path.push('/').is_prefix_of(file)
}

/// A workspace after an action of the staging.
pub open spec fn staging_effect<E>(
    workspace: WorkspaceView,
    action: StagingActionView<E>,
) -> WorkspaceView {
    match action {
        StagingActionView::Write { path, bytes } => WorkspaceView {
            disk: workspace.disk.insert(path, bytes),
            ..workspace
        },
        StagingActionView::Stage { path } => WorkspaceView {
            staged: workspace.staged.insert(path, workspace.disk[path]),
            ..workspace
        },
        _ => workspace,
    }
}

/// A workspace after all that a staging asks for from `state` on. It says what comes of a
/// staging that ends well; of any other nothing is committed.
pub open spec fn staging_workspace<E>(
    world: StagingWorld<E>,
    workspace: WorkspaceView,
    state: StagingStateView,
    event: StagingEvent<E>,
) -> WorkspaceView
    decreases state.files.len() - state.next, staging_rank(state.phase),
{
    if !staging_expects(state, event) {
        workspace
    } else {
        let (next, action) = staging_step(state, event);
        let changed = staging_effect(workspace, action);
        if action is Finish {
            changed
        } else {
            staging_workspace(world, changed, next, staging_report(world, next.next, action))
        }
    }
}

/// Whether `added` reports what the stagings in `staging` end with.
pub open spec fn adds_by_staging<E>(
    added: spec_fn(UploadTargetView, Seq<FileNewView>) -> Result<(), E>,
    staging: StagingWorld<E>,
) -> bool {
    forall|target: UploadTargetView, files: Seq<FileNewView>|
        staging_actions(staging, staging_start(target, files), StagingEvent::Begin).last()
            == StagingActionView::<E>::Finish(#[trigger] added(target, files))
}

/// A repository after an action of an upload.
pub open spec fn put_effect<E>(
    world: PutWorld<E>,
    staging: StagingWorld<E>,
    repository: RepositoryView,
    action: PutActionView<E>,
) -> RepositoryView {
    match action {
        PutActionView::CreateWorkspace { commit } => repository.checked_out(commit),
        PutActionView::AddFiles { target, files } => RepositoryView {
            workspace: staging_workspace(
                staging,
                repository.workspace,
                staging_start(target, files),
                StagingEvent::Begin,
            ),
            ..repository
        },
        PutActionView::Commit { body, branch } => match (world.committed)(body, branch) {
            Ok(commit) => repository.committed(branch, commit),
            Err(_) => repository,
        },
        _ => repository,
    }
}

/// A repository after all that an upload asks for from `state` on.
pub open spec fn put_outcome<E>(
    world: PutWorld<E>,
    staging: StagingWorld<E>,
    repository: RepositoryView,
    state: PutStateView,
    event: PutEventView<E>,
) -> RepositoryView
    decreases put_rank(state),
{
    if !put_expects(state, event) {
        repository
    } else {
        let (next, action) = put_step(state, event);
        let changed = put_effect(world, staging, repository, action);
        if put_ends(action) {
            changed
        } else {
            put_outcome(world, staging, changed, next, put_report(world, action))
        }
    }
}

/// A repository after an upload.
pub open spec fn after_put<E>(
    world: PutWorld<E>,
    staging: StagingWorld<E>,
    repository: RepositoryView,
    request: PutRequestView,
) -> RepositoryView {
    put_outcome(world, staging, repository, PutStateView::Start, PutEventView::Received(request))
}

/// A repository after an action of a removal.
pub open spec fn delete_effect<E>(
    world: DeleteWorld<E>,
    repository: RepositoryView,
    action: DeleteActionView<E>,
) -> RepositoryView {
    match action {
        DeleteActionView::CreateWorkspace { commit } => repository.checked_out(commit),
        DeleteActionView::Remove { path } => repository.staging(
            repository.workspace.staged.remove(path),
        ),
        DeleteActionView::Commit { body, branch } => match (world.committed)(body, branch) {
            Ok(commit) => repository.committed(branch, commit),
            Err(_) => repository,
        },
        _ => repository,
    }
}

/// A repository after all that a removal asks for from `state` on.
pub open spec fn delete_outcome<E>(
    world: DeleteWorld<E>,
    repository: RepositoryView,
    state: DeleteStateView,
    event: DeleteEventView<E>,
) -> RepositoryView
    decreases delete_rank(state),
{
    if !delete_expects(state, event) {
        repository
    } else {
        let (next, action) = delete_step(state, event);
        let changed = delete_effect(world, repository, action);
        if action is Answer {
            changed
        } else {
            delete_outcome(world, changed, next, delete_report(world, action))
        }
    }
}

/// A repository after a removal.
pub open spec fn after_delete<E>(
    world: DeleteWorld<E>,
    repository: RepositoryView,
    based_on: Option<Seq<u8>>,
) -> RepositoryView {
    delete_outcome(world, repository, DeleteStateView::Start, DeleteEventView::Received(based_on))
}

/// A repository after an action of a move.
pub open spec fn mv_effect<E>(
    world: MoveWorld<E>,
    repository: RepositoryView,
    action: MoveActionView<E>,
) -> RepositoryView {
    let staged = repository.workspace.staged;
    match action {
        MoveActionView::CreateWorkspace { commit } => repository.checked_out(commit),
        MoveActionView::Move { from, to } => repository.staging(
            staged.remove(from).insert(to, staged[from]),
        ),
        MoveActionView::Commit { body, branch } => match (world.committed)(body, branch) {
            Ok(commit) => repository.committed(branch, commit),
            Err(_) => repository,
        },
        _ => repository,
    }
}

/// A repository after all that a move asks for from `state` on.
pub open spec fn mv_outcome<E>(
    world: MoveWorld<E>,
    repository: RepositoryView,
    state: MoveStateView,
    event: MoveEventView<E>,
) -> RepositoryView
    decreases mv_rank(state),
{
    if !mv_expects(state, event) {
        repository
    } else {
        let (next, action) = mv_step(state, event);
        let changed = mv_effect(world, repository, action);
        if action is Answer {
            changed
        } else {
            mv_outcome(world, changed, next, mv_report(world, action))
        }
    }
}

/// A repository after a move.
pub open spec fn after_mv<E>(world: MoveWorld<E>, repository: RepositoryView) -> RepositoryView {
    mv_outcome(world, repository, MoveStateView::Start, MoveEventView::Received)
}

/// A repository after an action of an import, where `fetched` are the bytes that the other
/// site sends for a URL and an authorization.
pub open spec fn import_effect<E>(
    world: ImportWorld<E>,
    fetched: spec_fn(Seq<char>, Seq<char>) -> Seq<u8>,
    repository: RepositoryView,
    action: ImportActionView<E>,
) -> RepositoryView {
    match action {
        ImportActionView::CreateWorkspace { commit } => repository.checked_out(commit),
        ImportActionView::Download { url, auth, directory, filename } => repository.staging(
            repository.workspace.staged.insert(
                path_joined(directory, filename),
                fetched(url, auth),
            ),
        ),
        ImportActionView::Commit { body, branch } => match (world.committed)(body, branch) {
            Ok(commit) => repository.committed(branch, commit),
            Err(_) => repository,
        },
        _ => repository,
    }
}

/// A repository after all that an import asks for from `state` on.
pub open spec fn import_outcome<E>(
    world: ImportWorld<E>,
    fetched: spec_fn(Seq<char>, Seq<char>) -> Seq<u8>,
    repository: RepositoryView,
    state: ImportStateView,
    event: ImportEventView<E>,
) -> RepositoryView
    decreases import_rank(state),
{
    if !import_expects(state, event) {
        repository
    } else {
        let (next, action) = import_step(state, event);
        let changed = import_effect(world, fetched, repository, action);
        if action is Answer {
            changed
        } else {
            import_outcome(world, fetched, changed, next, import_report(world, action))
        }
    }
}

/// A repository after an import.
pub open spec fn after_import<E>(
    world: ImportWorld<E>,
    fetched: spec_fn(Seq<char>, Seq<char>) -> Seq<u8>,
    repository: RepositoryView,
    order: ImportOrderView,
) -> RepositoryView {
    import_outcome(
        world,
        fetched,
        repository,
        ImportStateView::Start,
        ImportEventView::Received(order),
    )
}

/// A repository after an action of a first upload. There is no workspace: files are staged in
/// the repository itself, and the branch is made after the commit.
pub open spec fn initial_put_effect<E>(
    world: InitialPutWorld<E>,
    staging: StagingWorld<E>,
    repository: RepositoryView,
    action: InitialPutActionView<E>,
) -> RepositoryView {
    match action {
        InitialPutActionView::AddFiles { target, files } => RepositoryView {
            workspace: staging_workspace(
                staging,
                repository.workspace,
                staging_start(target, files),
                StagingEvent::Begin,
            ),
            ..repository
        },
        InitialPutActionView::Commit { message, user } => match (world.committed)(message, user) {
            Ok(commit) => RepositoryView {
                commits: repository.commits.insert(commit, repository.workspace.staged),
                ..repository
            },
            Err(_) => repository,
        },
        InitialPutActionView::CreateBranch { name, commit } => match (world.branch)(name, commit) {
            Ok(_) => RepositoryView {
                branches: repository.branches.insert(name, commit),
                ..repository
            },
            Err(_) => repository,
        },
        _ => repository,
    }
}

/// A repository after all that a first upload asks for from `state` on.
pub open spec fn initial_put_outcome<E>(
    world: InitialPutWorld<E>,
    staging: StagingWorld<E>,
    repository: RepositoryView,
    state: InitialPutStateView,
    event: InitialPutEventView<E>,
) -> RepositoryView
    decreases initial_put_rank(state),
{
    if !initial_put_expects(state, event) {
        repository
    } else {
        let (next, action) = initial_put_step(state, event);
        let changed = initial_put_effect(world, staging, repository, action);
        if action is Answer {
            changed
        } else {
            initial_put_outcome(world, staging, changed, next, initial_put_report(world, action))
        }
    }
}

/// A repository after a first upload.
pub open spec fn after_initial_put<E>(
    world: InitialPutWorld<E>,
    staging: StagingWorld<E>,
    repository: RepositoryView,
    request: InitialPutRequestView,
) -> RepositoryView {
    initial_put_outcome(
        world,
        staging,
        repository,
        InitialPutStateView::Start,
        InitialPutEventView::Received(request),
    )
}

/// Whether two repositories have the same commits and branches.
pub open spec fn same_history(one: RepositoryView, other: RepositoryView) -> bool {
    one.commits == other.commits && one.branches == other.branches
}

/// Whether a resource stands for this branch, commit and path.
pub open spec fn stands_for<E>(
    resource: Result<ParsedResourceView, E>,
    branch: Seq<char>,
    commit: Seq<char>,
    path: Seq<char>,
) -> bool {
    resource matches Ok(resource) && branch_target::<E>(resource) == Ok::<
        BranchTargetView,
        HttpErrorView<E>,
    >(BranchTargetView { branch, commit, path })
}

/// Whether lookups of nodes show what the commits of a repository hold.
pub open spec fn shows_nodes<E>(
    node: spec_fn(Seq<char>, Seq<char>) -> Result<Option<NodeInfoView<E>>, E>,
    repository: RepositoryView,
) -> bool {
    forall|commit: Seq<char>, path: Seq<char>|
        repository.commits.contains_key(commit) ==> match #[trigger] node(commit, path) {
            Ok(Some(found)) => {
                let files = repository.commits[commit];
                found.is_file == files.contains_key(path) && (found.is_file || is_directory(
                    files,
                    path,
                ))
            },
            Ok(None) => !repository.commits[commit].contains_key(path) && !is_directory(
                repository.commits[commit],
                path,
            ),
            Err(_) => false,
        }
}

/// Whether the lookups of a move show what the commits of a repository hold.
pub open spec fn mv_shows<E>(world: MoveWorld<E>, repository: RepositoryView) -> bool {
    &&& forall|commit: Seq<char>, path: Seq<char>|
        repository.commits.contains_key(commit) ==> #[trigger] (world.file)(commit, path) == Ok::<
            bool,
            E,
        >(repository.commits[commit].contains_key(path))
    &&& forall|commit: Seq<char>, path: Seq<char>|
        repository.commits.contains_key(commit) ==> #[trigger] (world.node)(commit, path) == Ok::<
            bool,
            E,
        >(
            repository.commits[commit].contains_key(path) || is_directory(
                repository.commits[commit],
                path,
            ),
        )
}

/// Whether a download finds and streams what the commits of a repository hold, where
/// `contents` are the bytes that are kept under each hash.
pub open spec fn get_shows<E>(
    world: GetWorld<E>,
    contents: spec_fn(Seq<char>) -> Seq<u8>,
    repository: RepositoryView,
) -> bool {
    &&& forall|commit: Seq<char>, path: Seq<char>|
        repository.commits.contains_key(commit) ==> match #[trigger] (world.file)(commit, path) {
            Ok(Some(entry)) => repository.commits[commit].contains_key(path) && contents(entry.hash)
                == repository.commits[commit][path],
            Ok(None) => !repository.commits[commit].contains_key(path),
            Err(_) => false,
        }
    &&& forall|hash: Seq<char>| #[trigger] (world.version)(hash) is Ok
    &&& forall|action: GetActionView<E>| #[trigger] (world.stream)(action) is Ok
}

/// Whether a request was an upload whose files were added as they were staged, and was
/// answered with a commit.
pub open spec fn put_done<E>(
    world: PutWorld<E>,
    staging: StagingWorld<E>,
    request: PutRequestView,
    commit: Seq<char>,
) -> bool {
    &&& adds_by_staging(world.added, staging)
    &&& put_run(world, request).last() matches PutActionView::Answer(Ok(response))
        && response.commit == commit
}

/// Whether a request was an upload of a raw payload to this branch, commit and path, and was
/// answered with a commit.
pub open spec fn put_raw<E>(
    world: PutWorld<E>,
    staging: StagingWorld<E>,
    request: PutRequestView,
    target: BranchTargetView,
    payload: Seq<u8>,
    commit: Seq<char>,
) -> bool {
    &&& !is_form(request.content_type)
    &&& valid_utf8(payload)
    &&& stands_for(world.resource, target.branch, target.commit, target.path)
    &&& exists|raw: RawRequestView|
        world.payload == Ok::<_, HttpErrorView<E>>(#[trigger] raw_form(raw, decode_utf8(payload)))
    &&& put_done(world, staging, request, commit)
}

/// Whether a removal was answered with a commit.
pub open spec fn deleted<E>(
    world: DeleteWorld<E>,
    based_on: Option<Seq<u8>>,
    commit: Seq<char>,
) -> bool {
    delete_run(world, based_on).last() matches DeleteActionView::Answer(Ok(response))
        && response.commit == commit
}

/// Whether a request was a move from one path of a branch and commit to another, and was
/// answered with a commit.
pub open spec fn moved<E>(
    world: MoveWorld<E>,
    from: BranchTargetView,
    to: Seq<char>,
    commit: Seq<char>,
) -> bool {
    &&& stands_for(world.resource, from.branch, from.commit, from.path)
    &&& world.body matches Ok(body) && (world.normalized)(body.new_path) == Ok::<Seq<char>, E>(to)
    &&& mv_run(world).last() matches MoveActionView::Answer(Ok(response)) && response.commit
        == commit
}

/// The files with those of an upload from `i` on written over them, in order.
pub open spec fn with_uploads(
    files: Files,
    target: UploadTargetView,
    uploads: Seq<FileNewView>,
    i: int,
) -> Files
    decreases uploads.len() - i,
{
    if i < 0 || i >= uploads.len() {
        files
    } else {
        with_uploads(
            files.insert(
                destination(target, uploads[i].path),
                written_bytes(uploads[i].contents),
            ),
            target,
            uploads,
            i + 1,
        )
    }
}

proof fn lemma_upload_is_kept(
    files: Files,
    target: UploadTargetView,
    uploads: Seq<FileNewView>,
    i: int,
    path: Seq<char>,
)
    requires
        0 <= i <= uploads.len(),
        files.contains_key(path),
        forall|j: int|
            i <= j < uploads.len() ==> destination(target, (#[trigger] uploads[j]).path) != path,
    ensures
        with_uploads(files, target, uploads, i).contains_key(path),
        with_uploads(files, target, uploads, i)[path] == files[path],
    decreases uploads.len() - i,
{
    if i < uploads.len() {
        assert(destination(target, uploads[i].path) != path);
        lemma_upload_is_kept(
            files.insert(
                destination(target, uploads[i].path),
                written_bytes(uploads[i].contents),
            ),
            target,
            uploads,
            i + 1,
            path,
        );
    }
}

proof fn lemma_upload_is_there(
    files: Files,
    target: UploadTargetView,
    uploads: Seq<FileNewView>,
    i: int,
    k: int,
)
    requires
        0 <= i <= k < uploads.len(),
        forall|j: int|
            k < j < uploads.len() ==> destination(target, (#[trigger] uploads[j]).path)
                != destination(target, uploads[k].path),
    ensures
        with_uploads(files, target, uploads, i).contains_key(destination(target, uploads[k].path)),
        with_uploads(files, target, uploads, i)[destination(target, uploads[k].path)]
            == written_bytes(uploads[k].contents),
    decreases k - i,
{
    let next = files.insert(
        destination(target, uploads[i].path),
        written_bytes(uploads[i].contents),
    );
    if i < k {
        lemma_upload_is_there(next, target, uploads, i + 1, k);
    } else {
        lemma_upload_is_kept(next, target, uploads, i + 1, destination(target, uploads[k].path));
    }
}

proof fn lemma_staged_from<E>(
    world: StagingWorld<E>,
    workspace: WorkspaceView,
    target: UploadTargetView,
    files: Seq<FileNewView>,
    i: int,
)
    requires
        0 <= i < files.len(),
        staging_plan(world, target, files, i).last() matches StagingActionView::Finish(Ok(_)),
    ensures
        staging_workspace(
            world,
            workspace,
            (StagingStateView { target, files, next: i, phase: StagingPhase::Parent }),
            StagingEvent::Parent((world.parent)(i)),
        ).staged == with_uploads(workspace.staged, target, files, i),
    decreases files.len() - i,
{
    let path = destination(target, files[i].path);
    let bytes = written_bytes(files[i].contents);
    let disk = workspace.disk.insert(path, bytes);
    let next = WorkspaceView { disk, staged: workspace.staged.insert(path, bytes) };
    let rest = staging_plan(world, target, files, i + 1);
    let plan = staging_plan(world, target, files, i);
    assert(rest.len() > 0);
    assert(plan.last() == rest.last());
    if i + 1 < files.len() {
        lemma_staged_from(world, next, target, files, i + 1);
    }
    let state = StagingStateView { target, files, next: i, phase: StagingPhase::Parent };
    let making = StagingStateView { phase: StagingPhase::Directory, ..state };
    let writing = StagingStateView { phase: StagingPhase::Written, ..state };
    let staging = StagingStateView { phase: StagingPhase::Staged, ..state };
    let written = WorkspaceView { disk, ..workspace };
    let after_staged = staging_workspace(
        world,
        next,
        staging,
        StagingEvent::Staged((world.staged)(i)),
    );
    assert(after_staged.staged == with_uploads(next.staged, target, files, i + 1));
    assert(next.staged == written.staged.insert(path, written.disk[path]));
    let after_written = staging_workspace(
        world,
        written,
        writing,
        StagingEvent::Written((world.written)(i)),
    );
    assert(after_written == after_staged);
    if (world.parent)(i) is Missing {
        let after_made = staging_workspace(
            world,
            workspace,
            making,
            StagingEvent::DirectoryMade((world.made)(i)),
        );
        assert(after_made == after_written);
    }
}

proof fn lemma_uploads_staged<E>(
    world: StagingWorld<E>,
    workspace: WorkspaceView,
    target: UploadTargetView,
    files: Seq<FileNewView>,
)
    requires
        staging_actions(world, staging_start(target, files), StagingEvent::Begin).last() matches
            StagingActionView::Finish(Ok(_)),
    ensures
        staging_workspace(world, workspace, staging_start(target, files), StagingEvent::Begin).staged
            == with_uploads(workspace.staged, target, files, 0),
{
    law_staging_follows_the_plan(world, target, files);
    reveal_with_fuel(staging_workspace, 2);
    if files.len() > 0 {
        lemma_staged_from(world, workspace, target, files, 0);
    }
}

/// An upload that was answered with a commit has added that commit, with the uploaded files
/// written over those of the commit that the URL names, and has made it the head of the branch
/// that the URL names. All other commits and branches are as they were.
pub proof fn law_put_commits_the_uploads<E>(
    world: PutWorld<E>,
    staging: StagingWorld<E>,
    repository: RepositoryView,
    request: PutRequestView,
    commit: Seq<char>,
)
    requires
        put_done(world, staging, request, commit),
    ensures
        put_granted(world, request) matches Ok(Some(grant)) && {
            let after = after_put(world, staging, repository, request);
            let uploads = attributed(grant.form.files, grant.author);
            &&& after.commits == repository.commits.insert(
                commit,
                with_uploads(repository.commits[grant.target.commit], grant.upload, uploads, 0),
            )
            &&& after.branches == repository.branches.insert(grant.target.branch, commit)
        },
{
    law_put_checks_before_it_changes(world, request);
    let grant = put_granted(world, request)->Ok_0->0;
    let uploads = attributed(grant.form.files, grant.author);
    assert((world.added)(grant.upload, uploads) is Ok);
    lemma_uploads_staged(
        staging,
        repository.checked_out(grant.target.commit).workspace,
        grant.upload,
        uploads,
    );
    reveal_with_fuel(put_outcome, 9);
}

proof fn lemma_put_raw<E>(
    world: PutWorld<E>,
    staging: StagingWorld<E>,
    repository: RepositoryView,
    request: PutRequestView,
    target: BranchTargetView,
    payload: Seq<u8>,
    commit: Seq<char>,
)
    requires
        put_raw(world, staging, request, target, payload, commit),
    ensures
        ({
            let after = after_put(world, staging, repository, request);
            &&& after.commits == repository.commits.insert(
                commit,
                repository.commits[target.commit].insert(target.path, payload),
            )
            &&& after.branches == repository.branches.insert(target.branch, commit)
        }),
{
    law_put_commits_the_uploads(world, staging, repository, request, commit);
    decode_utf8_encode_utf8(payload);
    reveal_with_fuel(with_uploads, 2);
}

/// A file that is uploaded in a form to a directory of a branch is got under its name in that
/// directory, byte for byte, unless a later file of the form has taken its place.
pub proof fn law_get_gives_back_what_a_form_put<E>(
    world: PutWorld<E>,
    staging: StagingWorld<E>,
    repository: RepositoryView,
    request: PutRequestView,
    target: BranchTargetView,
    form: UploadFormView,
    k: int,
    commit: Seq<char>,
    later: GetWorld<E>,
    contents: spec_fn(Seq<char>) -> Seq<u8>,
    params: FileQueryParams,
)
    requires
        is_form(request.content_type),
        world.form == Ok::<UploadFormView, HttpErrorView<E>>(form),
        stands_for(world.resource, target.branch, target.commit, target.path),
        (world.node)(target.commit, target.path) matches Ok(node) && (node matches Some(found)
            ==> !found.is_file),
        put_done(world, staging, request, commit),
        0 <= k < form.files.len(),
        forall|j: int|
            k < j < form.files.len() ==> path_joined(target.path, (#[trigger] form.files[j]).path)
                != path_joined(target.path, form.files[k].path),
        get_shows(later, contents, after_put(world, staging, repository, request)),
        later.resource matches Ok(resource) && resource.workspace is None && resource.commit
            == Some(after_put(world, staging, repository, request).branches[target.branch])
            && resource.path == path_joined(target.path, form.files[k].path),
        params.width is None && params.height is None && params.thumbnail != Some(true),
    ensures
        ({
            let run = get_run(later, params);
            &&& run.last() matches GetActionView::Answer(Ok(_))
            &&& run.len() >= 2
            &&& run[run.len() - 2] matches GetActionView::StreamVersion { hash } && contents(hash)
                == written_bytes(form.files[k].contents)
        }),
{
    law_put_commits_the_uploads(world, staging, repository, request, commit);
    let grant = put_granted(world, request)->Ok_0->0;
    let uploads = attributed(form.files, grant.author);
    assert forall|j: int| k < j < uploads.len() implies destination(
        grant.upload,
        (#[trigger] uploads[j]).path,
    ) != destination(grant.upload, uploads[k].path) by {
        assert(uploads[j].path == form.files[j].path);
    }
    lemma_upload_is_there(repository.commits[target.commit], grant.upload, uploads, 0, k);
    law_get_answers_with_the_requested_file(later, params);
}

/// What is put is got: after an upload of a raw payload to a path of a branch, a download of
/// that path from the head of the branch streams the bytes of the payload.
pub proof fn law_get_gives_back_what_was_put<E>(
    world: PutWorld<E>,
    staging: StagingWorld<E>,
    repository: RepositoryView,
    request: PutRequestView,
    target: BranchTargetView,
    payload: Seq<u8>,
    commit: Seq<char>,
    later: GetWorld<E>,
    contents: spec_fn(Seq<char>) -> Seq<u8>,
    params: FileQueryParams,
)
    requires
        put_raw(world, staging, request, target, payload, commit),
        get_shows(later, contents, after_put(world, staging, repository, request)),
        later.resource matches Ok(resource) && resource.workspace is None && resource.commit
            == Some(after_put(world, staging, repository, request).branches[target.branch])
            && resource.path == target.path,
        params.width is None && params.height is None && params.thumbnail != Some(true),
    ensures
        ({
            let run = get_run(later, params);
            &&& run.last() matches GetActionView::Answer(Ok(_))
            &&& run.len() >= 2
            &&& run[run.len() - 2] matches GetActionView::StreamVersion { hash } && contents(hash)
                == payload
        }),
{
    lemma_put_raw(world, staging, repository, request, target, payload, commit);
    law_get_answers_with_the_requested_file(later, params);
}

/// A removal undoes an upload: where nothing was at the path before, the files are again what
/// they were before the upload. A second removal finds nothing and changes nothing.
pub proof fn law_delete_undoes_put<E>(
    world: PutWorld<E>,
    staging: StagingWorld<E>,
    repository: RepositoryView,
    request: PutRequestView,
    target: BranchTargetView,
    payload: Seq<u8>,
    uploaded: Seq<char>,
    first: DeleteWorld<E>,
    first_based_on: Option<Seq<u8>>,
    removed: Seq<char>,
    second: DeleteWorld<E>,
    second_based_on: Option<Seq<u8>>,
)
    requires
        put_raw(world, staging, request, target, payload, uploaded),
        !repository.commits[target.commit].contains_key(target.path),
        !is_directory(repository.commits[target.commit], target.path),
        stands_for(first.resource, target.branch, uploaded, target.path),
        deleted(first, first_based_on, removed),
        stands_for(second.resource, target.branch, removed, target.path),
        shows_nodes(
            second.node,
            after_delete(first, after_put(world, staging, repository, request), first_based_on),
        ),
    ensures
        ({
            let after = after_delete(
                first,
                after_put(world, staging, repository, request),
                first_based_on,
            );
            &&& after.commits[removed] == repository.commits[target.commit]
            &&& after.branches[target.branch] == removed
            &&& delete_run(second, second_based_on).last() == DeleteActionView::<E>::Answer(
                Err(HttpErrorView::NotFound),
            )
            &&& after_delete(second, after, second_based_on) == after
        }),
{
    lemma_put_raw(world, staging, repository, request, target, payload, uploaded);
    law_delete_checks_before_it_changes(first, first_based_on);
    law_delete_checks_before_it_changes(second, second_based_on);
    reveal_with_fuel(delete_outcome, 7);
    let files = repository.commits[target.commit];
    assert(files.insert(target.path, payload).remove(target.path) =~= files);
}

/// Moving a file there and back restores the files: each path holds again what it held, and
/// nothing is left at the other path.
pub proof fn law_moving_back_restores_the_files<E>(
    there: MoveWorld<E>,
    back: MoveWorld<E>,
    repository: RepositoryView,
    from: BranchTargetView,
    to: Seq<char>,
    moved_there: Seq<char>,
    moved_back: Seq<char>,
)
    requires
        repository.commits.contains_key(from.commit),
        mv_shows(there, repository),
        moved(there, from, to, moved_there),
        moved(
            back,
            (BranchTargetView { branch: from.branch, commit: moved_there, path: to }),
            from.path,
            moved_back,
        ),
    ensures
        ({
            let after = after_mv(back, after_mv(there, repository));
            &&& after.commits[moved_back] == repository.commits[from.commit]
            &&& !after.commits[moved_back].contains_key(to)
            &&& after.branches[from.branch] == moved_back
        }),
{
    law_mv_checks_before_it_changes(there);
    law_mv_checks_before_it_changes(back);
    reveal_with_fuel(mv_outcome, 9);
    let files = repository.commits[from.commit];
    let bytes = files[from.path];
    assert(files.contains_key(from.path));
    assert(!files.contains_key(to));
    assert(files.remove(from.path).insert(to, bytes).remove(to).insert(from.path, bytes) =~= files);
}

/// An upload that is answered with an error leaves the commits and the branches as they are.
pub proof fn law_failed_put_keeps_the_history<E>(
    world: PutWorld<E>,
    staging: StagingWorld<E>,
    repository: RepositoryView,
    request: PutRequestView,
)
    requires
        put_run(world, request).last() matches PutActionView::Answer(Err(_)),
    ensures
        same_history(after_put(world, staging, repository, request), repository),
{
    law_put_checks_before_it_changes(world, request);
    reveal_with_fuel(put_outcome, 9);
}

/// A removal that is answered with an error leaves the commits and the branches as they are.
pub proof fn law_failed_delete_keeps_the_history<E>(
    world: DeleteWorld<E>,
    repository: RepositoryView,
    based_on: Option<Seq<u8>>,
)
    requires
        delete_run(world, based_on).last() matches DeleteActionView::Answer(Err(_)),
    ensures
        same_history(after_delete(world, repository, based_on), repository),
{
    law_delete_checks_before_it_changes(world, based_on);
    reveal_with_fuel(delete_outcome, 7);
}

/// A move that is answered with an error leaves the commits and the branches as they are.
pub proof fn law_failed_mv_keeps_the_history<E>(world: MoveWorld<E>, repository: RepositoryView)
    requires
        mv_run(world).last() matches MoveActionView::Answer(Err(_)),
    ensures
        same_history(after_mv(world, repository), repository),
{
    law_mv_checks_before_it_changes(world);
    reveal_with_fuel(mv_outcome, 9);
}

/// An import that was answered with a commit has added that commit, with the fetched file
/// written over the files of the commit that the URL names, and has made it the head of the
/// branch that the URL names. All other commits and branches are as they were.
pub proof fn law_import_commits_the_fetched_file<E>(
    world: ImportWorld<E>,
    fetched: spec_fn(Seq<char>, Seq<char>) -> Seq<u8>,
    repository: RepositoryView,
    order: ImportOrderView,
    commit: Seq<char>,
)
    requires
        import_run(world, order).last() matches ImportActionView::Answer(Ok(response))
            && response.commit == commit,
    ensures
        import_granted(world, order) matches Ok((target, filename)) && {
            let after = after_import(world, fetched, repository, order);
            &&& after.commits == repository.commits.insert(
                commit,
                repository.commits[target.commit].insert(
                    path_joined(target.path, filename),
                    fetched(order.download_url, order.auth),
                ),
            )
            &&& after.branches == repository.branches.insert(target.branch, commit)
        },
{
    reveal_with_fuel(import_actions, 6);
    reveal_with_fuel(import_outcome, 6);
}

/// An import that is answered with an error leaves the commits and the branches as they are.
pub proof fn law_failed_import_keeps_the_history<E>(
    world: ImportWorld<E>,
    fetched: spec_fn(Seq<char>, Seq<char>) -> Seq<u8>,
    repository: RepositoryView,
    order: ImportOrderView,
)
    requires
        import_run(world, order).last() matches ImportActionView::Answer(Err(_)),
    ensures
        same_history(after_import(world, fetched, repository, order), repository),
{
    reveal_with_fuel(import_actions, 6);
    reveal_with_fuel(import_outcome, 6);
}

/// A first upload that was answered with a commit has added that commit, with the uploaded
/// files and no others, and has put the branch that the URL names on it. Nothing was staged
/// in the repository before.
pub proof fn law_initial_put_commits_the_uploads<E>(
    world: InitialPutWorld<E>,
    staging: StagingWorld<E>,
    repository: RepositoryView,
    request: InitialPutRequestView,
    commit: Seq<char>,
)
    requires
        adds_by_staging(world.added, staging),
        repository.workspace.staged == Files::empty(),
        initial_put_run(world, request).last() matches InitialPutActionView::Answer(Ok(response))
            && response.commit == commit,
    ensures
        initial_put_granted(world, request) matches Ok((form, author)) && {
            let after = after_initial_put(world, staging, repository, request);
            let target = upload_target(request.content_type, initial_path(request.resource), false);
            let uploads = attributed(form.files, author);
            &&& after.commits == repository.commits.insert(
                commit,
                with_uploads(Files::empty(), target, uploads, 0),
            )
            &&& after.branches == repository.branches.insert(
                initial_branch(request.resource),
                commit,
            )
        },
{
    reveal_with_fuel(initial_put_actions, 6);
    let (form, author) = initial_put_granted(world, request)->Ok_0;
    let target = upload_target(request.content_type, initial_path(request.resource), false);
    let uploads = attributed(form.files, author);
    assert((world.added)(target, uploads) is Ok);
    lemma_uploads_staged(staging, repository.workspace, target, uploads);
    reveal_with_fuel(initial_put_outcome, 6);
}

/// A first upload that is refused by one of its checks leaves the repository as it is.
pub proof fn law_refused_initial_put_changes_nothing<E>(
    world: InitialPutWorld<E>,
    staging: StagingWorld<E>,
    repository: RepositoryView,
    request: InitialPutRequestView,
)
    requires
        initial_put_granted(world, request) is Err,
    ensures
        after_initial_put(world, staging, repository, request) == repository,
{
    reveal_with_fuel(initial_put_outcome, 6);
}

} // verus!
