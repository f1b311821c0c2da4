//! Writing uploaded files and staging them.

use vstd::prelude::*;
use vstd::string::StrSliceExecFns;
use vstd::utf8::encode_utf8;

use crate::model::{FileContents, FileContentsView, FileNew, FileNewView};
use crate::text::{join_path, last_segment, lemma_last_segment_of_joined, path_joined};
use crate::upload::{UploadTarget, UploadTargetView};

verus! {

/// The path that an uploaded file is written to, seen from the root of the workspace or
/// repository.
pub open spec fn destination(target: UploadTargetView, name: Seq<char>) -> Seq<char> {
    match target {
        UploadTargetView::File(path) => path,
        UploadTargetView::Directory(path) => path_joined(path, name),
    }
}

/// Decides where an uploaded file is written to.
pub fn choose_destination(target: &UploadTarget, name: &str) -> (path: String)
    ensures
        path@ == destination(target.deep_view(), name@),
{
    match target {
        UploadTarget::File(path) => path.clone(),
        UploadTarget::Directory(path) => join_path(path.as_str(), name),
    }
}

/// The bytes that an uploaded file is written with.
pub open spec fn written_bytes(contents: FileContentsView) -> Seq<u8> {
    match contents {
        FileContentsView::Text(text) => encode_utf8(text),
        FileContentsView::Binary(bytes) => bytes,
    }
}

/// The bytes of an uploaded file.
pub fn bytes_to_write(contents: &FileContents) -> (bytes: Vec<u8>)
    ensures
        bytes@ == written_bytes(contents.deep_view()),
{
    match contents {
        FileContents::Text(text) => text.as_str().as_bytes_vec(),
        FileContents::Binary(bytes) => bytes.clone(),
    }
}

/// What the staging of a file waits for.
#[derive(Debug, PartialEq, Eq)]
pub enum StagingPhase {
    /// For the order to begin.
    Ready,
    /// Whether the directory of the file is there.
    Parent,
    /// That the directory is made.
    Directory,
    /// That the file is written.
    Written,
    /// That the file is staged.
    Staged,
    /// For nothing more.
    Done,
}

/// How far the staging of files has come: those before `next` are done.
#[derive(Debug, PartialEq, Eq)]
pub struct StagingState {
    pub target: UploadTarget,
    pub files: Vec<FileNew>,
    pub next: usize,
    pub phase: StagingPhase,
}

/// The model of a `StagingState`.
pub struct StagingStateView {
    pub target: UploadTargetView,
    pub files: Seq<FileNewView>,
    pub next: int,
    pub phase: StagingPhase,
}

impl DeepView for StagingState {
    type V = StagingStateView;

    open spec fn deep_view(&self) -> StagingStateView {
        StagingStateView {
            target: self.target.deep_view(),
            files: self.files.deep_view(),
            next: self.next as int,
            phase: self.phase,
        }
    }
}

impl StagingState {
    /// The staging of files that has not begun.
    pub fn new(target: UploadTarget, files: Vec<FileNew>) -> (state: StagingState)
        ensures
            state.deep_view() == staging_start(target.deep_view(), files.deep_view()),
    {
        StagingState { target, files, next: 0, phase: StagingPhase::Ready }
    }
}

/// The staging of files that has not begun.
pub open spec fn staging_start(
    target: UploadTargetView,
    files: Seq<FileNewView>,
) -> StagingStateView {
    StagingStateView { target, files, next: 0, phase: StagingPhase::Ready }
}

/// The directory that a path is in.
#[derive(Debug, PartialEq, Eq)]
pub enum ParentDirectory {
    /// The path has none.
    NoParent,
    Present,
    Missing,
}

/// What the staging of files is told.
#[derive(Debug, PartialEq, Eq)]
pub enum StagingEvent<E> {
    Begin,
    Parent(ParentDirectory),
    DirectoryMade(Result<(), E>),
    Written(Result<(), E>),
    Staged(Result<(), E>),
}

/// What the staging of files asks for next; `Finish` ends it. Paths are seen from the root of
/// the workspace or repository.
#[derive(Debug, PartialEq, Eq)]
pub enum StagingAction<E> {
    /// Find out whether the directory of the path is there.
    CheckParent { path: String },
    /// Make the directory of the path.
    CreateParent { path: String },
    Write { path: String, bytes: Vec<u8> },
    Stage { path: String },
    Finish(Result<(), E>),
}

/// The model of a `StagingAction`.
pub enum StagingActionView<E> {
    CheckParent { path: Seq<char> },
    CreateParent { path: Seq<char> },
    Write { path: Seq<char>, bytes: Seq<u8> },
    Stage { path: Seq<char> },
    Finish(Result<(), E>),
}

impl<E> DeepView for StagingAction<E> {
    type V = StagingActionView<E>;

    open spec fn deep_view(&self) -> StagingActionView<E> {
        match self {
            StagingAction::CheckParent { path } => StagingActionView::CheckParent { path: path@ },
            StagingAction::CreateParent { path } => StagingActionView::CreateParent {
                path: path@,
            },
            StagingAction::Write { path, bytes } => StagingActionView::Write {
                path: path@,
                bytes: bytes@,
            },
            StagingAction::Stage { path } => StagingActionView::Stage { path: path@ },
            StagingAction::Finish(result) => StagingActionView::Finish(*result),
        }
    }
}

/// Whether an event can follow in a state: it is the one that the last action asked for, and
/// there is a file that it is about.
pub open spec fn staging_expects<E>(state: StagingStateView, event: StagingEvent<E>) -> bool {
    match state.phase {
        StagingPhase::Ready => event is Begin && 0 <= state.next <= state.files.len(),
        StagingPhase::Parent => event is Parent && 0 <= state.next < state.files.len(),
        StagingPhase::Directory => event is DirectoryMade && 0 <= state.next < state.files.len(),
        StagingPhase::Written => event is Written && 0 <= state.next < state.files.len(),
        StagingPhase::Staged => event is Staged && 0 <= state.next < state.files.len(),
        StagingPhase::Done => false,
    }
}

/// The path of the file that is next.
pub open spec fn staging_path(state: StagingStateView) -> Seq<char> {
    destination(state.target, state.files[state.next].path)
}

/// The files from `next` on are to be staged.
pub open spec fn staging_continue<E>(state: StagingStateView) -> (
    StagingStateView,
    StagingActionView<E>,
) {
    if state.next >= state.files.len() {
        (
            StagingStateView { phase: StagingPhase::Done, ..state },
            StagingActionView::Finish(Ok(())),
        )
    } else {
        (
            StagingStateView { phase: StagingPhase::Parent, ..state },
            StagingActionView::CheckParent { path: staging_path(state) },
        )
    }
}

/// The file that is next is to be written.
pub open spec fn staging_write<E>(state: StagingStateView) -> (
    StagingStateView,
    StagingActionView<E>,
) {
    (
        StagingStateView { phase: StagingPhase::Written, ..state },
        StagingActionView::Write {
            path: staging_path(state),
            bytes: written_bytes(state.files[state.next].contents),
        },
    )
}

/// The staging is over, with an error.
pub open spec fn staging_failed<E>(state: StagingStateView, error: E) -> (
    StagingStateView,
    StagingActionView<E>,
) {
    (
        StagingStateView { phase: StagingPhase::Done, ..state },
        StagingActionView::Finish(Err(error)),
    )
}

/// What the staging of files does on an event.
pub open spec fn staging_step<E>(state: StagingStateView, event: StagingEvent<E>) -> (
    StagingStateView,
    StagingActionView<E>,
) {
    match (state.phase, event) {
        (StagingPhase::Ready, StagingEvent::Begin) => staging_continue(state),
        (StagingPhase::Parent, StagingEvent::Parent(parent)) => match parent {
            ParentDirectory::Missing => (
                StagingStateView { phase: StagingPhase::Directory, ..state },
                StagingActionView::CreateParent { path: staging_path(state) },
            ),
            _ => staging_write(state),
        },
        (StagingPhase::Directory, StagingEvent::DirectoryMade(made)) => match made {
            Err(error) => staging_failed(state, error),
            Ok(_) => staging_write(state),
        },
        (StagingPhase::Written, StagingEvent::Written(written)) => match written {
            Err(error) => staging_failed(state, error),
            Ok(_) => (
                StagingStateView { phase: StagingPhase::Staged, ..state },
                StagingActionView::Stage { path: staging_path(state) },
            ),
        },
        (StagingPhase::Staged, StagingEvent::Staged(staged)) => match staged {
            Err(error) => staging_failed(state, error),
            Ok(_) => staging_continue(StagingStateView { next: state.next + 1, ..state }),
        },
        _ => arbitrary(),
    }
}

fn finish<E>(state: StagingState, result: Result<(), E>) -> (step: (StagingState, StagingAction<E>))
    ensures
        (step.0.deep_view(), step.1.deep_view()) == (
            StagingStateView { phase: StagingPhase::Done, ..state.deep_view() },
            StagingActionView::Finish(result),
        ),
{
    let mut state = state;
    state.phase = StagingPhase::Done;
    (state, StagingAction::Finish(result))
}

fn next_path(state: &StagingState) -> (path: String)
    requires
        state.next < state.files.len(),
    ensures
        path@ == staging_path(state.deep_view()),
{
    let file = &state.files[state.next];
    assert(state.deep_view().files[state.next as int] == file.deep_view());
    choose_destination(&state.target, file.path.as_str())
}

fn take_up<E>(state: StagingState) -> (step: (StagingState, StagingAction<E>))
    requires
        state.next <= state.files.len(),
    ensures
        (step.0.deep_view(), step.1.deep_view()) == staging_continue::<E>(state.deep_view()),
{
    assert(state.files.deep_view().len() == state.files.len());
    if state.next >= state.files.len() {
        return finish(state, Ok(()));
    }
    let path = next_path(&state);
    let mut state = state;
    state.phase = StagingPhase::Parent;
    (state, StagingAction::CheckParent { path })
}

fn write_out<E>(state: StagingState) -> (step: (StagingState, StagingAction<E>))
    requires
        state.next < state.files.len(),
    ensures
        (step.0.deep_view(), step.1.deep_view()) == staging_write::<E>(state.deep_view()),
{
    let path = next_path(&state);
    let bytes = bytes_to_write(&state.files[state.next].contents);
    assert(state.deep_view().files[state.next as int] == state.files[state.next as int].deep_view());
    let mut state = state;
    state.phase = StagingPhase::Written;
    (state, StagingAction::Write { path, bytes })
}

/// Writes the uploaded files and stages them: takes the staging one event further.
pub fn process_and_add_files<E>(state: StagingState, event: StagingEvent<E>) -> (step: (
    StagingState,
    StagingAction<E>,
))
    requires
        staging_expects(state.deep_view(), event),
    ensures
        (step.0.deep_view(), step.1.deep_view()) == staging_step(state.deep_view(), event),
{
    assert(state.files.deep_view().len() == state.files.len());
    match event {
        StagingEvent::Begin => take_up(state),
        StagingEvent::Parent(parent) => match parent {
            ParentDirectory::Missing => {
                let path = next_path(&state);
                let mut state = state;
                state.phase = StagingPhase::Directory;
                (state, StagingAction::CreateParent { path })
            },
            _ => write_out(state),
        },
        StagingEvent::DirectoryMade(made) => match made {
            Err(error) => finish(state, Err(error)),
            Ok(_) => write_out(state),
        },
        StagingEvent::Written(written) => match written {
            Err(error) => finish(state, Err(error)),
            Ok(_) => {
                let path = next_path(&state);
                let mut state = state;
                state.phase = StagingPhase::Staged;
                (state, StagingAction::Stage { path })
            },
        },
        StagingEvent::Staged(staged) => match staged {
            Err(error) => finish(state, Err(error)),
            Ok(_) => {
                let mut state = state;
                state.next = state.next + 1;
                take_up(state)
            },
        },
    }
}

/// What the file system and the repository do while files are staged: by the number of the
/// file that it happens at.
pub struct StagingWorld<E> {
    pub parent: spec_fn(int) -> ParentDirectory,
    pub made: spec_fn(int) -> Result<(), E>,
    pub written: spec_fn(int) -> Result<(), E>,
    pub staged: spec_fn(int) -> Result<(), E>,
}

/// The event that reports what came of an action at file `i`.
pub open spec fn staging_report<E>(
    world: StagingWorld<E>,
    i: int,
    action: StagingActionView<E>,
) -> StagingEvent<E> {
    match action {
        StagingActionView::CheckParent { .. } => StagingEvent::Parent((world.parent)(i)),
        StagingActionView::CreateParent { .. } => StagingEvent::DirectoryMade((world.made)(i)),
        StagingActionView::Write { .. } => StagingEvent::Written((world.written)(i)),
        StagingActionView::Stage { .. } => StagingEvent::Staged((world.staged)(i)),
        StagingActionView::Finish(_) => arbitrary(),
    }
}

/// How many events the staging of the current file can still take.
pub open spec fn staging_rank(phase: StagingPhase) -> nat {
    match phase {
        StagingPhase::Ready => 5,
        StagingPhase::Parent => 4,
        StagingPhase::Directory => 3,
        StagingPhase::Written => 2,
        StagingPhase::Staged => 1,
        StagingPhase::Done => 0,
    }
}

/// All that the staging of files asks for from `state` on, in order, when `event` comes
/// first. It stops short where an event comes that the state does not expect.
pub open spec fn staging_actions<E>(
    world: StagingWorld<E>,
    state: StagingStateView,
    event: StagingEvent<E>,
) -> Seq<StagingActionView<E>>
    decreases state.files.len() - state.next, staging_rank(state.phase),
{
    if !staging_expects(state, event) {
        Seq::empty()
    } else {
        let (next, action) = staging_step(state, event);
        if action is Finish {
            seq![action]
        } else {
            seq![action] + staging_actions(
                world,
                next,
                staging_report(world, next.next, action),
            )
        }
    }
}

/// All that is to be done for the files from `i` on: for each its directory is seen to, it is
/// written with its own bytes to its own destination, and it is staged. The first thing that
/// fails ends it.
pub open spec fn staging_plan<E>(
    world: StagingWorld<E>,
    target: UploadTargetView,
    files: Seq<FileNewView>,
    i: int,
) -> Seq<StagingActionView<E>>
    decreases files.len() - i,
{
    if i < 0 || i >= files.len() {
        seq![StagingActionView::Finish(Ok(()))]
    } else {
        let path = destination(target, files[i].path);
        let check = seq![StagingActionView::CheckParent { path }];
        let prepare = if (world.parent)(i) is Missing {
            check.push(StagingActionView::CreateParent { path })
        } else {
            check
        };
        let write = prepare.push(
            StagingActionView::Write { path, bytes: written_bytes(files[i].contents) },
        );
        let stage = write.push(StagingActionView::Stage { path });
        match ((world.parent)(i), (world.made)(i), (world.written)(i), (world.staged)(i)) {
            (ParentDirectory::Missing, Err(error), _, _) => prepare.push(
                StagingActionView::Finish(Err(error)),
            ),
            (_, _, Err(error), _) => write.push(StagingActionView::Finish(Err(error))),
            (_, _, _, Err(error)) => stage.push(StagingActionView::Finish(Err(error))),
            _ => stage + staging_plan(world, target, files, i + 1),
        }
    }
}

proof fn lemma_staging_from<E>(
    world: StagingWorld<E>,
    target: UploadTargetView,
    files: Seq<FileNewView>,
    i: int,
)
    requires
        0 <= i < files.len(),
    ensures
        ({
            let state = StagingStateView { target, files, next: i, phase: StagingPhase::Parent };
            seq![StagingActionView::<E>::CheckParent { path: staging_path(state) }]
                + staging_actions(world, state, StagingEvent::Parent((world.parent)(i)))
                == staging_plan(world, target, files, i)
        }),
    decreases files.len() - i,
{
    let path = destination(target, files[i].path);
    let state = StagingStateView { target, files, next: i, phase: StagingPhase::Parent };
    let making = StagingStateView { phase: StagingPhase::Directory, ..state };
    let writing = StagingStateView { phase: StagingPhase::Written, ..state };
    let staging = StagingStateView { phase: StagingPhase::Staged, ..state };
    let write = StagingActionView::<E>::Write { path, bytes: written_bytes(files[i].contents) };
    if i + 1 < files.len() {
        lemma_staging_from(world, target, files, i + 1);
    }
    let after_staged = staging_actions(world, staging, StagingEvent::Staged((world.staged)(i)));
    assert(after_staged == match (world.staged)(i) {
        Err(error) => seq![StagingActionView::Finish(Err(error))],
        Ok(_) => staging_plan(world, target, files, i + 1),
    });
    let after_written = staging_actions(world, writing, StagingEvent::Written((world.written)(i)));
    assert(after_written == match (world.written)(i) {
        Err(error) => seq![StagingActionView::Finish(Err(error))],
        Ok(_) => seq![StagingActionView::Stage { path }] + after_staged,
    });
    let after_made = staging_actions(world, making, StagingEvent::DirectoryMade((world.made)(i)));
    assert(after_made == match (world.made)(i) {
        Err(error) => seq![StagingActionView::Finish(Err(error))],
        Ok(_) => seq![write] + after_written,
    });
    let after_parent = staging_actions(world, state, StagingEvent::Parent((world.parent)(i)));
    assert(after_parent == match (world.parent)(i) {
        ParentDirectory::Missing => seq![StagingActionView::CreateParent { path }] + after_made,
        _ => seq![write] + after_written,
    });
    assert(seq![StagingActionView::<E>::CheckParent { path }] + after_parent =~= staging_plan(
        world,
        target,
        files,
        i,
    ));
}

/// The staging of files does what there is to do for each file, in the order of the files,
/// and nothing else; it ends at the first thing that fails, with that error.
pub proof fn law_staging_follows_the_plan<E>(
    world: StagingWorld<E>,
    target: UploadTargetView,
    files: Seq<FileNewView>,
)
    ensures
        staging_actions(world, staging_start(target, files), StagingEvent::Begin) == staging_plan(
            world,
            target,
            files,
            0,
        ),
{
    reveal_with_fuel(staging_actions, 1);
    if files.len() > 0 {
        lemma_staging_from(world, target, files, 0);
    }
}

proof fn lemma_plan_writes_to_the_file<E>(
    world: StagingWorld<E>,
    path: Seq<char>,
    files: Seq<FileNewView>,
    i: int,
)
    ensures
        forall|j: int|
            0 <= j < staging_plan(world, UploadTargetView::File(path), files, i).len() ==> (
            #[trigger] staging_plan(world, UploadTargetView::File(path), files, i)[j] matches
                StagingActionView::Write { path: written, .. } ==> written == path),
    decreases files.len() - i,
{
    if 0 <= i < files.len() {
        lemma_plan_writes_to_the_file(world, path, files, i + 1);
    }
}

/// Where the path of the upload is that of a file, nothing is written anywhere else, whatever
/// name the file was uploaded under.
pub proof fn law_upload_to_a_file_is_written_there<E>(
    world: StagingWorld<E>,
    path: Seq<char>,
    files: Seq<FileNewView>,
)
    ensures
        ({
            let run = staging_actions(
                world,
                staging_start(UploadTargetView::File(path), files),
                StagingEvent::Begin,
            );
            forall|j: int|
                0 <= j < run.len() ==> (#[trigger] run[j] matches StagingActionView::Write {
                    path: written,
                    ..
                } ==> written == path)
        }),
{
    law_staging_follows_the_plan(world, UploadTargetView::File(path), files);
    lemma_plan_writes_to_the_file(world, path, files, 0);
}

/// A file that is uploaded to a directory is written into that directory and keeps its name
/// there.
pub proof fn law_upload_to_a_directory_keeps_the_name(directory: Seq<char>, name: Seq<char>)
    requires
        !name.contains('/'),
    ensures
        last_segment(destination(UploadTargetView::Directory(directory), name)) == name,
        directory.is_prefix_of(destination(UploadTargetView::Directory(directory), name)),
{
    lemma_last_segment_of_joined(directory, name);
}

/// Files with different names do not overwrite each other in a directory.
pub proof fn law_uploads_with_different_names_do_not_collide(
    directory: Seq<char>,
    one: Seq<char>,
    other: Seq<char>,
)
    requires
        !one.contains('/'),
        !other.contains('/'),
        one != other,
    ensures
        destination(UploadTargetView::Directory(directory), one) != destination(
            UploadTargetView::Directory(directory),
            other,
        ),
{
    lemma_last_segment_of_joined(directory, one);
    lemma_last_segment_of_joined(directory, other);
}

/// Whether nothing fails while files are staged.
pub open spec fn staging_goes_well<E>(world: StagingWorld<E>) -> bool {
    forall|j: int|
        #![trigger (world.made)(j)]
        #![trigger (world.written)(j)]
        #![trigger (world.staged)(j)]
        (world.made)(j) is Ok && (world.written)(j) is Ok && (world.staged)(j) is Ok
}

proof fn lemma_plan_writes_and_stages<E>(
    world: StagingWorld<E>,
    target: UploadTargetView,
    files: Seq<FileNewView>,
    i: int,
    k: int,
)
    requires
        0 <= i <= k < files.len(),
        staging_goes_well(world),
    ensures
        staging_plan(world, target, files, i).contains(
            StagingActionView::<E>::Write {
                path: destination(target, files[k].path),
                bytes: written_bytes(files[k].contents),
            },
        ),
        staging_plan(world, target, files, i).contains(
            StagingActionView::<E>::Stage { path: destination(target, files[k].path) },
        ),
    decreases files.len() - i,
{
    let plan = staging_plan(world, target, files, i);
    let rest = staging_plan(world, target, files, i + 1);
    assert((world.made)(i) is Ok);
    let done: int = if (world.parent)(i) is Missing {
        4
    } else {
        3
    };
    assert(plan.skip(done) =~= rest);
    if i == k {
        assert(plan[done - 2] == StagingActionView::<E>::Write {
            path: destination(target, files[k].path),
            bytes: written_bytes(files[k].contents),
        });
        assert(plan[done - 1] == StagingActionView::<E>::Stage {
            path: destination(target, files[k].path),
        });
    } else {
        lemma_plan_writes_and_stages(world, target, files, i + 1, k);
        assert forall|action: StagingActionView<E>| rest.contains(action) implies plan.contains(
            action,
        ) by {
            let j = choose|j: int| 0 <= j < rest.len() && rest[j] == action;
            assert(plan[j + done] == action);
        }
    }
}

/// Where nothing fails, every uploaded file is written with its bytes to its place, and
/// staged there.
pub proof fn law_every_upload_is_written_and_staged<E>(
    world: StagingWorld<E>,
    target: UploadTargetView,
    files: Seq<FileNewView>,
    k: int,
)
    requires
        0 <= k < files.len(),
        staging_goes_well(world),
    ensures
        ({
            let run = staging_actions(world, staging_start(target, files), StagingEvent::Begin);
            let path = destination(target, files[k].path);
            &&& run.contains(
                StagingActionView::<E>::Write { path, bytes: written_bytes(files[k].contents) },
            )
            &&& run.contains(StagingActionView::<E>::Stage { path })
        }),
{
    law_staging_follows_the_plan(world, target, files);
    lemma_plan_writes_and_stages(world, target, files, 0, k);
}

} // verus!
