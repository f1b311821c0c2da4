//! Writing and staging uploaded files.

use vstd::prelude::*;
use vstd::utf8::encode_utf8;

use crate::model::{FileContentsView, FileNewView};
use crate::staging::{
    law_staging_follows_the_plan, staging_actions, staging_plan, staging_start,
    StagingActionView, StagingEvent, StagingWorld,
};
use crate::text::path_joined;
use crate::upload::UploadTargetView;

verus! {

/// All that a staging asks for.
pub open spec fn staging_run<E>(
    world: StagingWorld<E>,
    target: UploadTargetView,
    files: Seq<FileNewView>,
) -> Seq<StagingActionView<E>> {
    staging_actions(world, staging_start(target, files), StagingEvent::Begin)
}

/// Whether a file belongs at this path: the one of the URL, or its own name behind it.
pub open spec fn belongs_at(target: UploadTargetView, file: FileNewView, path: Seq<char>) -> bool {
    match target {
        UploadTargetView::File(own) => path == own,
        UploadTargetView::Directory(directory) => path == path_joined(directory, file.path),
    }
}

/// Whether a file has these bytes: those that were uploaded, or its text in UTF-8.
pub open spec fn has_bytes(file: FileNewView, bytes: Seq<u8>) -> bool {
    match file.contents {
        FileContentsView::Binary(uploaded) => bytes == uploaded,
        FileContentsView::Text(text) => bytes == encode_utf8(text),
    }
}

/// Whether nothing fails at file `i`: not the making of its directory, where that is missing,
/// nor the writing, nor the staging.
pub open spec fn goes_well_at<E>(world: StagingWorld<E>, i: int) -> bool {
    &&& (world.parent)(i) is Missing ==> (world.made)(i) is Ok
    &&& (world.written)(i) is Ok
    &&& (world.staged)(i) is Ok
}

/// How many actions the first `k` files take: three each, and one more where the directory is
/// missing.
pub open spec fn actions_before<E>(world: StagingWorld<E>, k: int) -> int
    decreases k,
{
    if k <= 0 {
        0
    } else if (world.parent)(k - 1) is Missing {
        actions_before(world, k - 1) + 4
    } else {
        actions_before(world, k - 1) + 3
    }
}

proof fn lemma_plan_from<E>(
    world: StagingWorld<E>,
    target: UploadTargetView,
    files: Seq<FileNewView>,
    k: int,
)
    requires
        0 <= k <= files.len(),
        forall|j: int| 0 <= j < k ==> #[trigger] goes_well_at(world, j),
    ensures
        0 <= actions_before(world, k) < staging_plan(world, target, files, 0).len(),
        staging_plan(world, target, files, 0).skip(actions_before(world, k)) == staging_plan(
            world,
            target,
            files,
            k,
        ),
    decreases k,
{
    let plan = staging_plan(world, target, files, 0);
    if k > 0 {
        lemma_plan_from(world, target, files, k - 1);
        assert(goes_well_at(world, k - 1));
        let before = staging_plan(world, target, files, k - 1);
        let done = actions_before(world, k) - actions_before(world, k - 1);
        let rest = staging_plan(world, target, files, k);
        lemma_plan_fits_together(world, target, files, k, 0);
        assert(before.skip(done) =~= rest);
        assert(plan.skip(actions_before(world, k - 1)).skip(done) =~= plan.skip(
            actions_before(world, k),
        ));
    } else {
        lemma_plan_fits_together(world, target, files, 0, 0);
        assert(plan.skip(0) =~= plan);
    }
}

/// What is done for file `k` once all went well with those before it: its directory is looked
/// for, and made where it is missing; its bytes are written to its place; and it is staged
/// there. Each is done only if what comes before it worked, and no file is passed over.
pub proof fn law_staging_file_by_file<E>(
    world: StagingWorld<E>,
    target: UploadTargetView,
    files: Seq<FileNewView>,
    k: int,
)
    requires
        0 <= k < files.len(),
        forall|j: int| 0 <= j < k ==> #[trigger] goes_well_at(world, j),
    ensures
        ({
            let run = staging_run(world, target, files);
            let at = actions_before(world, k);
            let missing = (world.parent)(k) is Missing;
            let write = if missing {
                at + 2
            } else {
                at + 1
            };
            let failed = |i: int, error: E|
                run.len() == i + 1 && run[i] == StagingActionView::<E>::Finish(Err(error));
            &&& 0 <= at < run.len()
            &&& run[at] matches StagingActionView::CheckParent { path } && belongs_at(
                target,
                files[k],
                path,
            )
            &&& missing ==> (run[at + 1] matches StagingActionView::CreateParent { path }
                && belongs_at(target, files[k], path))
            &&& missing && (world.made)(k) is Err ==> failed(write, (world.made)(k)->Err_0)
            &&& !missing || (world.made)(k) is Ok ==> {
                &&& run[write] matches StagingActionView::Write { path, bytes } && belongs_at(
                    target,
                    files[k],
                    path,
                ) && has_bytes(files[k], bytes)
                &&& (world.written)(k) matches Err(error) ==> failed(write + 1, error)
                &&& (world.written)(k) is Ok ==> {
                    &&& run[write + 1] matches StagingActionView::Stage { path } && belongs_at(
                        target,
                        files[k],
                        path,
                    )
                    &&& (world.staged)(k) matches Err(error) ==> failed(write + 2, error)
                    &&& (world.staged)(k) is Ok ==> run.len() > write + 2 && (run[write + 2]
                        is CheckParent || run[write + 2] is Finish)
                }
            }
        }),
{
    law_staging_follows_the_plan(world, target, files);
    lemma_plan_from(world, target, files, k);
    let plan = staging_plan(world, target, files, 0);
    let rest = staging_plan(world, target, files, k);
    let at = actions_before(world, k);
    lemma_plan_fits_together(world, target, files, k + 1, 0);
    assert(plan.len() == at + rest.len());
    assert(forall|i: int| 0 <= i < rest.len() ==> plan[at + i] == #[trigger] rest[i]) by {
        assert forall|i: int| 0 <= i < rest.len() implies plan[at + i] == #[trigger] rest[i] by {
            assert(plan.skip(at)[i] == plan[at + i]);
        }
    }
    assert(plan[at] == rest[0]);
    assert(rest.len() > 1 ==> plan[at + 1] == rest[1]);
    assert(rest.len() > 2 ==> plan[at + 2] == rest[2]);
    assert(rest.len() > 3 ==> plan[at + 3] == rest[3]);
    assert(rest.len() > 4 ==> plan[at + 4] == rest[4]);
}

/// Whether two neighbours in a run fit together at some file: a directory is made only where
/// one was looked for, a file is written only once its directory was seen to, and staged only
/// where it was written.
pub open spec fn fit_together<E>(one: StagingActionView<E>, next: StagingActionView<E>) -> bool {
    match next {
        StagingActionView::CheckParent { .. } => one is Stage,
        StagingActionView::CreateParent { path } => one == (StagingActionView::<E>::CheckParent {
            path,
        }),
        StagingActionView::Write { path, .. } => one == (StagingActionView::<E>::CheckParent {
            path,
        }) || one == (StagingActionView::<E>::CreateParent { path }),
        StagingActionView::Stage { path } => one matches StagingActionView::Write {
            path: written,
            ..
        } && written == path,
        StagingActionView::Finish(_) => !(one is CheckParent) && !(one is Finish),
    }
}

proof fn lemma_plan_fits_together<E>(
    world: StagingWorld<E>,
    target: UploadTargetView,
    files: Seq<FileNewView>,
    i: int,
    at: int,
)
    requires
        0 <= i <= files.len(),
    ensures
        ({
            let plan = staging_plan(world, target, files, i);
            &&& plan.len() > 0
            &&& plan[0] is CheckParent || plan[0] is Finish && plan.len() == 1
            &&& plan.last() is Finish
            &&& 0 <= at < plan.len() - 1 ==> fit_together(plan[at], plan[at + 1])
        }),
    decreases files.len() - i,
{
    if i < files.len() {
        let plan = staging_plan(world, target, files, i);
        let rest = staging_plan(world, target, files, i + 1);
        let done: int = if (world.parent)(i) is Missing {
            4
        } else {
            3
        };
        lemma_plan_fits_together(world, target, files, i + 1, at - done);
        if goes_well_at(world, i) {
            assert(plan.skip(done) =~= rest);
            if at >= done && at < plan.len() - 1 {
                assert(plan[at] == rest[at - done]);
                assert(plan[at + 1] == rest[at + 1 - done]);
            }
            assert(plan[done] == rest[0]);
        }
    }
}

/// Whatever happens, the actions of a staging fit together, and the last of them ends it.
pub proof fn law_staging_goes_step_by_step<E>(
    world: StagingWorld<E>,
    target: UploadTargetView,
    files: Seq<FileNewView>,
    at: int,
)
    requires
        0 <= at < staging_run(world, target, files).len() - 1,
    ensures
        fit_together(
            staging_run(world, target, files)[at],
            staging_run(world, target, files)[at + 1],
        ),
        staging_run(world, target, files).last() is Finish,
{
    law_staging_follows_the_plan(world, target, files);
    lemma_plan_fits_together(world, target, files, 0, at);
}

/// The error at the first thing that fails at file `k`.
pub open spec fn error_at<E>(world: StagingWorld<E>, k: int) -> E {
    if (world.parent)(k) is Missing && (world.made)(k) is Err {
        (world.made)(k)->Err_0
    } else if (world.written)(k) is Err {
        (world.written)(k)->Err_0
    } else {
        (world.staged)(k)->Err_0
    }
}

proof fn lemma_plan_fails<E>(
    world: StagingWorld<E>,
    target: UploadTargetView,
    files: Seq<FileNewView>,
    i: int,
    k: int,
)
    requires
        0 <= i <= k < files.len(),
        forall|j: int| 0 <= j < k ==> #[trigger] goes_well_at(world, j),
        !goes_well_at(world, k),
    ensures
        staging_plan(world, target, files, i).len() > 0,
        staging_plan(world, target, files, i).last() == StagingActionView::<E>::Finish(
            Err(error_at(world, k)),
        ),
        staging_plan(world, target, files, i) == staging_plan(world, target, files.take(k + 1), i),
    decreases k - i,
{
    assert(files.take(k + 1)[i] == files[i]);
    if i < k {
        assert(goes_well_at(world, i));
        lemma_plan_fails(world, target, files, i + 1, k);
    }
}

/// The first thing that fails ends the staging with its error, and the files behind the one
/// that it happened at make no difference.
pub proof fn law_staging_ends_at_the_first_failure<E>(
    world: StagingWorld<E>,
    target: UploadTargetView,
    files: Seq<FileNewView>,
    k: int,
)
    requires
        0 <= k < files.len(),
        forall|j: int| 0 <= j < k ==> #[trigger] goes_well_at(world, j),
        !goes_well_at(world, k),
    ensures
        staging_run(world, target, files).last() == StagingActionView::<E>::Finish(
            Err(error_at(world, k)),
        ),
        staging_run(world, target, files) == staging_run(world, target, files.take(k + 1)),
{
    law_staging_follows_the_plan(world, target, files);
    law_staging_follows_the_plan(world, target, files.take(k + 1));
    lemma_plan_fails(world, target, files, 0, k);
}

/// Without files there is nothing to do.
pub proof fn law_staging_of_nothing<E>(world: StagingWorld<E>, target: UploadTargetView)
    ensures
        staging_run(world, target, Seq::empty()) == seq![StagingActionView::<E>::Finish(Ok(()))],
{
}

proof fn lemma_plan_goes_well<E>(
    world: StagingWorld<E>,
    target: UploadTargetView,
    files: Seq<FileNewView>,
    i: int,
)
    requires
        0 <= i <= files.len(),
        forall|j: int| 0 <= j < files.len() ==> #[trigger] goes_well_at(world, j),
    ensures
        staging_plan(world, target, files, i).len() > 0,
        staging_plan(world, target, files, i).last() matches StagingActionView::Finish(Ok(_)),
    decreases files.len() - i,
{
    if i < files.len() {
        assert(goes_well_at(world, i));
        lemma_plan_goes_well(world, target, files, i + 1);
    }
}

/// Where nothing fails the staging ends well, whichever directories were missing.
pub proof fn law_staging_ends_well_where_nothing_fails<E>(
    world: StagingWorld<E>,
    target: UploadTargetView,
    files: Seq<FileNewView>,
)
    requires
        forall|j: int| 0 <= j < files.len() ==> #[trigger] goes_well_at(world, j),
    ensures
        staging_run(world, target, files).last() matches StagingActionView::Finish(Ok(_)),
{
    law_staging_follows_the_plan(world, target, files);
    lemma_plan_goes_well(world, target, files, 0);
}

} // verus!
