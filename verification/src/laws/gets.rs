//! Downloads.

use vstd::prelude::*;

use crate::get::{
    get_actions, get_run, FileEntryView, FileResponseView, GetActionView, GetWorld, StagedNodeView,
};
use crate::model::{FileQueryParams, HttpErrorView, OxenErrorView, ParsedResourceView};

verus! {

/// Whether a download finds this file: in the commit of its resource, or, where that is a
/// workspace, among what is staged, and only where nothing is staged at the path in the commit
/// that the workspace is based on.
pub open spec fn get_finds<E>(
    world: GetWorld<E>,
    resource: ParsedResourceView,
    entry: FileEntryView,
) -> bool {
    let found = Ok::<Option<FileEntryView>, E>(Some(entry));
    &&& world.resource == Ok::<ParsedResourceView, E>(resource)
    &&& match resource.workspace {
        Some(commit) => match (world.staged)(resource.path) {
            Ok(Some(StagedNodeView::File(staged))) => staged == entry,
            Ok(None) => (world.file)(commit, resource.path) == found,
            _ => false,
        },
        None => resource.commit matches Some(commit) && (world.file)(commit, resource.path)
            == found,
    }
}

/// Whether everything that a download asks for can be had.
pub open spec fn get_streams<E>(world: GetWorld<E>) -> bool {
    forall|action: GetActionView<E>| #[trigger] (world.stream)(action) is Ok
}

/// The last thing that a download asks for before it answers.
pub open spec fn get_streamed<E>(world: GetWorld<E>, params: FileQueryParams) -> GetActionView<E> {
    let run = get_run(world, params);
    run[run.len() - 2]
}

/// An image of whatever kind is resized to the width and the height that the query asks for,
/// where it asks for either, and keeps its type.
pub proof fn law_get_resizes_every_image<E>(
    world: GetWorld<E>,
    params: FileQueryParams,
    resource: ParsedResourceView,
    entry: FileEntryView,
    kind: Seq<char>,
    version_path: Seq<char>,
)
    requires
        get_finds(world, resource, entry),
        entry.mime_type == "image/"@ + kind,
        params.width is Some || params.height is Some,
        (world.version)(entry.hash) == Ok::<Seq<char>, E>(version_path),
        get_streams(world),
    ensures
        get_streamed(world, params) == (GetActionView::<E>::StreamResized {
            hash: entry.hash,
            path: resource.path,
            version_path,
            width: params.width,
            height: params.height,
        }),
        get_run(world, params).last() == GetActionView::<E>::Answer(
            Ok(
                FileResponseView {
                    content_type: "image/"@ + kind,
                    revision_id: entry.last_commit_id,
                },
            ),
        ),
{
    reveal_strlit("image/");
    reveal_strlit("video/");
    assert(entry.mime_type.subrange(0, 6) == "image/"@);
    assert("image/"@[0] != "video/"@[0]);
    assert("video/"@.is_prefix_of(entry.mime_type) ==> entry.mime_type.subrange(0, 6)[0]
        == "video/"@[0]);
    reveal_with_fuel(get_actions, 6);
}

/// A thumbnail is made of a video of whatever kind where the query asks for one, with the
/// width, the height and the timestamp of the query, and is a JPEG.
pub proof fn law_get_makes_thumbnails_of_every_video<E>(
    world: GetWorld<E>,
    params: FileQueryParams,
    resource: ParsedResourceView,
    entry: FileEntryView,
    kind: Seq<char>,
    version_path: Seq<char>,
)
    requires
        get_finds(world, resource, entry),
        entry.mime_type == "video/"@ + kind,
        params.thumbnail == Some(true),
        (world.version)(entry.hash) == Ok::<Seq<char>, E>(version_path),
        get_streams(world),
    ensures
        get_streamed(world, params) == (GetActionView::<E>::StreamThumbnail {
            hash: entry.hash,
            path: resource.path,
            version_path,
            width: params.width,
            height: params.height,
            timestamp: params.timestamp,
            thumbnail: Some(true),
        }),
        get_run(world, params).last() == GetActionView::<E>::Answer(
            Ok(
                FileResponseView {
                    content_type: "image/jpeg"@,
                    revision_id: entry.last_commit_id,
                },
            ),
        ),
{
    reveal_strlit("image/");
    reveal_strlit("video/");
    assert(entry.mime_type.subrange(0, 6) == "video/"@);
    assert("image/"@[0] != "video/"@[0]);
    assert("image/"@.is_prefix_of(entry.mime_type) ==> entry.mime_type.subrange(0, 6)[0]
        == "image/"@[0]);
    reveal_with_fuel(get_actions, 6);
}

/// Anything else is streamed as it is, with its own type: what is neither image nor video, an
/// image without a size in the query, and a video for which the query asks no thumbnail.
pub proof fn law_get_streams_anything_else_as_it_is<E>(
    world: GetWorld<E>,
    params: FileQueryParams,
    resource: ParsedResourceView,
    entry: FileEntryView,
)
    requires
        get_finds(world, resource, entry),
        (params.width is None && params.height is None) || !"image/"@.is_prefix_of(
            entry.mime_type,
        ),
        params.thumbnail != Some(true) || !"video/"@.is_prefix_of(entry.mime_type),
        (world.version)(entry.hash) is Ok,
        get_streams(world),
    ensures
        get_streamed(world, params) == (GetActionView::<E>::StreamVersion { hash: entry.hash }),
        get_run(world, params).last() == GetActionView::<E>::Answer(
            Ok(
                FileResponseView {
                    content_type: entry.mime_type,
                    revision_id: entry.last_commit_id,
                },
            ),
        ),
{
    reveal_with_fuel(get_actions, 6);
}

/// What a download asks for up to the file, and what it is answered with when there is none.
pub proof fn law_get_looks_the_file_up<E>(world: GetWorld<E>, params: FileQueryParams)
    ensures
        ({
            let run = get_run(world, params);
            let missing = |path: Seq<char>|
                GetActionView::<E>::Answer(
                    Err(HttpErrorView::InternalOxenError(OxenErrorView::PathDoesNotExist(path))),
                );
            let outside = |error: E| GetActionView::<E>::Answer(Err(HttpErrorView::Outside(error)));
            &&& run.len() >= 2
            &&& run[0] == GetActionView::<E>::ResolveResource
            &&& match world.resource {
                Err(error) => run.len() == 2 && run[1] == outside(error),
                Ok(resource) => match (resource.workspace, resource.commit) {
                    (None, None) => run.len() == 2 && run[1] == GetActionView::<E>::Answer(
                        Err(HttpErrorView::NotFound),
                    ),
                    (None, Some(commit)) => run.len() >= 3 && run[1]
                        == (GetActionView::<E>::LookUpFile { commit, path: resource.path }) && match
                    (world.file)(commit, resource.path) {
                        Err(error) => run.len() == 3 && run[2] == outside(error),
                        Ok(None) => run.len() == 3 && run[2] == missing(resource.path),
                        Ok(Some(entry)) => run[2] == (GetActionView::<E>::FindVersion {
                            hash: entry.hash,
                        }),
                    },
                    (Some(commit), _) => run.len() >= 3 && run[1]
                        == (GetActionView::<E>::ReadStaged { path: resource.path }) && match (
                    world.staged)(resource.path) {
                        Err(error) => run.len() == 3 && run[2] == outside(error),
                        Ok(Some(StagedNodeView::Other)) => run.len() == 3 && run[2]
                            == GetActionView::<E>::Answer(
                            Err(
                                HttpErrorView::InternalOxenError(
                                    OxenErrorView::Basic("Only single file download is supported"@),
                                ),
                            ),
                        ),
                        Ok(Some(StagedNodeView::File(entry))) => run[2]
                            == (GetActionView::<E>::FindVersion { hash: entry.hash }),
                        Ok(None) => run.len() >= 4 && run[2] == (GetActionView::<E>::LookUpFile {
                            commit,
                            path: resource.path,
                        }) && match (world.file)(commit, resource.path) {
                            Err(error) => run.len() == 4 && run[3] == outside(error),
                            Ok(None) => run.len() == 4 && run[3] == missing(resource.path),
                            Ok(Some(entry)) => run[3] == (GetActionView::<E>::FindVersion {
                                hash: entry.hash,
                            }),
                        },
                    },
                },
            }
        }),
{
    reveal_with_fuel(get_actions, 6);
}

/// What a download is answered with when the contents of the file cannot be had: the error as
/// it came. It is answered with a file only after it has asked for a stream.
pub proof fn law_get_failures_of_the_stream<E>(
    world: GetWorld<E>,
    params: FileQueryParams,
    i: int,
)
    requires
        0 <= i < get_run(world, params).len(),
    ensures
        ({
            let run = get_run(world, params);
            let outside = |error: E| GetActionView::<E>::Answer(Err(HttpErrorView::Outside(error)));
            let streams = |action: GetActionView<E>|
                action is StreamVersion || action is StreamResized || action is StreamThumbnail;
            &&& run[i] matches GetActionView::FindVersion { hash } ==> i + 1 < run.len() && match (
            world.version)(hash) {
                Err(error) => run.len() == i + 2 && run[i + 1] == outside(error),
                Ok(_) => streams(run[i + 1]),
            }
            &&& streams(run[i]) ==> run.len() == i + 2 && match (world.stream)(run[i]) {
                Err(error) => run[i + 1] == outside(error),
                Ok(_) => run[i + 1] is Answer && run[i + 1]->Answer_0 is Ok,
            }
            &&& run[i] is Answer ==> i == run.len() - 1
            &&& run[i] is Answer && run[i]->Answer_0 is Ok ==> i >= 1 && streams(run[i - 1])
        }),
{
    reveal_with_fuel(get_actions, 6);
}

} // verus!
