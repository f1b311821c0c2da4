//! Downloading a file, resized or as a thumbnail where that is asked for.

use vstd::pervasive::unreached;
use vstd::prelude::*;

use crate::model::{
    answer_view, outcome, FileQueryParams, HttpError, HttpErrorView, OxenError, OxenErrorView,
    ParsedResource, ParsedResourceView,
};
use crate::text::starts_with;

verus! {

/// A file of a revision or of a workspace.
#[derive(Debug, PartialEq, Eq)]
pub struct FileEntry {
    pub hash: String,
    pub mime_type: String,
    /// The id of the last commit that changed the file.
    pub last_commit_id: String,
}

/// The model of a `FileEntry`.
pub struct FileEntryView {
    pub hash: Seq<char>,
    pub mime_type: Seq<char>,
    pub last_commit_id: Seq<char>,
}

impl DeepView for FileEntry {
    type V = FileEntryView;

    open spec fn deep_view(&self) -> FileEntryView {
        FileEntryView {
            hash: self.hash@,
            mime_type: self.mime_type@,
            last_commit_id: self.last_commit_id@,
        }
    }
}

/// What a workspace has staged at a path.
#[derive(Debug, PartialEq, Eq)]
pub enum StagedNode {
    File(FileEntry),
    /// A directory, or another node that is no file.
    Other,
}

/// The model of a `StagedNode`.
pub enum StagedNodeView {
    File(FileEntryView),
    Other,
}

impl DeepView for StagedNode {
    type V = StagedNodeView;

    open spec fn deep_view(&self) -> StagedNodeView {
        match self {
            StagedNode::File(entry) => StagedNodeView::File(entry.deep_view()),
            StagedNode::Other => StagedNodeView::Other,
        }
    }
}

/// The head of the answer to a download; the body is what was streamed.
#[derive(Debug, PartialEq, Eq)]
pub struct FileResponse {
    pub content_type: String,
    /// `oxen-revision-id`: the id of the last commit that changed the file.
    pub revision_id: String,
}

/// The model of a `FileResponse`.
pub struct FileResponseView {
    pub content_type: Seq<char>,
    pub revision_id: Seq<char>,
}

impl DeepView for FileResponse {
    type V = FileResponseView;

    open spec fn deep_view(&self) -> FileResponseView {
        FileResponseView { content_type: self.content_type@, revision_id: self.revision_id@ }
    }
}

/// How far a download has come, and what the rest of it needs.
#[derive(Debug, PartialEq, Eq)]
pub enum GetState {
    Start,
    AwaitResource { params: FileQueryParams },
    AwaitStaged { params: FileQueryParams, commit: String, path: String },
    AwaitFile { params: FileQueryParams, path: String },
    AwaitVersion { params: FileQueryParams, path: String, entry: FileEntry },
    AwaitStream { response: FileResponse },
    Done,
}

/// The model of a `GetState`.
pub enum GetStateView {
    Start,
    AwaitResource { params: FileQueryParams },
    AwaitStaged { params: FileQueryParams, commit: Seq<char>, path: Seq<char> },
    AwaitFile { params: FileQueryParams, path: Seq<char> },
    AwaitVersion { params: FileQueryParams, path: Seq<char>, entry: FileEntryView },
    AwaitStream { response: FileResponseView },
    Done,
}

impl DeepView for GetState {
    type V = GetStateView;

    open spec fn deep_view(&self) -> GetStateView {
        match self {
            GetState::Start => GetStateView::Start,
            GetState::AwaitResource { params } => GetStateView::AwaitResource { params: *params },
            GetState::AwaitStaged { params, commit, path } => GetStateView::AwaitStaged {
                params: *params,
                commit: commit@,
                path: path@,
            },
            GetState::AwaitFile { params, path } => GetStateView::AwaitFile {
                params: *params,
                path: path@,
            },
            GetState::AwaitVersion { params, path, entry } => GetStateView::AwaitVersion {
                params: *params,
                path: path@,
                entry: entry.deep_view(),
            },
            GetState::AwaitStream { response } => GetStateView::AwaitStream {
                response: response.deep_view(),
            },
            GetState::Done => GetStateView::Done,
        }
    }
}

/// What a download is told: the request itself, and then what came of the work it asked for.
#[derive(Debug, PartialEq, Eq)]
pub enum GetEvent<E> {
    Received(FileQueryParams),
    Resource(Result<ParsedResource, E>),
    Staged(Result<Option<StagedNode>, E>),
    File(Result<Option<FileEntry>, E>),
    /// Where the contents of the file are kept.
    Version(Result<String, E>),
    /// Whether there is something to stream.
    Stream(Result<(), E>),
}

/// The model of a `GetEvent`.
pub enum GetEventView<E> {
    Received(FileQueryParams),
    Resource(Result<ParsedResourceView, E>),
    Staged(Result<Option<StagedNodeView>, E>),
    File(Result<Option<FileEntryView>, E>),
    Version(Result<Seq<char>, E>),
    Stream(Result<(), E>),
}

impl<E> DeepView for GetEvent<E> {
    type V = GetEventView<E>;

    open spec fn deep_view(&self) -> GetEventView<E> {
        match self {
            GetEvent::Received(params) => GetEventView::Received(*params),
            GetEvent::Resource(resource) => GetEventView::Resource(outcome(*resource)),
            GetEvent::Staged(node) => GetEventView::Staged(outcome(*node)),
            GetEvent::File(entry) => GetEventView::File(outcome(*entry)),
            GetEvent::Version(path) => GetEventView::Version(outcome(*path)),
            GetEvent::Stream(ready) => GetEventView::Stream(*ready),
        }
    }
}

/// What a download asks for next; `Answer` ends it.
#[derive(Debug, PartialEq, Eq)]
pub enum GetAction<E> {
    /// Find out what the resource of the URL stands for.
    ResolveResource,
    /// Look for the path among what the workspace has staged.
    ReadStaged { path: String },
    LookUpFile { commit: String, path: String },
    /// Find where the contents with this hash are kept.
    FindVersion { hash: String },
    /// Stream the image in another size.
    StreamResized {
        hash: String,
        path: String,
        version_path: String,
        width: Option<u32>,
        height: Option<u32>,
    },
    /// Stream a picture taken from the video.
    StreamThumbnail {
        hash: String,
        path: String,
        version_path: String,
        width: Option<u32>,
        height: Option<u32>,
        timestamp: Option<u64>,
        thumbnail: Option<bool>,
    },
    /// Stream the contents as they are.
    StreamVersion { hash: String },
    Answer(Result<FileResponse, HttpError<E>>),
}

/// The model of a `GetAction`.
pub enum GetActionView<E> {
    ResolveResource,
    ReadStaged { path: Seq<char> },
    LookUpFile { commit: Seq<char>, path: Seq<char> },
    FindVersion { hash: Seq<char> },
    StreamResized {
        hash: Seq<char>,
        path: Seq<char>,
        version_path: Seq<char>,
        width: Option<u32>,
        height: Option<u32>,
    },
    StreamThumbnail {
        hash: Seq<char>,
        path: Seq<char>,
        version_path: Seq<char>,
        width: Option<u32>,
        height: Option<u32>,
        timestamp: Option<u64>,
        thumbnail: Option<bool>,
    },
    StreamVersion { hash: Seq<char> },
    Answer(Result<FileResponseView, HttpErrorView<E>>),
}

impl<E> DeepView for GetAction<E> {
    type V = GetActionView<E>;

    open spec fn deep_view(&self) -> GetActionView<E> {
        match self {
            GetAction::ResolveResource => GetActionView::ResolveResource,
            GetAction::ReadStaged { path } => GetActionView::ReadStaged { path: path@ },
            GetAction::LookUpFile { commit, path } => GetActionView::LookUpFile {
                commit: commit@,
                path: path@,
            },
            GetAction::FindVersion { hash } => GetActionView::FindVersion { hash: hash@ },
            GetAction::StreamResized { hash, path, version_path, width, height } => {
                GetActionView::StreamResized {
                    hash: hash@,
                    path: path@,
                    version_path: version_path@,
                    width: *width,
                    height: *height,
                }
            },
            GetAction::StreamThumbnail {
                hash,
                path,
                version_path,
                width,
                height,
                timestamp,
                thumbnail,
            } => GetActionView::StreamThumbnail {
                hash: hash@,
                path: path@,
                version_path: version_path@,
                width: *width,
                height: *height,
                timestamp: *timestamp,
                thumbnail: *thumbnail,
            },
            GetAction::StreamVersion { hash } => GetActionView::StreamVersion { hash: hash@ },
            GetAction::Answer(answer) => GetActionView::Answer(answer_view(*answer)),
        }
    }
}

/// Whether an event can follow in a state: it is the one that the last action asked for.
pub open spec fn get_expects<E>(state: GetStateView, event: GetEventView<E>) -> bool {
    match state {
        GetStateView::Start => event is Received,
        GetStateView::AwaitResource { .. } => event is Resource,
        GetStateView::AwaitStaged { .. } => event is Staged,
        GetStateView::AwaitFile { .. } => event is File,
        GetStateView::AwaitVersion { .. } => event is Version,
        GetStateView::AwaitStream { .. } => event is Stream,
        GetStateView::Done => false,
    }
}

/// Whether a file is to be resized: it is an image, and a width or a height is asked for.
pub open spec fn wants_resize(params: FileQueryParams, mime_type: Seq<char>) -> bool {
    (params.width is Some || params.height is Some) && "image/"@.is_prefix_of(mime_type)
}

/// Whether a thumbnail is to be made of a file: it is a video, and one is asked for.
pub open spec fn wants_thumbnail(params: FileQueryParams, mime_type: Seq<char>) -> bool {
    params.thumbnail == Some(true) && "video/"@.is_prefix_of(mime_type)
}

/// How a file is streamed.
pub open spec fn get_stream<E>(
    params: FileQueryParams,
    path: Seq<char>,
    entry: FileEntryView,
    version_path: Seq<char>,
) -> GetActionView<E> {
    if wants_resize(params, entry.mime_type) {
        GetActionView::StreamResized {
            hash: entry.hash,
            path,
            version_path,
            width: params.width,
            height: params.height,
        }
    } else if wants_thumbnail(params, entry.mime_type) {
        GetActionView::StreamThumbnail {
            hash: entry.hash,
            path,
            version_path,
            width: params.width,
            height: params.height,
            timestamp: params.timestamp,
            thumbnail: params.thumbnail,
        }
    } else {
        GetActionView::StreamVersion { hash: entry.hash }
    }
}

/// What a download is answered with: a thumbnail is always a JPEG, anything else has the
/// type of the file.
pub open spec fn get_response(params: FileQueryParams, entry: FileEntryView) -> FileResponseView {
    FileResponseView {
        content_type: if wants_thumbnail(params, entry.mime_type) {
            "image/jpeg"@
        } else {
            entry.mime_type
        },
        revision_id: entry.last_commit_id,
    }
}

/// The download is over, with an error for an answer.
pub open spec fn get_refused<E>(error: HttpErrorView<E>) -> (GetStateView, GetActionView<E>) {
    (GetStateView::Done, GetActionView::Answer(Err(error)))
}

/// The error for a file that cannot be downloaded by itself.
pub open spec fn not_a_single_file<E>() -> HttpErrorView<E> {
    HttpErrorView::InternalOxenError(
        OxenErrorView::Basic("Only single file download is supported"@),
    )
}

/// What a download does on an event.
pub open spec fn get_step<E>(state: GetStateView, event: GetEventView<E>) -> (
    GetStateView,
    GetActionView<E>,
) {
    match (state, event) {
        (GetStateView::Start, GetEventView::Received(params)) => (
            GetStateView::AwaitResource { params },
            GetActionView::ResolveResource,
        ),
        (GetStateView::AwaitResource { params }, GetEventView::Resource(resource)) => {
            match resource {
                Err(error) => get_refused(HttpErrorView::Outside(error)),
                Ok(resource) => match (resource.workspace, resource.commit) {
                    (Some(commit), _) => (
                        GetStateView::AwaitStaged { params, commit, path: resource.path },
                        GetActionView::ReadStaged { path: resource.path },
                    ),
                    (None, Some(commit)) => (
                        GetStateView::AwaitFile { params, path: resource.path },
                        GetActionView::LookUpFile { commit, path: resource.path },
                    ),
                    (None, None) => get_refused(HttpErrorView::NotFound),
                },
            }
        },
        (GetStateView::AwaitStaged { params, commit, path }, GetEventView::Staged(node)) => {
            match node {
                Err(error) => get_refused(HttpErrorView::Outside(error)),
                Ok(Some(StagedNodeView::File(entry))) => (
                    GetStateView::AwaitVersion { params, path, entry },
                    GetActionView::FindVersion { hash: entry.hash },
                ),
                Ok(Some(StagedNodeView::Other)) => get_refused(not_a_single_file()),
                Ok(None) => (
                    GetStateView::AwaitFile { params, path },
                    GetActionView::LookUpFile { commit, path },
                ),
            }
        },
        (GetStateView::AwaitFile { params, path }, GetEventView::File(entry)) => match entry {
            Err(error) => get_refused(HttpErrorView::Outside(error)),
            Ok(None) => get_refused(
                HttpErrorView::InternalOxenError(OxenErrorView::PathDoesNotExist(path)),
            ),
            Ok(Some(entry)) => (
                GetStateView::AwaitVersion { params, path, entry },
                GetActionView::FindVersion { hash: entry.hash },
            ),
        },
        (
            GetStateView::AwaitVersion { params, path, entry },
            GetEventView::Version(version_path),
        ) => match version_path {
            Err(error) => get_refused(HttpErrorView::Outside(error)),
            Ok(version_path) => (
                GetStateView::AwaitStream { response: get_response(params, entry) },
                get_stream(params, path, entry, version_path),
            ),
        },
        (GetStateView::AwaitStream { response }, GetEventView::Stream(ready)) => match ready {
            Err(error) => get_refused(HttpErrorView::Outside(error)),
            Ok(_) => (GetStateView::Done, GetActionView::Answer(Ok(response))),
        },
        _ => arbitrary(),
    }
}

fn refuse<E>(error: HttpError<E>) -> (step: (GetState, GetAction<E>))
    ensures
        (step.0.deep_view(), step.1.deep_view()) == get_refused(error.deep_view()),
{
    (GetState::Done, GetAction::Answer(Err(error)))
}

/// An image is no video: what is resized is no thumbnail.
pub proof fn law_resize_and_thumbnail_exclude_each_other(
    params: FileQueryParams,
    mime_type: Seq<char>,
)
    ensures
        !(wants_resize(params, mime_type) && wants_thumbnail(params, mime_type)),
{
    reveal_strlit("image/");
    reveal_strlit("video/");
    if "image/"@.is_prefix_of(mime_type) && "video/"@.is_prefix_of(mime_type) {
        assert("image/"@[0] == mime_type[0]);
        assert("video/"@[0] == mime_type[0]);
    }
}

/// Decides how a file is streamed and what the download is answered with.
pub fn choose_stream<E>(
    params: FileQueryParams,
    path: String,
    entry: FileEntry,
    version_path: String,
) -> (choice: (FileResponse, GetAction<E>))
    ensures
        choice.0.deep_view() == get_response(params, entry.deep_view()),
        choice.1.deep_view() == get_stream::<E>(params, path@, entry.deep_view(), version_path@),
{
    proof {
        law_resize_and_thumbnail_exclude_each_other(params, entry.mime_type@);
    }
    let sized = params.width.is_some() || params.height.is_some();
    let wanted = match params.thumbnail {
        Some(wanted) => wanted,
        None => false,
    };
    let revision_id = entry.last_commit_id;
    if sized && starts_with(entry.mime_type.as_str(), "image/") {
        (
            FileResponse { content_type: entry.mime_type, revision_id },
            GetAction::StreamResized {
                hash: entry.hash,
                path,
                version_path,
                width: params.width,
                height: params.height,
            },
        )
    } else if wanted && starts_with(entry.mime_type.as_str(), "video/") {
        (
            FileResponse { content_type: "image/jpeg".to_owned(), revision_id },
            GetAction::StreamThumbnail {
                hash: entry.hash,
                path,
                version_path,
                width: params.width,
                height: params.height,
                timestamp: params.timestamp,
                thumbnail: params.thumbnail,
            },
        )
    } else {
        (
            FileResponse { content_type: entry.mime_type, revision_id },
            GetAction::StreamVersion { hash: entry.hash },
        )
    }
}

/// Downloads a file: takes the download one event further.
pub fn get<E>(state: GetState, event: GetEvent<E>) -> (step: (GetState, GetAction<E>))
    requires
        get_expects(state.deep_view(), event.deep_view()),
    ensures
        (step.0.deep_view(), step.1.deep_view()) == get_step(state.deep_view(), event.deep_view()),
{
    match (state, event) {
        (GetState::Start, GetEvent::Received(params)) => (
            GetState::AwaitResource { params },
            GetAction::ResolveResource,
        ),
        (GetState::AwaitResource { params }, GetEvent::Resource(resource)) => match resource {
            Err(error) => refuse(HttpError::Outside(error)),
            Ok(resource) => {
                let path = resource.path.clone();
                match resource.workspace {
                    Some(commit) => (
                        GetState::AwaitStaged { params, commit, path: resource.path },
                        GetAction::ReadStaged { path },
                    ),
                    None => match resource.commit {
                        Some(commit) => (
                            GetState::AwaitFile { params, path: resource.path },
                            GetAction::LookUpFile { commit, path },
                        ),
                        None => refuse(HttpError::NotFound),
                    },
                }
            },
        },
        (GetState::AwaitStaged { params, commit, path }, GetEvent::Staged(node)) => match node {
            Err(error) => refuse(HttpError::Outside(error)),
            Ok(Some(StagedNode::File(entry))) => {
                let hash = entry.hash.clone();
                (GetState::AwaitVersion { params, path, entry }, GetAction::FindVersion { hash })
            },
            Ok(Some(StagedNode::Other)) => refuse(
                HttpError::InternalOxenError(
                    OxenError::Basic("Only single file download is supported".to_owned()),
                ),
            ),
            Ok(None) => {
                let wanted = path.clone();
                (
                    GetState::AwaitFile { params, path },
                    GetAction::LookUpFile { commit, path: wanted },
                )
            },
        },
        (GetState::AwaitFile { params, path }, GetEvent::File(entry)) => match entry {
            Err(error) => refuse(HttpError::Outside(error)),
            Ok(None) => refuse(HttpError::InternalOxenError(OxenError::PathDoesNotExist(path))),
            Ok(Some(entry)) => {
                let hash = entry.hash.clone();
                (GetState::AwaitVersion { params, path, entry }, GetAction::FindVersion { hash })
            },
        },
        (GetState::AwaitVersion { params, path, entry }, GetEvent::Version(version_path)) => {
            match version_path {
                Err(error) => refuse(HttpError::Outside(error)),
                Ok(version_path) => {
                    let (response, action) = choose_stream(params, path, entry, version_path);
                    (GetState::AwaitStream { response }, action)
                },
            }
        },
        (GetState::AwaitStream { response }, GetEvent::Stream(ready)) => match ready {
            Err(error) => refuse(HttpError::Outside(error)),
            Ok(_) => (GetState::Done, GetAction::Answer(Ok(response))),
        },
        _ => unreached(),
    }
}

/// What the work outside the library gives back while one download is served.
#[verifier::reject_recursive_types(E)]
pub struct GetWorld<E> {
    pub resource: Result<ParsedResourceView, E>,
    /// By path.
    pub staged: spec_fn(Seq<char>) -> Result<Option<StagedNodeView>, E>,
    /// By commit and path.
    pub file: spec_fn(Seq<char>, Seq<char>) -> Result<Option<FileEntryView>, E>,
    /// By the hash of the contents.
    pub version: spec_fn(Seq<char>) -> Result<Seq<char>, E>,
    /// By the action that asks for the stream.
    pub stream: spec_fn(GetActionView<E>) -> Result<(), E>,
}

/// The event that reports what came of an action.
pub open spec fn get_report<E>(world: GetWorld<E>, action: GetActionView<E>) -> GetEventView<E> {
    match action {
        GetActionView::ResolveResource => GetEventView::Resource(world.resource),
        GetActionView::ReadStaged { path } => GetEventView::Staged((world.staged)(path)),
        GetActionView::LookUpFile { commit, path } => GetEventView::File(
            (world.file)(commit, path),
        ),
        GetActionView::FindVersion { hash } => GetEventView::Version((world.version)(hash)),
        GetActionView::Answer(_) => arbitrary(),
        _ => GetEventView::Stream((world.stream)(action)),
    }
}

/// How many events a download can still take.
pub open spec fn get_rank(state: GetStateView) -> nat {
    match state {
        GetStateView::Start => 6,
        GetStateView::AwaitResource { .. } => 5,
        GetStateView::AwaitStaged { .. } => 4,
        GetStateView::AwaitFile { .. } => 3,
        GetStateView::AwaitVersion { .. } => 2,
        GetStateView::AwaitStream { .. } => 1,
        GetStateView::Done => 0,
    }
}

/// All that a download asks for from `state` on, in order, when `event` comes first. It
/// stops short where an event comes that the state does not expect.
pub open spec fn get_actions<E>(
    world: GetWorld<E>,
    state: GetStateView,
    event: GetEventView<E>,
) -> Seq<GetActionView<E>>
    decreases get_rank(state),
{
    if !get_expects(state, event) {
        Seq::empty()
    } else {
        let (next, action) = get_step(state, event);
        if action is Answer {
            seq![action]
        } else {
            seq![action] + get_actions(world, next, get_report(world, action))
        }
    }
}

/// All that the download of a request asks for.
pub open spec fn get_run<E>(world: GetWorld<E>, params: FileQueryParams) -> Seq<GetActionView<E>> {
    get_actions(world, GetStateView::Start, GetEventView::Received(params))
}

/// The file at a path of a commit.
pub open spec fn committed_file<E>(
    world: GetWorld<E>,
    commit: Seq<char>,
    path: Seq<char>,
) -> Result<FileEntryView, HttpErrorView<E>> {
    match (world.file)(commit, path) {
        Err(error) => Err(HttpErrorView::Outside(error)),
        Ok(None) => Err(HttpErrorView::InternalOxenError(OxenErrorView::PathDoesNotExist(path))),
        Ok(Some(entry)) => Ok(entry),
    }
}

/// The file that a resource stands for. In a workspace what is staged comes first, and the
/// commit that the workspace is based on second.
pub open spec fn requested_file<E>(world: GetWorld<E>, resource: ParsedResourceView) -> Result<
    FileEntryView,
    HttpErrorView<E>,
> {
    match (resource.workspace, resource.commit) {
        (Some(commit), _) => match (world.staged)(resource.path) {
            Err(error) => Err(HttpErrorView::Outside(error)),
            Ok(Some(StagedNodeView::File(entry))) => Ok(entry),
            Ok(Some(StagedNodeView::Other)) => Err(not_a_single_file()),
            Ok(None) => committed_file(world, commit, resource.path),
        },
        (None, Some(commit)) => committed_file(world, commit, resource.path),
        (None, None) => Err(HttpErrorView::NotFound),
    }
}

/// The answer to a download.
pub open spec fn get_answer<E>(world: GetWorld<E>, params: FileQueryParams) -> Result<
    FileResponseView,
    HttpErrorView<E>,
> {
    match world.resource {
        Err(error) => Err(HttpErrorView::Outside(error)),
        Ok(resource) => match requested_file(world, resource) {
            Err(error) => Err(error),
            Ok(entry) => match (world.version)(entry.hash) {
                Err(error) => Err(HttpErrorView::Outside(error)),
                Ok(version_path) => match (world.stream)(
                    get_stream(params, resource.path, entry, version_path),
                ) {
                    Err(error) => Err(HttpErrorView::Outside(error)),
                    Ok(_) => Ok(get_response(params, entry)),
                },
            },
        },
    }
}

/// A download always ends with an answer: the file that the URL stands for, streamed as the
/// query asks and with the type of what is streamed, or the error that kept it from that.
pub proof fn law_get_answers_with_the_requested_file<E>(
    world: GetWorld<E>,
    params: FileQueryParams,
)
    ensures
        get_run(world, params).len() > 0,
        get_run(world, params).last() == GetActionView::Answer(get_answer(world, params)),
        get_answer(world, params) matches Ok(response) ==> {
            let resource = world.resource->Ok_0;
            let entry = requested_file(world, resource)->Ok_0;
            let run = get_run(world, params);
            &&& run.len() >= 2
            &&& run[run.len() - 2] == get_stream::<E>(
                params,
                resource.path,
                entry,
                (world.version)(entry.hash)->Ok_0,
            )
        },
{
    reveal_with_fuel(get_actions, 6);
}

/// One second, as the bits of an IEEE 754 double: where a thumbnail is taken from when the
/// query does not say.
pub const DEFAULT_TIMESTAMP: u64 = 0x3ff0_0000_0000_0000;

/// The same order for a thumbnail, with the default in place of a missing timestamp.
pub open spec fn with_default_timestamp<E>(action: GetActionView<E>) -> GetActionView<E> {
    match action {
        GetActionView::StreamThumbnail {
            hash,
            path,
            version_path,
            width,
            height,
            timestamp: None,
            thumbnail,
        } => GetActionView::StreamThumbnail {
            hash,
            path,
            version_path,
            width,
            height,
            timestamp: Some(DEFAULT_TIMESTAMP),
            thumbnail,
        },
        _ => action,
    }
}

/// Whether a missing timestamp means the default to whoever makes the thumbnails: the outcome
/// and the picture are the same. `pictures` are the bytes that each order streams.
pub open spec fn defaults_timestamps<E>(
    world: GetWorld<E>,
    pictures: spec_fn(GetActionView<E>) -> Seq<u8>,
) -> bool {
    forall|action: GetActionView<E>|
        #![trigger (world.stream)(action)]
        #![trigger pictures(action)]
        (world.stream)(action) == (world.stream)(with_default_timestamp(action)) && pictures(action)
            == pictures(with_default_timestamp(action))
}

/// Where a missing timestamp means the default, a query for the thumbnail of a video without
/// a timestamp is answered as the one with the default: with the same head, which says that it
/// is a JPEG, and the same picture, or with the same error.
pub proof fn law_missing_timestamp_is_the_default<E>(
    world: GetWorld<E>,
    pictures: spec_fn(GetActionView<E>) -> Seq<u8>,
    params: FileQueryParams,
)
    requires
        defaults_timestamps(world, pictures),
        params.thumbnail == Some(true),
        params.timestamp is None,
        world.resource matches Ok(resource) && (requested_file(world, resource) matches Ok(entry)
            && "video/"@.is_prefix_of(entry.mime_type)),
    ensures
        ({
            let explicit = FileQueryParams { timestamp: Some(DEFAULT_TIMESTAMP), ..params };
            let run = get_run(world, params);
            let same = get_run(world, explicit);
            &&& run.last() == same.last()
            &&& run.last() matches GetActionView::Answer(Ok(response)) ==> {
                &&& response.content_type == "image/jpeg"@
                &&& run[run.len() - 2] is StreamThumbnail
                &&& pictures(run[run.len() - 2]) == pictures(same[same.len() - 2])
            }
        }),
{
    let explicit = FileQueryParams { timestamp: Some(DEFAULT_TIMESTAMP), ..params };
    let resource = world.resource->Ok_0;
    let entry = requested_file(world, resource)->Ok_0;
    law_get_answers_with_the_requested_file(world, params);
    law_get_answers_with_the_requested_file(world, explicit);
    law_resize_and_thumbnail_exclude_each_other(params, entry.mime_type);
    law_resize_and_thumbnail_exclude_each_other(explicit, entry.mime_type);
    if let Ok(version_path) = (world.version)(entry.hash) {
        let without = get_stream::<E>(params, resource.path, entry, version_path);
        let with = get_stream::<E>(explicit, resource.path, entry, version_path);
        assert(with == with_default_timestamp(without));
        assert((world.stream)(without) == (world.stream)(with));
    }
}

} // verus!
