//! What the contracts see of the values that go in and come out is all of them: every field,
//! every byte and every outcome.

use vstd::prelude::*;

use crate::auth::{AuthEvent, AuthEventView, ClaimLookup, ClaimLookupView};
use crate::delete::{DeleteEvent, DeleteEventView};
use crate::get::{
    FileEntry, FileResponse, GetEvent, GetEventView, StagedNode, StagedNodeView,
};
use crate::import::{ImportEvent, ImportEventView};
use crate::init::{InitArgs, InitEvent, InitEventView, RemoteHost};
use crate::initial_put::{InitialPutEvent, InitialPutEventView, InitialPutRequest};
use crate::model::{
    answer_view, outcome, BranchTarget, CommitResponse, FileContents, FileContentsView,
    FileMoveBody, FileNew, HttpError, HttpErrorView, NewCommitBody, NodeInfo, OxenError,
    OxenErrorView, ParsedResource, TempFileNew, UploadForm, User,
};
use crate::multipart::{Disposition, MultipartEvent, MultipartEventView};
use crate::mv::{MoveEvent, MoveEventView};
use crate::put::{PutEvent, PutEventView, PutRequest};
use crate::raw_payload::{RawEvent, RawEventView, RawRequest};
use crate::upload::{UploadTarget, UploadTargetView};

verus! {

/// Whether what is seen of an optional text is that text.
pub open spec fn same_option(seen: Option<Seq<char>>, text: Option<String>) -> bool {
    match text {
        Some(text) => seen == Some(text@),
        None => seen is None,
    }
}

/// Whether what is seen of an optional header is its bytes.
pub open spec fn same_header(seen: Option<Seq<u8>>, header: Option<Vec<u8>>) -> bool {
    match header {
        Some(bytes) => seen == Some(bytes@),
        None => seen is None,
    }
}

/// An outcome is seen as the value or the error that it is.
pub proof fn law_outcomes_are_seen<T: DeepView, E>(
    value: T,
    error: E,
    refusal: HttpError<E>,
)
    ensures
        outcome(Ok::<T, E>(value)) == Ok::<T::V, E>(value.deep_view()),
        outcome(Err::<T, E>(error)) == Err::<T::V, E>(error),
        answer_view(Ok::<T, HttpError<E>>(value)) == Ok::<T::V, HttpErrorView<E>>(
            value.deep_view(),
        ),
        answer_view(Err::<T, HttpError<E>>(refusal)) == Err::<T::V, HttpErrorView<E>>(
            refusal.deep_view(),
        ),
{
}

/// An error is seen as what it is, with its text.
pub proof fn law_errors_are_seen<E>(text: String, inner: OxenError, error: E)
    ensures
        HttpError::<E>::NotFound.deep_view() == HttpErrorView::<E>::NotFound,
        HttpError::<E>::BadRequest(text).deep_view() == HttpErrorView::<E>::BadRequest(text@),
        HttpError::<E>::BasicError(text).deep_view() == HttpErrorView::<E>::BasicError(text@),
        HttpError::<E>::InternalOxenError(inner).deep_view()
            == HttpErrorView::<E>::InternalOxenError(inner.deep_view()),
        HttpError::<E>::MultipartError(error).deep_view() == HttpErrorView::MultipartError(error),
        HttpError::<E>::Outside(error).deep_view() == HttpErrorView::Outside(error),
        OxenError::Basic(text).deep_view() == OxenErrorView::Basic(text@),
        OxenError::LocalBranchNotFound(text).deep_view() == OxenErrorView::LocalBranchNotFound(
            text@,
        ),
        OxenError::PathDoesNotExist(text).deep_view() == OxenErrorView::PathDoesNotExist(text@),
{
}

/// A request is seen with all its headers.
pub proof fn law_requests_are_seen(
    put: PutRequest,
    first: InitialPutRequest,
    raw: RawRequest,
    args: InitArgs,
)
    ensures
        same_header(put.deep_view().authorization, put.authorization),
        same_header(put.deep_view().based_on, put.based_on),
        same_header(put.deep_view().commit_message, put.commit_message),
        same_header(put.deep_view().content_type, put.content_type),
        first.deep_view().resource == first.resource@,
        same_header(first.deep_view().content_type, first.content_type),
        raw.deep_view().path == raw.path@,
        same_header(raw.deep_view().commit_message, raw.commit_message),
        same_option(args.deep_view().path, args.path),
        same_option(args.deep_view().version, args.version),
{
}

/// What the repository shows is seen with all its fields.
pub proof fn law_what_the_repository_shows_is_seen<E>(
    resource: ParsedResource,
    target: BranchTarget,
    node: NodeInfo<E>,
    entry: FileEntry,
    remote: RemoteHost,
)
    ensures
        same_option(resource.deep_view().branch, resource.branch),
        same_option(resource.deep_view().commit, resource.commit),
        same_option(resource.deep_view().workspace, resource.workspace),
        resource.deep_view().path == resource.path@,
        resource.deep_view().version == resource.version@,
        target.deep_view().branch == target.branch@,
        target.deep_view().commit == target.commit@,
        target.deep_view().path == target.path@,
        node.deep_view().is_file == node.is_file,
        match node.latest_commit {
            Ok(commit) => node.deep_view().latest_commit == Ok::<Seq<char>, E>(commit@),
            Err(error) => node.deep_view().latest_commit == Err::<Seq<char>, E>(error),
        },
        entry.deep_view().hash == entry.hash@,
        entry.deep_view().mime_type == entry.mime_type@,
        entry.deep_view().last_commit_id == entry.last_commit_id@,
        StagedNode::File(entry).deep_view() == StagedNodeView::File(entry.deep_view()),
        StagedNode::Other.deep_view() == StagedNodeView::Other,
        remote.deep_view().scheme == remote.scheme@,
        remote.deep_view().host == remote.host@,
{
}

/// Users and what the access keys say of a token are seen with name and email.
pub proof fn law_users_are_seen(user: User, name: String, email: String)
    ensures
        user.deep_view().name == user.name@,
        user.deep_view().email == user.email@,
        ClaimLookup::KeysUnavailable.deep_view() == ClaimLookupView::KeysUnavailable,
        ClaimLookup::Rejected.deep_view() == ClaimLookupView::Rejected,
        ClaimLookup::Unclaimed.deep_view() == ClaimLookupView::Unclaimed,
        (ClaimLookup::Claimed { name, email }).deep_view() == (ClaimLookupView::Claimed {
            name: name@,
            email: email@,
        }),
{
}

/// What is uploaded is seen with all its files and all their bytes.
pub proof fn law_uploads_are_seen(
    form: UploadForm,
    file: TempFileNew,
    owned: FileNew,
    disposition: Disposition,
    text: String,
    bytes: Vec<u8>,
    i: int,
)
    ensures
        same_option(form.deep_view().name, form.name),
        same_option(form.deep_view().email, form.email),
        same_option(form.deep_view().message, form.message),
        form.deep_view().files.len() == form.files@.len(),
        0 <= i < form.files@.len() ==> form.deep_view().files[i] == form.files@[i].deep_view(),
        file.deep_view().path == file.path@,
        file.deep_view().contents == file.contents.deep_view(),
        owned.deep_view().path == owned.path@,
        owned.deep_view().contents == owned.contents.deep_view(),
        owned.deep_view().user == owned.user.deep_view(),
        FileContents::Text(text).deep_view() == FileContentsView::Text(text@),
        FileContents::Binary(bytes).deep_view() == FileContentsView::Binary(bytes@),
        same_option(disposition.deep_view().name, disposition.name),
        same_option(disposition.deep_view().filename, disposition.filename),
        UploadTarget::File(text).deep_view() == UploadTargetView::File(text@),
        UploadTarget::Directory(text).deep_view() == UploadTargetView::Directory(text@),
{
}

/// What is committed and answered is seen with all its fields.
pub proof fn law_commits_and_answers_are_seen(
    body: NewCommitBody,
    response: CommitResponse,
    file: FileResponse,
    request: FileMoveBody,
)
    ensures
        body.deep_view().author == body.author@,
        body.deep_view().email == body.email@,
        body.deep_view().message == body.message@,
        response.deep_view().status == response.status,
        response.deep_view().commit == response.commit@,
        file.deep_view().content_type == file.content_type@,
        file.deep_view().revision_id == file.revision_id@,
        request.deep_view().new_path == request.new_path@,
        same_option(request.deep_view().message, request.message),
        same_option(request.deep_view().name, request.name),
        same_option(request.deep_view().email, request.email),
{
}

/// What an upload is told is seen as it is told.
pub proof fn law_put_events_are_seen<E>(event: PutEvent<E>)
    ensures
        match event {
            PutEvent::Received(request) => event.deep_view() matches PutEventView::Received(seen)
                && seen == request.deep_view(),
            PutEvent::Head(head) => event.deep_view() matches PutEventView::Head(seen)
                && seen == head,
            PutEvent::Resource(Ok(value)) => event.deep_view() matches PutEventView::Resource(Ok(seen))
                && seen == value.deep_view(),
            PutEvent::Resource(Err(error)) => event.deep_view() matches PutEventView::Resource(Err(seen))
                && seen == error,
            PutEvent::Node(Ok(value)) => event.deep_view() matches PutEventView::Node(Ok(seen))
                && seen == value.deep_view(),
            PutEvent::Node(Err(error)) => event.deep_view() matches PutEventView::Node(Err(seen))
                && seen == error,
            PutEvent::Form(Ok(value)) => event.deep_view() matches PutEventView::Form(Ok(seen))
                && seen == value.deep_view(),
            PutEvent::Form(Err(error)) => event.deep_view() matches PutEventView::Form(Err(seen))
                && seen == error.deep_view(),
            PutEvent::User(Ok(value)) => event.deep_view() matches PutEventView::User(Ok(seen))
                && seen == value.deep_view(),
            PutEvent::User(Err(error)) => event.deep_view() matches PutEventView::User(Err(seen))
                && seen == error,
            PutEvent::Workspace(made) => event.deep_view() matches PutEventView::Workspace(seen)
                && seen == made,
            PutEvent::Added(added) => event.deep_view() matches PutEventView::Added(seen)
                && seen == added,
            PutEvent::Committed(Ok(value)) => event.deep_view() matches PutEventView::Committed(Ok(seen))
                && seen == value.deep_view(),
            PutEvent::Committed(Err(error)) => event.deep_view() matches PutEventView::Committed(Err(seen))
                && seen == error,
        },
{
}

/// What a first upload is told is seen as it is told.
pub proof fn law_initial_put_events_are_seen<E>(event: InitialPutEvent<E>)
    ensures
        match event {
            InitialPutEvent::Received(request) => event.deep_view() matches InitialPutEventView::Received(seen)
                && seen == request.deep_view(),
            InitialPutEvent::Form(Ok(value)) => event.deep_view() matches InitialPutEventView::Form(Ok(seen))
                && seen == value.deep_view(),
            InitialPutEvent::Form(Err(error)) => event.deep_view() matches InitialPutEventView::Form(Err(seen))
                && seen == error.deep_view(),
            InitialPutEvent::User(Ok(value)) => event.deep_view() matches InitialPutEventView::User(Ok(seen))
                && seen == value.deep_view(),
            InitialPutEvent::User(Err(error)) => event.deep_view() matches InitialPutEventView::User(Err(seen))
                && seen == error,
            InitialPutEvent::Added(added) => event.deep_view() matches InitialPutEventView::Added(seen)
                && seen == added,
            InitialPutEvent::Committed(Ok(value)) => event.deep_view() matches InitialPutEventView::Committed(Ok(seen))
                && seen == value.deep_view(),
            InitialPutEvent::Committed(Err(error)) => event.deep_view() matches InitialPutEventView::Committed(Err(seen))
                && seen == error,
            InitialPutEvent::BranchCreated(made) => event.deep_view() matches InitialPutEventView::BranchCreated(seen)
                && seen == made,
        },
{
}

/// What a download is told is seen as it is told.
pub proof fn law_get_events_are_seen<E>(event: GetEvent<E>)
    ensures
        match event {
            GetEvent::Received(params) => event.deep_view() matches GetEventView::Received(seen)
                && seen == params,
            GetEvent::Resource(Ok(value)) => event.deep_view() matches GetEventView::Resource(Ok(seen))
                && seen == value.deep_view(),
            GetEvent::Resource(Err(error)) => event.deep_view() matches GetEventView::Resource(Err(seen))
                && seen == error,
            GetEvent::Staged(Ok(value)) => event.deep_view() matches GetEventView::Staged(Ok(seen))
                && seen == value.deep_view(),
            GetEvent::Staged(Err(error)) => event.deep_view() matches GetEventView::Staged(Err(seen))
                && seen == error,
            GetEvent::File(Ok(value)) => event.deep_view() matches GetEventView::File(Ok(seen))
                && seen == value.deep_view(),
            GetEvent::File(Err(error)) => event.deep_view() matches GetEventView::File(Err(seen))
                && seen == error,
            GetEvent::Version(Ok(value)) => event.deep_view() matches GetEventView::Version(Ok(seen))
                && seen == value.deep_view(),
            GetEvent::Version(Err(error)) => event.deep_view() matches GetEventView::Version(Err(seen))
                && seen == error,
            GetEvent::Stream(ready) => event.deep_view() matches GetEventView::Stream(seen)
                && seen == ready,
        },
{
}

/// What a removal is told is seen as it is told.
pub proof fn law_delete_events_are_seen<E>(event: DeleteEvent<E>)
    ensures
        match event {
            DeleteEvent::Received(based_on) => event.deep_view() matches DeleteEventView::Received(seen)
                && same_header(seen, based_on),
            DeleteEvent::Resource(Ok(value)) => event.deep_view() matches DeleteEventView::Resource(Ok(seen))
                && seen == value.deep_view(),
            DeleteEvent::Resource(Err(error)) => event.deep_view() matches DeleteEventView::Resource(Err(seen))
                && seen == error,
            DeleteEvent::Node(Ok(value)) => event.deep_view() matches DeleteEventView::Node(Ok(seen))
                && seen == value.deep_view(),
            DeleteEvent::Node(Err(error)) => event.deep_view() matches DeleteEventView::Node(Err(seen))
                && seen == error,
            DeleteEvent::User(Ok(value)) => event.deep_view() matches DeleteEventView::User(Ok(seen))
                && seen == value.deep_view(),
            DeleteEvent::User(Err(error)) => event.deep_view() matches DeleteEventView::User(Err(seen))
                && seen == error,
            DeleteEvent::Workspace(made) => event.deep_view() matches DeleteEventView::Workspace(seen)
                && seen == made,
            DeleteEvent::Removed(removed) => event.deep_view() matches DeleteEventView::Removed(seen)
                && seen == removed,
            DeleteEvent::Committed(Ok(value)) => event.deep_view() matches DeleteEventView::Committed(Ok(seen))
                && seen == value.deep_view(),
            DeleteEvent::Committed(Err(error)) => event.deep_view() matches DeleteEventView::Committed(Err(seen))
                && seen == error,
        },
{
}

/// What a move is told is seen as it is told.
pub proof fn law_move_events_are_seen<E>(event: MoveEvent<E>)
    ensures
        match event {
            MoveEvent::Received => event.deep_view() is Received,
            MoveEvent::Resource(Ok(value)) => event.deep_view() matches MoveEventView::Resource(Ok(seen))
                && seen == value.deep_view(),
            MoveEvent::Resource(Err(error)) => event.deep_view() matches MoveEventView::Resource(Err(seen))
                && seen == error,
            MoveEvent::Body(Ok(value)) => event.deep_view() matches MoveEventView::Body(Ok(seen))
                && seen == value.deep_view(),
            MoveEvent::Body(Err(error)) => event.deep_view() matches MoveEventView::Body(Err(seen))
                && seen == error,
            MoveEvent::NewPath(Ok(value)) => event.deep_view() matches MoveEventView::NewPath(Ok(seen))
                && seen == value.deep_view(),
            MoveEvent::NewPath(Err(error)) => event.deep_view() matches MoveEventView::NewPath(Err(seen))
                && seen == error,
            MoveEvent::Source(there) => event.deep_view() matches MoveEventView::Source(seen)
                && seen == there,
            MoveEvent::Taken(taken) => event.deep_view() matches MoveEventView::Taken(seen)
                && seen == taken,
            MoveEvent::Workspace(made) => event.deep_view() matches MoveEventView::Workspace(seen)
                && seen == made,
            MoveEvent::Moved(moved) => event.deep_view() matches MoveEventView::Moved(seen)
                && seen == moved,
            MoveEvent::Committed(Ok(value)) => event.deep_view() matches MoveEventView::Committed(Ok(seen))
                && seen == value.deep_view(),
            MoveEvent::Committed(Err(error)) => event.deep_view() matches MoveEventView::Committed(Err(seen))
                && seen == error,
        },
{
}

/// What an import is told is seen as it is told.
pub proof fn law_import_events_are_seen<E>(event: ImportEvent<E>)
    ensures
        match event {
            ImportEvent::Received(request) => event.deep_view() matches ImportEventView::Received(seen)
                && seen == request.deep_view(),
            ImportEvent::Resource(Ok(value)) => event.deep_view() matches ImportEventView::Resource(Ok(seen))
                && seen == value.deep_view(),
            ImportEvent::Resource(Err(error)) => event.deep_view() matches ImportEventView::Resource(Err(seen))
                && seen == error,
            ImportEvent::Node(Ok(value)) => event.deep_view() matches ImportEventView::Node(Ok(seen))
                && seen == value.deep_view(),
            ImportEvent::Node(Err(error)) => event.deep_view() matches ImportEventView::Node(Err(seen))
                && seen == error,
            ImportEvent::Workspace(made) => event.deep_view() matches ImportEventView::Workspace(seen)
                && seen == made,
            ImportEvent::Downloaded(done) => event.deep_view() matches ImportEventView::Downloaded(seen)
                && seen == done,
            ImportEvent::Committed(Ok(value)) => event.deep_view() matches ImportEventView::Committed(Ok(seen))
                && seen == value.deep_view(),
            ImportEvent::Committed(Err(error)) => event.deep_view() matches ImportEventView::Committed(Err(seen))
                && seen == error,
        },
{
}

/// What an authentication is told is seen as it is told.
pub proof fn law_auth_events_are_seen<E>(event: AuthEvent<E>)
    ensures
        match event {
            AuthEvent::Received(header) => event.deep_view() matches AuthEventView::Received(seen)
                && same_header(seen, header),
            AuthEvent::Claim(Ok(value)) => event.deep_view() matches AuthEventView::Claim(Ok(seen))
                && seen == value.deep_view(),
            AuthEvent::Claim(Err(error)) => event.deep_view() matches AuthEventView::Claim(Err(seen))
                && seen == error,
        },
{
}

/// What the reading of a form is told is seen as it is told.
pub proof fn law_multipart_events_are_seen<E>(event: MultipartEvent<E>)
    ensures
        match event {
            MultipartEvent::Begin => event.deep_view() is Begin,
            MultipartEvent::Field(disposition) => event.deep_view() matches MultipartEventView::Field(seen)
                && seen == disposition.deep_view(),
            MultipartEvent::FormEnd => event.deep_view() is FormEnd,
            MultipartEvent::Chunk(bytes) => event.deep_view() matches MultipartEventView::Chunk(seen)
                && seen == bytes@,
            MultipartEvent::FieldEnd => event.deep_view() is FieldEnd,
            MultipartEvent::Broken(error) => event.deep_view() matches MultipartEventView::Broken(seen)
                && seen == error,
        },
{
}

/// What the reading of a raw payload is told is seen as it is told.
pub proof fn law_raw_events_are_seen(event: RawEvent)
    ensures
        match event {
            RawEvent::Received(request) => event.deep_view() matches RawEventView::Received(seen)
                && seen == request.deep_view(),
            RawEvent::Chunk(bytes) => event.deep_view() matches RawEventView::Chunk(seen)
                && seen == bytes@,
            RawEvent::End => event.deep_view() is End,
            RawEvent::Broken(message) => event.deep_view() matches RawEventView::Broken(seen)
                && seen == message@,
        },
{
}

/// What the `init` command is told is seen as it is told.
pub proof fn law_init_events_are_seen<E>(event: InitEvent<E>)
    ensures
        match event {
            InitEvent::Called(args) => event.deep_view() matches InitEventView::Called(seen)
                && seen == args.deep_view(),
            InitEvent::Version(Ok(value)) => event.deep_view() matches InitEventView::Version(Ok(seen))
                && seen == value.deep_view(),
            InitEvent::Version(Err(error)) => event.deep_view() matches InitEventView::Version(Err(seen))
                && seen == error,
            InitEvent::Host(Ok(value)) => event.deep_view() matches InitEventView::Host(Ok(seen))
                && seen == value.deep_view(),
            InitEvent::Host(Err(error)) => event.deep_view() matches InitEventView::Host(Err(seen))
                && seen == error,
            InitEvent::RemoteChecked(checked) => event.deep_view() matches InitEventView::RemoteChecked(seen)
                && seen == checked,
            InitEvent::Directory(Ok(value)) => event.deep_view() matches InitEventView::Directory(Ok(seen))
                && seen == value.deep_view(),
            InitEvent::Directory(Err(error)) => event.deep_view() matches InitEventView::Directory(Err(seen))
                && seen == error,
            InitEvent::Initialized(made) => event.deep_view() matches InitEventView::Initialized(seen)
                && seen == made,
            InitEvent::Announced => event.deep_view() is Announced,
        },
{
}

} // verus!
