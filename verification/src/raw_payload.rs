//! Reading an upload whose payload is the contents of one file.

use vstd::pervasive::unreached;
use vstd::prelude::*;
use vstd::string::StringExecFns;
use vstd::utf8::{decode_utf8, decode_utf8_encode_utf8, valid_utf8};

use crate::model::{
    answer_view, FileContents, FileContentsView, HttpError, HttpErrorView, TempFileNew,
    TempFileNewView, UploadForm, UploadFormView,
};
use crate::multipart::assembled;
use crate::outside::{utf8_lossy, utf8_text_lossy};
use crate::staging::written_bytes;
use crate::text::{
    ends_with, header_bytes, last_segment, optional_header_text, read_header, split_at_each,
};

verus! {

/// What the reading of a raw payload takes from its request.
#[derive(Debug, PartialEq, Eq)]
pub struct RawRequest {
    /// The path of the URL.
    pub path: String,
    /// `oxen-commit-message`
    pub commit_message: Option<Vec<u8>>,
}

/// The model of a `RawRequest`.
pub struct RawRequestView {
    pub path: Seq<char>,
    pub commit_message: Option<Seq<u8>>,
}

impl DeepView for RawRequest {
    type V = RawRequestView;

    open spec fn deep_view(&self) -> RawRequestView {
        RawRequestView { path: self.path@, commit_message: header_bytes(self.commit_message) }
    }
}

/// How far the reading of a raw payload has come, and what it has found.
#[derive(Debug, PartialEq, Eq)]
pub enum RawState {
    Start,
    Reading { request: RawRequest, bytes: Vec<u8> },
    Done,
}

/// The model of a `RawState`.
pub enum RawStateView {
    Start,
    Reading { request: RawRequestView, bytes: Seq<u8> },
    Done,
}

impl DeepView for RawState {
    type V = RawStateView;

    open spec fn deep_view(&self) -> RawStateView {
        match self {
            RawState::Start => RawStateView::Start,
            RawState::Reading { request, bytes } => RawStateView::Reading {
                request: request.deep_view(),
                bytes: bytes@,
            },
            RawState::Done => RawStateView::Done,
        }
    }
}

/// What the reading of a raw payload is told.
#[derive(Debug, PartialEq, Eq)]
pub enum RawEvent {
    Received(RawRequest),
    /// The payload goes on.
    Chunk(Vec<u8>),
    /// The payload is over.
    End,
    /// The payload cannot be read any further; this is what the error says.
    Broken(String),
}

/// The model of a `RawEvent`.
pub enum RawEventView {
    Received(RawRequestView),
    Chunk(Seq<u8>),
    End,
    Broken(Seq<char>),
}

impl DeepView for RawEvent {
    type V = RawEventView;

    open spec fn deep_view(&self) -> RawEventView {
        match self {
            RawEvent::Received(request) => RawEventView::Received(request.deep_view()),
            RawEvent::Chunk(bytes) => RawEventView::Chunk(bytes@),
            RawEvent::End => RawEventView::End,
            RawEvent::Broken(message) => RawEventView::Broken(message@),
        }
    }
}

/// What the reading of a raw payload asks for next; `Finish` ends it.
#[derive(Debug, PartialEq, Eq)]
pub enum RawAction<E> {
    NextChunk,
    Finish(Result<UploadForm, HttpError<E>>),
}

/// The model of a `RawAction`.
pub enum RawActionView<E> {
    NextChunk,
    Finish(Result<UploadFormView, HttpErrorView<E>>),
}

impl<E> DeepView for RawAction<E> {
    type V = RawActionView<E>;

    open spec fn deep_view(&self) -> RawActionView<E> {
        match self {
            RawAction::NextChunk => RawActionView::NextChunk,
            RawAction::Finish(form) => RawActionView::Finish(answer_view(*form)),
        }
    }
}

/// Whether an event can follow in a state: it is one that the last action asked for.
pub open spec fn raw_expects(state: RawStateView, event: RawEventView) -> bool {
    match state {
        RawStateView::Start => event is Received,
        RawStateView::Reading { .. } => event is Chunk || event is End || event is Broken,
        RawStateView::Done => false,
    }
}

/// The upload that a raw payload makes: one file with the text of the payload, called like
/// the last part of the URL, and the message of the header.
pub open spec fn raw_form(request: RawRequestView, text: Seq<char>) -> UploadFormView {
    UploadFormView {
        name: None,
        email: None,
        message: optional_header_text(request.commit_message),
        files: seq![
            TempFileNewView {
                path: last_segment(request.path),
                contents: FileContentsView::Text(text),
            },
        ],
    }
}

/// Whether a path is written as that of a directory.
pub open spec fn ends_with_slash(path: Seq<char>) -> bool {
    path.len() > 0 && path.last() == '/'
}

/// What the reading of a raw payload does on an event; `text` is what the bytes that were
/// read so far say.
pub open spec fn raw_step<E>(state: RawStateView, event: RawEventView, text: Seq<char>) -> (
    RawStateView,
    RawActionView<E>,
) {
    match (state, event) {
        (RawStateView::Start, RawEventView::Received(request)) => {
            if ends_with_slash(request.path) {
                (
                    RawStateView::Done,
                    RawActionView::Finish(
                        Err(
                            HttpErrorView::BadRequest(
                                "Cannot PUT to a directory path. Path cannot end with '/'"@,
                            ),
                        ),
                    ),
                )
            } else {
                (
                    RawStateView::Reading { request, bytes: Seq::empty() },
                    RawActionView::NextChunk,
                )
            }
        },
        (RawStateView::Reading { request, bytes }, RawEventView::Chunk(chunk)) => (
            RawStateView::Reading { request, bytes: bytes + chunk },
            RawActionView::NextChunk,
        ),
        (RawStateView::Reading { request, bytes }, RawEventView::End) => (
            RawStateView::Done,
            RawActionView::Finish(Ok(raw_form(request, text))),
        ),
        (_, RawEventView::Broken(message)) => (
            RawStateView::Done,
            RawActionView::Finish(Err(HttpErrorView::BadRequest("Payload error: "@ + message))),
        ),
        _ => arbitrary(),
    }
}

/// The bytes that were read so far.
pub open spec fn raw_bytes(state: RawStateView) -> Seq<u8> {
    match state {
        RawStateView::Reading { bytes, .. } => bytes,
        _ => Seq::empty(),
    }
}

/// The name of the file that a raw payload is uploaded to.
pub fn raw_filename(path: &str) -> (name: String)
    ensures
        name@ == last_segment(path@),
{
    let mut pieces = split_at_each(path, '/');
    let ghost all = pieces.deep_view();
    let last = pieces.pop();
    match last {
        Some(name) => {
            assert(all.last() == name@);
            name
        },
        None => unreached(),
    }
}

/// Makes an upload of the text of a raw payload.
pub fn make_raw_form(request: RawRequest, text: String) -> (form: UploadForm)
    ensures
        form.deep_view() == raw_form(request.deep_view(), text@),
{
    let file = TempFileNew {
        path: raw_filename(request.path.as_str()),
        contents: FileContents::Text(text),
    };
    let mut files: Vec<TempFileNew> = Vec::new();
    let ghost only = file.deep_view();
    files.push(file);
    assert(files.deep_view() == seq![only]);
    UploadForm { name: None, email: None, message: read_header(&request.commit_message), files }
}

/// Reads a raw payload, with the text given that the bytes read so far say: takes the reading
/// one event further.
pub fn read_raw_payload<E>(state: RawState, event: RawEvent, text: String) -> (step: (
    RawState,
    RawAction<E>,
))
    requires
        raw_expects(state.deep_view(), event.deep_view()),
    ensures
        (step.0.deep_view(), step.1.deep_view()) == raw_step::<E>(
            state.deep_view(),
            event.deep_view(),
            text@,
        ),
{
    match (state, event) {
        (RawState::Start, RawEvent::Received(request)) => {
            proof {
                reveal_strlit("/");
                let path = request.path@;
                if ends_with_slash(path) {
                    assert(path.subrange(path.len() - 1, path.len() as int) == "/"@);
                } else if "/"@.is_suffix_of(path) {
                    assert(path.subrange(path.len() - 1, path.len() as int)[0] == '/');
                }
            }
            if ends_with(request.path.as_str(), "/") {
                (
                    RawState::Done,
                    RawAction::Finish(
                        Err(
                            HttpError::BadRequest(
                                "Cannot PUT to a directory path. Path cannot end with '/'".to_owned(),
                            ),
                        ),
                    ),
                )
            } else {
                (RawState::Reading { request, bytes: Vec::new() }, RawAction::NextChunk)
            }
        },
        (RawState::Reading { request, bytes }, RawEvent::Chunk(chunk)) => {
            let mut bytes = bytes;
            let mut chunk = chunk;
            bytes.append(&mut chunk);
            (RawState::Reading { request, bytes }, RawAction::NextChunk)
        },
        (RawState::Reading { request, bytes }, RawEvent::End) => (
            RawState::Done,
            RawAction::Finish(Ok(make_raw_form(request, text))),
        ),
        (_, RawEvent::Broken(message)) => {
            let mut complaint = "Payload error: ".to_owned();
            complaint.append(message.as_str());
            (RawState::Done, RawAction::Finish(Err(HttpError::BadRequest(complaint))))
        },
        _ => unreached(),
    }
}

/// Reads a payload that is the contents of one file: takes the reading one event further.
/// What is not UTF-8 in it is replaced.
pub fn parse_raw_payload<E>(state: RawState, event: RawEvent) -> (step: (RawState, RawAction<E>))
    requires
        raw_expects(state.deep_view(), event.deep_view()),
    ensures
        (step.0.deep_view(), step.1.deep_view()) == raw_step::<E>(
            state.deep_view(),
            event.deep_view(),
            utf8_lossy(raw_bytes(state.deep_view())),
        ),
        step.1.deep_view() matches RawActionView::Finish(Ok(form)) ==> valid_utf8(
            raw_bytes(state.deep_view()),
        ) ==> written_bytes(form.files[0].contents) == raw_bytes(state.deep_view()),
        state.deep_view() matches RawStateView::Reading { request, bytes } ==> event is End
            ==> valid_utf8(bytes) ==> step.1.deep_view() == RawActionView::<E>::Finish(
            Ok(raw_form(request, decode_utf8(bytes))),
        ),
{
    let text = match &state {
        RawState::Reading { bytes, .. } => {
            let text = utf8_text_lossy(bytes);
            proof {
                if valid_utf8(bytes@) {
                    decode_utf8_encode_utf8(bytes@);
                }
            }
            text
        },
        _ => utf8_text_lossy(&Vec::new()),
    };
    read_raw_payload(state, event, text)
}

/// The state of a reading after the first `n` pieces of a payload.
pub open spec fn raw_fed<E>(request: RawRequestView, chunks: Seq<Seq<u8>>, n: int) -> RawStateView
    decreases n,
{
    if n <= 0 {
        raw_step::<E>(RawStateView::Start, RawEventView::Received(request), Seq::empty()).0
    } else {
        raw_step::<E>(
            raw_fed::<E>(request, chunks, n - 1),
            RawEventView::Chunk(chunks[n - 1]),
            Seq::empty(),
        ).0
    }
}

/// What the reading of a raw payload ends with, where after its last piece `broken` tells of
/// an error, if there is one.
pub open spec fn raw_run<E>(
    request: RawRequestView,
    chunks: Seq<Seq<u8>>,
    broken: Option<Seq<char>>,
) -> RawActionView<E> {
    let (state, action) = raw_step::<E>(
        RawStateView::Start,
        RawEventView::Received(request),
        Seq::empty(),
    );
    if action is Finish {
        action
    } else {
        let read = raw_fed::<E>(request, chunks, chunks.len() as int);
        raw_step(
            read,
            match broken {
                Some(message) => RawEventView::Broken(message),
                None => RawEventView::End,
            },
            utf8_lossy(raw_bytes(read)),
        ).1
    }
}

proof fn lemma_raw_fed<E>(request: RawRequestView, chunks: Seq<Seq<u8>>, n: int)
    requires
        0 <= n <= chunks.len(),
        !ends_with_slash(request.path),
    ensures
        raw_fed::<E>(request, chunks, n) == (RawStateView::Reading {
            request,
            bytes: assembled(chunks, n),
        }),
    decreases n,
{
    if n > 0 {
        lemma_raw_fed::<E>(request, chunks, n - 1);
    }
}

/// However a raw payload is cut into pieces, it is read as one file that holds the whole of
/// it. A path that ends with a slash is refused before anything is read.
pub proof fn law_raw_payload_is_one_file<E>(
    request: RawRequestView,
    chunks: Seq<Seq<u8>>,
    broken: Option<Seq<char>>,
)
    ensures
        raw_run::<E>(request, chunks, broken) == RawActionView::<E>::Finish(
            if ends_with_slash(request.path) {
                Err(
                    HttpErrorView::BadRequest(
                        "Cannot PUT to a directory path. Path cannot end with '/'"@,
                    ),
                )
            } else {
                match broken {
                    Some(message) => Err(
                        HttpErrorView::BadRequest("Payload error: "@ + message),
                    ),
                    None => Ok(
                        raw_form(request, utf8_lossy(assembled(chunks, chunks.len() as int))),
                    ),
                }
            },
        ),
{
    if !ends_with_slash(request.path) {
        lemma_raw_fed::<E>(request, chunks, chunks.len() as int);
    }
}

} // verus!
