//! Reading an upload that is a form.

use vstd::pervasive::unreached;
use vstd::prelude::*;
use vstd::utf8::{decode_utf8, valid_utf8};

use crate::model::{
    answer_view, FileContents, FileContentsView, HttpError, HttpErrorView, TempFileNew,
    TempFileNewView, UploadForm, UploadFormView,
};
use crate::outside::{
    is_hex_digit, is_random_uuid, lemma_sanitized_filename_is_kept, random_uuid,
    sanitize_filename, sanitized_filename, utf8_complaint, utf8_text,
};
use crate::staging::written_bytes;
use crate::text::same_text;

verus! {

/// How a field of a form describes itself.
#[derive(Debug, PartialEq, Eq)]
pub struct Disposition {
    pub name: Option<String>,
    pub filename: Option<String>,
}

/// The model of a `Disposition`.
pub struct DispositionView {
    pub name: Option<Seq<char>>,
    pub filename: Option<Seq<char>>,
}

impl DeepView for Disposition {
    type V = DispositionView;

    open spec fn deep_view(&self) -> DispositionView {
        DispositionView { name: self.name.deep_view(), filename: self.filename.deep_view() }
    }
}

/// A field that is being read.
#[derive(Debug, PartialEq, Eq)]
pub enum OpenField {
    Name,
    Email,
    Message,
    /// A file, with the name that it is kept under.
    File(String),
}

/// The model of an `OpenField`.
pub enum OpenFieldView {
    Name,
    Email,
    Message,
    File(Seq<char>),
}

impl DeepView for OpenField {
    type V = OpenFieldView;

    open spec fn deep_view(&self) -> OpenFieldView {
        match self {
            OpenField::Name => OpenFieldView::Name,
            OpenField::Email => OpenFieldView::Email,
            OpenField::Message => OpenFieldView::Message,
            OpenField::File(filename) => OpenFieldView::File(filename@),
        }
    }
}

/// How far the reading of a form has come, and what it has found.
#[derive(Debug, PartialEq, Eq)]
pub enum MultipartState {
    Start,
    BetweenFields { form: UploadForm },
    InField { form: UploadForm, field: OpenField, bytes: Vec<u8> },
    Done,
}

/// The model of a `MultipartState`.
pub enum MultipartStateView {
    Start,
    BetweenFields { form: UploadFormView },
    InField { form: UploadFormView, field: OpenFieldView, bytes: Seq<u8> },
    Done,
}

impl DeepView for MultipartState {
    type V = MultipartStateView;

    open spec fn deep_view(&self) -> MultipartStateView {
        match self {
            MultipartState::Start => MultipartStateView::Start,
            MultipartState::BetweenFields { form } => MultipartStateView::BetweenFields {
                form: form.deep_view(),
            },
            MultipartState::InField { form, field, bytes } => MultipartStateView::InField {
                form: form.deep_view(),
                field: field.deep_view(),
                bytes: bytes@,
            },
            MultipartState::Done => MultipartStateView::Done,
        }
    }
}

/// What the reading of a form is told.
#[derive(Debug, PartialEq, Eq)]
pub enum MultipartEvent<E> {
    Begin,
    /// There is another field, with or without a disposition.
    Field(Option<Disposition>),
    /// There are no more fields.
    FormEnd,
    /// The field goes on.
    Chunk(Vec<u8>),
    /// The field is over.
    FieldEnd,
    /// The payload cannot be read any further.
    Broken(E),
}

/// The model of a `MultipartEvent`.
pub enum MultipartEventView<E> {
    Begin,
    Field(Option<DispositionView>),
    FormEnd,
    Chunk(Seq<u8>),
    FieldEnd,
    Broken(E),
}

impl<E> DeepView for MultipartEvent<E> {
    type V = MultipartEventView<E>;

    open spec fn deep_view(&self) -> MultipartEventView<E> {
        match self {
            MultipartEvent::Begin => MultipartEventView::Begin,
            MultipartEvent::Field(disposition) => MultipartEventView::Field(
                disposition.deep_view(),
            ),
            MultipartEvent::FormEnd => MultipartEventView::FormEnd,
            MultipartEvent::Chunk(bytes) => MultipartEventView::Chunk(bytes@),
            MultipartEvent::FieldEnd => MultipartEventView::FieldEnd,
            MultipartEvent::Broken(error) => MultipartEventView::Broken(*error),
        }
    }
}

/// What the reading of a form asks for next; `Finish` ends it.
#[derive(Debug, PartialEq, Eq)]
pub enum MultipartAction<E> {
    NextField,
    NextChunk,
    Finish(Result<UploadForm, HttpError<E>>),
}

/// The model of a `MultipartAction`.
pub enum MultipartActionView<E> {
    NextField,
    NextChunk,
    Finish(Result<UploadFormView, HttpErrorView<E>>),
}

impl<E> DeepView for MultipartAction<E> {
    type V = MultipartActionView<E>;

    open spec fn deep_view(&self) -> MultipartActionView<E> {
        match self {
            MultipartAction::NextField => MultipartActionView::NextField,
            MultipartAction::NextChunk => MultipartActionView::NextChunk,
            MultipartAction::Finish(form) => MultipartActionView::Finish(answer_view(*form)),
        }
    }
}

/// A form without fields.
pub open spec fn empty_form() -> UploadFormView {
    UploadFormView { name: None, email: None, message: None, files: Seq::empty() }
}

/// The field that a name stands for; a file is kept under `filename`. Fields with other names
/// are passed over.
pub open spec fn opened_field(name: Seq<char>, filename: Seq<char>) -> Option<OpenFieldView> {
    if name == "name"@ {
        Some(OpenFieldView::Name)
    } else if name == "email"@ {
        Some(OpenFieldView::Email)
    } else if name == "message"@ {
        Some(OpenFieldView::Message)
    } else if name == "files[]"@ || name == "file"@ {
        Some(OpenFieldView::File(filename))
    } else {
        None
    }
}

/// Whether an event begins a field that is a file.
pub open spec fn begins_file<E>(event: MultipartEventView<E>) -> bool {
    match event {
        MultipartEventView::Field(Some(DispositionView { name: Some(name), .. })) => {
            name == "files[]"@ || name == "file"@
        },
        _ => false,
    }
}

/// Whether a file can be kept under `filename`: that is the name it was uploaded with, made
/// fit for a file system (for that of Windows where the server is built for it), or a random
/// one where it came without a name.
pub open spec fn is_upload_name(
    on_windows: bool,
    uploaded: Option<Seq<char>>,
    filename: Seq<char>,
) -> bool {
    match uploaded {
        Some(name) => filename == sanitized_filename(name, on_windows),
        None => is_random_uuid(filename),
    }
}

/// Whether `filename` is fit for the file that an event begins, where it begins one.
pub open spec fn names_upload<E>(
    on_windows: bool,
    event: MultipartEventView<E>,
    filename: Seq<char>,
) -> bool {
    begins_file(event) ==> is_upload_name(on_windows, event->Field_0->0.filename, filename)
}

/// Whether an event begins a file that comes without a name.
pub open spec fn begins_unnamed_file<E>(event: MultipartEventView<E>) -> bool {
    begins_file(event) && event->Field_0->0.filename is None
}

/// The name that a file which an event begins is kept under, where it comes with one.
pub open spec fn kept_name<E>(on_windows: bool, event: MultipartEventView<E>) -> Seq<char> {
    match event {
        MultipartEventView::Field(Some(DispositionView { filename: Some(name), .. })) => {
            sanitized_filename(name, on_windows)
        },
        _ => Seq::empty(),
    }
}

/// The text of a field, where it is valid UTF-8.
pub open spec fn field_text(bytes: Seq<u8>) -> Option<Seq<char>> {
    if valid_utf8(bytes) {
        Some(decode_utf8(bytes))
    } else {
        None
    }
}

/// A form with one field more. A message must be valid UTF-8; a name or an email that is not
/// counts as missing.
pub open spec fn closed_field<E>(
    form: UploadFormView,
    field: OpenFieldView,
    bytes: Seq<u8>,
) -> Result<UploadFormView, HttpErrorView<E>> {
    match field {
        OpenFieldView::Name => Ok(UploadFormView { name: field_text(bytes), ..form }),
        OpenFieldView::Email => Ok(UploadFormView { email: field_text(bytes), ..form }),
        OpenFieldView::Message => match field_text(bytes) {
            Some(text) => Ok(UploadFormView { message: Some(text), ..form }),
            None => Err(HttpErrorView::BadRequest(utf8_complaint(bytes))),
        },
        OpenFieldView::File(filename) => Ok(
            UploadFormView {
                files: form.files.push(
                    TempFileNewView { path: filename, contents: FileContentsView::Binary(bytes) },
                ),
                ..form
            },
        ),
    }
}

/// Whether an event can follow in a state: it is one that the last action asked for.
pub open spec fn multipart_expects<E>(
    state: MultipartStateView,
    event: MultipartEventView<E>,
) -> bool {
    match state {
        MultipartStateView::Start => event is Begin,
        MultipartStateView::BetweenFields { .. } => event is Field || event is FormEnd
            || event is Broken,
        MultipartStateView::InField { .. } => event is Chunk || event is FieldEnd
            || event is Broken,
        MultipartStateView::Done => false,
    }
}

/// The reading is over, with an error.
pub open spec fn multipart_failed<E>(error: HttpErrorView<E>) -> (
    MultipartStateView,
    MultipartActionView<E>,
) {
    (MultipartStateView::Done, MultipartActionView::Finish(Err(error)))
}

/// What the reading of a form does on an event; a file that begins is kept under `filename`.
pub open spec fn multipart_step<E>(
    state: MultipartStateView,
    event: MultipartEventView<E>,
    filename: Seq<char>,
) -> (MultipartStateView, MultipartActionView<E>) {
    match (state, event) {
        (MultipartStateView::Start, MultipartEventView::Begin) => (
            MultipartStateView::BetweenFields { form: empty_form() },
            MultipartActionView::NextField,
        ),
        (MultipartStateView::BetweenFields { form }, MultipartEventView::Field(disposition)) => {
            match disposition {
                Some(DispositionView { name: Some(name), .. }) => {
                    match opened_field(name, filename) {
                        Some(field) => (
                            MultipartStateView::InField { form, field, bytes: Seq::empty() },
                            MultipartActionView::NextChunk,
                        ),
                        None => (state, MultipartActionView::NextField),
                    }
                },
                _ => multipart_failed(HttpErrorView::NotFound),
            }
        },
        (MultipartStateView::BetweenFields { form }, MultipartEventView::FormEnd) => (
            MultipartStateView::Done,
            MultipartActionView::Finish(Ok(form)),
        ),
        (MultipartStateView::InField { form, field, bytes }, MultipartEventView::Chunk(chunk)) => (
            MultipartStateView::InField { form, field, bytes: bytes + chunk },
            MultipartActionView::NextChunk,
        ),
        (MultipartStateView::InField { form, field, bytes }, MultipartEventView::FieldEnd) => {
            match closed_field::<E>(form, field, bytes) {
                Err(error) => multipart_failed(error),
                Ok(form) => (
                    MultipartStateView::BetweenFields { form },
                    MultipartActionView::NextField,
                ),
            }
        },
        (_, MultipartEventView::Broken(error)) => multipart_failed(
            HttpErrorView::MultipartError(error),
        ),
        _ => arbitrary(),
    }
}

fn fail<E>(error: HttpError<E>) -> (step: (MultipartState, MultipartAction<E>))
    ensures
        (step.0.deep_view(), step.1.deep_view()) == multipart_failed(error.deep_view()),
{
    (MultipartState::Done, MultipartAction::Finish(Err(error)))
}

/// Tells what field a name stands for.
pub fn open_field(name: &str, filename: String) -> (field: Option<OpenField>)
    ensures
        field.deep_view() == opened_field(name@, filename@),
{
    if same_text(name, "name") {
        Some(OpenField::Name)
    } else if same_text(name, "email") {
        Some(OpenField::Email)
    } else if same_text(name, "message") {
        Some(OpenField::Message)
    } else if same_text(name, "files[]") || same_text(name, "file") {
        Some(OpenField::File(filename))
    } else {
        None
    }
}

/// Adds a field that is read to the end to a form.
pub fn close_field<E>(form: UploadForm, field: OpenField, bytes: Vec<u8>) -> (closed: Result<
    UploadForm,
    HttpError<E>,
>)
    ensures
        answer_view(closed) == closed_field::<E>(form.deep_view(), field.deep_view(), bytes@),
{
    let mut form = form;
    match field {
        OpenField::Name => {
            form.name = utf8_text(bytes).ok();
            Ok(form)
        },
        OpenField::Email => {
            form.email = utf8_text(bytes).ok();
            Ok(form)
        },
        OpenField::Message => match utf8_text(bytes) {
            Ok(text) => {
                form.message = Some(text);
                Ok(form)
            },
            Err(complaint) => Err(HttpError::BadRequest(complaint)),
        },
        OpenField::File(filename) => {
            let file = TempFileNew { path: filename, contents: FileContents::Binary(bytes) };
            let ghost before = form.files.deep_view();
            let ghost added = file.deep_view();
            form.files.push(file);
            assert(form.files.deep_view() == before.push(added));
            Ok(form)
        },
    }
}

/// Reads a form, with the name given that a file which begins is kept under: takes the
/// reading one event further.
pub fn read_form<E>(state: MultipartState, event: MultipartEvent<E>, filename: String) -> (step: (
    MultipartState,
    MultipartAction<E>,
))
    requires
        multipart_expects(state.deep_view(), event.deep_view()),
    ensures
        (step.0.deep_view(), step.1.deep_view()) == multipart_step(
            state.deep_view(),
            event.deep_view(),
            filename@,
        ),
{
    match (state, event) {
        (MultipartState::Start, MultipartEvent::Begin) => {
            let form = UploadForm { name: None, email: None, message: None, files: Vec::new() };
            assert(form.files.deep_view() == Seq::<TempFileNewView>::empty());
            (MultipartState::BetweenFields { form }, MultipartAction::NextField)
        },
        (MultipartState::BetweenFields { form }, MultipartEvent::Field(disposition)) => {
            match disposition {
                None => fail(HttpError::NotFound),
                Some(disposition) => match disposition.name {
                    None => fail(HttpError::NotFound),
                    Some(name) => match open_field(name.as_str(), filename) {
                        Some(field) => (
                            MultipartState::InField { form, field, bytes: Vec::new() },
                            MultipartAction::NextChunk,
                        ),
                        None => (
                            MultipartState::BetweenFields { form },
                            MultipartAction::NextField,
                        ),
                    },
                },
            }
        },
        (MultipartState::BetweenFields { form }, MultipartEvent::FormEnd) => (
            MultipartState::Done,
            MultipartAction::Finish(Ok(form)),
        ),
        (MultipartState::InField { form, field, bytes }, MultipartEvent::Chunk(chunk)) => {
            let mut bytes = bytes;
            let mut chunk = chunk;
            bytes.append(&mut chunk);
            (MultipartState::InField { form, field, bytes }, MultipartAction::NextChunk)
        },
        (MultipartState::InField { form, field, bytes }, MultipartEvent::FieldEnd) => {
            match close_field(form, field, bytes) {
                Err(error) => fail(error),
                Ok(form) => (MultipartState::BetweenFields { form }, MultipartAction::NextField),
            }
        },
        (_, MultipartEvent::Broken(error)) => fail(HttpError::MultipartError(error)),
        _ => unreached(),
    }
}

/// Finds a name that the file which an event begins can be kept under.
pub fn name_upload<E>(on_windows: bool, event: &MultipartEvent<E>) -> (filename: String)
    ensures
        names_upload(on_windows, event.deep_view(), filename@),
{
    match event {
        MultipartEvent::Field(Some(disposition)) => match &disposition.name {
            Some(name) => {
                if same_text(name.as_str(), "files[]") || same_text(name.as_str(), "file") {
                    match &disposition.filename {
                        Some(uploaded) => sanitize_filename(uploaded.as_str(), on_windows),
                        None => random_uuid(),
                    }
                } else {
                    String::new()
                }
            },
            None => String::new(),
        },
        _ => String::new(),
    }
}

/// Reads the fields of a form: takes the reading one event further. `on_windows` says whether
/// file names have to be fit for Windows. Of the files that came without a name each gets a
/// random one.
pub fn parse_multipart_fields<E>(
    on_windows: bool,
    state: MultipartState,
    event: MultipartEvent<E>,
) -> (step: (MultipartState, MultipartAction<E>))
    requires
        multipart_expects(state.deep_view(), event.deep_view()),
    ensures
        exists|filename: Seq<char>| #[trigger]
            names_upload(on_windows, event.deep_view(), filename) && (
            step.0.deep_view(),
            step.1.deep_view(),
        ) == multipart_step(state.deep_view(), event.deep_view(), filename),
        !begins_unnamed_file(event.deep_view()) ==> (step.0.deep_view(), step.1.deep_view())
            == multipart_step(
            state.deep_view(),
            event.deep_view(),
            kept_name(on_windows, event.deep_view()),
        ),
{
    let filename = name_upload(on_windows, &event);
    assert(names_upload(on_windows, event.deep_view(), filename@));
    read_form(state, event, filename)
}

/// A field of a form, as it comes in: its disposition, its bytes in pieces, and the error
/// that it ends with where it cannot be read to the end.
pub struct FormFieldView<E> {
    pub disposition: Option<DispositionView>,
    pub chunks: Seq<Seq<u8>>,
    pub broken: Option<E>,
}

/// The first `n` pieces of a field in one.
pub open spec fn assembled(chunks: Seq<Seq<u8>>, n: int) -> Seq<u8>
    decreases n,
{
    if n <= 0 {
        Seq::empty()
    } else {
        assembled(chunks, n - 1) + chunks[n - 1]
    }
}

/// The state of a reading after the first `n` pieces of a field.
pub open spec fn fed_chunks<E>(
    state: MultipartStateView,
    chunks: Seq<Seq<u8>>,
    n: int,
) -> MultipartStateView
    decreases n,
{
    if n <= 0 {
        state
    } else {
        multipart_step(
            fed_chunks::<E>(state, chunks, n - 1),
            MultipartEventView::<E>::Chunk(chunks[n - 1]),
            Seq::empty(),
        ).0
    }
}

/// What a reading does on a whole field; a file is kept under `filename`.
pub open spec fn fed_field<E>(
    state: MultipartStateView,
    field: FormFieldView<E>,
    filename: Seq<char>,
) -> (MultipartStateView, MultipartActionView<E>) {
    let (opened, action) = multipart_step(
        state,
        MultipartEventView::Field(field.disposition),
        filename,
    );
    if action is NextChunk {
        let read = fed_chunks::<E>(opened, field.chunks, field.chunks.len() as int);
        multipart_step(
            read,
            match field.broken {
                Some(error) => MultipartEventView::Broken(error),
                None => MultipartEventView::FieldEnd,
            },
            Seq::empty(),
        )
    } else {
        (opened, action)
    }
}

/// What a reading does on the first `n` fields of a form, where file `i` is kept under
/// `filenames[i]`.
pub open spec fn fed_fields<E>(
    fields: Seq<FormFieldView<E>>,
    filenames: Seq<Seq<char>>,
    n: int,
) -> (MultipartStateView, MultipartActionView<E>)
    decreases n,
{
    if n <= 0 {
        multipart_step(
            MultipartStateView::Start,
            MultipartEventView::<E>::Begin,
            Seq::empty(),
        )
    } else {
        let (state, action) = fed_fields(fields, filenames, n - 1);
        if action is Finish {
            (state, action)
        } else {
            fed_field(state, fields[n - 1], filenames[n - 1])
        }
    }
}

/// What the reading of a form ends with, where after its last field `broken` tells of an
/// error, if there is one.
pub open spec fn multipart_run<E>(
    fields: Seq<FormFieldView<E>>,
    filenames: Seq<Seq<char>>,
    broken: Option<E>,
) -> MultipartActionView<E> {
    let (state, action) = fed_fields(fields, filenames, fields.len() as int);
    if action is Finish {
        action
    } else {
        multipart_step(
            state,
            match broken {
                Some(error) => MultipartEventView::Broken(error),
                None => MultipartEventView::FormEnd,
            },
            Seq::empty(),
        ).1
    }
}

/// A form with one field more, or why the field cannot be taken.
pub open spec fn with_field<E>(
    form: UploadFormView,
    field: FormFieldView<E>,
    filename: Seq<char>,
) -> Result<UploadFormView, HttpErrorView<E>> {
    match field.disposition {
        Some(DispositionView { name: Some(name), .. }) => match opened_field(name, filename) {
            None => Ok(form),
            Some(open) => match field.broken {
                Some(error) => Err(HttpErrorView::MultipartError(error)),
                None => closed_field(
                    form,
                    open,
                    assembled(field.chunks, field.chunks.len() as int),
                ),
            },
        },
        _ => Err(HttpErrorView::NotFound),
    }
}

/// The form that the first `n` fields make, or why they make none.
pub open spec fn form_of<E>(
    fields: Seq<FormFieldView<E>>,
    filenames: Seq<Seq<char>>,
    n: int,
) -> Result<UploadFormView, HttpErrorView<E>>
    decreases n,
{
    if n <= 0 {
        Ok(empty_form())
    } else {
        match form_of(fields, filenames, n - 1) {
            Err(error) => Err(error),
            Ok(form) => with_field(form, fields[n - 1], filenames[n - 1]),
        }
    }
}

proof fn lemma_fed_chunks<E>(
    form: UploadFormView,
    field: OpenFieldView,
    chunks: Seq<Seq<u8>>,
    n: int,
)
    requires
        0 <= n <= chunks.len(),
    ensures
        fed_chunks::<E>(
            MultipartStateView::InField { form, field, bytes: Seq::empty() },
            chunks,
            n,
        ) == (MultipartStateView::InField { form, field, bytes: assembled(chunks, n) }),
    decreases n,
{
    if n > 0 {
        lemma_fed_chunks::<E>(form, field, chunks, n - 1);
    }
}

proof fn lemma_fed_fields<E>(
    fields: Seq<FormFieldView<E>>,
    filenames: Seq<Seq<char>>,
    n: int,
)
    requires
        0 <= n <= fields.len(),
    ensures
        fed_fields(fields, filenames, n) == match form_of(fields, filenames, n) {
            Ok(form) => (
                MultipartStateView::BetweenFields { form },
                MultipartActionView::NextField,
            ),
            Err(error) => multipart_failed(error),
        },
    decreases n,
{
    if n > 0 {
        lemma_fed_fields(fields, filenames, n - 1);
        if let Ok(form) = form_of(fields, filenames, n - 1) {
            let field = fields[n - 1];
            if let Some(DispositionView { name: Some(name), .. }) = field.disposition {
                if let Some(open) = opened_field(name, filenames[n - 1]) {
                    lemma_fed_chunks::<E>(form, open, field.chunks, field.chunks.len() as int);
                }
            }
        }
    }
}

/// However the bytes of its fields are cut into pieces, a form is read as what its fields
/// say, one after the other, up to the first that cannot be taken.
pub proof fn law_form_is_read_field_by_field<E>(
    fields: Seq<FormFieldView<E>>,
    filenames: Seq<Seq<char>>,
    broken: Option<E>,
)
    ensures
        multipart_run(fields, filenames, broken) == MultipartActionView::Finish(
            match (form_of(fields, filenames, fields.len() as int), broken) {
                (Err(error), _) => Err(error),
                (Ok(_), Some(error)) => Err(HttpErrorView::MultipartError(error)),
                (Ok(form), None) => Ok(form),
            },
        ),
{
    lemma_fed_fields(fields, filenames, fields.len() as int);
}

/// The name that an uploaded file is kept under holds no slash.
pub proof fn law_upload_name_has_no_slash(
    on_windows: bool,
    uploaded: Option<Seq<char>>,
    filename: Seq<char>,
)
    requires
        is_upload_name(on_windows, uploaded, filename),
    ensures
        !filename.contains('/'),
{
    if filename.contains('/') {
        let i = choose|i: int| 0 <= i < filename.len() && filename[i] == '/';
        if let Some(name) = uploaded {
            lemma_sanitized_filename_is_kept(name, on_windows, i);
        } else {
            assert(filename[i] == '-' || is_hex_digit(filename[i]));
        }
    }
}

proof fn lemma_form_files_have_no_slash<E>(
    on_windows: bool,
    fields: Seq<FormFieldView<E>>,
    filenames: Seq<Seq<char>>,
    n: int,
)
    requires
        0 <= n <= fields.len(),
        forall|i: int|
            0 <= i < fields.len() ==> names_upload(
                on_windows,
                MultipartEventView::<E>::Field((#[trigger] fields[i]).disposition),
                filenames[i],
            ),
    ensures
        form_of(fields, filenames, n) matches Ok(form) ==> forall|j: int|
            0 <= j < form.files.len() ==> !(#[trigger] form.files[j]).path.contains('/'),
    decreases n,
{
    if n > 0 {
        lemma_form_files_have_no_slash(on_windows, fields, filenames, n - 1);
        let field = fields[n - 1];
        let event = MultipartEventView::<E>::Field(field.disposition);
        assert(names_upload(on_windows, event, filenames[n - 1]));
        if begins_file(event) {
            law_upload_name_has_no_slash(
                on_windows,
                field.disposition->0.filename,
                filenames[n - 1],
            );
        }
    }
}

/// Whatever the names of its files are made of, every file of a form that was read has a name
/// without a slash: it names a place in one directory and nowhere else.
pub proof fn law_form_files_have_no_slash<E>(
    on_windows: bool,
    fields: Seq<FormFieldView<E>>,
    filenames: Seq<Seq<char>>,
    broken: Option<E>,
)
    requires
        forall|i: int|
            0 <= i < fields.len() ==> names_upload(
                on_windows,
                MultipartEventView::<E>::Field((#[trigger] fields[i]).disposition),
                filenames[i],
            ),
    ensures
        multipart_run(fields, filenames, broken) matches MultipartActionView::Finish(Ok(form))
            ==> forall|j: int|
            0 <= j < form.files.len() ==> !(#[trigger] form.files[j]).path.contains('/'),
{
    law_form_is_read_field_by_field(fields, filenames, broken);
    lemma_form_files_have_no_slash(on_windows, fields, filenames, fields.len() as int);
}

/// A file that is uploaded in a form is kept behind those before it, under its name, and with
/// all its bytes: they are what is written in the end.
pub proof fn law_form_keeps_the_bytes_of_a_file<E>(
    form: UploadFormView,
    field: FormFieldView<E>,
    filename: Seq<char>,
)
    requires
        begins_file(MultipartEventView::<E>::Field(field.disposition)),
        field.broken is None,
    ensures
        with_field(form, field, filename) matches Ok(longer) && {
            let file = longer.files.last();
            &&& longer.files == form.files.push(file)
            &&& file.path == filename
            &&& written_bytes(file.contents) == assembled(field.chunks, field.chunks.len() as int)
        },
{
    reveal_strlit("name");
    reveal_strlit("email");
    reveal_strlit("message");
    reveal_strlit("files[]");
    reveal_strlit("file");
    assert("file"@[0] != "name"@[0]);
    assert("files[]"@[0] != "message"@[0]);
}

/// Whether a field has a name and can be read to the end.
pub open spec fn is_sound_field<E>(field: FormFieldView<E>) -> bool {
    field.broken is None && (field.disposition matches Some(disposition) && disposition.name is Some)
}

/// What a field says about the commit: that it is its message or one of its files, and with
/// which bytes. Any other field says nothing about it.
pub open spec fn said_of_commit<E>(field: FormFieldView<E>, filename: Seq<char>) -> Option<
    (OpenFieldView, Seq<u8>),
> {
    match field.disposition {
        Some(DispositionView { name: Some(name), .. }) => match opened_field(name, filename) {
            Some(open) if open is Message || open is File => Some(
                (open, assembled(field.chunks, field.chunks.len() as int)),
            ),
            _ => None,
        },
        _ => None,
    }
}

/// All that the first `n` fields say about the commit, in order.
pub open spec fn commit_fields<E>(
    fields: Seq<FormFieldView<E>>,
    filenames: Seq<Seq<char>>,
    n: int,
) -> Seq<(OpenFieldView, Seq<u8>)>
    decreases n,
{
    if n <= 0 {
        Seq::empty()
    } else {
        match said_of_commit(fields[n - 1], filenames[n - 1]) {
            Some(said) => commit_fields(fields, filenames, n - 1).push(said),
            None => commit_fields(fields, filenames, n - 1),
        }
    }
}

/// The message and the files of a form, or why there are none.
pub open spec fn commit_part<E>(form: Result<UploadFormView, HttpErrorView<E>>) -> Result<
    (Option<Seq<char>>, Seq<TempFileNewView>),
    HttpErrorView<E>,
> {
    match form {
        Ok(form) => Ok((form.message, form.files)),
        Err(error) => Err(error),
    }
}

/// The form that message and file fields alone make, or why they make none.
pub open spec fn form_of_commit_fields<E>(said: Seq<(OpenFieldView, Seq<u8>)>) -> Result<
    UploadFormView,
    HttpErrorView<E>,
>
    decreases said.len(),
{
    if said.len() == 0 {
        Ok(empty_form())
    } else {
        match form_of_commit_fields::<E>(said.drop_last()) {
            Err(error) => Err(error),
            Ok(form) => closed_field(form, said.last().0, said.last().1),
        }
    }
}

proof fn lemma_commit_part<E>(fields: Seq<FormFieldView<E>>, filenames: Seq<Seq<char>>, n: int)
    requires
        0 <= n <= fields.len(),
        forall|i: int| 0 <= i < fields.len() ==> is_sound_field(#[trigger] fields[i]),
    ensures
        commit_part(form_of(fields, filenames, n)) == commit_part(
            form_of_commit_fields::<E>(commit_fields(fields, filenames, n)),
        ),
    decreases n,
{
    if n > 0 {
        lemma_commit_part(fields, filenames, n - 1);
        let field = fields[n - 1];
        assert(is_sound_field(field));
        let before = commit_fields(fields, filenames, n - 1);
        if let Some(said) = said_of_commit(field, filenames[n - 1]) {
            assert(before.push(said).drop_last() == before);
        }
    }
}

/// The message and the files of a form depend on its message and file fields alone: two sound
/// forms that agree on the names and the bytes of those have the same message and the same
/// files in the same order, or are refused with the same error, whatever other fields they
/// have and however the bytes of each are cut into pieces.
pub proof fn law_message_and_files_depend_on_their_fields_alone<E>(
    one: Seq<FormFieldView<E>>,
    one_filenames: Seq<Seq<char>>,
    other: Seq<FormFieldView<E>>,
    other_filenames: Seq<Seq<char>>,
)
    requires
        forall|i: int| 0 <= i < one.len() ==> is_sound_field(#[trigger] one[i]),
        forall|i: int| 0 <= i < other.len() ==> is_sound_field(#[trigger] other[i]),
        commit_fields(one, one_filenames, one.len() as int) == commit_fields(
            other,
            other_filenames,
            other.len() as int,
        ),
    ensures
        match (multipart_run(one, one_filenames, None), multipart_run(other, other_filenames, None)) {
            (MultipartActionView::Finish(form), MultipartActionView::Finish(same)) => commit_part(
                form,
            ) == commit_part(same),
            _ => false,
        },
{
    law_form_is_read_field_by_field(one, one_filenames, None);
    law_form_is_read_field_by_field(other, other_filenames, None);
    lemma_commit_part(one, one_filenames, one.len() as int);
    lemma_commit_part(other, other_filenames, other.len() as int);
}

/// The names that the files of a form were uploaded with; it is empty for a field without one.
pub open spec fn uploaded_names<E>(fields: Seq<FormFieldView<E>>) -> Seq<Seq<char>> {
    fields.map_values(
        |field: FormFieldView<E>|
            match field.disposition {
                Some(DispositionView { filename: Some(filename), .. }) => filename,
                _ => Seq::empty(),
            },
    )
}

/// Whether every file of a form comes with a name, and `filenames` are the names that they
/// are kept under.
pub open spec fn keeps_uploaded_names<E>(
    on_windows: bool,
    fields: Seq<FormFieldView<E>>,
    filenames: Seq<Seq<char>>,
) -> bool {
    forall|i: int|
        0 <= i < fields.len() ==> {
            let event = MultipartEventView::<E>::Field((#[trigger] fields[i]).disposition);
            &&& begins_file(event) ==> fields[i].disposition->0.filename is Some
            &&& names_upload(on_windows, event, filenames[i])
        }
}

/// What a field says about the commit, with the name that a file is kept under in place of the
/// one that it was uploaded with.
pub open spec fn with_kept_name(on_windows: bool, said: (OpenFieldView, Seq<u8>)) -> (
    OpenFieldView,
    Seq<u8>,
) {
    match said.0 {
        OpenFieldView::File(name) => (
            OpenFieldView::File(sanitized_filename(name, on_windows)),
            said.1,
        ),
        _ => said,
    }
}

proof fn lemma_kept_names<E>(
    on_windows: bool,
    fields: Seq<FormFieldView<E>>,
    filenames: Seq<Seq<char>>,
    n: int,
)
    requires
        0 <= n <= fields.len(),
        keeps_uploaded_names(on_windows, fields, filenames),
    ensures
        commit_fields(fields, filenames, n) == commit_fields(
            fields,
            uploaded_names(fields),
            n,
        ).map_values(|said: (OpenFieldView, Seq<u8>)| with_kept_name(on_windows, said)),
    decreases n,
{
    let kept = |said: (OpenFieldView, Seq<u8>)| with_kept_name(on_windows, said);
    let names = uploaded_names(fields);
    if n > 0 {
        lemma_kept_names(on_windows, fields, filenames, n - 1);
        let field = fields[n - 1];
        let before = commit_fields(fields, names, n - 1);
        if let Some(said) = said_of_commit(field, names[n - 1]) {
            assert(said_of_commit(field, filenames[n - 1]) == Some(kept(said)));
            assert(before.push(said).map_values(kept) =~= before.map_values(kept).push(kept(said)));
        }
    } else {
        assert(Seq::<(OpenFieldView, Seq<u8>)>::empty().map_values(kept) =~= Seq::empty());
    }
}

/// Two sound forms whose message and file fields agree in what was uploaded, names and bytes,
/// are read to the same message and the same files in the same order, or are refused with the
/// same error. It does not matter what other fields they have, nor how the bytes of each are
/// cut into pieces; every file comes with a name, since any other gets a random one.
pub proof fn law_equal_uploads_are_read_alike<E>(
    on_windows: bool,
    one: Seq<FormFieldView<E>>,
    one_filenames: Seq<Seq<char>>,
    other: Seq<FormFieldView<E>>,
    other_filenames: Seq<Seq<char>>,
)
    requires
        forall|i: int| 0 <= i < one.len() ==> is_sound_field(#[trigger] one[i]),
        forall|i: int| 0 <= i < other.len() ==> is_sound_field(#[trigger] other[i]),
        keeps_uploaded_names(on_windows, one, one_filenames),
        keeps_uploaded_names(on_windows, other, other_filenames),
        commit_fields(one, uploaded_names(one), one.len() as int) == commit_fields(
            other,
            uploaded_names(other),
            other.len() as int,
        ),
    ensures
        match (multipart_run(one, one_filenames, None), multipart_run(other, other_filenames, None)) {
            (MultipartActionView::Finish(form), MultipartActionView::Finish(same)) => commit_part(
                form,
            ) == commit_part(same),
            _ => false,
        },
{
    lemma_kept_names(on_windows, one, one_filenames, one.len() as int);
    lemma_kept_names(on_windows, other, other_filenames, other.len() as int);
    law_message_and_files_depend_on_their_fields_alone(
        one,
        one_filenames,
        other,
        other_filenames,
    );
}

} // verus!
