//! Reading what is uploaded.

use vstd::prelude::*;
use vstd::utf8::{decode_utf8, encode_utf8, valid_utf8};

use crate::model::{FileContentsView, HttpErrorView, TempFileNewView, UploadFormView};
use crate::multipart::{
    assembled, begins_unnamed_file, form_of, is_upload_name, kept_name,
    law_form_is_read_field_by_field, multipart_run, multipart_step, names_upload, DispositionView,
    FormFieldView, MultipartActionView, MultipartEventView, MultipartStateView, OpenFieldView,
};
use crate::outside::{
    cleaned_filename, cut_filename, is_hex_digit, is_kept_in_filename, is_random_uuid,
    lemma_sanitized_filename_is_kept, sanitized_filename, small_letter, utf8_complaint,
    utf8_lossy, windows_filename, without_trailing_dots,
};
use crate::raw_payload::{
    law_raw_payload_is_one_file, raw_run, raw_step, RawActionView, RawEventView, RawRequestView,
    RawStateView,
};
use crate::text::{header_text, lemma_split_appended, lemma_split_whole, split};

verus! {

/// The pieces of a payload are put together in order, none left out.
pub proof fn law_pieces_are_put_together(chunks: Seq<Seq<u8>>, last: Seq<u8>)
    ensures
        assembled(chunks, 0) == Seq::<u8>::empty(),
        assembled(chunks.push(last), chunks.len() as int + 1) == assembled(
            chunks,
            chunks.len() as int,
        ) + last,
{
    lemma_assembled_of_more(chunks, last, chunks.len() as int);
}

proof fn lemma_assembled_of_more(chunks: Seq<Seq<u8>>, last: Seq<u8>, n: int)
    requires
        n <= chunks.len(),
    ensures
        assembled(chunks.push(last), n) == assembled(chunks, n),
    decreases n,
{
    if n > 0 {
        lemma_assembled_of_more(chunks, last, n - 1);
    }
}

proof fn lemma_form_of_more<E>(
    fields: Seq<FormFieldView<E>>,
    filenames: Seq<Seq<char>>,
    field: FormFieldView<E>,
    filename: Seq<char>,
    n: int,
)
    requires
        n <= fields.len() == filenames.len(),
    ensures
        form_of(fields.push(field), filenames.push(filename), n) == form_of(fields, filenames, n),
    decreases n,
{
    if n > 0 {
        lemma_form_of_more(fields, filenames, field, filename, n - 1);
    }
}

/// A form without fields is read as nothing, and one that breaks off behind its fields is
/// refused with that error.
pub proof fn law_form_without_fields<E>(error: E)
    ensures
        multipart_run(Seq::<FormFieldView<E>>::empty(), Seq::empty(), None)
            == MultipartActionView::<E>::Finish(
            Ok(UploadFormView { name: None, email: None, message: None, files: Seq::empty() }),
        ),
        multipart_run(Seq::<FormFieldView<E>>::empty(), Seq::empty(), Some(error))
            == MultipartActionView::<E>::Finish(Err(HttpErrorView::MultipartError(error))),
{
}

/// A form that breaks off behind its fields is refused with that error, unless one of its
/// fields was refused before.
pub proof fn law_form_that_breaks_off_is_refused<E>(
    fields: Seq<FormFieldView<E>>,
    filenames: Seq<Seq<char>>,
    error: E,
)
    ensures
        ({
            let whole = multipart_run(fields, filenames, None);
            let broken = multipart_run(fields, filenames, Some(error));
            &&& whole matches MultipartActionView::Finish(Ok(_)) ==> broken
                == MultipartActionView::<E>::Finish(Err(HttpErrorView::MultipartError(error)))
            &&& whole matches MultipartActionView::Finish(Err(_)) ==> broken == whole
        }),
{
    law_form_is_read_field_by_field(fields, filenames, None);
    law_form_is_read_field_by_field(fields, filenames, Some(error));
}

/// What one field more makes of a form: a field without a name is not found, one that breaks
/// off is an error, a name, an email or a message takes the place of the one before, a file is
/// added behind the others with all its bytes, and any other field changes nothing. A message
/// must be UTF-8; a name or an email that is not counts as missing.
pub proof fn law_form_grows_field_by_field<E>(
    fields: Seq<FormFieldView<E>>,
    filenames: Seq<Seq<char>>,
    field: FormFieldView<E>,
    filename: Seq<char>,
)
    requires
        fields.len() == filenames.len(),
    ensures
        ({
            let before = multipart_run(fields, filenames, None);
            let after = multipart_run(fields.push(field), filenames.push(filename), None);
            let bytes = assembled(field.chunks, field.chunks.len() as int);
            let text = if valid_utf8(bytes) {
                Some(decode_utf8(bytes))
            } else {
                None
            };
            let read = |form: UploadFormView| MultipartActionView::<E>::Finish(Ok(form));
            let refused = |error: HttpErrorView<E>| MultipartActionView::<E>::Finish(Err(error));
            &&& before is Finish
            &&& before matches MultipartActionView::Finish(Err(error)) ==> after == before
            &&& before matches MultipartActionView::Finish(Ok(form)) ==> match field.disposition {
                None => after == refused(HttpErrorView::NotFound),
                Some(DispositionView { name: None, .. }) => after == refused(
                    HttpErrorView::NotFound,
                ),
                Some(DispositionView { name: Some(name), .. }) => {
                    let is_file = name == "file"@ || name == "files[]"@;
                    if !is_file && name != "name"@ && name != "email"@ && name != "message"@ {
                        after == before
                    } else if field.broken is Some {
                        after == refused(HttpErrorView::MultipartError(field.broken->0))
                    } else if is_file {
                        after == read(
                            UploadFormView {
                                name: form.name,
                                email: form.email,
                                message: form.message,
                                files: form.files.push(
                                    TempFileNewView {
                                        path: filename,
                                        contents: FileContentsView::Binary(bytes),
                                    },
                                ),
                            },
                        )
                    } else if name == "name"@ {
                        after == read(
                            UploadFormView {
                                name: text,
                                email: form.email,
                                message: form.message,
                                files: form.files,
                            },
                        )
                    } else if name == "email"@ {
                        after == read(
                            UploadFormView {
                                name: form.name,
                                email: text,
                                message: form.message,
                                files: form.files,
                            },
                        )
                    } else if valid_utf8(bytes) {
                        after == read(
                            UploadFormView {
                                name: form.name,
                                email: form.email,
                                message: Some(decode_utf8(bytes)),
                                files: form.files,
                            },
                        )
                    } else {
                        after == refused(HttpErrorView::BadRequest(utf8_complaint(bytes)))
                    }
                },
            }
        }),
{
    let longer = fields.push(field);
    let names = filenames.push(filename);
    law_form_is_read_field_by_field(fields, filenames, None);
    law_form_is_read_field_by_field(longer, names, None);
    lemma_form_of_more(fields, filenames, field, filename, fields.len() as int);
    assert(longer[fields.len() as int] == field);
    assert(names[fields.len() as int] == filename);
    reveal_strlit("name");
    reveal_strlit("email");
    reveal_strlit("message");
    reveal_strlit("files[]");
    reveal_strlit("file");
    assert("file"@[0] != "name"@[0]);
    assert("file"@[0] != "email"@[0]);
    assert("files[]"@[0] != "message"@[0]);
    assert("name"@[0] != "email"@[0]);
    assert("name"@[0] != "message"@[0]);
    assert("email"@[0] != "message"@[0]);
    assert("files[]"@[0] != "name"@[0]);
    assert("files[]"@[0] != "email"@[0]);
    assert("file"@[0] != "message"@[0]);
}

/// While a field is read the reading asks for its next piece, and between fields for the next
/// field; it is over only when the form is or cannot be read on.
pub proof fn law_form_asks_for_what_comes_next<E>(
    form: UploadFormView,
    field: OpenFieldView,
    bytes: Seq<u8>,
    chunk: Seq<u8>,
    filename: Seq<char>,
    error: E,
)
    ensures
        multipart_step(
            MultipartStateView::Start,
            MultipartEventView::<E>::Begin,
            filename,
        ).1 == MultipartActionView::<E>::NextField,
        multipart_step(
            MultipartStateView::InField { form, field, bytes },
            MultipartEventView::<E>::Chunk(chunk),
            filename,
        ) == (
            MultipartStateView::InField { form, field, bytes: bytes + chunk },
            MultipartActionView::<E>::NextChunk,
        ),
        ({
            let (state, action) = multipart_step(
                MultipartStateView::InField { form, field, bytes },
                MultipartEventView::<E>::FieldEnd,
                filename,
            );
            state is BetweenFields && action is NextField || state is Done && action is Finish
        }),
        multipart_step(
            MultipartStateView::InField { form, field, bytes },
            MultipartEventView::Broken(error),
            filename,
        ).1 == MultipartActionView::<E>::Finish(Err(HttpErrorView::MultipartError(error))),
        multipart_step(
            MultipartStateView::BetweenFields { form },
            MultipartEventView::Broken(error),
            filename,
        ).1 == MultipartActionView::<E>::Finish(Err(HttpErrorView::MultipartError(error))),
        multipart_step(
            MultipartStateView::BetweenFields { form },
            MultipartEventView::<E>::FormEnd,
            filename,
        ) == (MultipartStateView::Done, MultipartActionView::<E>::Finish(Ok(form))),
{
}

/// A file with a name is kept under that name, made fit; one without under a random UUID.
pub proof fn law_upload_name_is_the_sanitised_one(
    on_windows: bool,
    name: Seq<char>,
    field: Seq<char>,
    filename: Seq<char>,
)
    ensures
        is_upload_name(on_windows, Some(name), filename) <==> filename == sanitized_filename(
            name,
            on_windows,
        ),
        is_upload_name(on_windows, None, filename) ==> filename.len() == 36 && forall|i: int|
            0 <= i < 36 ==> #[trigger] filename[i] == '-' || '0' <= filename[i] <= '9' || 'a'
                <= filename[i] <= 'f',
        kept_name::<()>(
            on_windows,
            MultipartEventView::Field(
                Some(DispositionView { name: Some(field), filename: Some(name) }),
            ),
        ) == sanitized_filename(name, on_windows),
{
    if is_random_uuid(filename) {
        assert forall|i: int| 0 <= i < 36 implies #[trigger] filename[i] == '-' || '0'
            <= filename[i] <= '9' || 'a' <= filename[i] <= 'f' by {
            assert(filename[i] == '-' || is_hex_digit(filename[i]));
        }
    }
}

/// Every file of a form has to have a fit name, whichever of the two names its field has; no
/// other event asks for one.
pub proof fn law_every_file_field_needs_a_name<E>(
    on_windows: bool,
    field: Seq<char>,
    uploaded: Option<Seq<char>>,
    filename: Seq<char>,
)
    ensures
        ({
            let event = MultipartEventView::<E>::Field(
                Some(DispositionView { name: Some(field), filename: uploaded }),
            );
            let is_file = field == "file"@ || field == "files[]"@;
            &&& is_file ==> (names_upload(on_windows, event, filename) <==> is_upload_name(
                on_windows,
                uploaded,
                filename,
            ))
            &&& !is_file ==> names_upload(on_windows, event, filename)
            &&& begins_unnamed_file(event) <==> is_file && uploaded is None
        }),
{
}

/// A character that file names must not hold.
pub open spec fn is_forbidden(c: char) -> bool {
    ||| c == '/' || c == '\\' || c == '?' || c == '<' || c == '>'
    ||| c == ':' || c == '*' || c == '|' || c == '"'
    ||| (c as u32) < 0x20
    ||| 0x80 <= (c as u32) <= 0x9f
}

proof fn lemma_forbidden_is_not_kept(c: char)
    ensures
        is_forbidden(c) <==> !is_kept_in_filename(c),
{
}

proof fn lemma_cut_fits(name: Seq<char>)
    ensures
        cut_filename(name).len() == 0 || encode_utf8(cut_filename(name)).len() <= 255,
    decreases name.len(),
{
    if name.len() > 0 && encode_utf8(name).len() > 255 {
        lemma_cut_fits(name.drop_last());
    }
}

/// A sanitised name holds no forbidden character and fits in 255 bytes.
pub proof fn law_sanitised_name_is_fit(name: Seq<char>, on_windows: bool, i: int)
    requires
        0 <= i < sanitized_filename(name, on_windows).len(),
    ensures
        !is_forbidden(sanitized_filename(name, on_windows)[i]),
        encode_utf8(sanitized_filename(name, on_windows)).len() <= 255,
{
    lemma_sanitized_filename_is_kept(name, on_windows, i);
    lemma_forbidden_is_not_kept(sanitized_filename(name, on_windows)[i]);
    lemma_cut_fits(cleaned_filename(name));
    lemma_cut_fits(windows_filename(cleaned_filename(name)));
}

proof fn lemma_filter_keeps_all(name: Seq<char>)
    requires
        forall|i: int| 0 <= i < name.len() ==> !is_forbidden(#[trigger] name[i]),
    ensures
        name.filter(|c: char| is_kept_in_filename(c)) == name,
    decreases name.len(),
{
    reveal(Seq::filter);
    let keep = |c: char| is_kept_in_filename(c);
    if name.len() > 0 {
        let shorter = name.drop_last();
        assert forall|i: int| 0 <= i < shorter.len() implies !is_forbidden(
            #[trigger] shorter[i],
        ) by {
            assert(shorter[i] == name[i]);
        }
        lemma_filter_keeps_all(shorter);
        assert(!is_forbidden(name[name.len() - 1]));
        lemma_forbidden_is_not_kept(name.last());
        assert(keep(name.last()));
        assert(shorter.push(name.last()) == name);
    } else {
        assert(name == Seq::<char>::empty());
    }
}

/// A name that is fit already stays as it is; a forbidden character makes no difference,
/// wherever it stands; and a name of dots alone is no name.
pub proof fn law_sanitising_takes_out_what_is_forbidden(
    front: Seq<char>,
    c: char,
    back: Seq<char>,
    on_windows: bool,
)
    ensures
        is_forbidden(c) ==> sanitized_filename(front + seq![c] + back, on_windows)
            == sanitized_filename(front + back, on_windows),
        (forall|i: int| 0 <= i < front.len() ==> #[trigger] front[i] == '.') ==> sanitized_filename(
            front,
            false,
        ).len() == 0,
        (forall|i: int| 0 <= i < front.len() ==> !is_forbidden(#[trigger] front[i])) && (exists|
            i: int,
        |
            0 <= i < front.len() && #[trigger] front[i] != '.') && encode_utf8(front).len() <= 255
            ==> sanitized_filename(front, false) == front,
{
    let keep = |c: char| is_kept_in_filename(c);
    if is_forbidden(c) {
        Seq::filter_distributes_over_add(front + seq![c], back, keep);
        Seq::filter_distributes_over_add(front, seq![c], keep);
        Seq::filter_distributes_over_add(front, back, keep);
        reveal(Seq::filter);
        assert(seq![c].drop_last() == Seq::<char>::empty());
        assert(!keep(c));
        reveal_with_fuel(Seq::filter, 2);
        assert(seq![c].filter(keep) == Seq::<char>::empty());
        assert(front.filter(keep) + Seq::<char>::empty() == front.filter(keep));
    }
    if forall|i: int| 0 <= i < front.len() ==> !is_forbidden(#[trigger] front[i]) {
        lemma_filter_keeps_all(front);
    }
    if forall|i: int| 0 <= i < front.len() ==> #[trigger] front[i] == '.' {
        assert forall|i: int| 0 <= i < front.len() implies !is_forbidden(#[trigger] front[i]) by {
            assert(front[i] == '.');
        }
        lemma_filter_keeps_all(front);
    }
}

proof fn lemma_beginning_takes_fewer_bytes(name: Seq<char>, n: int)
    requires
        0 <= n <= name.len(),
    ensures
        encode_utf8(name.take(n)).len() <= encode_utf8(name).len(),
    decreases name.len(),
{
    if n > 0 {
        lemma_beginning_takes_fewer_bytes(name.drop_first(), n - 1);
        assert(name.take(n).drop_first() == name.drop_first().take(n - 1));
    }
}

proof fn lemma_trailing_dots(name: Seq<char>)
    ensures
        ({
            let kept = without_trailing_dots(name);
            &&& kept.len() <= name.len()
            &&& kept == name.take(kept.len() as int)
            &&& kept.len() > 0 ==> kept.last() != '.' && kept.last() != ' '
            &&& forall|i: int|
                kept.len() <= i < name.len() ==> #[trigger] name[i] == '.' || name[i] == ' '
        }),
    decreases name.len(),
{
    if name.len() > 0 && (name.last() == '.' || name.last() == ' ') {
        let shorter = name.drop_last();
        lemma_trailing_dots(shorter);
        let kept = without_trailing_dots(name);
        assert(shorter.take(kept.len() as int) == name.take(kept.len() as int));
        assert forall|i: int| kept.len() <= i < name.len() implies #[trigger] name[i] == '.'
            || name[i] == ' ' by {
            if i < shorter.len() {
                assert(shorter[i] == name[i]);
            }
        }
    } else {
        assert(name.take(name.len() as int) == name);
    }
}

/// For Windows a name that is fit elsewhere loses the dots and spaces at its end and nothing
/// else, and one that is taken for a device is no name: `con`, `prn`, `aux`, `nul`, or `com` or
/// `lpt` with a digit, in letters of either size, with or without an ending.
pub proof fn law_sanitising_for_windows(name: Seq<char>)
    requires
        sanitized_filename(name, false) == name,
    ensures
        ({
            let kept = sanitized_filename(name, true);
            let stem = split(name, '.')[0];
            let small = stem.map_values(
                |c: char|
                    if 'A' <= c <= 'Z' {
                        (c as u32 + 32) as char
                    } else {
                        c
                    },
            );
            let device = small == "con"@ || small == "prn"@ || small == "aux"@ || small == "nul"@ || (
            small.len() == 4 && (small.take(3) == "com"@ || small.take(3) == "lpt"@) && '0'
                <= small[3] <= '9');
            &&& device ==> kept.len() == 0
            &&& !device ==> {
                &&& kept.len() <= name.len()
                &&& kept == name.take(kept.len() as int)
                &&& kept.len() > 0 ==> kept.last() != '.' && kept.last() != ' '
                &&& forall|i: int|
                    kept.len() <= i < name.len() ==> #[trigger] name[i] == '.' || name[i] == ' '
            }
        }),
{
    let cleaned = cleaned_filename(name);
    let stem = split(name, '.')[0];
    assert(stem.map_values(
        |c: char|
            if 'A' <= c <= 'Z' {
                (c as u32 + 32) as char
            } else {
                c
            },
    ) =~= stem.map_values(|c: char| small_letter(c)));
    lemma_cut_fits(cleaned);
    lemma_cut_is_shorter(cleaned);
    lemma_cleaned_is_shorter(name);
    assert(cleaned == name);
    lemma_trailing_dots(name);
    let kept = without_trailing_dots(name);
    if name.len() > 0 {
        lemma_beginning_takes_fewer_bytes(name, kept.len() as int);
    }
}

proof fn lemma_cut_is_shorter(name: Seq<char>)
    ensures
        cut_filename(name).len() <= name.len(),
        cut_filename(name).len() == name.len() ==> cut_filename(name) == name,
    decreases name.len(),
{
    if name.len() > 0 && encode_utf8(name).len() > 255 {
        lemma_cut_is_shorter(name.drop_last());
    }
}

proof fn lemma_cleaned_is_shorter(name: Seq<char>)
    ensures
        cleaned_filename(name).len() <= name.len(),
{
    broadcast use Seq::lemma_filter_len;

    let keep = |c: char| is_kept_in_filename(c);
    assert(name.filter(keep).len() <= name.len());
}

/// A raw payload makes one file, called by what stands behind the last slash of the URL, with
/// the text of the whole payload, and takes its message from the header. It names no author.
pub proof fn law_raw_payload_in_full<E>(
    front: Seq<char>,
    name: Seq<char>,
    commit_message: Option<Seq<u8>>,
    chunks: Seq<Seq<u8>>,
    message: Seq<char>,
)
    requires
        name.len() > 0,
        !name.contains('/'),
    ensures
        ({
            let path = front + seq!['/'] + name;
            let request = RawRequestView { path, commit_message };
            let broken = |why: Seq<char>|
                RawActionView::<E>::Finish(
                    Err(HttpErrorView::BadRequest("Payload error: "@ + why)),
                );
            &&& raw_run::<E>(request, chunks, Some(message)) == broken(message)
            &&& raw_run::<E>(request, chunks, None) matches RawActionView::Finish(Ok(form)) && {
                &&& form.name is None
                &&& form.email is None
                &&& commit_message is None ==> form.message is None
                &&& commit_message matches Some(value) ==> form.message == header_text(value)
                &&& form.files.len() == 1
                &&& form.files[0].path == name
                &&& form.files[0].contents == FileContentsView::Text(
                    utf8_lossy(assembled(chunks, chunks.len() as int)),
                )
            }
        }),
{
    let path = front + seq!['/'] + name;
    let request = RawRequestView { path, commit_message };
    law_raw_payload_is_one_file::<E>(request, chunks, None);
    law_raw_payload_is_one_file::<E>(request, chunks, Some(message));
    lemma_split_appended(front, name, '/');
    assert(path.last() == name.last());
    assert(name.contains(name.last()));
}

/// A path without a slash is itself the name of the file, which is otherwise made as at any
/// other path; a path that ends with a slash is refused before anything is read.
pub proof fn law_raw_payload_at_other_paths<E>(
    path: Seq<char>,
    commit_message: Option<Seq<u8>>,
    chunks: Seq<Seq<u8>>,
    broken: Option<Seq<char>>,
)
    ensures
        ({
            let request = RawRequestView { path, commit_message };
            let refused = RawActionView::<E>::Finish(
                Err(
                    HttpErrorView::BadRequest(
                        "Cannot PUT to a directory path. Path cannot end with '/'"@,
                    ),
                ),
            );
            &&& path.len() > 0 && path.last() == '/' ==> raw_run::<E>(request, chunks, broken)
                == refused && raw_step::<E>(
                RawStateView::Start,
                RawEventView::Received(request),
                Seq::empty(),
            ) == (RawStateView::Done, refused)
            &&& !path.contains('/') ==> (raw_run::<E>(request, chunks, None) matches
                RawActionView::Finish(Ok(form)) && {
                &&& form.name is None
                &&& form.email is None
                &&& commit_message is None ==> form.message is None
                &&& commit_message matches Some(value) ==> form.message == header_text(value)
                &&& form.files.len() == 1
                &&& form.files[0].path == path
                &&& form.files[0].contents == FileContentsView::Text(
                    utf8_lossy(assembled(chunks, chunks.len() as int)),
                )
            })
            &&& !path.contains('/') ==> (broken matches Some(why) ==> raw_run::<E>(
                request,
                chunks,
                broken,
            ) == RawActionView::<E>::Finish(
                Err(HttpErrorView::BadRequest("Payload error: "@ + why)),
            ))
        }),
{
    law_raw_payload_is_one_file::<E>(RawRequestView { path, commit_message }, chunks, broken);
    law_raw_payload_is_one_file::<E>(RawRequestView { path, commit_message }, chunks, None);
    if !path.contains('/') {
        lemma_split_whole(path, '/');
        if path.len() > 0 {
            assert(path.contains(path.last()));
        }
    }
}

/// The reading of a raw payload asks for one piece after the other until there is no more.
pub proof fn law_raw_payload_asks_for_the_next_piece<E>(
    request: RawRequestView,
    bytes: Seq<u8>,
    chunk: Seq<u8>,
    text: Seq<char>,
)
    ensures
        request.path.len() == 0 || request.path.last() != '/' ==> raw_step::<E>(
            RawStateView::Start,
            RawEventView::Received(request),
            text,
        ).1 == RawActionView::<E>::NextChunk,
        raw_step::<E>(RawStateView::Reading { request, bytes }, RawEventView::Chunk(chunk), text)
            == (
            RawStateView::Reading { request, bytes: bytes + chunk },
            RawActionView::<E>::NextChunk,
        ),
        raw_step::<E>(RawStateView::Reading { request, bytes }, RawEventView::End, text).0
            == RawStateView::Done,
        raw_step::<E>(RawStateView::Reading { request, bytes }, RawEventView::End, text).1
            is Finish,
{
}

} // verus!
