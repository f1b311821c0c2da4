//! The rules that several handlers share.

use vstd::prelude::*;
use vstd::utf8::encode_utf8;

use crate::model::{
    attributed, branch_target, BranchTargetView, FileContentsView, HttpErrorView, OxenErrorView,
    ParsedResourceView, TempFileNewView, UserView,
};
use crate::revision::claim_holds;
use crate::staging::{destination, written_bytes};
use crate::text::{header_text, is_white_space, path_joined};
use crate::upload::{
    is_form, upload_author, upload_message, upload_target, usable_message_header, UploadTargetView,
};

verus! {

/// A request that changes a branch works on the branch, the commit and the path that its
/// resource stands for; one that lacks the branch is told its revision, and one that lacks the
/// commit finds nothing.
pub proof fn law_target_is_that_of_the_resource<E>(resource: ParsedResourceView)
    ensures
        resource.branch is None ==> branch_target::<E>(resource) == Err::<
            BranchTargetView,
            HttpErrorView<E>,
        >(HttpErrorView::InternalOxenError(OxenErrorView::LocalBranchNotFound(resource.version))),
        resource.branch is Some && resource.commit is None ==> branch_target::<E>(resource) == Err::<
            BranchTargetView,
            HttpErrorView<E>,
        >(HttpErrorView::NotFound),
        resource.branch is Some && resource.commit is Some ==> {
            &&& branch_target::<E>(resource) matches Ok(target)
            &&& Some(target.branch) == resource.branch
            &&& Some(target.commit) == resource.commit
            &&& target.path == resource.path
        },
{
}

/// Every uploaded file keeps its name and contents and gets the one author.
pub proof fn law_files_keep_their_contents(files: Seq<TempFileNewView>, user: UserView, i: int)
    ensures
        attributed(files, user).len() == files.len(),
        0 <= i < files.len() ==> attributed(files, user)[i].path == files[i].path,
        0 <= i < files.len() ==> attributed(files, user)[i].contents == files[i].contents,
        0 <= i < files.len() ==> attributed(files, user)[i].user == user,
{
}

/// Without a claim any revision will do; with one, exactly the claimed revision. The answer to
/// any other claim names both.
pub proof fn law_claim_must_match<E>(current: Seq<char>, claimed: Seq<char>)
    ensures
        claim_holds::<E>(current, None) is Ok,
        claim_holds::<E>(current, Some(current)) is Ok,
        claimed != current ==> claim_holds::<E>(current, Some(claimed)) == Err::<
            (),
            HttpErrorView<E>,
        >(
            HttpErrorView::BasicError(
                "File has been modified since claimed revision. Current: "@ + current
                    + ", Claimed: "@ + claimed
                    + ". Your changes would overwrite another change without that being from a merge"@,
            ),
        ),
{
}

/// The user of the token is the author whatever else the request holds. Without one the form
/// is asked, only where there is no `authorization` header, and only for both name and email.
pub proof fn law_author_is_the_user(
    user: UserView,
    authorization: Option<Seq<u8>>,
    name: Option<Seq<char>>,
    email: Option<Seq<char>>,
)
    ensures
        upload_author(Some(user), authorization, name, email) == Some(user),
        authorization is Some ==> upload_author(None, authorization, name, email) is None,
        name is None || email is None ==> upload_author(None, authorization, name, email) is None,
        upload_author(None, None, Some(user.name), Some(user.email)) == Some(user),
{
}

/// A payload is a form where its content type can be read and begins as that of a form.
pub proof fn law_form_is_told_by_its_content_type(value: Seq<u8>)
    ensures
        !is_form(None),
        header_text(value) is None ==> !is_form(Some(value)),
        header_text(value) matches Some(text) ==> (is_form(Some(value)) <==> text.len() >= 19
            && text.take(19) == "multipart/form-data"@),
{
    reveal_strlit("multipart/form-data");
    if let Some(text) = header_text(value) {
        assert(text.len() >= 19 ==> text.take(19) == text.subrange(0, 19));
    }
}

/// A form goes into the directory of its URL unless there is a file; any other upload goes to
/// the path of its URL itself.
pub proof fn law_target_of_an_upload(content_type: Option<Seq<u8>>, path: Seq<char>, at_file: bool)
    ensures
        is_form(content_type) && !at_file ==> upload_target(content_type, path, at_file)
            == UploadTargetView::Directory(path),
        !is_form(content_type) || at_file ==> upload_target(content_type, path, at_file)
            == UploadTargetView::File(path),
{
}

/// A message header that is there must be readable and hold a character that is no white
/// space.
pub proof fn law_message_header_must_say_something(value: Seq<u8>)
    ensures
        usable_message_header(None),
        usable_message_header(Some(value)) <==> (header_text(value) matches Some(text) && exists|
            i: int,
        |
            0 <= i < text.len() && !is_white_space(#[trigger] text[i])),
{
}

/// The commit of an upload says what the header says, else what the form says, else where the
/// files went.
pub proof fn law_message_of_an_upload(
    value: Seq<u8>,
    text: Seq<char>,
    message: Option<Seq<char>>,
    path: Seq<char>,
)
    requires
        header_text(value) == Some(text),
    ensures
        upload_message(Some(value), message, path) == text,
        upload_message(None, Some(text), path) == text,
        upload_message(None, None, path) == "Auto-commit files to "@ + path,
{
}

/// A message header that cannot be read says nothing.
pub proof fn law_unreadable_message_says_nothing(
    value: Seq<u8>,
    message: Option<Seq<char>>,
    path: Seq<char>,
)
    requires
        header_text(value) is None,
    ensures
        message matches Some(text) ==> upload_message(Some(value), message, path) == text,
        message is None ==> upload_message(Some(value), message, path) == "Auto-commit files to "@
            + path,
{
}

/// A file is written to the path itself where that is the one of a file, and else under its
/// own name behind the path of the directory.
pub proof fn law_destination_of_a_file(path: Seq<char>, name: Seq<char>)
    ensures
        destination(UploadTargetView::File(path), name) == path,
        destination(UploadTargetView::Directory(path), name) == path_joined(path, name),
{
}

/// What is written is what was uploaded: bytes as they are, text as UTF-8.
pub proof fn law_written_is_what_was_uploaded(text: Seq<char>, bytes: Seq<u8>)
    ensures
        written_bytes(FileContentsView::Binary(bytes)) == bytes,
        written_bytes(FileContentsView::Text(text)) == encode_utf8(text),
{
}

} // verus!
