//! Rules that every upload follows, whether or not the repository has a commit yet.

use vstd::prelude::*;
use vstd::string::StringExecFns;

use crate::model::{User, UserView};
use crate::text::{
    blank, header_bytes, header_text, is_blank, optional_header_text, read_header, starts_with,
};

verus! {

/// Where the files of an upload go.
#[derive(Debug, PartialEq, Eq)]
pub enum UploadTarget {
    /// The path is that of the file itself; the name it was uploaded under is ignored.
    File(String),
    /// The path is that of a directory; each file goes in there under its own name.
    Directory(String),
}

/// The model of an `UploadTarget`.
pub enum UploadTargetView {
    File(Seq<char>),
    Directory(Seq<char>),
}

impl DeepView for UploadTarget {
    type V = UploadTargetView;

    open spec fn deep_view(&self) -> UploadTargetView {
        match self {
            UploadTarget::File(path) => UploadTargetView::File(path@),
            UploadTarget::Directory(path) => UploadTargetView::Directory(path@),
        }
    }
}

/// Whether the payload is a form, to judge by its content type. A type that is missing or
/// unreadable is that of a raw payload.
pub open spec fn is_form(content_type: Option<Seq<u8>>) -> bool {
    match optional_header_text(content_type) {
        Some(text) => "multipart/form-data"@.is_prefix_of(text),
        None => false,
    }
}

/// Tells a form from a raw payload.
pub fn payload_is_form(content_type: &Option<Vec<u8>>) -> (form: bool)
    ensures
        form == is_form(header_bytes(*content_type)),
{
    match read_header(content_type) {
        Some(text) => starts_with(text.as_str(), "multipart/form-data"),
        None => false,
    }
}

/// Where an upload to `path` goes. The URL of a raw payload names the file, and so does a
/// URL at whose path the revision has a file; any other is that of a directory.
pub open spec fn upload_target(
    content_type: Option<Seq<u8>>,
    path: Seq<char>,
    path_is_file: bool,
) -> UploadTargetView {
    if is_form(content_type) && !path_is_file {
        UploadTargetView::Directory(path)
    } else {
        UploadTargetView::File(path)
    }
}

/// Decides where an upload goes.
pub fn choose_target(content_type: &Option<Vec<u8>>, path: String, path_is_file: bool) -> (target:
    UploadTarget)
    ensures
        target.deep_view() == upload_target(header_bytes(*content_type), path@, path_is_file),
{
    if payload_is_form(content_type) && !path_is_file {
        UploadTarget::Directory(path)
    } else {
        UploadTarget::File(path)
    }
}

/// The author of an upload: the user that the bearer token belongs to, or else the one that
/// the form names. A form names one only with both a name and an email, and is asked only
/// where the request comes without an `authorization` header: credentials that belong to
/// nobody leave the upload without an author.
pub open spec fn upload_author(
    user: Option<UserView>,
    authorization: Option<Seq<u8>>,
    name: Option<Seq<char>>,
    email: Option<Seq<char>>,
) -> Option<UserView> {
    match (user, authorization, name, email) {
        (Some(user), _, _, _) => Some(user),
        (None, None, Some(name), Some(email)) => Some(UserView { name, email }),
        _ => None,
    }
}

/// Decides who the author of an upload is.
pub fn choose_author(
    user: Option<User>,
    authorization: &Option<Vec<u8>>,
    name: Option<String>,
    email: Option<String>,
) -> (author: Option<User>)
    ensures
        author.deep_view() == upload_author(
            user.deep_view(),
            header_bytes(*authorization),
            name.deep_view(),
            email.deep_view(),
        ),
{
    match user {
        Some(user) => Some(user),
        None => {
            if authorization.is_some() {
                return None;
            }
            match name {
                Some(name) => match email {
                    Some(email) => Some(User { name, email }),
                    None => None,
                },
                None => None,
            }
        },
    }
}

/// Whether a commit message header can be used: one that is there must be readable and must
/// not be blank.
pub open spec fn usable_message_header(header: Option<Seq<u8>>) -> bool {
    match header {
        Some(value) => match header_text(value) {
            Some(text) => !is_blank(text),
            None => false,
        },
        None => true,
    }
}

/// Checks a commit message header.
pub fn message_header_usable(header: &Option<Vec<u8>>) -> (usable: bool)
    ensures
        usable == usable_message_header(header_bytes(*header)),
{
    if header.is_none() {
        return true;
    }
    match read_header(header) {
        Some(text) => !blank(text.as_str()),
        None => false,
    }
}

/// The message of an upload's commit: that of the header, or else that of the form, or else
/// one that names the path.
pub open spec fn upload_message(
    header: Option<Seq<u8>>,
    message: Option<Seq<char>>,
    path: Seq<char>,
) -> Seq<char> {
    match (optional_header_text(header), message) {
        (Some(text), _) => text,
        (None, Some(message)) => message,
        (None, None) => "Auto-commit files to "@ + path,
    }
}

/// Decides what an upload's commit says.
pub fn choose_message(header: &Option<Vec<u8>>, message: Option<String>, path: &str) -> (text:
    String)
    ensures
        text@ == upload_message(header_bytes(*header), message.deep_view(), path@),
{
    match read_header(header) {
        Some(text) => text,
        None => match message {
            Some(message) => message,
            None => {
                let mut text = "Auto-commit files to ".to_owned();
                text.append(path);
                text
            },
        },
    }
}

} // verus!
