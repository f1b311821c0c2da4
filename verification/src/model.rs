//! The values that the request handlers exchange with the server around them.

use vstd::prelude::*;

verus! {

/// What a call outside the library gave back, seen through the view of its value.
pub open spec fn outcome<T: DeepView, E>(result: Result<T, E>) -> Result<T::V, E> {
    match result {
        Ok(value) => Ok(value.deep_view()),
        Err(error) => Err(error),
    }
}

/// What a handler answers, seen through the views of its value and of its error.
pub open spec fn answer_view<T: DeepView, E>(answer: Result<T, HttpError<E>>) -> Result<
    T::V,
    HttpErrorView<E>,
> {
    match answer {
        Ok(value) => Ok(value.deep_view()),
        Err(error) => Err(error.deep_view()),
    }
}

/// An error of the repository layer that the handlers raise themselves.
#[derive(Debug, PartialEq, Eq)]
pub enum OxenError {
    /// A message of its own.
    Basic(String),
    /// The revision of a request names no branch.
    LocalBranchNotFound(String),
    /// The revision holds nothing at this path.
    PathDoesNotExist(String),
}

/// The model of an `OxenError`.
pub enum OxenErrorView {
    Basic(Seq<char>),
    LocalBranchNotFound(Seq<char>),
    PathDoesNotExist(Seq<char>),
}

impl DeepView for OxenError {
    type V = OxenErrorView;

    open spec fn deep_view(&self) -> OxenErrorView {
        match self {
            OxenError::Basic(message) => OxenErrorView::Basic(message@),
            OxenError::LocalBranchNotFound(revision) => OxenErrorView::LocalBranchNotFound(
                revision@,
            ),
            OxenError::PathDoesNotExist(path) => OxenErrorView::PathDoesNotExist(path@),
        }
    }
}

/// The error that a request is answered with. `E` is the type of the errors that reach the
/// handlers from outside; they are handed on as they came.
#[derive(Debug, PartialEq, Eq)]
pub enum HttpError<E> {
    /// There is nothing to answer with.
    NotFound,
    /// The request is at fault.
    BadRequest(String),
    /// The request cannot be carried out.
    BasicError(String),
    /// The repository has no such thing.
    InternalOxenError(OxenError),
    /// The form could not be read.
    MultipartError(E),
    /// A call outside the library failed.
    Outside(E),
}

/// The model of an `HttpError`.
pub enum HttpErrorView<E> {
    NotFound,
    BadRequest(Seq<char>),
    BasicError(Seq<char>),
    InternalOxenError(OxenErrorView),
    MultipartError(E),
    Outside(E),
}

impl<E> DeepView for HttpError<E> {
    type V = HttpErrorView<E>;

    open spec fn deep_view(&self) -> HttpErrorView<E> {
        match self {
            HttpError::NotFound => HttpErrorView::NotFound,
            HttpError::BadRequest(message) => HttpErrorView::BadRequest(message@),
            HttpError::BasicError(message) => HttpErrorView::BasicError(message@),
            HttpError::InternalOxenError(error) => HttpErrorView::InternalOxenError(
                error.deep_view(),
            ),
            HttpError::MultipartError(error) => HttpErrorView::MultipartError(*error),
            HttpError::Outside(error) => HttpErrorView::Outside(*error),
        }
    }
}

/// Body for uploading a file via multipart/form-data.
#[derive(Debug, PartialEq, Eq)]
pub struct FileUploadBody {
    pub file: Vec<u8>,
    pub message: Option<String>,
    pub name: Option<String>,
    pub email: Option<String>,
}

/// Combined query parameters for file operations (image resize and video thumbnail): both
/// take a width and a height.
#[derive(Debug, Clone, Copy, PartialEq, Eq)]
pub struct FileQueryParams {
    pub width: Option<u32>,
    pub height: Option<u32>,
    /// The second of the video to take the thumbnail from, as the bits of an IEEE 754
    /// double: it is handed on, never computed with.
    pub timestamp: Option<u64>,
    pub thumbnail: Option<bool>,
}

/// Body for moving/renaming a file.
#[derive(Debug, PartialEq, Eq)]
pub struct FileMoveBody {
    pub new_path: String,
    pub message: Option<String>,
    pub name: Option<String>,
    pub email: Option<String>,
}

/// The model of a `FileMoveBody`.
pub struct FileMoveBodyView {
    pub new_path: Seq<char>,
    pub message: Option<Seq<char>>,
    pub name: Option<Seq<char>>,
    pub email: Option<Seq<char>>,
}

impl DeepView for FileMoveBody {
    type V = FileMoveBodyView;

    open spec fn deep_view(&self) -> FileMoveBodyView {
        FileMoveBodyView {
            new_path: self.new_path@,
            message: self.message.deep_view(),
            name: self.name.deep_view(),
            email: self.email.deep_view(),
        }
    }
}

/// What the resource part of a request's URL stands for in the repository.
#[derive(Debug, PartialEq, Eq)]
pub struct ParsedResource {
    /// The branch, where the revision names one.
    pub branch: Option<String>,
    /// The id of the commit, where the revision has one.
    pub commit: Option<String>,
    /// The id of the commit that the workspace is based on, where the revision is a
    /// workspace.
    pub workspace: Option<String>,
    /// The path behind the revision.
    pub path: String,
    /// The revision as it stands in the URL.
    pub version: String,
}

/// The model of a `ParsedResource`.
pub struct ParsedResourceView {
    pub branch: Option<Seq<char>>,
    pub commit: Option<Seq<char>>,
    pub workspace: Option<Seq<char>>,
    pub path: Seq<char>,
    pub version: Seq<char>,
}

impl DeepView for ParsedResource {
    type V = ParsedResourceView;

    open spec fn deep_view(&self) -> ParsedResourceView {
        ParsedResourceView {
            branch: self.branch.deep_view(),
            commit: self.commit.deep_view(),
            workspace: self.workspace.deep_view(),
            path: self.path@,
            version: self.version@,
        }
    }
}

/// What a request that changes a branch works on.
#[derive(Debug, PartialEq, Eq)]
pub struct BranchTarget {
    pub branch: String,
    pub commit: String,
    pub path: String,
}

/// The model of a `BranchTarget`.
pub struct BranchTargetView {
    pub branch: Seq<char>,
    pub commit: Seq<char>,
    pub path: Seq<char>,
}

impl DeepView for BranchTarget {
    type V = BranchTargetView;

    open spec fn deep_view(&self) -> BranchTargetView {
        BranchTargetView { branch: self.branch@, commit: self.commit@, path: self.path@ }
    }
}

/// The branch, commit and path of a resource. It must name a branch, because the change is
/// committed back to one, and a commit to work on.
pub open spec fn branch_target<E>(resource: ParsedResourceView) -> Result<
    BranchTargetView,
    HttpErrorView<E>,
> {
    match (resource.branch, resource.commit) {
        (None, _) => Err(
            HttpErrorView::InternalOxenError(OxenErrorView::LocalBranchNotFound(resource.version)),
        ),
        (Some(_), None) => Err(HttpErrorView::NotFound),
        (Some(branch), Some(commit)) => Ok(
            BranchTargetView { branch, commit, path: resource.path },
        ),
    }
}

/// Finds the branch, commit and path that a request changes.
pub fn require_branch<E>(resource: ParsedResource) -> (target: Result<BranchTarget, HttpError<E>>)
    ensures
        answer_view(target) == branch_target::<E>(resource.deep_view()),
{
    match resource.branch {
        None => Err(
            HttpError::InternalOxenError(OxenError::LocalBranchNotFound(resource.version)),
        ),
        Some(branch) => match resource.commit {
            None => Err(HttpError::NotFound),
            Some(commit) => Ok(BranchTarget { branch, commit, path: resource.path }),
        },
    }
}

/// A node of a revision's tree.
#[derive(Debug, PartialEq, Eq)]
pub struct NodeInfo<E> {
    pub is_file: bool,
    /// The id of the last commit that changed the node, or why it cannot be told.
    pub latest_commit: Result<String, E>,
}

/// The model of a `NodeInfo`.
pub struct NodeInfoView<E> {
    pub is_file: bool,
    pub latest_commit: Result<Seq<char>, E>,
}

impl<E> DeepView for NodeInfo<E> {
    type V = NodeInfoView<E>;

    open spec fn deep_view(&self) -> NodeInfoView<E> {
        NodeInfoView { is_file: self.is_file, latest_commit: outcome(self.latest_commit) }
    }
}

/// The author of a commit.
#[derive(Debug, PartialEq, Eq)]
pub struct User {
    pub name: String,
    pub email: String,
}

/// The model of a `User`.
pub struct UserView {
    pub name: Seq<char>,
    pub email: Seq<char>,
}

impl DeepView for User {
    type V = UserView;

    open spec fn deep_view(&self) -> UserView {
        UserView { name: self.name@, email: self.email@ }
    }
}

impl User {
    /// Another copy of the user.
    pub fn duplicate(&self) -> (copy: User)
        ensures
            copy.deep_view() == self.deep_view(),
    {
        User { name: self.name.clone(), email: self.email.clone() }
    }
}

/// What a commit is made with.
#[derive(Debug, PartialEq, Eq)]
pub struct NewCommitBody {
    pub author: String,
    pub email: String,
    pub message: String,
}

/// The model of a `NewCommitBody`.
pub struct NewCommitBodyView {
    pub author: Seq<char>,
    pub email: Seq<char>,
    pub message: Seq<char>,
}

impl DeepView for NewCommitBody {
    type V = NewCommitBodyView;

    open spec fn deep_view(&self) -> NewCommitBodyView {
        NewCommitBodyView { author: self.author@, email: self.email@, message: self.message@ }
    }
}

/// What became of the resource of a request.
#[derive(Debug, Clone, Copy, PartialEq, Eq)]
pub enum ResourceStatus {
    Created,
    Updated,
    Deleted,
}

/// The answer to a request that made a commit.
#[derive(Debug, PartialEq, Eq)]
pub struct CommitResponse {
    pub status: ResourceStatus,
    /// The id of the commit.
    pub commit: String,
}

/// The model of a `CommitResponse`.
pub struct CommitResponseView {
    pub status: ResourceStatus,
    pub commit: Seq<char>,
}

impl DeepView for CommitResponse {
    type V = CommitResponseView;

    open spec fn deep_view(&self) -> CommitResponseView {
        CommitResponseView { status: self.status, commit: self.commit@ }
    }
}

/// The contents of an uploaded file.
#[derive(Debug, PartialEq, Eq)]
pub enum FileContents {
    Text(String),
    Binary(Vec<u8>),
}

/// The model of `FileContents`.
pub enum FileContentsView {
    Text(Seq<char>),
    Binary(Seq<u8>),
}

impl DeepView for FileContents {
    type V = FileContentsView;

    open spec fn deep_view(&self) -> FileContentsView {
        match self {
            FileContents::Text(text) => FileContentsView::Text(text@),
            FileContents::Binary(bytes) => FileContentsView::Binary(bytes@),
        }
    }
}

/// An uploaded file, before its author is known.
#[derive(Debug, PartialEq, Eq)]
pub struct TempFileNew {
    pub path: String,
    pub contents: FileContents,
}

/// The model of a `TempFileNew`.
pub struct TempFileNewView {
    pub path: Seq<char>,
    pub contents: FileContentsView,
}

impl DeepView for TempFileNew {
    type V = TempFileNewView;

    open spec fn deep_view(&self) -> TempFileNewView {
        TempFileNewView { path: self.path@, contents: self.contents.deep_view() }
    }
}

/// An uploaded file and its author.
#[derive(Debug, PartialEq, Eq)]
pub struct FileNew {
    pub path: String,
    pub contents: FileContents,
    pub user: User,
}

/// The model of a `FileNew`.
pub struct FileNewView {
    pub path: Seq<char>,
    pub contents: FileContentsView,
    pub user: UserView,
}

impl DeepView for FileNew {
    type V = FileNewView;

    open spec fn deep_view(&self) -> FileNewView {
        FileNewView {
            path: self.path@,
            contents: self.contents.deep_view(),
            user: self.user.deep_view(),
        }
    }
}

/// The uploaded files with `user` as the author of each.
pub open spec fn attributed(files: Seq<TempFileNewView>, user: UserView) -> Seq<FileNewView> {
    files.map_values(
        |file: TempFileNewView| FileNewView { path: file.path, contents: file.contents, user },
    )
}

/// Gives every uploaded file the same author.
pub fn attribute(files: Vec<TempFileNew>, user: &User) -> (owned: Vec<FileNew>)
    ensures
        owned.deep_view() == attributed(files.deep_view(), user.deep_view()),
{
    let ghost all = files@;
    let mut owned: Vec<FileNew> = Vec::new();
    for file in it: files
        invariant
            it.seq() == all,
            owned.len() == it.index(),
            forall|j: int|
                0 <= j < owned.len() ==> (#[trigger] owned@[j]).deep_view() == (FileNewView {
                    path: all[j].path@,
                    contents: all[j].contents.deep_view(),
                    user: user.deep_view(),
                }),
    {
        owned.push(FileNew { path: file.path, contents: file.contents, user: user.duplicate() });
    }
    assert(owned.deep_view() == attributed(files.deep_view(), user.deep_view()));
    owned
}

/// What a request uploads: the fields of a form, or a raw payload as a form of one file.
#[derive(Debug, PartialEq, Eq)]
pub struct UploadForm {
    pub name: Option<String>,
    pub email: Option<String>,
    pub message: Option<String>,
    pub files: Vec<TempFileNew>,
}

/// The model of an `UploadForm`.
pub struct UploadFormView {
    pub name: Option<Seq<char>>,
    pub email: Option<Seq<char>>,
    pub message: Option<Seq<char>>,
    pub files: Seq<TempFileNewView>,
}

impl DeepView for UploadForm {
    type V = UploadFormView;

    open spec fn deep_view(&self) -> UploadFormView {
        UploadFormView {
            name: self.name.deep_view(),
            email: self.email.deep_view(),
            message: self.message.deep_view(),
            files: self.files.deep_view(),
        }
    }
}

} // verus!
