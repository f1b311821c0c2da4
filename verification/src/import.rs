//! Importing a file from another site into a directory of a branch.

use vstd::pervasive::unreached;
use vstd::prelude::*;
use vstd::string::StringExecFns;

use crate::json::Json;
use crate::model::{
    answer_view, branch_target, outcome, require_branch, BranchTarget, BranchTargetView,
    CommitResponse, CommitResponseView, HttpError, HttpErrorView, NewCommitBody, NewCommitBodyView,
    NodeInfo, NodeInfoView, ParsedResource, ParsedResourceView, ResourceStatus,
};
use crate::outside::{parse_url, url_parts, UrlParts};
use crate::text::{ends_with, header_bytes, header_text, read_header, same_text};

verus! {

/// Whether files may be imported from a domain: it must end like one of those that are
/// trusted.
pub open spec fn is_allowed_domain(domain: Seq<char>) -> bool {
    ||| "huggingface.co"@.is_suffix_of(domain)
    ||| "kaggle.com"@.is_suffix_of(domain)
    ||| "oxen.ai"@.is_suffix_of(domain)
}

/// Tells whether files may be imported from a domain.
pub fn domain_allowed(domain: &str) -> (allowed: bool)
    ensures
        allowed == is_allowed_domain(domain@),
{
    ends_with(domain, "huggingface.co") || ends_with(domain, "kaggle.com") || ends_with(
        domain,
        "oxen.ai",
    )
}

/// The name of a file that is imported from the given domain: on `huggingface.co` the last
/// two segments of the path, anywhere else the last one.
pub open spec fn filename_in_url(domain: Seq<char>, segments: Option<Seq<Seq<char>>>) -> Option<
    Seq<char>,
> {
    match segments {
        None => None,
        Some(segments) => {
            let n = segments.len() as int;
            if domain == "huggingface.co"@ {
                if n >= 2 {
                    Some(segments[n - 2] + "_"@ + segments[n - 1])
                } else {
                    None
                }
            } else if n >= 1 {
                Some(segments[n - 1])
            } else {
                None
            }
        },
    }
}

/// The name that a file is imported under, to judge by its URL; `None` stands for a text that
/// is no URL.
pub open spec fn import_filename<E>(
    parts: Option<(Option<Seq<char>>, Option<Seq<Seq<char>>>)>,
) -> Result<Seq<char>, HttpErrorView<E>> {
    match parts {
        None => Err(HttpErrorView::BadRequest("Invalid URL"@)),
        Some((None, _)) => Err(HttpErrorView::BadRequest("Invalid URL domain"@)),
        Some((Some(domain), segments)) => if !is_allowed_domain(domain) {
            Err(HttpErrorView::BadRequest("URL domain not allowed"@))
        } else {
            match filename_in_url(domain, segments) {
                None => Err(HttpErrorView::BadRequest("Invalid filename in URL"@)),
                Some(filename) => Ok(filename),
            }
        },
    }
}

/// Decides what the file of a URL is imported as.
pub fn choose_filename<E>(parts: Option<UrlParts>) -> (filename: Result<String, HttpError<E>>)
    ensures
        answer_view(filename) == import_filename::<E>(parts.deep_view()),
{
    let parts = match parts {
        None => {
            return Err(HttpError::BadRequest("Invalid URL".to_owned()));
        },
        Some(parts) => parts,
    };
    let domain = match parts.domain {
        None => {
            return Err(HttpError::BadRequest("Invalid URL domain".to_owned()));
        },
        Some(domain) => domain,
    };
    if !domain_allowed(domain.as_str()) {
        return Err(HttpError::BadRequest("URL domain not allowed".to_owned()));
    }
    let invalid = "Invalid filename in URL".to_owned();
    match parts.segments {
        None => Err(HttpError::BadRequest(invalid)),
        Some(segments) => {
            let n: usize = segments.len();
            assert(segments.deep_view().len() == n);
            if same_text(domain.as_str(), "huggingface.co") {
                if n < 2 {
                    return Err(HttpError::BadRequest(invalid));
                }
                assert(segments.deep_view()[n - 2] == segments[n - 2]@);
                assert(segments.deep_view()[n - 1] == segments[n - 1]@);
                let mut filename = segments[n - 2].clone();
                filename.append("_");
                filename.append(segments[n - 1].as_str());
                Ok(filename)
            } else if n < 1 {
                Err(HttpError::BadRequest(invalid))
            } else {
                assert(segments.deep_view()[n - 1] == segments[n - 1]@);
                Ok(segments[n - 1].clone())
            }
        },
    }
}

/// An imported file is called by a plain name: where no segment of the URL's path holds a
/// slash, the name holds none either, so the file cannot leave its directory.
pub proof fn law_import_filename_has_no_slash<E>(
    domain: Option<Seq<char>>,
    segments: Option<Seq<Seq<char>>>,
)
    requires
        segments matches Some(segments) ==> forall|i: int|
            0 <= i < segments.len() ==> !(#[trigger] segments[i]).contains('/'),
    ensures
        import_filename::<E>(Some((domain, segments))) matches Ok(filename) ==> !filename.contains(
            '/',
        ),
{
    if let Ok(filename) = import_filename::<E>(Some((domain, segments))) {
        let parts = segments->0;
        let n = parts.len() as int;
        if domain->0 == "huggingface.co"@ {
            reveal_strlit("_");
            let front = parts[n - 2];
            let back = parts[n - 1];
            if filename.contains('/') {
                let i = choose|i: int| 0 <= i < filename.len() && filename[i] == '/';
                if i < front.len() {
                    assert(front[i] == '/');
                } else if i > front.len() {
                    assert(back[i - front.len() - 1] == '/');
                }
            }
        }
    }
}

/// The headers and the body of an import that the handler reads.
#[derive(Debug, PartialEq, Eq)]
pub struct ImportRequest {
    /// `oxen-commit-author`
    pub author: Option<Vec<u8>>,
    /// `oxen-commit-email`
    pub email: Option<Vec<u8>>,
    /// `oxen-commit-message`
    pub message: Option<Vec<u8>>,
    pub body: Json,
}

/// What an import is to do, as the request says.
#[derive(Debug, PartialEq, Eq)]
pub struct ImportOrder {
    pub author: Option<Vec<u8>>,
    pub email: Option<Vec<u8>>,
    pub message: Option<Vec<u8>>,
    /// What the other site is to be shown as authorization.
    pub auth: String,
    pub download_url: String,
}

/// The model of an `ImportOrder`, and of the request that it comes from.
pub struct ImportOrderView {
    pub author: Option<Seq<u8>>,
    pub email: Option<Seq<u8>>,
    pub message: Option<Seq<u8>>,
    pub auth: Seq<char>,
    pub download_url: Seq<char>,
}

/// The string that an optional value is, or nothing.
pub open spec fn text_of(value: Option<Json>) -> Seq<char> {
    match value {
        Some(value) => match value.text() {
            Some(text) => text,
            None => Seq::empty(),
        },
        None => Seq::empty(),
    }
}

/// The authorization in the body of an import: the member `Authorization` of the member
/// `headers`.
pub open spec fn import_auth(body: Json) -> Seq<char> {
    match body.at("headers"@) {
        Some(headers) => text_of(headers.at("Authorization"@)),
        None => Seq::empty(),
    }
}

/// The URL in the body of an import: the member `download_url`.
pub open spec fn import_url(body: Json) -> Seq<char> {
    text_of(body.at("download_url"@))
}

impl DeepView for ImportRequest {
    type V = ImportOrderView;

    open spec fn deep_view(&self) -> ImportOrderView {
        ImportOrderView {
            author: header_bytes(self.author),
            email: header_bytes(self.email),
            message: header_bytes(self.message),
            auth: import_auth(self.body),
            download_url: import_url(self.body),
        }
    }
}

impl DeepView for ImportOrder {
    type V = ImportOrderView;

    open spec fn deep_view(&self) -> ImportOrderView {
        ImportOrderView {
            author: header_bytes(self.author),
            email: header_bytes(self.email),
            message: header_bytes(self.message),
            auth: self.auth@,
            download_url: self.download_url@,
        }
    }
}

fn text_or_nothing(value: Option<&Json>) -> (text: String)
    ensures
        text@ == text_of(
            match value {
                Some(value) => Some(*value),
                None => None,
            },
        ),
{
    match value {
        Some(value) => match value.as_text() {
            Some(text) => text,
            None => String::new(),
        },
        None => String::new(),
    }
}

/// Reads what an import is to do.
pub fn read_order(request: ImportRequest) -> (order: ImportOrder)
    ensures
        order.deep_view() == request.deep_view(),
{
    let auth = match request.body.get("headers") {
        Some(headers) => text_or_nothing(headers.get("Authorization")),
        None => String::new(),
    };
    let download_url = text_or_nothing(request.body.get("download_url"));
    ImportOrder {
        author: request.author,
        email: request.email,
        message: request.message,
        auth,
        download_url,
    }
}

/// How far an import has come, and what the rest of it needs.
#[derive(Debug, PartialEq, Eq)]
pub enum ImportState {
    Start,
    AwaitResource { order: ImportOrder },
    AwaitNode { order: ImportOrder, target: BranchTarget },
    AwaitWorkspace { order: ImportOrder, target: BranchTarget },
    AwaitDownload { order: ImportOrder, target: BranchTarget },
    AwaitCommit,
    Done,
}

/// The model of an `ImportState`.
pub enum ImportStateView {
    Start,
    AwaitResource { order: ImportOrderView },
    AwaitNode { order: ImportOrderView, target: BranchTargetView },
    AwaitWorkspace { order: ImportOrderView, target: BranchTargetView },
    AwaitDownload { order: ImportOrderView, target: BranchTargetView },
    AwaitCommit,
    Done,
}

impl DeepView for ImportState {
    type V = ImportStateView;

    open spec fn deep_view(&self) -> ImportStateView {
        match self {
            ImportState::Start => ImportStateView::Start,
            ImportState::AwaitResource { order } => ImportStateView::AwaitResource {
                order: order.deep_view(),
            },
            ImportState::AwaitNode { order, target } => ImportStateView::AwaitNode {
                order: order.deep_view(),
                target: target.deep_view(),
            },
            ImportState::AwaitWorkspace { order, target } => ImportStateView::AwaitWorkspace {
                order: order.deep_view(),
                target: target.deep_view(),
            },
            ImportState::AwaitDownload { order, target } => ImportStateView::AwaitDownload {
                order: order.deep_view(),
                target: target.deep_view(),
            },
            ImportState::AwaitCommit => ImportStateView::AwaitCommit,
            ImportState::Done => ImportStateView::Done,
        }
    }
}

/// What an import is told: the request itself, and then what came of the work it asked for.
#[derive(Debug, PartialEq, Eq)]
pub enum ImportEvent<E> {
    Received(ImportRequest),
    Resource(Result<ParsedResource, E>),
    /// What the revision has at the path.
    Node(Result<Option<NodeInfo<E>>, E>),
    Workspace(Result<(), E>),
    Downloaded(Result<(), E>),
    /// The id of the commit that was made.
    Committed(Result<String, E>),
}

/// The model of an `ImportEvent`.
pub enum ImportEventView<E> {
    Received(ImportOrderView),
    Resource(Result<ParsedResourceView, E>),
    Node(Result<Option<NodeInfoView<E>>, E>),
    Workspace(Result<(), E>),
    Downloaded(Result<(), E>),
    Committed(Result<Seq<char>, E>),
}

impl<E> DeepView for ImportEvent<E> {
    type V = ImportEventView<E>;

    open spec fn deep_view(&self) -> ImportEventView<E> {
        match self {
            ImportEvent::Received(request) => ImportEventView::Received(request.deep_view()),
            ImportEvent::Resource(resource) => ImportEventView::Resource(outcome(*resource)),
            ImportEvent::Node(node) => ImportEventView::Node(outcome(*node)),
            ImportEvent::Workspace(made) => ImportEventView::Workspace(*made),
            ImportEvent::Downloaded(done) => ImportEventView::Downloaded(*done),
            ImportEvent::Committed(commit) => ImportEventView::Committed(outcome(*commit)),
        }
    }
}

/// What an import asks for next; `Answer` ends it.
#[derive(Debug, PartialEq, Eq)]
pub enum ImportAction<E> {
    /// Find out what the resource of the URL stands for.
    ResolveResource,
    LookUpNode { commit: String, path: String },
    /// Make a temporary workspace on the commit.
    CreateWorkspace { commit: String },
    /// Fetch the file into a directory of the workspace and stage it.
    Download { url: String, auth: String, directory: String, filename: String },
    /// Commit the workspace to the branch.
    Commit { body: NewCommitBody, branch: String },
    Answer(Result<CommitResponse, HttpError<E>>),
}

/// The model of an `ImportAction`.
pub enum ImportActionView<E> {
    ResolveResource,
    LookUpNode { commit: Seq<char>, path: Seq<char> },
    CreateWorkspace { commit: Seq<char> },
    Download { url: Seq<char>, auth: Seq<char>, directory: Seq<char>, filename: Seq<char> },
    Commit { body: NewCommitBodyView, branch: Seq<char> },
    Answer(Result<CommitResponseView, HttpErrorView<E>>),
}

impl<E> DeepView for ImportAction<E> {
    type V = ImportActionView<E>;

    open spec fn deep_view(&self) -> ImportActionView<E> {
        match self {
            ImportAction::ResolveResource => ImportActionView::ResolveResource,
            ImportAction::LookUpNode { commit, path } => ImportActionView::LookUpNode {
                commit: commit@,
                path: path@,
            },
            ImportAction::CreateWorkspace { commit } => ImportActionView::CreateWorkspace {
                commit: commit@,
            },
            ImportAction::Download { url, auth, directory, filename } => {
                ImportActionView::Download {
                    url: url@,
                    auth: auth@,
                    directory: directory@,
                    filename: filename@,
                }
            },
            ImportAction::Commit { body, branch } => ImportActionView::Commit {
                body: body.deep_view(),
                branch: branch@,
            },
            ImportAction::Answer(answer) => ImportActionView::Answer(answer_view(*answer)),
        }
    }
}

/// Whether a header is missing or can be read.
pub open spec fn is_readable(header: Option<Seq<u8>>) -> bool {
    match header {
        Some(value) => header_text(value) is Some,
        None => true,
    }
}

/// Whether all headers that the commit of an import is made with can be read.
pub open spec fn has_readable_headers(order: ImportOrderView) -> bool {
    is_readable(order.author) && is_readable(order.email) && is_readable(order.message)
}

/// Whether an import has fetched its file but cannot say what the commit is made with.
pub open spec fn cannot_describe_commit<E>(
    state: ImportStateView,
    event: ImportEventView<E>,
) -> bool {
    match (state, event) {
        (ImportStateView::AwaitDownload { order, .. }, ImportEventView::Downloaded(Ok(_))) => {
            !has_readable_headers(order)
        },
        _ => false,
    }
}

/// Whether an event can follow in a state: it is the one that the last action asked for, and
/// the headers are readable once they are needed.
pub open spec fn import_expects<E>(state: ImportStateView, event: ImportEventView<E>) -> bool {
    &&& match state {
        ImportStateView::Start => event is Received,
        ImportStateView::AwaitResource { .. } => event is Resource,
        ImportStateView::AwaitNode { .. } => event is Node,
        ImportStateView::AwaitWorkspace { .. } => event is Workspace,
        ImportStateView::AwaitDownload { .. } => event is Downloaded,
        ImportStateView::AwaitCommit => event is Committed,
        ImportStateView::Done => false,
    }
    &&& !cannot_describe_commit(state, event)
}

/// Whether files can be imported to what the revision has at the path: anything but a file.
pub open spec fn import_possible<E>(node: Option<NodeInfoView<E>>, path: Seq<char>) -> Result<
    (),
    HttpErrorView<E>,
> {
    match node {
        Some(node) if node.is_file => Err(
            HttpErrorView::BasicError("Target path must be a directory: "@ + path),
        ),
        _ => Ok(()),
    }
}

/// The text of a header, or `otherwise` where the request does not have it.
pub open spec fn header_or(header: Option<Seq<u8>>, otherwise: Seq<char>) -> Seq<char> {
    match header {
        Some(value) => header_text(value)->0,
        None => otherwise,
    }
}

/// What the commit of an import is made with: what the headers say, and where there is no
/// message one that names the path.
pub open spec fn import_commit_body(order: ImportOrderView, path: Seq<char>) -> NewCommitBodyView {
    NewCommitBodyView {
        author: header_or(order.author, Seq::empty()),
        email: header_or(order.email, Seq::empty()),
        message: header_or(order.message, "Import files to "@ + path),
    }
}

/// The import is over, with an error for an answer.
pub open spec fn import_refused<E>(error: HttpErrorView<E>) -> (
    ImportStateView,
    ImportActionView<E>,
) {
    (ImportStateView::Done, ImportActionView::Answer(Err(error)))
}

/// What an import does on an event.
pub open spec fn import_step<E>(state: ImportStateView, event: ImportEventView<E>) -> (
    ImportStateView,
    ImportActionView<E>,
) {
    match (state, event) {
        (ImportStateView::Start, ImportEventView::Received(order)) => (
            ImportStateView::AwaitResource { order },
            ImportActionView::ResolveResource,
        ),
        (ImportStateView::AwaitResource { order }, ImportEventView::Resource(resource)) => {
            match resource {
                Err(error) => import_refused(HttpErrorView::Outside(error)),
                Ok(resource) => match branch_target::<E>(resource) {
                    Err(error) => import_refused(error),
                    Ok(target) => (
                        ImportStateView::AwaitNode { order, target },
                        ImportActionView::LookUpNode { commit: target.commit, path: target.path },
                    ),
                },
            }
        },
        (ImportStateView::AwaitNode { order, target }, ImportEventView::Node(node)) => {
            match node {
                Err(error) => import_refused(HttpErrorView::Outside(error)),
                Ok(node) => match import_possible(node, target.path) {
                    Err(error) => import_refused(error),
                    Ok(_) => (
                        ImportStateView::AwaitWorkspace { order, target },
                        ImportActionView::CreateWorkspace { commit: target.commit },
                    ),
                },
            }
        },
        (ImportStateView::AwaitWorkspace { order, target }, ImportEventView::Workspace(made)) => {
            match made {
                Err(error) => import_refused(HttpErrorView::Outside(error)),
                Ok(_) => match import_filename::<E>(url_parts(order.download_url)) {
                    Err(error) => import_refused(error),
                    Ok(filename) => (
                        ImportStateView::AwaitDownload { order, target },
                        ImportActionView::Download {
                            url: order.download_url,
                            auth: order.auth,
                            directory: target.path,
                            filename,
                        },
                    ),
                },
            }
        },
        (ImportStateView::AwaitDownload { order, target }, ImportEventView::Downloaded(done)) => {
            match done {
                Err(error) => import_refused(HttpErrorView::Outside(error)),
                Ok(_) => (
                    ImportStateView::AwaitCommit,
                    ImportActionView::Commit {
                        body: import_commit_body(order, target.path),
                        branch: target.branch,
                    },
                ),
            }
        },
        (ImportStateView::AwaitCommit, ImportEventView::Committed(commit)) => match commit {
            Err(error) => import_refused(HttpErrorView::Outside(error)),
            Ok(commit) => (
                ImportStateView::Done,
                ImportActionView::Answer(
                    Ok(CommitResponseView { status: ResourceStatus::Created, commit }),
                ),
            ),
        },
        _ => arbitrary(),
    }
}

fn refuse<E>(error: HttpError<E>) -> (step: (ImportState, ImportAction<E>))
    ensures
        (step.0.deep_view(), step.1.deep_view()) == import_refused(error.deep_view()),
{
    (ImportState::Done, ImportAction::Answer(Err(error)))
}

fn readable(header: &Option<Vec<u8>>) -> (yes: bool)
    ensures
        yes == is_readable(header_bytes(*header)),
{
    header.is_none() || read_header(header).is_some()
}

/// Tells whether an import has fetched its file but cannot say what the commit is made with;
/// it must not be taken any further.
pub fn commit_is_indescribable<E>(state: &ImportState, event: &ImportEvent<E>) -> (yes: bool)
    ensures
        yes == cannot_describe_commit(state.deep_view(), event.deep_view()),
{
    match (state, event) {
        (ImportState::AwaitDownload { order, .. }, ImportEvent::Downloaded(Ok(_))) => {
            !(readable(&order.author) && readable(&order.email) && readable(&order.message))
        },
        _ => false,
    }
}

fn text_or(header: &Option<Vec<u8>>, otherwise: String) -> (text: String)
    requires
        is_readable(header_bytes(*header)),
    ensures
        text@ == header_or(header_bytes(*header), otherwise@),
{
    match read_header(header) {
        Some(text) => text,
        None => otherwise,
    }
}

/// Decides what the commit of an import is made with.
pub fn describe_commit(order: &ImportOrder, path: &str) -> (body: NewCommitBody)
    requires
        has_readable_headers(order.deep_view()),
    ensures
        body.deep_view() == import_commit_body(order.deep_view(), path@),
{
    let mut message = "Import files to ".to_owned();
    message.append(path);
    NewCommitBody {
        author: text_or(&order.author, String::new()),
        email: text_or(&order.email, String::new()),
        message: text_or(&order.message, message),
    }
}

/// Imports a file into a directory of a branch: takes the import one event further.
pub fn import<E>(state: ImportState, event: ImportEvent<E>) -> (step: (ImportState, ImportAction<E>))
    requires
        import_expects(state.deep_view(), event.deep_view()),
    ensures
        (step.0.deep_view(), step.1.deep_view()) == import_step(
            state.deep_view(),
            event.deep_view(),
        ),
        step.1 matches ImportAction::Download { filename, .. } ==> !filename@.contains('/'),
{
    match (state, event) {
        (ImportState::Start, ImportEvent::Received(request)) => (
            ImportState::AwaitResource { order: read_order(request) },
            ImportAction::ResolveResource,
        ),
        (ImportState::AwaitResource { order }, ImportEvent::Resource(resource)) => match resource {
            Err(error) => refuse(HttpError::Outside(error)),
            Ok(resource) => match require_branch(resource) {
                Err(error) => refuse(error),
                Ok(target) => {
                    let commit = target.commit.clone();
                    let path = target.path.clone();
                    (
                        ImportState::AwaitNode { order, target },
                        ImportAction::LookUpNode { commit, path },
                    )
                },
            },
        },
        (ImportState::AwaitNode { order, target }, ImportEvent::Node(node)) => match node {
            Err(error) => refuse(HttpError::Outside(error)),
            Ok(node) => {
                let is_file = match node {
                    Some(node) => node.is_file,
                    None => false,
                };
                if is_file {
                    let mut message = "Target path must be a directory: ".to_owned();
                    message.append(target.path.as_str());
                    return refuse(HttpError::BasicError(message));
                }
                let commit = target.commit.clone();
                (
                    ImportState::AwaitWorkspace { order, target },
                    ImportAction::CreateWorkspace { commit },
                )
            },
        },
        (ImportState::AwaitWorkspace { order, target }, ImportEvent::Workspace(made)) => {
            match made {
                Err(error) => refuse(HttpError::Outside(error)),
                Ok(_) => {
                    let parts = parse_url(order.download_url.as_str());
                    proof {
                        if parts is Some {
                            let found = parts->0;
                            if found.segments is Some {
                                let all = found.segments.deep_view()->0;
                                assert forall|i: int| 0 <= i < all.len() implies !(#[trigger] all[i])
                                    .contains('/') by {
                                    assert(all[i] == found.segments->0@[i]@);
                                }
                            }
                            law_import_filename_has_no_slash::<E>(
                                found.domain.deep_view(),
                                found.segments.deep_view(),
                            );
                        }
                    }
                    match choose_filename(parts) {
                        Err(error) => refuse(error),
                        Ok(filename) => {
                            let url = order.download_url.clone();
                            let auth = order.auth.clone();
                            let directory = target.path.clone();
                            (
                                ImportState::AwaitDownload { order, target },
                                ImportAction::Download { url, auth, directory, filename },
                            )
                        },
                    }
                },
            }
        },
        (ImportState::AwaitDownload { order, target }, ImportEvent::Downloaded(done)) => {
            match done {
                Err(error) => refuse(HttpError::Outside(error)),
                Ok(_) => {
                    let body = describe_commit(&order, target.path.as_str());
                    (
                        ImportState::AwaitCommit,
                        ImportAction::Commit { body, branch: target.branch },
                    )
                },
            }
        },
        (ImportState::AwaitCommit, ImportEvent::Committed(commit)) => match commit {
            Err(error) => refuse(HttpError::Outside(error)),
            Ok(commit) => (
                ImportState::Done,
                ImportAction::Answer(
                    Ok(CommitResponse { status: ResourceStatus::Created, commit }),
                ),
            ),
        },
        _ => unreached(),
    }
}

/// What the work outside the library gives back while one import is served.
pub struct ImportWorld<E> {
    pub resource: Result<ParsedResourceView, E>,
    /// By commit and path.
    pub node: spec_fn(Seq<char>, Seq<char>) -> Result<Option<NodeInfoView<E>>, E>,
    /// By the commit that the workspace is made on.
    pub workspace: spec_fn(Seq<char>) -> Result<(), E>,
    /// By URL, authorization, directory and file name.
    pub downloaded: spec_fn(Seq<char>, Seq<char>, Seq<char>, Seq<char>) -> Result<(), E>,
    /// By the body and the branch of the commit.
    pub committed: spec_fn(NewCommitBodyView, Seq<char>) -> Result<Seq<char>, E>,
}

/// The event that reports what came of an action.
pub open spec fn import_report<E>(
    world: ImportWorld<E>,
    action: ImportActionView<E>,
) -> ImportEventView<E> {
    match action {
        ImportActionView::ResolveResource => ImportEventView::Resource(world.resource),
        ImportActionView::LookUpNode { commit, path } => ImportEventView::Node(
            (world.node)(commit, path),
        ),
        ImportActionView::CreateWorkspace { commit } => ImportEventView::Workspace(
            (world.workspace)(commit),
        ),
        ImportActionView::Download { url, auth, directory, filename } => {
            ImportEventView::Downloaded((world.downloaded)(url, auth, directory, filename))
        },
        ImportActionView::Commit { body, branch } => ImportEventView::Committed(
            (world.committed)(body, branch),
        ),
        ImportActionView::Answer(_) => arbitrary(),
    }
}

/// How many events an import can still take.
pub open spec fn import_rank(state: ImportStateView) -> nat {
    match state {
        ImportStateView::Start => 6,
        ImportStateView::AwaitResource { .. } => 5,
        ImportStateView::AwaitNode { .. } => 4,
        ImportStateView::AwaitWorkspace { .. } => 3,
        ImportStateView::AwaitDownload { .. } => 2,
        ImportStateView::AwaitCommit => 1,
        ImportStateView::Done => 0,
    }
}

/// All that an import asks for from `state` on, in order, when `event` comes first. It stops
/// short where an event comes that the state does not expect.
pub open spec fn import_actions<E>(
    world: ImportWorld<E>,
    state: ImportStateView,
    event: ImportEventView<E>,
) -> Seq<ImportActionView<E>>
    decreases import_rank(state),
{
    if !import_expects(state, event) {
        Seq::empty()
    } else {
        let (next, action) = import_step(state, event);
        if action is Answer {
            seq![action]
        } else {
            seq![action] + import_actions(world, next, import_report(world, action))
        }
    }
}

/// All that the import of a request asks for.
pub open spec fn import_run<E>(world: ImportWorld<E>, order: ImportOrderView) -> Seq<
    ImportActionView<E>,
> {
    import_actions(world, ImportStateView::Start, ImportEventView::Received(order))
}

/// The checks of an import, in their order: what the URL names, that it is no file, that a
/// workspace can be had, and the URL to fetch from. An import that passes them has a file
/// name.
pub open spec fn import_granted<E>(world: ImportWorld<E>, order: ImportOrderView) -> Result<
    (BranchTargetView, Seq<char>),
    HttpErrorView<E>,
> {
    match world.resource {
        Err(error) => Err(HttpErrorView::Outside(error)),
        Ok(resource) => match branch_target::<E>(resource) {
            Err(error) => Err(error),
            Ok(target) => match (world.node)(target.commit, target.path) {
                Err(error) => Err(HttpErrorView::Outside(error)),
                Ok(node) => match import_possible(node, target.path) {
                    Err(error) => Err(error),
                    Ok(_) => match (world.workspace)(target.commit) {
                        Err(error) => Err(HttpErrorView::Outside(error)),
                        Ok(_) => match import_filename::<E>(url_parts(order.download_url)) {
                            Err(error) => Err(error),
                            Ok(filename) => Ok((target, filename)),
                        },
                    },
                },
            },
        },
    }
}

/// What the repository is asked to do for an import that passed its checks.
pub open spec fn import_changes<E>(
    world: ImportWorld<E>,
    order: ImportOrderView,
    target: BranchTargetView,
    filename: Seq<char>,
) -> Seq<ImportActionView<E>> {
    let download = ImportActionView::Download {
        url: order.download_url,
        auth: order.auth,
        directory: target.path,
        filename,
    };
    let body = import_commit_body(order, target.path);
    match (world.downloaded)(order.download_url, order.auth, target.path, filename) {
        Err(error) => seq![download, ImportActionView::Answer(Err(HttpErrorView::Outside(error)))],
        Ok(_) => seq![
            download,
            ImportActionView::Commit { body, branch: target.branch },
            match (world.committed)(body, target.branch) {
                Err(error) => ImportActionView::Answer(Err(HttpErrorView::Outside(error))),
                Ok(commit) => ImportActionView::Answer(
                    Ok(CommitResponseView { status: ResourceStatus::Created, commit }),
                ),
            },
        ],
    }
}

/// An import runs its checks before it fetches anything. One that fails a check is answered
/// with the error of the first check that it fails, and has fetched and committed nothing.
/// Any other ends with exactly one fetch, from the URL of the request into the directory that
/// its URL names, and one commit to the branch that it names; a fetch that worked must find
/// the headers of the commit readable.
pub proof fn law_import_checks_before_it_fetches<E>(world: ImportWorld<E>, order: ImportOrderView)
    requires
        import_granted(world, order) matches Ok((target, filename)) ==> (world.downloaded)(
            order.download_url,
            order.auth,
            target.path,
            filename,
        ) is Ok ==> has_readable_headers(order),
    ensures
        match import_granted(world, order) {
            Err(error) => {
                let run = import_run(world, order);
                &&& run.len() > 0
                &&& run.last() == ImportActionView::<E>::Answer(Err(error))
                &&& forall|i: int|
                    0 <= i < run.len() ==> !(#[trigger] run[i] is Download) && !(run[i] is Commit)
            },
            Ok((target, filename)) => import_run(world, order) == seq![
                ImportActionView::<E>::ResolveResource,
                ImportActionView::LookUpNode { commit: target.commit, path: target.path },
                ImportActionView::CreateWorkspace { commit: target.commit },
            ] + import_changes(world, order, target, filename),
        },
{
    reveal_with_fuel(import_actions, 6);
}

/// Whatever the outcome, an import fetches only from a URL whose domain is an allowed one.
pub proof fn law_import_fetches_from_allowed_domains<E>(
    world: ImportWorld<E>,
    order: ImportOrderView,
    i: int,
)
    requires
        0 <= i < import_run(world, order).len(),
        import_run(world, order)[i] is Download,
    ensures
        import_run(world, order)[i]->url == order.download_url,
        url_parts(order.download_url) matches Some((Some(domain), _)) && is_allowed_domain(domain),
{
    reveal_with_fuel(import_actions, 6);
}

} // verus!
