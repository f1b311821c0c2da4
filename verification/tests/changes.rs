//! Removals, moves and imports.

use oxen_files::delete::{check_removable, delete, DeleteAction, DeleteEvent, DeleteState};
use oxen_files::import::{
    choose_filename, commit_is_indescribable, domain_allowed, import, read_order, ImportAction,
    ImportEvent, ImportRequest, ImportState,
};
use oxen_files::json::Json;
use oxen_files::model::{
    CommitResponse, FileMoveBody, HttpError, NewCommitBody, NodeInfo, OxenError, ParsedResource,
    ResourceStatus, User,
};
use oxen_files::mv::{mv, MoveAction, MoveEvent, MoveState};
use oxen_files::outside::UrlParts;

type Fault = &'static str;

fn text(s: &str) -> String {
    s.to_string()
}

fn header(s: &str) -> Option<Vec<u8>> {
    Some(s.as_bytes().to_vec())
}

fn resource(path: &str) -> ParsedResource {
    ParsedResource {
        branch: Some(text("main")),
        commit: Some(text("c0")),
        workspace: None,
        path: text(path),
        version: text("main"),
    }
}

fn node(is_file: bool) -> Option<NodeInfo<Fault>> {
    Some(NodeInfo { is_file, latest_commit: Ok(text("c0")) })
}

fn run_delete(
    based_on: Option<Vec<u8>>,
    found: Option<NodeInfo<Fault>>,
    user: Option<User>,
) -> (Vec<DeleteAction<Fault>>, Result<CommitResponse, HttpError<Fault>>) {
    let mut found = Some(found);
    let mut user = Some(user);
    let mut log = vec![];
    let (mut state, mut action) = delete(DeleteState::Start, DeleteEvent::Received(based_on));
    loop {
        let event = match &action {
            DeleteAction::ResolveResource => DeleteEvent::Resource(Ok(resource("a/b.txt"))),
            DeleteAction::LookUpNode { .. } => DeleteEvent::Node(Ok(found.take().unwrap())),
            DeleteAction::Authenticate => DeleteEvent::User(Ok(user.take().unwrap())),
            DeleteAction::CreateWorkspace { .. } => DeleteEvent::Workspace(Ok(())),
            DeleteAction::Remove { .. } => DeleteEvent::Removed(Ok(())),
            DeleteAction::Commit { .. } => DeleteEvent::Committed(Ok(text("c1"))),
            DeleteAction::Answer(_) => break,
        };
        log.push(action);
        let step = delete(state, event);
        state = step.0;
        action = step.1;
    }
    match action {
        DeleteAction::Answer(answer) => (log, answer),
        _ => panic!("no answer"),
    }
}

fn bessie() -> Option<User> {
    Some(User { name: text("bessie"), email: text("bessie@oxen.ai") })
}

#[test]
fn a_file_is_removed_and_the_removal_committed() {
    let (log, answer) = run_delete(header("c0"), node(true), bessie());
    assert_eq!(answer, Ok(CommitResponse { status: ResourceStatus::Deleted, commit: text("c1") }));
    assert_eq!(
        log,
        vec![
            DeleteAction::ResolveResource,
            DeleteAction::LookUpNode { commit: text("c0"), path: text("a/b.txt") },
            DeleteAction::Authenticate,
            DeleteAction::CreateWorkspace { commit: text("c0") },
            DeleteAction::Remove { path: text("a/b.txt") },
            DeleteAction::Commit {
                body: NewCommitBody {
                    author: text("bessie"),
                    email: text("bessie@oxen.ai"),
                    message: text("Delete file a/b.txt"),
                },
                branch: text("main"),
            },
        ]
    );
}

#[test]
fn a_removal_that_fails_a_check_changes_nothing() {
    let (log, answer) = run_delete(None, None, bessie());
    assert_eq!(answer, Err(HttpError::NotFound));
    assert_eq!(log.len(), 2);
    let (log, answer) = run_delete(None, node(false), bessie());
    assert_eq!(answer, Err(HttpError::BadRequest(text("Cannot delete directory: a/b.txt"))));
    assert_eq!(log.len(), 2);
    let (log, answer) = run_delete(header("b9"), node(true), bessie());
    assert_eq!(
        answer,
        Err(HttpError::BasicError(text(
            "File has been modified since claimed revision. Current: c0, Claimed: b9. Your changes would overwrite another change without that being from a merge"
        )))
    );
    assert_eq!(log.len(), 2);
    let (log, answer) = run_delete(None, node(true), None);
    assert_eq!(
        answer,
        Err(HttpError::BadRequest(text("Bearer token required for DELETE operations")))
    );
    assert_eq!(log.len(), 3);
}

#[test]
fn a_removal_checks_what_is_at_the_path() {
    assert_eq!(check_removable(node(true), "p", &None), Ok(()));
    assert_eq!(check_removable(node(true), "p", &Some(text("c0"))), Ok(()));
    assert_eq!(
        check_removable(Some(NodeInfo { is_file: true, latest_commit: Err("lost") }), "p", &None),
        Err(HttpError::Outside("lost"))
    );
}

#[test]
fn outside_errors_of_a_removal_are_handed_on() {
    let (state, _) = delete::<Fault>(DeleteState::Start, DeleteEvent::Received(None));
    assert_eq!(
        delete(state, DeleteEvent::Resource(Err("down"))).1,
        DeleteAction::Answer(Err(HttpError::Outside("down")))
    );
    assert_eq!(
        delete(DeleteState::AwaitCommit, DeleteEvent::Committed(Err("down"))).1,
        DeleteAction::Answer(Err(HttpError::Outside("down")))
    );
}

fn move_body(new_path: &str) -> FileMoveBody {
    FileMoveBody { new_path: text(new_path), message: None, name: None, email: None }
}

fn run_mv(
    body: Result<FileMoveBody, Fault>,
    exists: bool,
    taken: bool,
) -> (Vec<MoveAction<Fault>>, Result<CommitResponse, HttpError<Fault>>) {
    let mut body = Some(body);
    let mut log = vec![];
    let (mut state, mut action) = mv(MoveState::Start, MoveEvent::Received);
    loop {
        let event = match &action {
            MoveAction::ResolveResource => MoveEvent::Resource(Ok(resource("a/old.jpg"))),
            MoveAction::ParseBody => MoveEvent::Body(body.take().unwrap()),
            MoveAction::NormalizePath { path } => MoveEvent::NewPath(Ok(path.replace("./", ""))),
            MoveAction::LookUpFile { .. } => MoveEvent::Source(Ok(exists)),
            MoveAction::LookUpNode { .. } => MoveEvent::Taken(Ok(taken)),
            MoveAction::CreateWorkspace { .. } => MoveEvent::Workspace(Ok(())),
            MoveAction::Move { .. } => MoveEvent::Moved(Ok(())),
            MoveAction::Commit { .. } => MoveEvent::Committed(Ok(text("c1"))),
            MoveAction::Answer(_) => break,
        };
        log.push(action);
        let step = mv(state, event);
        state = step.0;
        action = step.1;
    }
    match action {
        MoveAction::Answer(answer) => (log, answer),
        _ => panic!("no answer"),
    }
}

#[test]
fn a_file_is_moved_and_the_move_committed() {
    let (log, answer) = run_mv(Ok(move_body("./b/new.jpg")), true, false);
    assert_eq!(answer, Ok(CommitResponse { status: ResourceStatus::Updated, commit: text("c1") }));
    assert_eq!(
        log,
        vec![
            MoveAction::ResolveResource,
            MoveAction::ParseBody,
            MoveAction::NormalizePath { path: text("./b/new.jpg") },
            MoveAction::LookUpFile { commit: text("c0"), path: text("a/old.jpg") },
            MoveAction::LookUpNode { commit: text("c0"), path: text("b/new.jpg") },
            MoveAction::CreateWorkspace { commit: text("c0") },
            MoveAction::Move { from: text("a/old.jpg"), to: text("b/new.jpg") },
            MoveAction::Commit {
                body: NewCommitBody {
                    author: text(""),
                    email: text(""),
                    message: text("Move a/old.jpg to b/new.jpg"),
                },
                branch: text("main"),
            },
        ]
    );
}

#[test]
fn the_body_of_a_move_describes_its_commit() {
    let body = FileMoveBody {
        new_path: text("new/path/to/file.txt"),
        message: Some(text("Renamed file to new location")),
        name: Some(text("bessie")),
        email: Some(text("bessie@oxen.ai")),
    };
    let (log, _) = run_mv(Ok(body), true, false);
    assert_eq!(
        log[7],
        MoveAction::Commit {
            body: NewCommitBody {
                author: text("bessie"),
                email: text("bessie@oxen.ai"),
                message: text("Renamed file to new location"),
            },
            branch: text("main"),
        }
    );
}

#[test]
fn a_move_that_fails_a_check_changes_nothing() {
    let (log, answer) = run_mv(Ok(move_body("")), true, false);
    assert_eq!(answer, Err(HttpError::BadRequest(text("new_path cannot be empty"))));
    assert_eq!(log.len(), 2);
    let (log, answer) = run_mv(Ok(move_body("b")), false, false);
    assert_eq!(answer, Err(HttpError::NotFound));
    assert_eq!(log.len(), 4);
    let (log, answer) = run_mv(Ok(move_body("b")), true, true);
    assert_eq!(
        answer,
        Err(HttpError::BadRequest(text("new_path already exists in the repository")))
    );
    assert_eq!(log.len(), 5);
    let (log, answer) = run_mv(Err("no JSON"), true, false);
    assert_eq!(answer, Err(HttpError::Outside("no JSON")));
    assert_eq!(log.len(), 2);
}

#[test]
fn a_move_needs_a_branch() {
    let mut nowhere = resource("a");
    nowhere.branch = None;
    let (state, _) = mv::<Fault>(MoveState::Start, MoveEvent::Received);
    assert_eq!(
        mv::<Fault>(state, MoveEvent::Resource(Ok(nowhere))).1,
        MoveAction::Answer(Err(HttpError::InternalOxenError(OxenError::LocalBranchNotFound(text(
            "main"
        )))))
    );
}

fn body_of(url: &str) -> Json {
    Json::Object(vec![(text("download_url"), Json::Text(text(url)))])
}

fn order(body: Json) -> ImportRequest {
    ImportRequest {
        author: header("test_user"),
        email: header("ox@oxen.ai"),
        message: None,
        body,
    }
}

fn run_import(
    request: ImportRequest,
    found: Option<NodeInfo<Fault>>,
) -> (Vec<ImportAction<Fault>>, Result<CommitResponse, HttpError<Fault>>) {
    let mut found = Some(found);
    let mut log = vec![];
    let (mut state, mut action) = import(ImportState::Start, ImportEvent::Received(request));
    loop {
        let event = match &action {
            ImportAction::ResolveResource => ImportEvent::Resource(Ok(resource("data"))),
            ImportAction::LookUpNode { .. } => ImportEvent::Node(Ok(found.take().unwrap())),
            ImportAction::CreateWorkspace { .. } => ImportEvent::Workspace(Ok(())),
            ImportAction::Download { .. } => ImportEvent::Downloaded(Ok(())),
            ImportAction::Commit { .. } => ImportEvent::Committed(Ok(text("c1"))),
            ImportAction::Answer(_) => break,
        };
        log.push(action);
        let step = import(state, event);
        state = step.0;
        action = step.1;
    }
    match action {
        ImportAction::Answer(answer) => (log, answer),
        _ => panic!("no answer"),
    }
}

#[test]
fn test_controllers_file_import() {
    let url = "https://hub.oxen.ai/api/repos/datasets/GettingStarted/file/main/tables/cats_vs_dogs.tsv";
    let (log, answer) = run_import(order(body_of(url)), node(false));
    assert_eq!(answer, Ok(CommitResponse { status: ResourceStatus::Created, commit: text("c1") }));
    match &log[3] {
        ImportAction::Download { url: from, auth, directory, filename } => {
            assert_eq!(from, url);
            assert_eq!(auth, "");
            assert_eq!(format!("{directory}/{filename}"), "data/cats_vs_dogs.tsv");
        }
        _ => panic!("nothing is fetched"),
    }
    assert_eq!(
        log[4],
        ImportAction::Commit {
            body: NewCommitBody {
                author: text("test_user"),
                email: text("ox@oxen.ai"),
                message: text("Import files to data"),
            },
            branch: text("main"),
        }
    );
    assert_eq!(log.len(), 5);
}

#[test]
fn a_file_from_hugging_face_is_called_by_two_segments() {
    let url = "https://huggingface.co/datasets/ox/resolve/main/train.csv?download=true";
    let (log, _) = run_import(order(body_of(url)), None);
    match &log[3] {
        ImportAction::Download { filename, .. } => assert_eq!(filename, "main_train.csv"),
        _ => panic!("nothing is fetched"),
    }
}

#[test]
fn a_url_that_is_not_allowed_is_refused() {
    for (url, message) in [
        ("", "Invalid URL"),
        ("not a url", "Invalid URL"),
        ("https://127.0.0.1/a", "Invalid URL domain"),
        ("data:text/plain,hello", "Invalid URL domain"),
        ("https://example.com/a", "URL domain not allowed"),
        ("https://oxen.ai.example.com/a", "URL domain not allowed"),
        ("https://huggingface.co/", "Invalid filename in URL"),
    ] {
        let (log, answer) = run_import(order(body_of(url)), None);
        assert_eq!(answer, Err(HttpError::BadRequest(text(message))), "{url}");
        assert_eq!(log.len(), 3);
    }
}

#[test]
fn an_import_to_a_file_is_refused() {
    let (log, answer) = run_import(order(body_of("https://oxen.ai/a")), node(true));
    assert_eq!(answer, Err(HttpError::BasicError(text("Target path must be a directory: data"))));
    assert_eq!(log.len(), 2);
}

#[test]
fn the_body_of_an_import_is_read() {
    let headers = Json::Object(vec![
        (text("Accept"), Json::Other),
        (text("Authorization"), Json::Text(text("Bearer x"))),
    ]);
    let body = Json::Object(vec![
        (text("headers"), headers),
        (text("download_url"), Json::Text(text("https://oxen.ai/a"))),
    ]);
    let read = read_order(order(body));
    assert_eq!(read.auth, "Bearer x");
    assert_eq!(read.download_url, "https://oxen.ai/a");
    for body in [
        Json::Other,
        Json::Text(text("headers")),
        Json::Object(vec![]),
        Json::Object(vec![(text("headers"), Json::Other), (text("download_url"), Json::Other)]),
    ] {
        let read = read_order(order(body));
        assert_eq!(read.auth, "");
        assert_eq!(read.download_url, "");
    }
}

#[test]
fn the_domains_that_files_come_from() {
    for domain in ["huggingface.co", "www.kaggle.com", "hub.oxen.ai", "notoxen.ai"] {
        assert!(domain_allowed(domain), "{domain}");
    }
    for domain in ["", "oxen.a", "oxen.ai.", "kaggle.org"] {
        assert!(!domain_allowed(domain), "{domain}");
    }
}

#[test]
fn the_name_of_an_imported_file() {
    let parts = |domain: &str, segments: Option<&[&str]>| {
        choose_filename::<Fault>(Some(UrlParts {
            domain: Some(text(domain)),
            segments: segments.map(|all| all.iter().map(|s| text(s)).collect()),
        }))
    };
    assert_eq!(parts("oxen.ai", Some(&["a", "b.csv"])), Ok(text("b.csv")));
    assert_eq!(parts("oxen.ai", Some(&[""])), Ok(text("")));
    assert_eq!(parts("huggingface.co", Some(&["a", "b.csv"])), Ok(text("a_b.csv")));
    assert_eq!(parts("www.huggingface.co", Some(&["a", "b.csv"])), Ok(text("b.csv")));
    let invalid = Err(HttpError::BadRequest(text("Invalid filename in URL")));
    assert_eq!(parts("huggingface.co", Some(&["b.csv"])), invalid);
    assert_eq!(parts("oxen.ai", None), invalid);
    assert_eq!(
        choose_filename::<Fault>(None),
        Err(HttpError::BadRequest(text("Invalid URL")))
    );
}

#[test]
fn an_import_with_unreadable_headers_is_told_apart() {
    let at_download = |request: ImportRequest| {
        let (state, _) = import::<Fault>(ImportState::Start, ImportEvent::Received(request));
        let (state, _) = import::<Fault>(state, ImportEvent::Resource(Ok(resource("data"))));
        let (state, _) = import::<Fault>(state, ImportEvent::Node(Ok(None)));
        import::<Fault>(state, ImportEvent::Workspace(Ok(()))).0
    };
    let done = ImportEvent::<Fault>::Downloaded(Ok(()));
    let failed = ImportEvent::<Fault>::Downloaded(Err("offline"));
    let readable = at_download(order(body_of("https://oxen.ai/a")));
    assert!(!commit_is_indescribable(&readable, &done));
    let mut request = order(body_of("https://oxen.ai/a"));
    request.message = Some(vec![0xff]);
    let unreadable = at_download(request);
    assert!(commit_is_indescribable(&unreadable, &done));
    assert!(!commit_is_indescribable(&unreadable, &failed));
    assert_eq!(
        import(unreadable, failed).1,
        ImportAction::Answer(Err(HttpError::Outside("offline")))
    );
}

#[test]
fn the_headers_of_an_import_describe_its_commit() {
    let mut request = order(body_of("https://oxen.ai/a"));
    request.message = header("Fetch it");
    request.author = None;
    let (log, _) = run_import(request, None);
    assert_eq!(
        log[4],
        ImportAction::Commit {
            body: NewCommitBody {
                author: text(""),
                email: text("ox@oxen.ai"),
                message: text("Fetch it"),
            },
            branch: text("main"),
        }
    );
}
