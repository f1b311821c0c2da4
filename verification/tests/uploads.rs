//! Uploads, from the bytes of the payload to the commit.

use std::collections::BTreeMap;

use oxen_files::auth::{get_authenticated_user, AuthAction, AuthEvent, AuthState, ClaimLookup};
use oxen_files::initial_put::{
    handle_initial_put_empty_repo, has_nothing_to_commit, split_resource, InitialPutAction,
    InitialPutEvent, InitialPutRequest, InitialPutState,
};
use oxen_files::model::{
    CommitResponse, FileContents, FileNew, HttpError, NewCommitBody, NodeInfo, OxenError,
    ParsedResource, ResourceStatus, TempFileNew, UploadForm, User,
};
use oxen_files::multipart::{
    parse_multipart_fields, read_form, Disposition, MultipartAction, MultipartEvent,
    MultipartState,
};
use oxen_files::put::{put, PutAction, PutEvent, PutRequest, PutState};
use oxen_files::raw_payload::{
    parse_raw_payload, read_raw_payload, RawAction, RawEvent, RawRequest, RawState,
};
use oxen_files::staging::{
    choose_destination, process_and_add_files, ParentDirectory, StagingAction, StagingEvent,
    StagingState,
};
use oxen_files::upload::{
    choose_author, choose_message, choose_target, message_header_usable, payload_is_form,
    UploadTarget,
};

type Fault = &'static str;

fn text(s: &str) -> String {
    s.to_string()
}

fn header(s: &str) -> Option<Vec<u8>> {
    Some(s.as_bytes().to_vec())
}

fn user(name: &str, email: &str) -> User {
    User { name: text(name), email: text(email) }
}

/// A field of a form: its name, its file name, and its bytes in pieces.
struct Field {
    name: &'static str,
    filename: Option<&'static str>,
    chunks: Vec<Vec<u8>>,
}

fn field(name: &'static str, filename: Option<&'static str>, chunks: &[&[u8]]) -> Field {
    Field { name, filename, chunks: chunks.iter().map(|chunk| chunk.to_vec()).collect() }
}

fn read_fields(fields: Vec<Field>) -> Result<UploadForm, HttpError<Fault>> {
    read_fields_on(false, fields)
}

fn read_fields_on(on_windows: bool, fields: Vec<Field>) -> Result<UploadForm, HttpError<Fault>> {
    let mut fields = fields.into_iter();
    let mut chunks: Vec<Vec<u8>> = vec![];
    let (mut state, mut action) =
        parse_multipart_fields(on_windows, MultipartState::Start, MultipartEvent::Begin);
    loop {
        let event = match action {
            MultipartAction::Finish(form) => return form,
            MultipartAction::NextField => match fields.next() {
                None => MultipartEvent::FormEnd,
                Some(field) => {
                    chunks = field.chunks;
                    MultipartEvent::Field(Some(Disposition {
                        name: Some(text(field.name)),
                        filename: field.filename.map(text),
                    }))
                }
            },
            MultipartAction::NextChunk => {
                if chunks.is_empty() {
                    MultipartEvent::FieldEnd
                } else {
                    MultipartEvent::Chunk(chunks.remove(0))
                }
            }
        };
        let step = parse_multipart_fields(on_windows, state, event);
        state = step.0;
        action = step.1;
    }
}

fn read_raw(path: &str, message: Option<Vec<u8>>, chunks: &[&[u8]]) -> Result<UploadForm, HttpError<Fault>> {
    let request = RawRequest { path: text(path), commit_message: message };
    let mut chunks = chunks.iter();
    let (mut state, mut action) = parse_raw_payload(RawState::Start, RawEvent::Received(request));
    loop {
        match action {
            RawAction::Finish(form) => return form,
            RawAction::NextChunk => {
                let event = match chunks.next() {
                    Some(chunk) => RawEvent::Chunk(chunk.to_vec()),
                    None => RawEvent::End,
                };
                let step = parse_raw_payload(state, event);
                state = step.0;
                action = step.1;
            }
        }
    }
}

/// Stages files in memory; the directories that are there are those of `present`.
fn stage(
    tree: &mut BTreeMap<String, Vec<u8>>,
    present: &[&str],
    target: UploadTarget,
    files: Vec<FileNew>,
) -> (Vec<StagingAction<Fault>>, Result<(), Fault>) {
    let mut log = vec![];
    let (mut state, mut action) = process_and_add_files(StagingState::new(target, files), StagingEvent::Begin);
    loop {
        let event = match &action {
            StagingAction::Finish(result) => return (log, *result),
            StagingAction::CheckParent { path } => StagingEvent::Parent(match path.rfind('/') {
                None => ParentDirectory::NoParent,
                Some(i) if present.contains(&&path[..i]) => ParentDirectory::Present,
                Some(_) => ParentDirectory::Missing,
            }),
            StagingAction::CreateParent { .. } => StagingEvent::DirectoryMade(Ok(())),
            StagingAction::Write { path, bytes } => {
                tree.insert(path.clone(), bytes.clone());
                StagingEvent::Written(Ok(()))
            }
            StagingAction::Stage { .. } => StagingEvent::Staged(Ok(())),
        };
        log.push(action);
        let step = process_and_add_files(state, event);
        state = step.0;
        action = step.1;
    }
}

/// A repository in memory, and what an upload to it is answered with.
struct Repo {
    node: Option<NodeInfo<Fault>>,
    resource: ParsedResource,
    claim: ClaimLookup,
    tree: BTreeMap<String, Vec<u8>>,
    commits: Vec<(NewCommitBody, String)>,
}

fn repo_at(path: &str) -> Repo {
    Repo {
        node: None,
        resource: ParsedResource {
            branch: Some(text("main")),
            commit: Some(text("c0")),
            workspace: None,
            path: text(path),
            version: text("main"),
        },
        claim: ClaimLookup::Unclaimed,
        tree: BTreeMap::new(),
        commits: vec![],
    }
}

fn request(content_type: &str) -> PutRequest {
    PutRequest {
        authorization: None,
        based_on: None,
        commit_message: None,
        content_type: header(content_type),
    }
}

fn authenticate(authorization: Option<Vec<u8>>, claim: ClaimLookup) -> Result<Option<User>, Fault> {
    let (state, action) = get_authenticated_user(AuthState::Start, AuthEvent::Received(authorization));
    match action {
        AuthAction::Finish(user) => user,
        AuthAction::LookUpClaim { .. } => {
            match get_authenticated_user(state, AuthEvent::Claim(Ok(claim))).1 {
                AuthAction::Finish(user) => user,
                AuthAction::LookUpClaim { .. } => panic!("asked twice"),
            }
        }
    }
}

fn run_put(
    repo: &mut Repo,
    request: PutRequest,
    authorization: Option<Vec<u8>>,
    form: Result<UploadForm, HttpError<Fault>>,
) -> Result<CommitResponse, HttpError<Fault>> {
    let mut form = Some(form);
    let mut request = request;
    request.authorization = authorization.clone();
    let (mut state, mut action) = put(PutState::Start, PutEvent::Received(request));
    loop {
        let event = match action {
            PutAction::Answer(answer) => return answer,
            PutAction::HandleInitialPut => panic!("the repository has commits"),
            PutAction::OpenRepository => PutEvent::Head(Ok(true)),
            PutAction::ResolveResource => {
                let r = &repo.resource;
                PutEvent::Resource(Ok(ParsedResource {
                    branch: r.branch.clone(),
                    commit: r.commit.clone(),
                    workspace: r.workspace.clone(),
                    path: r.path.clone(),
                    version: r.version.clone(),
                }))
            }
            PutAction::LookUpNode { commit, path } => {
                assert_eq!(commit, "c0");
                assert_eq!(path, repo.resource.path);
                PutEvent::Node(Ok(repo.node.take()))
            }
            PutAction::ReadForm | PutAction::ReadPayload => PutEvent::Form(form.take().unwrap()),
            PutAction::Authenticate => {
                let claim = std::mem::replace(&mut repo.claim, ClaimLookup::Unclaimed);
                PutEvent::User(authenticate(authorization.clone(), claim))
            }
            PutAction::CreateWorkspace { commit } => {
                assert_eq!(commit, "c0");
                PutEvent::Workspace(Ok(()))
            }
            PutAction::AddFiles { target, files } => {
                PutEvent::Added(stage(&mut repo.tree, &["data"], target, files).1)
            }
            PutAction::Commit { body, branch } => {
                repo.commits.push((body, branch));
                PutEvent::Committed(Ok(text("c1")))
            }
        };
        let step = put(state, event);
        state = step.0;
        action = step.1;
    }
}

#[test]
fn test_controllers_file_put() {
    let mut repo = repo_at("data");
    repo.tree.insert(text("data/hello.txt"), b"Hello".to_vec());
    repo.node = Some(NodeInfo { is_file: false, latest_commit: Ok(text("c0")) });
    let form = read_fields(vec![
        field("file", Some("hello.txt"), &[b"Updated Content!"]),
        field("name", None, &[b"some_name"]),
        field("email", None, &[b"some_email"]),
        field("message", None, &[b"some_message"]),
    ]);
    let answer = run_put(&mut repo, request("multipart/form-data; boundary=x"), None, form);
    assert_eq!(answer, Ok(CommitResponse { status: ResourceStatus::Created, commit: text("c1") }));

    // Check that the file was updated
    let uploaded_content = repo.tree.get("data/hello.txt").unwrap().clone();
    assert_eq!(String::from_utf8(uploaded_content).unwrap(), "Updated Content!");
    assert_eq!(
        repo.commits,
        vec![(
            NewCommitBody {
                author: text("some_name"),
                email: text("some_email"),
                message: text("some_message"),
            },
            text("main"),
        )]
    );
}

#[test]
fn the_user_of_the_token_comes_before_the_form() {
    let mut repo = repo_at("data");
    repo.claim = ClaimLookup::Claimed { name: text("bessie"), email: text("bessie@oxen.ai") };
    let form = read_fields(vec![
        field("file", Some("a.txt"), &[b"a"]),
        field("name", None, &[b"other"]),
        field("email", None, &[b"other@oxen.ai"]),
    ]);
    run_put(&mut repo, request("multipart/form-data"), header("Bearer secret"), form).unwrap();
    assert_eq!(repo.commits[0].0.author, "bessie");
    assert_eq!(repo.commits[0].0.email, "bessie@oxen.ai");
    assert_eq!(repo.commits[0].0.message, "Auto-commit files to data");
}

#[test]
fn an_upload_without_an_author_changes_nothing() {
    for fields in [
        vec![field("file", Some("a.txt"), &[b"a"])],
        vec![field("file", Some("a.txt"), &[b"a"]), field("name", None, &[b"n"])],
        vec![field("file", Some("a.txt"), &[b"a"]), field("email", None, &[b"e"])],
        vec![
            field("file", Some("a.txt"), &[b"a"]),
            field("name", None, &[b"\xff"]),
            field("email", None, &[b"e"]),
        ],
    ] {
        let mut repo = repo_at("data");
        let answer =
            run_put(&mut repo, request("multipart/form-data"), None, read_fields(fields));
        assert_eq!(
            answer,
            Err(HttpError::BadRequest(text("Bearer token required for PUT operations")))
        );
        assert!(repo.tree.is_empty());
        assert!(repo.commits.is_empty());
    }
}

#[test]
fn credentials_of_nobody_are_not_replaced_by_the_form() {
    for (authorization, claim) in [
        (header("Bearer bad"), ClaimLookup::Rejected),
        (header("Bearer bad"), ClaimLookup::Unclaimed),
        (header("Bearer bad"), ClaimLookup::KeysUnavailable),
        (header("Basic x"), ClaimLookup::Unclaimed),
        (Some(vec![0xff]), ClaimLookup::Unclaimed),
        (header(""), ClaimLookup::Unclaimed),
    ] {
        let mut repo = repo_at("docs");
        repo.tree.insert(text("README.md"), b"hi".to_vec());
        repo.claim = claim;
        let form = read_fields(vec![
            field("name", None, &[b"mallory"]),
            field("email", None, &[b"m@x.org"]),
            field("file", Some("a.txt"), &[b"new"]),
        ]);
        assert_eq!(
            run_put(&mut repo, request("multipart/form-data"), authorization, form),
            Err(HttpError::BadRequest(text("Bearer token required for PUT operations")))
        );
        assert_eq!(repo.tree, BTreeMap::from([(text("README.md"), b"hi".to_vec())]));
        assert!(repo.commits.is_empty());
    }
}

fn put_on_file(based_on: Option<Vec<u8>>) -> (Repo, Result<CommitResponse, HttpError<Fault>>) {
    let mut repo = repo_at("data/hello.txt");
    repo.node = Some(NodeInfo { is_file: true, latest_commit: Ok(text("c0")) });
    repo.claim = ClaimLookup::Claimed { name: text("n"), email: text("e") };
    let mut request = request("text/plain");
    request.based_on = based_on;
    let form = read_raw("/api/repos/ox/r/file/main/data/hello.txt", None, &[b"new ", b"text"]);
    let answer = run_put(&mut repo, request, header("Bearer t"), form);
    (repo, answer)
}

#[test]
fn a_stale_claim_is_refused() {
    let (repo, answer) = put_on_file(header("b9"));
    assert_eq!(
        answer,
        Err(HttpError::BasicError(text(
            "File has been modified since claimed revision. Current: c0, Claimed: b9. Your changes would overwrite another change without that being from a merge"
        )))
    );
    assert!(repo.tree.is_empty());
    assert!(repo.commits.is_empty());
}

#[test]
fn a_claim_that_holds_or_is_missing_or_unreadable_is_accepted() {
    for based_on in [header("c0"), None, Some(vec![0xe9])] {
        let (repo, answer) = put_on_file(based_on);
        assert_eq!(answer.unwrap().commit, "c1");
        assert_eq!(repo.tree.get("data/hello.txt").unwrap(), b"new text");
        assert_eq!(repo.commits[0].0.message, "Auto-commit files to data/hello.txt");
    }
}

#[test]
fn a_claim_on_a_directory_is_not_looked_at() {
    let mut repo = repo_at("data");
    repo.node = Some(NodeInfo { is_file: false, latest_commit: Err("no commit") });
    repo.claim = ClaimLookup::Claimed { name: text("n"), email: text("e") };
    let mut request = request("multipart/form-data");
    request.based_on = header("b9");
    let form = read_fields(vec![field("files[]", Some("a"), &[b"1"]), field("files[]", Some("b"), &[b"2"])]);
    assert!(run_put(&mut repo, request, header("Bearer t"), form).is_ok());
    assert_eq!(repo.tree.get("data/a").unwrap(), b"1");
    assert_eq!(repo.tree.get("data/b").unwrap(), b"2");
}

#[test]
fn a_form_uploaded_to_a_file_replaces_that_file() {
    let mut repo = repo_at("data/hello.txt");
    repo.node = Some(NodeInfo { is_file: true, latest_commit: Ok(text("c0")) });
    repo.claim = ClaimLookup::Claimed { name: text("n"), email: text("e") };
    let form = read_fields(vec![field("file", Some("other.txt"), &[b"x"])]);
    assert!(run_put(&mut repo, request("multipart/form-data"), header("Bearer t"), form).is_ok());
    assert_eq!(repo.tree.get("data/hello.txt").unwrap(), b"x");
    assert_eq!(repo.tree.len(), 1);
}

#[test]
fn an_unusable_message_header_is_refused() {
    for message in ["", "  \t "] {
        assert!(!message_header_usable(&header(message)));
    }
    assert!(!message_header_usable(&Some(vec![b'a', 0xff])));
    assert!(message_header_usable(&header(" a ")));
    assert!(message_header_usable(&None));

    let mut repo = repo_at("data");
    repo.claim = ClaimLookup::Claimed { name: text("n"), email: text("e") };
    let mut request = request("multipart/form-data");
    request.commit_message = header("   ");
    let form = read_fields(vec![field("file", Some("a"), &[b"1"])]);
    assert_eq!(
        run_put(&mut repo, request, header("Bearer t"), form),
        Err(HttpError::BadRequest(text("Invalid oxen-commit-message header value")))
    );
    assert!(repo.commits.is_empty());
}

#[test]
fn the_message_of_the_header_comes_before_that_of_the_form() {
    assert_eq!(choose_message(&header("h"), Some(text("f")), "p"), "h");
    assert_eq!(choose_message(&None, Some(text("f")), "p"), "f");
    assert_eq!(choose_message(&None, None, "a/b"), "Auto-commit files to a/b");
}

#[test]
fn an_upload_needs_a_branch_and_a_commit() {
    let mut repo = repo_at("data");
    repo.resource.branch = None;
    repo.resource.version = text("abc123");
    assert_eq!(
        run_put(&mut repo, request("text/plain"), None, Err(HttpError::NotFound)),
        Err(HttpError::InternalOxenError(OxenError::LocalBranchNotFound(text("abc123"))))
    );
    let mut repo = repo_at("data");
    repo.resource.commit = None;
    assert_eq!(
        run_put(&mut repo, request("text/plain"), None, Err(HttpError::Outside("unread"))),
        Err(HttpError::NotFound)
    );
}

#[test]
fn an_outside_error_is_handed_on() {
    let start = || put::<Fault>(PutState::Start, PutEvent::Received(request("text/plain"))).0;
    let (state, action) = put(start(), PutEvent::Head(Err("broken")));
    assert_eq!(state, PutState::Done);
    assert_eq!(action, PutAction::Answer(Err(HttpError::Outside("broken"))));
    let (state, action) = put::<Fault>(start(), PutEvent::Head(Ok(false)));
    assert_eq!(state, PutState::Done);
    assert_eq!(action, PutAction::HandleInitialPut);
}

#[test]
fn a_file_whose_last_commit_is_unknown_is_an_error() {
    let mut repo = repo_at("data/hello.txt");
    repo.node = Some(NodeInfo { is_file: true, latest_commit: Err("no commit") });
    assert_eq!(
        run_put(&mut repo, request("text/plain"), None, Err(HttpError::NotFound)),
        Err(HttpError::Outside("no commit"))
    );
}

#[test]
fn a_payload_is_a_form_by_its_content_type() {
    assert!(payload_is_form(&header("multipart/form-data; boundary=a")));
    assert!(!payload_is_form(&header("Multipart/form-data")));
    assert!(!payload_is_form(&header("application/json")));
    assert!(!payload_is_form(&Some(b"multipart/form-data\xff".to_vec())));
    assert!(!payload_is_form(&None));
}

#[test]
fn the_target_of_an_upload() {
    let form = header("multipart/form-data");
    assert_eq!(choose_target(&form, text("d"), false), UploadTarget::Directory(text("d")));
    assert_eq!(choose_target(&form, text("d"), true), UploadTarget::File(text("d")));
    assert_eq!(choose_target(&None, text("d"), false), UploadTarget::File(text("d")));
    assert_eq!(choose_target(&None, text("d"), true), UploadTarget::File(text("d")));
}

#[test]
fn the_author_of_an_upload() {
    let name = || Some(text("n"));
    let email = || Some(text("e"));
    let known = || Some(user("u", "v"));
    assert_eq!(choose_author(known(), &None, name(), email()), known());
    assert_eq!(choose_author(known(), &header("Bearer t"), name(), email()), known());
    assert_eq!(choose_author(None, &None, name(), email()), Some(user("n", "e")));
    assert_eq!(choose_author(None, &None, name(), None), None);
    assert_eq!(choose_author(None, &None, None, email()), None);
    assert_eq!(choose_author(None, &header("Bearer t"), name(), email()), None);
    assert_eq!(choose_author(None, &header("Basic t"), name(), email()), None);
}

#[test]
fn a_form_is_read_however_it_is_cut() {
    let whole = read_fields(vec![
        field("message", None, &["caf\u{e9}".as_bytes()]),
        field("file", Some("a.bin"), &[&[0, 1, 2, 255]]),
    ]);
    let pieces = read_fields(vec![
        field("message", None, &[b"caf\xc3", b"", b"\xa9"]),
        field("file", Some("a.bin"), &[&[0], &[1, 2], &[255]]),
    ]);
    assert_eq!(whole, pieces);
    assert_eq!(
        whole,
        Ok(UploadForm {
            name: None,
            email: None,
            message: Some(text("caf\u{e9}")),
            files: vec![TempFileNew {
                path: text("a.bin"),
                contents: FileContents::Binary(vec![0, 1, 2, 255]),
            }],
        })
    );
}

#[test]
fn message_and_files_depend_on_their_fields_alone() {
    let one = read_fields(vec![
        field("name", None, &[b"n"]),
        field("message", None, &["caf\u{e9}".as_bytes()]),
        field("color", None, &[b"red"]),
        field("file", Some("a"), &[b"12"]),
        field("files[]", Some("b"), &[b"3"]),
    ])
    .unwrap();
    let other = read_fields(vec![
        field("message", None, &[b"caf\xc3", b"\xa9"]),
        field("files[]", Some("a"), &[b"1", b"2"]),
        field("email", None, &[b"\xff"]),
        field("file", Some("b"), &[b"3"]),
    ])
    .unwrap();
    assert_eq!(one.message, Some(text("caf\u{e9}")));
    assert_eq!(one.message, other.message);
    assert_eq!(one.files, other.files);
    assert_ne!(one.name, other.name);
}

#[test]
fn unknown_fields_are_passed_over_and_the_last_of_a_kind_counts() {
    let form = read_fields(vec![
        field("message", None, &[b"one"]),
        field("color", None, &[b"red"]),
        field("message", None, &[b"two"]),
        field("name", None, &[b"a"]),
        field("name", None, &[b"\xff"]),
    ])
    .unwrap();
    assert_eq!(form.message, Some(text("two")));
    assert_eq!(form.name, None);
    assert_eq!(form.email, None);
    assert!(form.files.is_empty());
}

#[test]
fn a_message_that_is_not_utf8_is_refused_with_what_is_wrong() {
    let message = String::from_utf8(vec![b'a', 0xff]).unwrap_err().to_string();
    assert_eq!(
        read_fields(vec![field("message", None, &[b"a\xff"])]),
        Err(HttpError::BadRequest(message))
    );
}

#[test]
fn file_names_are_made_fit_for_a_file_system() {
    let form = read_fields(vec![
        field("file", Some("../../etc/pass:wd?"), &[b"1"]),
        field("file", Some(".."), &[b"2"]),
        field("file", Some("plain name.txt"), &[b"3"]),
    ])
    .unwrap();
    assert_eq!(form.files[0].path, "....etcpasswd");
    assert_eq!(form.files[1].path, "");
    assert_eq!(form.files[2].path, "plain name.txt");
    let here = sanitize_filename::Options::default().windows;
    for name in ["a.", "a ", "a. .", "con", "aux.csv", "com1.log", "LPT9.", "constant", "a/b"] {
        let upload = || vec![field("file", Some(name), &[])];
        let form = read_fields_on(here, upload()).unwrap();
        assert_eq!(form.files[0].path, sanitize_filename::sanitize(name), "{name}");
        let cleaned = name.replace('/', "");
        assert_eq!(read_fields_on(false, upload()).unwrap().files[0].path, cleaned);
        let device = ["con", "aux.csv", "com1.log", "LPT9."].contains(&name);
        let left = if device { "" } else { cleaned.trim_end_matches(['.', ' ']) };
        assert_eq!(read_fields_on(true, upload()).unwrap().files[0].path, left);
    }
    let long: &'static str = "xxxxxxxxxxxxxxxxxxxxxxxxxxxxxxxxxxxxxxxxxxxxxxxxxxxxxxxxxxxxxxxxxxxxxxxxxxxxxxxxxxxxxxxxxxxxxxxxxxxxxxxxxxxxxxxxxxxxxxxxxxxxxxxxxxxxxxxxxxxxxxxxxxxxxxxxxxxxxxxxxxxxxxxxxxxxxxxxxxxxxxxxxxxxxxxxxxxxxxxxxxxxxxxxxxxxxxxxxxxxxxxxxxxxxxxxxxxxxxxxxxxxxxxxxxxxxxxxxxxxxxxxxxxx";
    assert!(long.len() > 255);
    let form = read_fields(vec![field("file", Some(long), &[])]).unwrap();
    assert_eq!(form.files[0].path, long[..255]);
}

#[test]
fn a_file_without_a_name_gets_a_random_one() {
    let form = read_fields(vec![field("file", None, &[b"1"]), field("files[]", None, &[b"2"])]).unwrap();
    for file in &form.files {
        let name = file.path.as_bytes();
        assert_eq!(name.len(), 36);
        assert_eq!(name[14], b'4');
        assert!(b"89ab".contains(&name[19]));
        for (i, byte) in name.iter().enumerate() {
            if [8, 13, 18, 23].contains(&i) {
                assert_eq!(*byte, b'-');
            } else {
                assert!(b"0123456789abcdef".contains(byte));
            }
        }
    }
    assert_ne!(form.files[0].path, form.files[1].path);
}

#[test]
fn a_field_without_a_name_or_a_broken_form_is_refused() {
    let start = || parse_multipart_fields::<Fault>(false, MultipartState::Start, MultipartEvent::Begin).0;
    let finish = |event| parse_multipart_fields::<Fault>(false, start(), event).1;
    assert_eq!(finish(MultipartEvent::Field(None)), MultipartAction::Finish(Err(HttpError::NotFound)));
    assert_eq!(
        finish(MultipartEvent::Field(Some(Disposition { name: None, filename: Some(text("a")) }))),
        MultipartAction::Finish(Err(HttpError::NotFound))
    );
    assert_eq!(
        finish(MultipartEvent::Broken("cut off")),
        MultipartAction::Finish(Err(HttpError::MultipartError("cut off")))
    );
    let named = |name: &str| {
        MultipartEvent::Field(Some(Disposition { name: Some(text(name)), filename: None }))
    };
    for name in ["name", "email", "message", "file", "files[]"] {
        let (state, action) = parse_multipart_fields::<Fault>(false, start(), named(name));
        assert_eq!(action, MultipartAction::NextChunk);
        assert_eq!(
            parse_multipart_fields(false, state, MultipartEvent::Broken("cut off")).1,
            MultipartAction::Finish(Err(HttpError::MultipartError("cut off")))
        );
    }
    let (_, action) = parse_multipart_fields::<Fault>(false, start(), named("other"));
    assert_eq!(action, MultipartAction::NextField);
}

#[test]
fn a_file_is_kept_under_the_given_name() {
    let start = read_form::<Fault>(MultipartState::Start, MultipartEvent::Begin, text("")).0;
    let event = MultipartEvent::Field(Some(Disposition { name: Some(text("file")), filename: None }));
    let (state, _) = read_form::<Fault>(start, event, text("chosen"));
    let (state, _) = read_form::<Fault>(state, MultipartEvent::Chunk(vec![7]), text("x"));
    let (state, _) = read_form::<Fault>(state, MultipartEvent::FieldEnd, text("y"));
    match read_form::<Fault>(state, MultipartEvent::FormEnd, text("z")).1 {
        MultipartAction::Finish(Ok(form)) => {
            assert_eq!(
                form.files,
                vec![TempFileNew { path: text("chosen"), contents: FileContents::Binary(vec![7]) }]
            );
        }
        _ => panic!("the form is over"),
    }
}

#[test]
fn a_raw_payload_is_one_file() {
    let form = read_raw("/api/a/b.txt", header("why"), &[b"one ", b"", b"two"]).unwrap();
    assert_eq!(
        form,
        UploadForm {
            name: None,
            email: None,
            message: Some(text("why")),
            files: vec![TempFileNew {
                path: text("b.txt"),
                contents: FileContents::Text(text("one two")),
            }],
        }
    );
    assert_eq!(read_raw("b", Some(vec![0xff]), &[]).unwrap().message, None);
    assert_eq!(read_raw("b", None, &[]).unwrap().files[0].path, "b");
}

#[test]
fn what_is_not_utf8_in_a_raw_payload_is_replaced() {
    let form = read_raw("/a/b", None, &[b"a\xffb"]).unwrap();
    assert_eq!(form.files[0].contents, FileContents::Text(text("a\u{fffd}b")));
    let form = read_raw("/a/b", None, &["gr\u{fc}n".as_bytes()]).unwrap();
    assert_eq!(form.files[0].contents, FileContents::Text(text("gr\u{fc}n")));
}

#[test]
fn a_raw_payload_cannot_be_put_to_a_directory() {
    assert_eq!(
        read_raw("/a/b/", None, &[b"x"]),
        Err(HttpError::BadRequest(text("Cannot PUT to a directory path. Path cannot end with '/'")))
    );
}

#[test]
fn a_broken_raw_payload_is_refused() {
    let request = RawRequest { path: text("/a"), commit_message: None };
    let (state, _) = parse_raw_payload::<Fault>(RawState::Start, RawEvent::Received(request));
    assert_eq!(
        parse_raw_payload::<Fault>(state, RawEvent::Broken(text("overflow"))).1,
        RawAction::Finish(Err(HttpError::BadRequest(text("Payload error: overflow"))))
    );
}

#[test]
fn a_raw_payload_holds_the_given_text() {
    let request = RawRequest { path: text("/x/y"), commit_message: None };
    let (state, _) = read_raw_payload::<Fault>(RawState::Start, RawEvent::Received(request), text(""));
    match read_raw_payload::<Fault>(state, RawEvent::End, text("given")).1 {
        RawAction::Finish(Ok(form)) => {
            assert_eq!(form.files[0].contents, FileContents::Text(text("given")));
            assert_eq!(form.files[0].path, "y");
        }
        _ => panic!("the payload is over"),
    }
}

fn file(path: &str, contents: FileContents) -> FileNew {
    FileNew { path: text(path), contents, user: user("n", "e") }
}

#[test]
fn files_are_staged_one_after_the_other() {
    let mut tree = BTreeMap::new();
    let files = vec![
        file("a.txt", FileContents::Text(text("\u{e9}"))),
        file("b.bin", FileContents::Binary(vec![1, 2])),
    ];
    let (log, result) = stage(&mut tree, &[], UploadTarget::Directory(text("d")), files);
    assert_eq!(result, Ok(()));
    assert_eq!(
        log,
        vec![
            StagingAction::CheckParent { path: text("d/a.txt") },
            StagingAction::CreateParent { path: text("d/a.txt") },
            StagingAction::Write { path: text("d/a.txt"), bytes: vec![0xc3, 0xa9] },
            StagingAction::Stage { path: text("d/a.txt") },
            StagingAction::CheckParent { path: text("d/b.bin") },
            StagingAction::CreateParent { path: text("d/b.bin") },
            StagingAction::Write { path: text("d/b.bin"), bytes: vec![1, 2] },
            StagingAction::Stage { path: text("d/b.bin") },
        ]
    );
    let (log, result) = stage(&mut tree, &["d"], UploadTarget::Directory(text("d")), vec![]);
    assert_eq!((log, result), (vec![], Ok(())));
    let files = vec![file("ignored", FileContents::Binary(vec![3]))];
    let (log, _) = stage(&mut tree, &["d"], UploadTarget::File(text("d/c")), files);
    assert_eq!(
        log,
        vec![
            StagingAction::CheckParent { path: text("d/c") },
            StagingAction::Write { path: text("d/c"), bytes: vec![3] },
            StagingAction::Stage { path: text("d/c") },
        ]
    );
}

#[test]
fn the_first_failure_ends_the_staging() {
    let start = || {
        let files = vec![file("a", FileContents::Binary(vec![]))];
        let state = StagingState::new(UploadTarget::Directory(text("")), files);
        process_and_add_files::<Fault>(state, StagingEvent::Begin)
    };
    let failed = StagingAction::Finish(Err("full"));
    let (state, action) = start();
    assert_eq!(action, StagingAction::CheckParent { path: text("a") });
    let (state, _) = process_and_add_files::<Fault>(state, StagingEvent::Parent(ParentDirectory::Missing));
    assert_eq!(process_and_add_files(state, StagingEvent::DirectoryMade(Err("full"))).1, failed);

    let (state, _) = start();
    let (state, _) = process_and_add_files::<Fault>(state, StagingEvent::Parent(ParentDirectory::NoParent));
    assert_eq!(process_and_add_files(state, StagingEvent::Written(Err("full"))).1, failed);

    let (state, _) = start();
    let (state, _) = process_and_add_files::<Fault>(state, StagingEvent::Parent(ParentDirectory::Present));
    let (state, _) = process_and_add_files::<Fault>(state, StagingEvent::Written(Ok(())));
    assert_eq!(process_and_add_files(state, StagingEvent::Staged(Err("full"))).1, failed);
}

#[test]
fn the_destination_of_an_upload() {
    assert_eq!(choose_destination(&UploadTarget::File(text("a/b")), "c"), "a/b");
    assert_eq!(choose_destination(&UploadTarget::Directory(text("a/b")), "c"), "a/b/c");
    assert_eq!(choose_destination(&UploadTarget::Directory(text("a/")), "c"), "a/c");
    assert_eq!(choose_destination(&UploadTarget::Directory(text("")), "c"), "c");
}

#[test]
fn the_user_is_the_one_of_the_token() {
    let bessie = || ClaimLookup::Claimed { name: text("bessie"), email: text("b@oxen.ai") };
    assert_eq!(
        authenticate(header("Bearer t"), bessie()),
        Ok(Some(user("bessie", "b@oxen.ai")))
    );
    assert_eq!(authenticate(header("Bearer t"), ClaimLookup::Unclaimed), Ok(None));
    assert_eq!(authenticate(header("Bearer t"), ClaimLookup::Rejected), Ok(None));
    assert_eq!(authenticate(header("Bearer t"), ClaimLookup::KeysUnavailable), Ok(None));
    assert_eq!(authenticate(header("bearer t"), bessie()), Ok(None));
    assert_eq!(authenticate(Some(b"Bearer \xff".to_vec()), bessie()), Ok(None));
    assert_eq!(authenticate(None, bessie()), Ok(None));
    let (state, action) = get_authenticated_user::<Fault>(AuthState::Start, AuthEvent::Received(header("Bearer a b")));
    assert_eq!(action, AuthAction::LookUpClaim { token: text("a b") });
    assert_eq!(
        get_authenticated_user(state, AuthEvent::Claim(Err("no app"))).1,
        AuthAction::Finish(Err("no app"))
    );
}

#[test]
fn the_resource_of_a_first_upload_is_split() {
    let split = |resource: &str| split_resource(resource);
    assert_eq!(split("main/data/a.txt"), (text("main"), text("data/a.txt")));
    assert_eq!(split("main"), (text("main"), text("")));
    assert_eq!(split(""), (text("main"), text("")));
    assert_eq!(split("dev//a/./b/"), (text("dev"), text("a/b")));
    assert_eq!(split("/main/a"), (text("/"), text("main/a")));
    assert_eq!(split("./a"), (text("."), text("a")));
    assert_eq!(split("main/../a"), (text("main"), text("../a")));
}

fn first_put(
    form: UploadForm,
    found: Option<User>,
) -> (Vec<InitialPutAction<Fault>>, Result<CommitResponse, HttpError<Fault>>) {
    let request = InitialPutRequest {
        resource: text("dev/data"),
        content_type: header("multipart/form-data"),
    };
    let mut form = Some(form);
    let mut found = Some(found);
    let mut log = vec![];
    let (mut state, mut action) =
        handle_initial_put_empty_repo(InitialPutState::Start, InitialPutEvent::Received(request));
    loop {
        let event = match &action {
            InitialPutAction::ReadForm | InitialPutAction::ReadPayload => {
                InitialPutEvent::Form(Ok(form.take().unwrap()))
            }
            InitialPutAction::Authenticate => InitialPutEvent::User(Ok(found.take().unwrap())),
            InitialPutAction::AddFiles { .. } => InitialPutEvent::Added(Ok(())),
            InitialPutAction::Commit { .. } => InitialPutEvent::Committed(Ok(text("c1"))),
            InitialPutAction::CreateBranch { .. } => InitialPutEvent::BranchCreated(Ok(())),
            InitialPutAction::Answer(_) => break,
        };
        log.push(action);
        let step = handle_initial_put_empty_repo(state, event);
        state = step.0;
        action = step.1;
    }
    match action {
        InitialPutAction::Answer(answer) => (log, answer),
        _ => panic!("no answer"),
    }
}

#[test]
fn a_first_upload_makes_the_commit_and_the_branch() {
    let form = read_fields(vec![
        field("file", Some("a"), &[b"1"]),
        field("message", None, &[b"unused"]),
    ])
    .unwrap();
    let (log, answer) = first_put(form, Some(user("n", "e")));
    assert_eq!(answer, Ok(CommitResponse { status: ResourceStatus::Created, commit: text("c1") }));
    assert_eq!(
        log,
        vec![
            InitialPutAction::ReadForm,
            InitialPutAction::Authenticate,
            InitialPutAction::AddFiles {
                target: UploadTarget::Directory(text("data")),
                files: vec![file("a", FileContents::Binary(b"1".to_vec()))],
            },
            InitialPutAction::Commit { message: text("Initial commit"), user: user("n", "e") },
            InitialPutAction::CreateBranch { name: text("dev"), commit: text("c1") },
        ]
    );
}

#[test]
fn a_first_upload_needs_a_user() {
    let named = || vec![field("name", None, &[b"n"]), field("email", None, &[b"e"])];
    let mut filed = named();
    filed.push(field("file", Some("a"), &[b"1"]));
    for fields in [vec![field("file", Some("a"), &[b"1"])], filed, named(), vec![]] {
        let (log, answer) = first_put(read_fields(fields).unwrap(), None);
        assert_eq!(
            answer,
            Err(HttpError::BadRequest(text("Bearer token required for PUT operations")))
        );
        assert_eq!(log, vec![InitialPutAction::ReadForm, InitialPutAction::Authenticate]);
    }
}

#[test]
fn a_first_upload_without_files_is_told_apart() {
    let at_user = |fields| {
        let form = read_fields(fields).unwrap();
        let upload = UploadTarget::Directory(text(""));
        InitialPutState::AwaitUser { branch: text("main"), upload, form }
    };
    let nobody = || InitialPutEvent::<Fault>::User(Ok(None));
    let somebody = || InitialPutEvent::<Fault>::User(Ok(Some(user("n", "e"))));
    assert!(has_nothing_to_commit(&at_user(vec![]), &somebody()));
    assert!(!has_nothing_to_commit(&at_user(vec![]), &nobody()));
    let named = vec![field("name", None, &[b"n"]), field("email", None, &[b"e"])];
    assert!(!has_nothing_to_commit(&at_user(named), &nobody()));
    let filed = vec![field("file", Some("a"), &[b"1"])];
    assert!(!has_nothing_to_commit(&at_user(filed), &somebody()));
    assert!(!has_nothing_to_commit(&InitialPutState::Start, &somebody()));
}
