//! Several requests to one repository, which is kept in memory.

use std::collections::BTreeMap;

use oxen_files::delete::{delete, DeleteAction, DeleteEvent, DeleteState};
use oxen_files::get::{get, FileEntry, GetAction, GetEvent, GetState};
use oxen_files::import::{import, ImportAction, ImportEvent, ImportRequest, ImportState};
use oxen_files::initial_put::{
    handle_initial_put_empty_repo, InitialPutAction, InitialPutEvent, InitialPutRequest,
    InitialPutState,
};
use oxen_files::json::Json;
use oxen_files::model::{
    CommitResponse, FileContents, FileMoveBody, FileQueryParams, HttpError, NodeInfo,
    ParsedResource, TempFileNew, UploadForm, User,
};
use oxen_files::mv::{mv, MoveAction, MoveEvent, MoveState};
use oxen_files::put::{put, PutAction, PutEvent, PutRequest, PutState};
use oxen_files::raw_payload::{parse_raw_payload, RawAction, RawEvent, RawRequest, RawState};
use oxen_files::staging::{
    process_and_add_files, ParentDirectory, StagingAction, StagingEvent, StagingState,
};

type Fault = &'static str;
type Files = BTreeMap<String, Vec<u8>>;
type Answer = Result<CommitResponse, HttpError<Fault>>;

fn text(s: &str) -> String {
    s.to_string()
}

/// A repository with one branch.
struct Repo {
    commits: BTreeMap<String, Files>,
    head: String,
    workspace: Files,
}

fn repo(files: &[(&str, &[u8])]) -> Repo {
    let files: Files = files.iter().map(|(path, bytes)| (text(path), bytes.to_vec())).collect();
    Repo { commits: BTreeMap::from([(text("c0"), files)]), head: text("c0"), workspace: Files::new() }
}

impl Repo {
    fn resource(&self, path: &str) -> ParsedResource {
        ParsedResource {
            branch: Some(text("main")),
            commit: Some(self.head.clone()),
            workspace: None,
            path: text(path),
            version: text("main"),
        }
    }

    fn node(&self, commit: &str, path: &str) -> Option<NodeInfo<Fault>> {
        let files = &self.commits[commit];
        let inside = format!("{path}/");
        let is_file = files.contains_key(path);
        if is_file || files.keys().any(|file| file.starts_with(&inside)) {
            Some(NodeInfo { is_file, latest_commit: Ok(text(commit)) })
        } else {
            None
        }
    }

    fn check_out(&mut self, commit: &str) {
        self.workspace = self.commits[commit].clone();
    }

    fn commit(&mut self, branch: &str) -> String {
        assert_eq!(branch, "main");
        let id = format!("c{}", self.commits.len());
        self.commits.insert(id.clone(), self.workspace.clone());
        self.head = id.clone();
        id
    }

    fn files(&self) -> Files {
        self.commits[&self.head].clone()
    }

    fn put(&mut self, path: &str, payload: &[u8]) -> Answer {
        let request = PutRequest {
            authorization: Some(b"Bearer t".to_vec()),
            based_on: None,
            commit_message: None,
            content_type: None,
        };
        let (mut state, mut action) = put(PutState::Start, PutEvent::Received(request));
        loop {
            let event = match action {
                PutAction::Answer(answer) => return answer,
                PutAction::OpenRepository => PutEvent::Head(Ok(true)),
                PutAction::ResolveResource => PutEvent::Resource(Ok(self.resource(path))),
                PutAction::LookUpNode { commit, path } => PutEvent::Node(Ok(self.node(&commit, &path))),
                PutAction::ReadPayload => PutEvent::Form(read_raw(path, payload)),
                PutAction::Authenticate => {
                    PutEvent::User(Ok(Some(User { name: text("n"), email: text("e") })))
                }
                PutAction::CreateWorkspace { commit } => {
                    self.check_out(&commit);
                    PutEvent::Workspace(Ok(()))
                }
                PutAction::AddFiles { target, files } => {
                    PutEvent::Added(self.stage(StagingState::new(target, files)))
                }
                PutAction::Commit { branch, .. } => PutEvent::Committed(Ok(self.commit(&branch))),
                PutAction::ReadForm | PutAction::HandleInitialPut => panic!("not asked for"),
            };
            (state, action) = put(state, event);
        }
    }

    fn stage(&mut self, state: StagingState) -> Result<(), Fault> {
        let mut disk = Files::new();
        let (mut state, mut action) = process_and_add_files(state, StagingEvent::Begin);
        loop {
            let event = match action {
                StagingAction::Finish(result) => return result,
                StagingAction::CheckParent { .. } => StagingEvent::Parent(ParentDirectory::Missing),
                StagingAction::CreateParent { .. } => StagingEvent::DirectoryMade(Ok(())),
                StagingAction::Write { path, bytes } => {
                    disk.insert(path, bytes);
                    StagingEvent::Written(Ok(()))
                }
                StagingAction::Stage { path } => {
                    self.workspace.insert(path.clone(), disk[&path].clone());
                    StagingEvent::Staged(Ok(()))
                }
            };
            (state, action) = process_and_add_files(state, event);
        }
    }

    /// The body of a download.
    fn get(&self, path: &str) -> Result<Vec<u8>, HttpError<Fault>> {
        let params = FileQueryParams { width: None, height: None, timestamp: None, thumbnail: None };
        let mut body = vec![];
        let (mut state, mut action) = get(GetState::Start, GetEvent::Received(params));
        loop {
            let event = match action {
                GetAction::Answer(answer) => return answer.map(|_| body),
                GetAction::ResolveResource => GetEvent::Resource(Ok(self.resource(path))),
                GetAction::LookUpFile { commit, path } => {
                    GetEvent::File(Ok(self.commits[&commit].get(&path).map(|_| FileEntry {
                        hash: format!("{commit}:{path}"),
                        mime_type: text("text/plain"),
                        last_commit_id: commit,
                    })))
                }
                GetAction::FindVersion { hash } => GetEvent::Version(Ok(hash)),
                GetAction::StreamVersion { hash } => {
                    let (commit, path) = hash.split_once(':').unwrap();
                    body = self.commits[commit][path].clone();
                    GetEvent::Stream(Ok(()))
                }
                _ => panic!("not asked for"),
            };
            (state, action) = get(state, event);
        }
    }

    fn delete(&mut self, path: &str) -> Answer {
        let (mut state, mut action) = delete(DeleteState::Start, DeleteEvent::Received(None));
        loop {
            let event = match action {
                DeleteAction::Answer(answer) => return answer,
                DeleteAction::ResolveResource => DeleteEvent::Resource(Ok(self.resource(path))),
                DeleteAction::LookUpNode { commit, path } => {
                    DeleteEvent::Node(Ok(self.node(&commit, &path)))
                }
                DeleteAction::Authenticate => {
                    DeleteEvent::User(Ok(Some(User { name: text("n"), email: text("e") })))
                }
                DeleteAction::CreateWorkspace { commit } => {
                    self.check_out(&commit);
                    DeleteEvent::Workspace(Ok(()))
                }
                DeleteAction::Remove { path } => {
                    self.workspace.remove(&path);
                    DeleteEvent::Removed(Ok(()))
                }
                DeleteAction::Commit { branch, .. } => {
                    DeleteEvent::Committed(Ok(self.commit(&branch)))
                }
            };
            (state, action) = delete(state, event);
        }
    }

    fn mv(&mut self, from: &str, to: &str) -> Answer {
        let (mut state, mut action) = mv(MoveState::Start, MoveEvent::Received);
        loop {
            let event = match action {
                MoveAction::Answer(answer) => return answer,
                MoveAction::ResolveResource => MoveEvent::Resource(Ok(self.resource(from))),
                MoveAction::ParseBody => MoveEvent::Body(Ok(FileMoveBody {
                    new_path: text(to),
                    message: None,
                    name: None,
                    email: None,
                })),
                MoveAction::NormalizePath { path } => MoveEvent::NewPath(Ok(path)),
                MoveAction::LookUpFile { commit, path } => {
                    MoveEvent::Source(Ok(self.commits[&commit].contains_key(&path)))
                }
                MoveAction::LookUpNode { commit, path } => {
                    MoveEvent::Taken(Ok(self.node(&commit, &path).is_some()))
                }
                MoveAction::CreateWorkspace { commit } => {
                    self.check_out(&commit);
                    MoveEvent::Workspace(Ok(()))
                }
                MoveAction::Move { from, to } => {
                    let bytes = self.workspace.remove(&from).unwrap();
                    self.workspace.insert(to, bytes);
                    MoveEvent::Moved(Ok(()))
                }
                MoveAction::Commit { branch, .. } => MoveEvent::Committed(Ok(self.commit(&branch))),
            };
            (state, action) = mv(state, event);
        }
    }
}

impl Repo {
    fn import(&mut self, directory: &str, url: &str, fetched: &[u8]) -> Answer {
        let request = ImportRequest {
            author: None,
            email: None,
            message: None,
            body: Json::Object(vec![(text("download_url"), Json::Text(text(url)))]),
        };
        let (mut state, mut action) = import(ImportState::Start, ImportEvent::Received(request));
        loop {
            let event = match action {
                ImportAction::Answer(answer) => return answer,
                ImportAction::ResolveResource => ImportEvent::Resource(Ok(self.resource(directory))),
                ImportAction::LookUpNode { commit, path } => {
                    ImportEvent::Node(Ok(self.node(&commit, &path)))
                }
                ImportAction::CreateWorkspace { commit } => {
                    self.check_out(&commit);
                    ImportEvent::Workspace(Ok(()))
                }
                ImportAction::Download { directory, filename, .. } => {
                    self.workspace.insert(format!("{directory}/{filename}"), fetched.to_vec());
                    ImportEvent::Downloaded(Ok(()))
                }
                ImportAction::Commit { branch, .. } => {
                    ImportEvent::Committed(Ok(self.commit(&branch)))
                }
            };
            (state, action) = import(state, event);
        }
    }

    /// Uploads a form to a repository without commits; the name of its branch is given back.
    fn first_put(
        &mut self,
        resource: &str,
        files: &[(&str, &[u8])],
        user: Option<User>,
    ) -> (Answer, Option<String>) {
        let files = files.iter().map(|(path, bytes)| TempFileNew {
            path: text(path),
            contents: FileContents::Binary(bytes.to_vec()),
        });
        let form = UploadForm { name: None, email: None, message: None, files: files.collect() };
        let mut form = Some(form);
        let mut user = Some(user);
        let mut made = None;
        let request = InitialPutRequest {
            resource: text(resource),
            content_type: Some(b"multipart/form-data".to_vec()),
        };
        let (mut state, mut action) =
            handle_initial_put_empty_repo(InitialPutState::Start, InitialPutEvent::Received(request));
        loop {
            let event = match action {
                InitialPutAction::Answer(answer) => return (answer, made),
                InitialPutAction::ReadForm => InitialPutEvent::Form(Ok(form.take().unwrap())),
                InitialPutAction::ReadPayload => panic!("not asked for"),
                InitialPutAction::Authenticate => InitialPutEvent::User(Ok(user.take().unwrap())),
                InitialPutAction::AddFiles { target, files } => {
                    InitialPutEvent::Added(self.stage(StagingState::new(target, files)))
                }
                InitialPutAction::Commit { .. } => {
                    self.commits.insert(text("c1"), self.workspace.clone());
                    InitialPutEvent::Committed(Ok(text("c1")))
                }
                InitialPutAction::CreateBranch { name, commit } => {
                    made = Some(name);
                    self.head = commit;
                    InitialPutEvent::BranchCreated(Ok(()))
                }
            };
            (state, action) = handle_initial_put_empty_repo(state, event);
        }
    }
}

fn read_raw(path: &str, payload: &[u8]) -> Result<UploadForm, HttpError<Fault>> {
    let request = RawRequest { path: format!("/file/main/{path}"), commit_message: None };
    let (mut state, mut action) = parse_raw_payload(RawState::Start, RawEvent::Received(request));
    let mut chunks = payload.chunks(3);
    loop {
        let event = match action {
            RawAction::Finish(form) => return form,
            RawAction::NextChunk => match chunks.next() {
                Some(chunk) => RawEvent::Chunk(chunk.to_vec()),
                None => RawEvent::End,
            },
        };
        (state, action) = parse_raw_payload(state, event);
    }
}

#[test]
fn what_is_put_is_got() {
    let mut repo = repo(&[("README.md", b"hi")]);
    let payload = "gr\u{fc}n und \u{1f402}".as_bytes();
    assert!(repo.put("docs/a.txt", payload).is_ok());
    assert_eq!(repo.get("docs/a.txt").unwrap(), payload);
    assert_eq!(repo.get("README.md").unwrap(), b"hi");
    assert!(repo.put("docs/a.txt", b"").is_ok());
    assert_eq!(repo.get("docs/a.txt").unwrap(), b"");
}

#[test]
fn a_removal_undoes_an_upload() {
    let mut repo = repo(&[("README.md", b"hi")]);
    let before = repo.files();
    assert!(repo.put("docs/a.txt", b"new").is_ok());
    assert_ne!(repo.files(), before);
    assert!(repo.delete("docs/a.txt").is_ok());
    assert_eq!(repo.files(), before);
    let head = repo.head.clone();
    assert_eq!(repo.delete("docs/a.txt"), Err(HttpError::NotFound));
    assert_eq!(repo.head, head);
    assert_eq!(repo.commits.len(), 3);
}

#[test]
fn moving_back_restores_the_files() {
    let mut repo = repo(&[("a/old.txt", b"1"), ("b.txt", b"2")]);
    let before = repo.files();
    assert!(repo.mv("a/old.txt", "c/new.txt").is_ok());
    assert_eq!(repo.get("c/new.txt").unwrap(), b"1");
    assert!(repo.get("a/old.txt").is_err());
    assert!(repo.mv("c/new.txt", "a/old.txt").is_ok());
    assert_eq!(repo.files(), before);
}

#[test]
fn a_failed_request_keeps_the_history() {
    let mut repo = repo(&[("a/x", b"1"), ("b", b"2")]);
    assert!(repo.put("a/", b"3").is_err());
    assert!(repo.delete("a").is_err());
    assert!(repo.mv("b", "a").is_err());
    assert!(repo.mv("b", "a/x").is_err());
    assert_eq!(repo.commits.len(), 1);
    assert_eq!(repo.head, "c0");
}

#[test]
fn an_import_commits_the_fetched_file() {
    let mut repo = repo(&[("README.md", b"hi"), ("data/x", b"1")]);
    assert!(repo.import("data", "https://hub.oxen.ai/a/b.tsv", b"cats").is_ok());
    assert_eq!(repo.get("data/b.tsv").unwrap(), b"cats");
    assert_eq!(repo.get("README.md").unwrap(), b"hi");
    assert_eq!(repo.files().len(), 3);
    assert!(repo.import("data", "https://example.com/a", b"dogs").is_err());
    assert!(repo.import("data/x", "https://oxen.ai/a", b"dogs").is_err());
    assert_eq!(repo.commits.len(), 2);
    assert_eq!(repo.head, "c1");
}

fn empty() -> Repo {
    Repo { commits: BTreeMap::new(), head: text(""), workspace: Files::new() }
}

#[test]
fn a_first_upload_commits_its_files_and_no_others() {
    let mut repo = empty();
    let user = Some(User { name: text("n"), email: text("e") });
    let (answer, branch) = repo.first_put("dev/data", &[("a", b"1"), ("b", b"2"), ("a", b"3")], user);
    assert_eq!(answer.unwrap().commit, "c1");
    assert_eq!(branch, Some(text("dev")));
    assert_eq!(
        repo.files(),
        Files::from([(text("data/a"), b"3".to_vec()), (text("data/b"), b"2".to_vec())])
    );
    assert_eq!(repo.commits.len(), 1);
}

#[test]
fn a_refused_first_upload_changes_nothing() {
    let mut repo = empty();
    let (answer, branch) = repo.first_put("dev/data", &[("a", b"1")], None);
    assert!(answer.is_err());
    assert_eq!(branch, None);
    assert!(repo.commits.is_empty());
    assert!(repo.workspace.is_empty());
}
