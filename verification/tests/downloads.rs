//! Downloads.

use oxen_files::get::{
    choose_stream, get, FileEntry, FileResponse, GetAction, GetEvent, GetState, StagedNode,
    DEFAULT_TIMESTAMP,
};
use oxen_files::model::{FileQueryParams, HttpError, OxenError, ParsedResource};

type Fault = &'static str;

fn text(s: &str) -> String {
    s.to_string()
}

fn plain() -> FileQueryParams {
    FileQueryParams { width: None, height: None, timestamp: None, thumbnail: None }
}

fn entry(mime_type: &str) -> FileEntry {
    FileEntry { hash: text("h1"), mime_type: text(mime_type), last_commit_id: text("c7") }
}

fn resource(workspace: Option<&str>, commit: Option<&str>) -> ParsedResource {
    ParsedResource {
        branch: None,
        commit: commit.map(text),
        workspace: workspace.map(text),
        path: text("audio/moo.wav"),
        version: text("main"),
    }
}

/// Runs a download; the log holds what it asked for.
fn download(
    params: FileQueryParams,
    resource: ParsedResource,
    staged: Option<StagedNode>,
    committed: Option<FileEntry>,
) -> (Vec<GetAction<Fault>>, Result<FileResponse, HttpError<Fault>>) {
    let mut resource = Some(resource);
    let mut staged = Some(staged);
    let mut committed = Some(committed);
    let mut log = vec![];
    let (mut state, mut action) = get(GetState::Start, GetEvent::Received(params));
    loop {
        let event = match &action {
            GetAction::ResolveResource => GetEvent::Resource(Ok(resource.take().unwrap())),
            GetAction::ReadStaged { .. } => GetEvent::Staged(Ok(staged.take().unwrap())),
            GetAction::LookUpFile { .. } => GetEvent::File(Ok(committed.take().unwrap())),
            GetAction::FindVersion { hash } => GetEvent::Version(Ok(format!("/versions/{hash}"))),
            GetAction::Answer(_) => break,
            _ => GetEvent::Stream(Ok(())),
        };
        log.push(action);
        let step = get(state, event);
        state = step.0;
        action = step.1;
    }
    match action {
        GetAction::Answer(answer) => (log, answer),
        _ => panic!("no answer"),
    }
}

#[test]
fn a_committed_file_is_streamed_as_it_is() {
    let (log, answer) = download(plain(), resource(None, Some("c1")), None, Some(entry("audio/x-wav")));
    assert_eq!(
        answer,
        Ok(FileResponse { content_type: text("audio/x-wav"), revision_id: text("c7") })
    );
    assert_eq!(
        log,
        vec![
            GetAction::ResolveResource,
            GetAction::LookUpFile { commit: text("c1"), path: text("audio/moo.wav") },
            GetAction::FindVersion { hash: text("h1") },
            GetAction::StreamVersion { hash: text("h1") },
        ]
    );
}

#[test]
fn what_a_workspace_has_staged_comes_first() {
    let staged = Some(StagedNode::File(FileEntry {
        hash: text("h2"),
        mime_type: text("text/plain"),
        last_commit_id: text("c8"),
    }));
    let (log, answer) =
        download(plain(), resource(Some("w1"), Some("c1")), staged, Some(entry("audio/x-wav")));
    assert_eq!(answer.unwrap().revision_id, "c8");
    assert_eq!(log[1], GetAction::ReadStaged { path: text("audio/moo.wav") });
    assert_eq!(log[2], GetAction::FindVersion { hash: text("h2") });
}

#[test]
fn a_workspace_falls_back_to_its_commit() {
    let (log, answer) =
        download(plain(), resource(Some("w1"), None), None, Some(entry("audio/x-wav")));
    assert_eq!(answer.unwrap().revision_id, "c7");
    assert_eq!(
        log[2],
        GetAction::LookUpFile { commit: text("w1"), path: text("audio/moo.wav") }
    );
}

#[test]
fn what_cannot_be_downloaded_is_refused() {
    let (_, answer) =
        download(plain(), resource(Some("w1"), None), Some(StagedNode::Other), None);
    assert_eq!(
        answer,
        Err(HttpError::InternalOxenError(OxenError::Basic(text(
            "Only single file download is supported"
        ))))
    );
    let (_, answer) = download(plain(), resource(None, None), None, None);
    assert_eq!(answer, Err(HttpError::NotFound));
    let missing = Err(HttpError::InternalOxenError(OxenError::PathDoesNotExist(text("audio/moo.wav"))));
    assert_eq!(download(plain(), resource(None, Some("c1")), None, None).1, missing);
    assert_eq!(download(plain(), resource(Some("w1"), None), None, None).1, missing);
}

#[test]
fn outside_errors_of_a_download_are_handed_on() {
    let waiting = || get::<Fault>(GetState::Start, GetEvent::Received(plain())).0;
    let failed = GetAction::Answer(Err(HttpError::Outside("down")));
    assert_eq!(get(waiting(), GetEvent::Resource(Err("down"))).1, failed);
    let (state, _) = get::<Fault>(waiting(), GetEvent::Resource(Ok(resource(None, Some("c")))));
    assert_eq!(get(state, GetEvent::File(Err("down"))).1, failed);
    let (state, _) = get::<Fault>(waiting(), GetEvent::Resource(Ok(resource(Some("c"), None))));
    assert_eq!(get(state, GetEvent::Staged(Err("down"))).1, failed);
    let at_version = || GetState::AwaitVersion { params: plain(), path: text("p"), entry: entry("a/b") };
    assert_eq!(get(at_version(), GetEvent::Version(Err("down"))).1, failed);
    let (state, _) = get::<Fault>(at_version(), GetEvent::Version(Ok(text("v"))));
    assert_eq!(get(state, GetEvent::Stream(Err("down"))).1, failed);
}

fn chosen(params: FileQueryParams, mime_type: &str) -> (FileResponse, GetAction<Fault>) {
    choose_stream(params, text("p"), entry(mime_type), text("v"))
}

#[test]
fn an_image_is_resized_where_a_size_is_asked_for() {
    for (width, height) in [(Some(320), None), (None, Some(240)), (Some(320), Some(240))] {
        let params = FileQueryParams { width, height, timestamp: None, thumbnail: Some(true) };
        let (response, action) = chosen(params, "image/png");
        assert_eq!(response.content_type, "image/png");
        assert_eq!(
            action,
            GetAction::StreamResized {
                hash: text("h1"),
                path: text("p"),
                version_path: text("v"),
                width,
                height,
            }
        );
    }
    let (_, action) = chosen(plain(), "image/png");
    assert_eq!(action, GetAction::StreamVersion { hash: text("h1") });
    let sized = FileQueryParams { width: Some(1), height: None, timestamp: None, thumbnail: None };
    assert_eq!(chosen(sized, "text/plain").1, GetAction::StreamVersion { hash: text("h1") });
    assert_eq!(chosen(sized, "imag").1, GetAction::StreamVersion { hash: text("h1") });
}

#[test]
fn a_thumbnail_is_made_of_a_video_where_one_is_asked_for() {
    let second = 1.5f64.to_bits();
    let params = FileQueryParams {
        width: Some(320),
        height: None,
        timestamp: Some(second),
        thumbnail: Some(true),
    };
    let (response, action) = chosen(params, "video/mp4");
    assert_eq!(response, FileResponse { content_type: text("image/jpeg"), revision_id: text("c7") });
    assert_eq!(
        action,
        GetAction::StreamThumbnail {
            hash: text("h1"),
            path: text("p"),
            version_path: text("v"),
            width: Some(320),
            height: None,
            timestamp: Some(second),
            thumbnail: Some(true),
        }
    );
    for thumbnail in [None, Some(false)] {
        let params = FileQueryParams { width: Some(320), height: None, timestamp: None, thumbnail };
        let (response, action) = chosen(params, "video/mp4");
        assert_eq!(response.content_type, "video/mp4");
        assert_eq!(action, GetAction::StreamVersion { hash: text("h1") });
    }
    let params = FileQueryParams { width: None, height: None, timestamp: None, thumbnail: Some(true) };
    assert_eq!(chosen(params, "image/png").1, GetAction::StreamVersion { hash: text("h1") });
}

#[test]
fn a_missing_timestamp_stands_for_one_second() {
    assert_eq!(DEFAULT_TIMESTAMP, 1.0f64.to_bits());
    let params = |timestamp| FileQueryParams {
        width: None,
        height: None,
        timestamp,
        thumbnail: Some(true),
    };
    let run = |timestamp| {
        download(params(timestamp), resource(None, Some("c1")), None, Some(entry("video/mp4")))
    };
    let (without, answer) = run(None);
    let (with, same) = run(Some(DEFAULT_TIMESTAMP));
    assert_eq!(answer, same);
    assert_eq!(answer.unwrap().content_type, "image/jpeg");
    match (&without[3], &with[3]) {
        (
            GetAction::StreamThumbnail { hash: a, timestamp: None, .. },
            GetAction::StreamThumbnail { hash: b, timestamp: Some(second), .. },
        ) => {
            assert_eq!(a, b);
            assert_eq!(f64::from_bits(*second), 1.0);
        }
        _ => panic!("no thumbnail"),
    }
}
