use static_router::media::{extension, media_type};
use static_router::request::FileRequest;
use static_router::outcome::{
    outcome_of, probed, read_outcome, FileOutcome, Probe, ReadFailure,
};
use static_router::response::{serve, Response, Status};

fn request(names: &[&str]) -> FileRequest {
    let names = names.iter().map(|s| s.to_string()).collect();
    FileRequest::new("static".to_string(), names, &Vec::new()).unwrap()
}

#[test]
fn status_codes() {
    assert_eq!(Status::Success.code(), 200);
    assert_eq!(Status::NotFound.code(), 404);
    assert_eq!(Status::InternalServerError.code(), 500);
}

#[test]
fn greeting_response() {
    let r = Response::greeting();
    assert_eq!(r.status, Status::Success);
    assert_eq!(r.content_type.as_deref(), Some("text/plain; charset=utf-8"));
    assert_eq!(r.body, vec![72, 101, 108, 108, 111, 44, 32, 119, 111, 114, 108, 100, 33]);
}

#[test]
fn bare_response_has_no_body() {
    let r = Response::bare(Status::NotFound);
    assert_eq!(r.status, Status::NotFound);
    assert!(r.content_type.is_none());
    assert!(r.body.is_empty());
}

#[test]
fn file_is_served_byte_for_byte() {
    let bytes: Vec<u8> = (0..=255).collect();
    let r = serve(&request(&["img", "logo.png"]), FileOutcome::Contents(bytes.clone()));
    assert_eq!(r.status.code(), 200);
    assert_eq!(r.body, bytes);
    assert_eq!(r.content_type.as_deref(), Some("image/png"));
    let r = serve(&request(&["empty.txt"]), FileOutcome::Contents(Vec::new()));
    assert_eq!(r.status.code(), 200);
    assert!(r.body.is_empty());
    assert_eq!(r.content_type.as_deref(), Some("text/plain; charset=utf-8"));
}

#[test]
fn missing_file_is_not_found() {
    let r = serve(&request(&["nothing.txt"]), FileOutcome::Missing);
    assert_eq!(r.status, Status::NotFound);
    assert_eq!(r.status.code(), 404);
    assert!(r.body.is_empty());
    assert!(r.content_type.is_none());
}

#[test]
fn unreadable_file_is_a_server_error() {
    let r = serve(&request(&["locked.txt"]), FileOutcome::Unreadable);
    assert_eq!(r.status, Status::InternalServerError);
    assert_eq!(r.status.code(), 500);
    assert!(r.body.is_empty());
    assert!(r.content_type.is_none());
}

#[test]
fn response_for_a_given_media_type() {
    let r = Response::file(Some("x/y".to_string()), FileOutcome::Contents(vec![7]));
    assert_eq!(r.status, Status::Success);
    assert_eq!(r.content_type.as_deref(), Some("x/y"));
    assert_eq!(r.body, vec![7]);
    let r = Response::file(None, FileOutcome::Contents(vec![7, 8]));
    assert!(r.content_type.is_none());
    assert_eq!(r.body, vec![7, 8]);
    let r = Response::file(Some("x/y".to_string()), FileOutcome::Missing);
    assert_eq!(r.status, Status::NotFound);
    assert!(r.content_type.is_none());
    let r = Response::file(Some("x/y".to_string()), FileOutcome::Unreadable);
    assert_eq!(r.status, Status::InternalServerError);
}

#[test]
fn unknown_extension_has_no_media_type() {
    let r = serve(&request(&["data.unknownext"]), FileOutcome::Contents(vec![1]));
    assert_eq!(r.status.code(), 200);
    assert!(r.content_type.is_none());
    let r = serve(&request(&["README"]), FileOutcome::Contents(vec![1]));
    assert!(r.content_type.is_none());
    let r = serve(&request(&[]), FileOutcome::Contents(vec![1]));
    assert!(r.content_type.is_none());
}

#[test]
fn media_type_goes_by_the_last_extension() {
    assert_eq!(media_type("rivers.json").as_deref(), Some("application/json"));
    assert_eq!(media_type("RIVERS.JSON").as_deref(), Some("application/json"));
    assert_eq!(media_type("site.css").as_deref(), Some("text/css; charset=utf-8"));
    assert_eq!(media_type("index.html").as_deref(), Some("text/html; charset=utf-8"));
    assert_eq!(media_type("a.tar.gz").as_deref(), Some("application/gzip"));
    assert_eq!(media_type("json"), None);
    assert_eq!(media_type(".json"), None);
    assert_eq!(media_type("a.json."), None);
    assert_eq!(media_type("a.geojson"), None);
    assert_eq!(media_type(""), None);
}

#[test]
fn extension_is_what_follows_the_last_dot() {
    assert_eq!(extension("a.txt").as_deref(), Some("txt"));
    assert_eq!(extension("a.b.c").as_deref(), Some("c"));
    assert_eq!(extension("a.").as_deref(), Some(""));
    assert_eq!(extension("a..").as_deref(), Some(""));
    assert_eq!(extension(".a.b").as_deref(), Some("b"));
    assert_eq!(extension("caf\u{e9}.\u{e9}t\u{e9}").as_deref(), Some("\u{e9}t\u{e9}"));
    assert_eq!(extension("a"), None);
    assert_eq!(extension(""), None);
    assert_eq!(extension("."), None);
    assert_eq!(extension(".."), None);
    assert_eq!(extension(".hidden"), None);
}

#[test]
fn extension_agrees_with_the_standard_library() {
    let names = ["a.txt", "a.b.c", "a.", "a..", ".a.b", "a", ".", "..", ".hidden", "...", "x.tar.gz"];
    for name in names {
        let std_ext = std::path::Path::new(name)
            .extension()
            .map(|e| e.to_string_lossy().into_owned());
        assert_eq!(extension(name), std_ext, "{}", name);
    }
}

fn status_after(probe: Probe, read: Result<Vec<u8>, ReadFailure>) -> u16 {
    serve(&request(&[".env"]), outcome_of(probe, read)).status.code()
}

#[test]
fn regular_file_that_reads_is_its_contents() {
    assert!(probed(Probe::RegularFile).is_none());
    assert!(matches!(read_outcome(Ok(vec![1, 2, 3])), FileOutcome::Contents(b) if b == vec![1, 2, 3]));
    assert!(matches!(read_outcome(Ok(Vec::new())), FileOutcome::Contents(b) if b.is_empty()));
    let outcome = outcome_of(Probe::RegularFile, Ok(vec![0, 255]));
    assert!(matches!(outcome, FileOutcome::Contents(b) if b == vec![0, 255]));
    assert_eq!(status_after(Probe::RegularFile, Ok(vec![9])), 200);
}

#[test]
fn what_is_no_regular_file_is_missing() {
    assert!(matches!(probed(Probe::OtherEntry), Some(FileOutcome::Missing)));
    assert!(matches!(outcome_of(Probe::OtherEntry, Ok(vec![1])), FileOutcome::Missing));
    assert!(matches!(
        outcome_of(Probe::OtherEntry, Err(ReadFailure::PermissionDenied)),
        FileOutcome::Missing
    ));
    assert_eq!(status_after(Probe::OtherEntry, Ok(vec![1])), 404);
}

#[test]
fn failures_that_say_no_file_is_there_are_missing() {
    for failure in [ReadFailure::NotFound, ReadFailure::NotADirectory, ReadFailure::InvalidName] {
        assert!(matches!(failure.outcome(), FileOutcome::Missing));
        assert!(matches!(probed(Probe::Failed(failure)), Some(FileOutcome::Missing)));
        assert!(matches!(read_outcome(Err(failure)), FileOutcome::Missing));
        assert_eq!(status_after(Probe::Failed(failure), Ok(vec![1])), 404);
        assert_eq!(status_after(Probe::RegularFile, Err(failure)), 404);
    }
}

#[test]
fn other_failures_are_unreadable() {
    for failure in [ReadFailure::PermissionDenied, ReadFailure::Other] {
        assert!(matches!(failure.outcome(), FileOutcome::Unreadable));
        assert!(matches!(probed(Probe::Failed(failure)), Some(FileOutcome::Unreadable)));
        assert!(matches!(read_outcome(Err(failure)), FileOutcome::Unreadable));
        assert_eq!(status_after(Probe::Failed(failure), Ok(vec![1])), 500);
        assert_eq!(status_after(Probe::RegularFile, Err(failure)), 500);
    }
}

#[test]
fn hidden_file_is_served_like_any_other() {
    let hidden = request(&[".env"]);
    let r = serve(&hidden, outcome_of(Probe::RegularFile, Ok(b"KEY=1".to_vec())));
    assert_eq!(r.status.code(), 200);
    assert_eq!(r.body, b"KEY=1".to_vec());
    let r = serve(&hidden, outcome_of(Probe::RegularFile, Err(ReadFailure::PermissionDenied)));
    assert_eq!(r.status.code(), 500);
    assert!(r.body.is_empty());
    let r = serve(&hidden, outcome_of(Probe::Failed(ReadFailure::NotFound), Ok(Vec::new())));
    assert_eq!(r.status.code(), 404);
}
