use storyboard::client::{CdnToken, FalClient, LocalFile};
use storyboard::flow::{Action, Event};
use storyboard::http::{Body, Status};
use storyboard::parts::{MULTIPART_CHUNK_SIZE, MULTIPART_THRESHOLD};
use storyboard::upload::{label, label_for_path, Progress, UploadProgress, Uploading};

fn client() -> FalClient<String> {
    FalClient::new("k".to_string(), None, None, None, None)
}

fn going(progress: UploadProgress) -> Uploading {
    match progress {
        Progress::Going(upload) => upload,
        other => panic!("ended: {other:?}"),
    }
}

fn failure(progress: UploadProgress) -> String {
    match progress {
        Progress::Failed(message) => message,
        other => panic!("not failed: {other:?}"),
    }
}

fn address(progress: UploadProgress) -> String {
    match progress {
        Progress::Uploaded(url) => url,
        other => panic!("not uploaded: {other:?}"),
    }
}

fn status(code: u16) -> Status {
    Status::from_u16(code).unwrap()
}

fn reply(code: u16, text: &str) -> Event<String> {
    Event::Reply { status: status(code), text: text.to_string() }
}

fn receipt(code: u16, etag: Option<&str>) -> Event<String> {
    Event::Receipt { status: status(code), etag: etag.map(str::to_string) }
}

fn failed(message: &str) -> Event<String> {
    Event::Failed(message.to_string())
}

fn token() -> CdnToken<String> {
    CdnToken {
        token: "t".to_string(),
        token_type: "Bearer".to_string(),
        base_url: "https://base.test".to_string(),
    }
}

fn steps(events: Vec<Event<String>>) -> Uploading {
    let mut upload = Uploading::upload_file(LocalFile {
        path: "clip.mov".to_string(),
        label: label_for_path("clip.mov"),
    });
    for event in events {
        upload = going(upload.advance(event));
    }
    upload
}

/// The upload that is about to find out the file's size.
fn permitted() -> Uploading {
    steps(vec![Event::Done, Event::Done, reply(200, "{}"), Event::Token(token())])
}

/// The upload that is about to send its first part.
fn in_parts(size: u64) -> Uploading {
    let upload = going(permitted().advance(Event::Size(MULTIPART_THRESHOLD + 1)));
    let upload = going(upload.advance(reply(
        200,
        "{\"access_url\":\"https://files.test/f\",\"uploadId\":\"u\"}",
    )));
    assert!(matches!(upload.pending(&client()), Action::Measure(p) if p == "clip.mov"));
    let upload = going(upload.advance(Event::Size(size)));
    assert!(matches!(upload.pending(&client()), Action::Open(p) if p == "clip.mov"));
    going(upload.advance(Event::Done))
}

/// The upload whose first way failed with this message.
fn second_way() -> Uploading {
    steps(vec![Event::Done, Event::Done, failed("one")])
}

fn third_way() -> Uploading {
    going(second_way().advance(failed("two")))
}

#[test]
fn files_have_a_name_and_a_media_type() {
    let known = label_for_path("dir/clip.mov");
    assert_eq!((known.name.as_str(), known.content_type.as_str()), ("clip.mov", "video/quicktime"));
    assert_eq!(label_for_path("dir/..").name, "upload.bin");
    let named = label(Some("a.webm".to_string()));
    assert_eq!((named.name.as_str(), named.content_type.as_str()), ("a.webm", "video/webm"));
    let unnamed = label(None);
    assert_eq!(unnamed.name, "upload.bin");
    assert_eq!(unnamed.content_type, "application/octet-stream");
}

#[test]
fn small_files_go_in_one_piece() {
    let upload = going(permitted().advance(Event::Size(MULTIPART_THRESHOLD)));
    match upload.pending(&client()) {
        Action::Send(request) => {
            assert_eq!(request.url, "https://v3.fal.media/files/upload");
            assert_eq!(request.headers.file_name.as_deref(), Some("clip.mov"));
            assert!(matches!(request.body, Body::File));
        }
        other => panic!("{other:?}"),
    }
    assert_eq!(address(upload.advance(reply(200, "{\"access_url\":\"a\"}"))), "a");
}

#[test]
fn large_files_go_in_parts() {
    let size = 2 * MULTIPART_CHUNK_SIZE + 5;
    let mut upload = in_parts(size);
    let expected = vec![
        (0, MULTIPART_CHUNK_SIZE),
        (MULTIPART_CHUNK_SIZE, MULTIPART_CHUNK_SIZE),
        (2 * MULTIPART_CHUNK_SIZE, 5),
    ];
    for (i, range) in expected.into_iter().enumerate() {
        match upload.pending(&client()) {
            Action::Deliver(request) => {
                assert_eq!(request.url, format!("https://files.test/f/multipart/u/{}", i + 1));
                match request.body {
                    Body::Part { start, len } => assert_eq!((start, len), range),
                    other => panic!("{other:?}"),
                }
            }
            other => panic!("{other:?}"),
        }
        upload = going(upload.advance(receipt(200, Some(&format!("e{}", i + 1)))));
    }
    match upload.pending(&client()) {
        Action::Send(request) => {
            assert_eq!(request.url, "https://files.test/f/multipart/u/complete");
            match request.body {
                Body::Json(body) => assert_eq!(
                    body.to_string(),
                    "{\"parts\":[{\"etag\":\"e1\",\"partNumber\":1},\
                     {\"etag\":\"e2\",\"partNumber\":2},{\"etag\":\"e3\",\"partNumber\":3}]}"
                ),
                other => panic!("{other:?}"),
            }
        }
        other => panic!("{other:?}"),
    }
    assert_eq!(address(upload.advance(reply(200, "anything"))), "https://files.test/f");
}

#[test]
fn an_emptied_file_has_no_parts() {
    let upload = in_parts(0);
    assert!(matches!(upload.pending(&client()), Action::Send(r) if r.url.ends_with("/complete")));
}

#[test]
fn a_failed_first_way_leads_to_the_second() {
    let missing = [
        (going(permitted().advance(Event::Size(1))), reply(200, "{}"), "v3 upload missing access_url"),
        (going(permitted().advance(Event::Size(1))), reply(500, "1"), "http 500 Internal Server Error: 1"),
        (permitted(), failed("no size"), "no size"),
        (
            steps(vec![Event::Done, Event::Done, reply(200, "{}")]),
            failed("missing field `token`"),
            "decode CDN token: missing field `token`",
        ),
        (steps(vec![Event::Done, Event::Done]), reply(403, "{}"), "http 403 Forbidden: {}"),
        (
            going(permitted().advance(Event::Size(u64::MAX))),
            reply(200, "{\"uploadId\":\"u\"}"),
            "multipart missing access_url",
        ),
        (
            going(permitted().advance(Event::Size(u64::MAX))),
            reply(200, "{\"access_url\":\"a\"}"),
            "multipart missing uploadId",
        ),
        (in_parts(1), receipt(404, Some("e")), "multipart part 1 failed: http 404 Not Found"),
        (in_parts(1), receipt(200, None), "multipart part missing etag"),
        (in_parts(1), failed("short read"), "short read"),
        (in_parts(0), reply(409, "{}"), "http 409 Conflict: {}"),
    ];
    for (upload, event, message) in missing {
        let second = going(upload.advance(event));
        assert!(
            matches!(second.pending(&client()), Action::Send(r) if r.url == "https://fal.media/files/upload")
        );
        let third = going(second.advance(failed("x")));
        let all = failure(third.advance(failed("y")));
        assert_eq!(
            all,
            format!("all fal upload methods failed: fal_v3: {message} | cdn: x | storage: y")
        );
    }
}

#[test]
fn the_second_way_can_save_the_upload() {
    assert_eq!(address(second_way().advance(reply(200, "{\"access_url\":\"b\"}"))), "b");
    let third = going(second_way().advance(reply(200, "{\"access_url\":null}")));
    assert_eq!(
        failure(third.advance(failed("y"))),
        "all fal upload methods failed: fal_v3: one | cdn: cdn upload missing access_url | storage: y"
    );
}

#[test]
fn the_third_way_can_save_the_upload() {
    let put = going(third_way().advance(reply(
        200,
        "{\"upload_url\":\"https://put.test\",\"file_url\":\"https://file.test\"}",
    )));
    match put.pending(&client()) {
        Action::Deliver(request) => {
            assert_eq!(request.url, "https://put.test");
            assert_eq!(request.headers.authorization, None);
        }
        other => panic!("{other:?}"),
    }
    assert_eq!(address(put.advance(receipt(204, None))), "https://file.test");
}

#[test]
fn the_third_way_can_fail() {
    let prefix = "all fal upload methods failed: fal_v3: one | cdn: two | storage: ";
    let cases = [
        (reply(200, "{\"file_url\":\"f\"}"), "storage missing upload_url"),
        (reply(200, "{\"upload_url\":\"u\"}"), "storage missing file_url"),
        (reply(400, "{}"), "http 400 Bad Request: {}"),
    ];
    for (event, message) in cases {
        assert_eq!(failure(third_way().advance(event)), format!("{prefix}{message}"));
    }
    let put = || {
        going(third_way().advance(reply(200, "{\"upload_url\":\"u\",\"file_url\":\"f\"}")))
    };
    assert_eq!(
        failure(put().advance(receipt(403, None))),
        format!("{prefix}storage PUT failed: http 403 Forbidden")
    );
    assert_eq!(failure(put().advance(failed("reset"))), format!("{prefix}reset"));
}

#[test]
fn steps_can_be_taken_one_by_one() {
    let upload = going(steps(vec![Event::Done, Event::Done]).fail("one".to_string()));
    let upload = going(upload.receive(Err("two".to_string())));
    let upload = going(upload.acknowledge(status(200), None));
    assert!(matches!(upload.pending(&client()), Action::Send(r) if r.url.ends_with("initiate?storage_type=gcs")));
}
