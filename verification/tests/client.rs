use serde_json::Value;
use storyboard::client::{
    create_multipart, put_storage, CdnToken, FalClient, FileLabel, Multipart, ENDPOINT,
};
use storyboard::http::{Body, Method, Request};

fn client(slashes: &str) -> FalClient<String> {
    FalClient::with_key_and_urls(
        "test-key".to_string(),
        format!("https://queue.test{slashes}"),
        format!("https://rest.test{slashes}"),
        format!("https://cdn.test{slashes}"),
        format!("https://fallback.test{slashes}"),
    )
}

fn file() -> FileLabel<String> {
    FileLabel { name: "clip.mp4".to_string(), content_type: "video/mp4".to_string() }
}

fn token() -> CdnToken<String> {
    CdnToken {
        token: "upload-token".to_string(),
        token_type: "Bearer".to_string(),
        base_url: "https://base.test/".to_string(),
    }
}

fn shape(request: &Request<String, Value>) -> (Method, &str, Vec<Option<&str>>, String) {
    let headers = &request.headers;
    (
        request.method,
        &request.url,
        vec![
            headers.authorization.as_deref(),
            headers.accept.as_deref(),
            headers.content_type.as_deref(),
            headers.file_name.as_deref(),
            headers.accept_encoding.as_deref(),
        ],
        match &request.body {
            Body::Empty => "".to_string(),
            Body::Json(value) => value.to_string(),
            Body::File => "file".to_string(),
            Body::Part { start, len } => format!("{start}+{len}"),
        },
    )
}

#[test]
fn addresses_have_defaults() {
    let plain = FalClient::new("k".to_string(), None, None, None, None);
    assert_eq!(plain.queue_url, "https://queue.fal.run");
    assert_eq!(plain.rest_url, "https://rest.fal.ai");
    assert_eq!(plain.cdn_url, "https://v3.fal.media");
    assert_eq!(plain.cdn_fallback_url, "https://fal.media");
    let moved = FalClient::new("k".to_string(), None, Some("http://r".to_string()), None, None);
    assert_eq!(moved.rest_url, "http://r");
    assert_eq!(moved.fal_key, "k");
}

#[test]
fn keys_are_presented_two_ways() {
    assert_eq!(client("").auth_header(), "Key test-key");
    assert_eq!(client("").bearer_header(), "Bearer test-key");
}

#[test]
fn uploads_are_asked_for() {
    let json = Some("application/json");
    assert_eq!(
        shape(&client("").cdn_token()),
        (
            Method::Post,
            "https://rest.test/storage/auth/token?storage_type=fal-cdn-v3",
            vec![Some("Key test-key"), json, json, None, None],
            "{}".to_string()
        )
    );
    assert_eq!(
        shape(&client("").upload_storage(&file())),
        (
            Method::Post,
            "https://rest.test/storage/upload/initiate?storage_type=gcs",
            vec![Some("Key test-key"), json, json, None, None],
            "{\"content_type\":\"video/mp4\",\"file_name\":\"clip.mp4\"}".to_string()
        )
    );
    assert_eq!(
        shape(&create_multipart(&token(), &file())),
        (
            Method::Post,
            "https://base.test/files/upload/multipart",
            vec![Some("Bearer upload-token"), json, Some("video/mp4"), Some("clip.mp4"), None],
            "".to_string()
        )
    );
}

#[test]
fn whole_files_are_sent() {
    assert_eq!(
        shape(&client("").upload_v3(&token(), &file())),
        (
            Method::Post,
            "https://cdn.test/files/upload",
            vec![
                Some("Bearer upload-token"),
                None,
                Some("video/mp4"),
                Some("clip.mp4"),
                None
            ],
            "file".to_string()
        )
    );
    assert_eq!(
        shape(&client("").upload_cdn(&file())),
        (
            Method::Post,
            "https://fallback.test/files/upload",
            vec![Some("Bearer test-key"), None, Some("video/mp4"), Some("clip.mp4"), None],
            "file".to_string()
        )
    );
    assert_eq!(
        shape(&put_storage("https://put.test/x?sig=1", &file())),
        (
            Method::Put,
            "https://put.test/x?sig=1",
            vec![None, None, Some("video/mp4"), None, None],
            "file".to_string()
        )
    );
}

#[test]
fn parts_are_sent_and_listed() {
    let upload = Multipart {
        authorization: "Bearer upload-token".to_string(),
        access_url: "https://files.test/a//".to_string(),
        upload_id: "id-1".to_string(),
    };
    assert_eq!(
        shape(&upload.upload_part(&file(), 20_971_521, 3)),
        (
            Method::Put,
            "https://files.test/a/multipart/id-1/3",
            vec![
                Some("Bearer upload-token"),
                None,
                Some("video/mp4"),
                None,
                Some("identity")
            ],
            "20971520+1".to_string()
        )
    );
    let other = upload.upload_part(&file(), 20_971_521, 2);
    assert_eq!(other.url, "https://files.test/a/multipart/id-1/2");
    assert_eq!(
        shape(&upload.complete(&vec!["t1".to_string(), "t2".to_string()])),
        (
            Method::Post,
            "https://files.test/a/multipart/id-1/complete",
            vec![Some("Bearer upload-token"), None, None, None, None],
            "{\"parts\":[{\"etag\":\"t1\",\"partNumber\":1},{\"etag\":\"t2\",\"partNumber\":2}]}"
                .to_string()
        )
    );
    assert_eq!(shape(&upload.complete(&vec![])).3, "{\"parts\":[]}");
}

#[test]
fn the_queue_is_asked() {
    let key = vec![Some("Key test-key"), None, None, None, None];
    let url = "https://queue.test/openrouter/router/video";
    assert_eq!(
        shape(&client("").submit(ENDPOINT, Value::from(7u64))),
        (Method::Post, url, key.clone(), "7".to_string())
    );
    assert_eq!(
        shape(&client("").get_status("/openrouter/router/video//", "r1")),
        (
            Method::Get,
            format!("{url}/requests/r1/status").as_str(),
            key.clone(),
            "".to_string()
        )
    );
    assert_eq!(
        shape(&client("").get_result(ENDPOINT, "r1")),
        (Method::Get, format!("{url}/requests/r1").as_str(), key, "".to_string())
    );
}

#[test]
fn slashes_at_the_end_of_addresses_do_not_matter() {
    let (plain, slashed) = (client(""), client("///"));
    assert_eq!(shape(&plain.cdn_token()), shape(&slashed.cdn_token()));
    assert_eq!(shape(&plain.upload_v3(&token(), &file())), shape(&slashed.upload_v3(&token(), &file())));
    assert_eq!(shape(&plain.upload_cdn(&file())), shape(&slashed.upload_cdn(&file())));
    assert_eq!(shape(&plain.upload_storage(&file())), shape(&slashed.upload_storage(&file())));
    assert_eq!(shape(&plain.get_status(ENDPOINT, "r")), shape(&slashed.get_status(ENDPOINT, "r")));
    assert_eq!(shape(&plain.get_result(ENDPOINT, "r")), shape(&slashed.get_result(ENDPOINT, "r")));
}
