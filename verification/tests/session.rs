use serde_json::Value;
use std::io::Write;
use std::path::Path;
use storyboard::client::{CdnToken, FalClient, FileLabel, ENDPOINT};
use storyboard::flow::{Action, Event, StoryboardOutput};
use storyboard::http::{Body, Method, Request, Status};
use storyboard::input::Cli;
use storyboard::session::{
    assemble_output, request_body, resolve_input, verdict, Job, Run, Verdict,
};

fn value(text: &str) -> Value {
    serde_json::from_str(text).unwrap()
}

fn client() -> FalClient<String> {
    let base = "http://service.test".to_string();
    FalClient::with_key_and_urls(
        "test-key".to_string(),
        base.clone(),
        base.clone(),
        base.clone(),
        base,
    )
}

fn options(input: &str) -> Cli<String, Value> {
    Cli::with_defaults(input.to_string(), Value::from(1.0))
}

fn reply(code: u16, text: &str) -> Event<String> {
    Event::Reply { status: Status::from_u16(code).unwrap(), text: text.to_string() }
}

fn member(value: &Value, name: &str) -> String {
    value[name].as_str().unwrap().to_string()
}

/// Runs to the end against a service, with a clock that never moves. The
/// service is asked for the reply to each request.
fn drive(
    mut run: Run,
    service: &mut dyn FnMut(&Request<String, Value>) -> (u16, String),
) -> (Result<StoryboardOutput<String, Value>, String>, Vec<String>) {
    let mut log = Vec::new();
    for _ in 0..100 {
        let event = match run.pending() {
            Action::Note(text) => {
                log.push(text);
                Event::Done
            }
            Action::Load(path) => {
                assert!(Path::new(&path).is_file());
                Event::Done
            }
            Action::Measure(path) => Event::Size(Path::new(&path).metadata().unwrap().len()),
            Action::Open(_) | Action::StartClock => Event::Done,
            Action::Send(request) => {
                log.push(format!("{:?} {}", request.method, request.url));
                let (code, text) = service(&request);
                reply(code, &text)
            }
            Action::Deliver(request) => {
                log.push(format!("{:?} {}", request.method, request.url));
                let (code, text) = service(&request);
                Event::Receipt { status: Status::from_u16(code).unwrap(), etag: Some(text) }
            }
            Action::ReadToken(value) => Event::Token(CdnToken {
                token: member(&value, "token"),
                token_type: member(&value, "token_type"),
                base_url: member(&value, "base_url"),
            }),
            Action::ReadQueued(value) => Event::Queued(member(&value, "request_id")),
            Action::ReadClock => Event::Elapsed { secs: 0, nanos: 0 },
            Action::Sleep(secs) => {
                log.push(format!("sleep {secs}"));
                Event::Done
            }
            Action::Finish(output) => return (Ok(output), log),
            Action::Fail(message) => return (Err(message), log),
        };
        run = run.advance(event);
    }
    panic!("the run does not end");
}

#[test]
fn direct_url_flow_outputs_provider_json() {
    let mut cli = options("https://youtu.be/example");
    cli.poll_interval_secs = 1;
    cli.max_wait_secs = 5;
    let mut hits = vec![0, 0, 0];
    let (out, log) = drive(Run::generate_storyboard(client(), cli), &mut |request| {
        assert_eq!(request.headers.authorization.as_deref(), Some("Key test-key"));
        let path = request.url.strip_prefix("http://service.test").unwrap();
        match (request.method, path) {
            (Method::Post, "/openrouter/router/video") => {
                hits[0] += 1;
                match &request.body {
                    Body::Json(body) => assert_eq!(
                        body["video_urls"],
                        value("[\"https://youtu.be/example\"]")
                    ),
                    _ => panic!("no body"),
                }
                (200, "{\"status\":\"IN_QUEUE\",\"request_id\":\"req-url\"}".to_string())
            }
            (Method::Get, "/openrouter/router/video/requests/req-url/status") => {
                hits[1] += 1;
                (200, "{\"status\":\"COMPLETED\",\"request_id\":\"req-url\"}".to_string())
            }
            (Method::Get, "/openrouter/router/video/requests/req-url") => {
                hits[2] += 1;
                (
                    200,
                    "{\"output\":\"Shot-by-shot brief.\",\"usage\":{\"prompt_tokens\":1000,\
                     \"completion_tokens\":100,\"total_tokens\":1100,\"cost\":0.0005}}"
                        .to_string(),
                )
            }
            (_, other) => panic!("unexpected {other}"),
        }
    });
    let out = out.unwrap();
    assert_eq!(out.provider, "fal-openrouter-video");
    assert_eq!(out.endpoint, ENDPOINT);
    assert_eq!(out.request_id, "req-url");
    assert_eq!(out.input.kind, "url");
    assert_eq!(out.input.source, "https://youtu.be/example");
    assert_eq!(out.input.resolved_url, "https://youtu.be/example");
    assert_eq!(out.model, "google/gemini-2.5-flash");
    assert_eq!(out.output, "Shot-by-shot brief.");
    assert_eq!(out.usage.get("cost").and_then(Value::as_f64), Some(0.0005));
    assert_eq!(hits, vec![1, 1, 1]);
    assert_eq!(log[0], "generating storyboard with google/gemini-2.5-flash");
    assert_eq!(log[2], "queued req-url; polling");
}

#[test]
fn local_file_uploads_before_queue_submit() {
    let mut file = tempfile::NamedTempFile::with_suffix(".mp4").unwrap();
    file.write_all(b"fake mp4").unwrap();
    let path = file.path().to_str().unwrap();
    let mut hits = vec![0, 0, 0];
    let (out, log) = drive(Run::generate_storyboard(client(), options(path)), &mut |request| {
        let address = request.url.strip_prefix("http://service.test").unwrap();
        match (request.method, address) {
            (Method::Post, "/storage/auth/token?storage_type=fal-cdn-v3") => {
                hits[0] += 1;
                (
                    200,
                    "{\"token\":\"upload-token\",\"token_type\":\"Bearer\",\
                     \"base_url\":\"http://service.test\"}"
                        .to_string(),
                )
            }
            (Method::Post, "/files/upload") => {
                hits[1] += 1;
                assert_eq!(request.headers.authorization.as_deref(), Some("Bearer upload-token"));
                assert_eq!(request.headers.content_type.as_deref(), Some("video/mp4"));
                assert!(matches!(request.body, Body::File));
                (200, "{\"access_url\":\"https://files.example/input.mp4\"}".to_string())
            }
            (Method::Post, "/openrouter/router/video") => {
                hits[2] += 1;
                match &request.body {
                    Body::Json(body) => assert_eq!(
                        body["video_urls"],
                        value("[\"https://files.example/input.mp4\"]")
                    ),
                    _ => panic!("no body"),
                }
                (200, "{\"status\":\"IN_QUEUE\",\"request_id\":\"req-file\"}".to_string())
            }
            (Method::Get, "/openrouter/router/video/requests/req-file/status") => {
                (200, "{\"status\":\"COMPLETED\",\"request_id\":\"req-file\"}".to_string())
            }
            (Method::Get, "/openrouter/router/video/requests/req-file") => {
                (200, "{\"output\":\"Uploaded file brief.\",\"usage\":{\"cost\":0.001}}".to_string())
            }
            (_, other) => panic!("unexpected {other}"),
        }
    });
    let out = out.unwrap();
    assert_eq!(out.input.kind, "file");
    assert_eq!(out.input.source, path);
    assert_eq!(out.input.resolved_url, "https://files.example/input.mp4");
    assert_eq!(out.output, "Uploaded file brief.");
    assert_eq!(hits, vec![1, 1, 1]);
    assert_eq!(log[0], format!("uploading {path} (video/mp4)"));
}

#[test]
fn failed_queue_status_is_clear() {
    let cli = options("https://example.com/video.mp4");
    let (out, _) = drive(Run::generate_storyboard(client(), cli), &mut |request| {
        match request.method {
            Method::Post => (200, "{\"status\":\"IN_QUEUE\",\"request_id\":\"req-fail\"}".to_string()),
            _ => (200, "{\"status\":\"FAILED\",\"detail\":\"bad input\"}".to_string()),
        }
    });
    let message = out.unwrap_err();
    assert!(message.contains("fal task failed"));
    assert_eq!(message, "fal task failed: {\"detail\":\"bad input\",\"status\":\"FAILED\"}");
}

#[test]
fn a_file_that_cannot_be_read_ends_the_run() {
    let run = Run::generate_storyboard(client(), options("missing.mp4"));
    let run = run.advance(Event::Done).advance(Event::Failed("no such file".to_string()));
    assert!(matches!(run.pending(), Action::Fail(m) if m == "read missing.mp4: no such file"));
}

#[test]
fn an_undecided_queue_is_asked_again() {
    let mut cli = options("https://example.com/video.mp4");
    cli.poll_interval_secs = 0;
    let mut polls = 0;
    let (out, log) = drive(Run::generate_storyboard(client(), cli), &mut |request| {
        if request.url.ends_with("/status") {
            polls += 1;
            let text = match polls {
                1 => "{\"status\":\"IN_PROGRESS\"}",
                2 => "not json",
                _ => "{\"status\":\"COMPLETED\"}",
            };
            (200, text.to_string())
        } else if request.method == Method::Post {
            (200, "{\"request_id\":\"r\"}".to_string())
        } else {
            (200, "{\"output\":\"\"}".to_string())
        }
    });
    let out = out.unwrap();
    assert_eq!(out.output, "");
    assert_eq!(out.usage.to_string(), "{}");
    assert_eq!(polls, 3);
    assert_eq!(log.iter().filter(|line| *line == "sleep 1").count(), 2);
}

/// A run that is about to read the clock.
fn at_the_clock(max_wait_secs: u64, poll_interval_secs: u64) -> Run {
    let mut cli = options("https://example.com/video.mp4");
    cli.max_wait_secs = max_wait_secs;
    cli.poll_interval_secs = poll_interval_secs;
    let run = Run::generate_storyboard(client(), cli)
        .advance(Event::Done)
        .advance(reply(200, "{}"))
        .advance(Event::Queued("req-1".to_string()))
        .advance(Event::Done)
        .advance(Event::Done)
        .advance(reply(200, "{\"status\":\"IN_QUEUE\"}"));
    assert!(matches!(run.pending(), Action::ReadClock));
    run
}

#[test]
fn waiting_ends_only_when_the_time_is_over() {
    let run = at_the_clock(5, 7).advance(Event::Elapsed { secs: 5, nanos: 0 });
    assert!(matches!(run.pending(), Action::Sleep(7)));
    let run = run.advance(Event::Done);
    assert!(matches!(run.pending(), Action::Send(r) if r.url.ends_with("/requests/req-1/status")));
    let run = at_the_clock(5, 7).advance(Event::Elapsed { secs: 5, nanos: 1 });
    assert!(matches!(run.pending(), Action::Fail(m) if m == "timeout waiting for req-1"));
    let run = at_the_clock(5, 7).advance(Event::Elapsed { secs: 6, nanos: 0 });
    assert!(matches!(run.pending(), Action::Fail(_)));
}

#[test]
fn a_bad_reply_of_the_queue_ends_the_run() {
    let start = || {
        Run::generate_storyboard(client(), options("https://example.com/v.mp4")).advance(Event::Done)
    };
    let run = start().advance(reply(401, "{\"detail\":\"no key\"}"));
    assert!(
        matches!(run.pending(), Action::Fail(m) if m == "http 401 Unauthorized: {\"detail\":\"no key\"}")
    );
    let run = start().advance(Event::Failed("connection refused".to_string()));
    assert!(matches!(run.pending(), Action::Fail(m) if m == "connection refused"));
    let run = start().advance(reply(200, "{}"));
    assert!(matches!(run.pending(), Action::ReadQueued(_)));
    let run = run.advance(Event::Failed("missing field `status`".to_string()));
    assert!(
        matches!(run.pending(), Action::Fail(m) if m == "decode queue status: missing field `status`")
    );
    let polling = start()
        .advance(reply(200, "{}"))
        .advance(Event::Queued("r".to_string()))
        .advance(Event::Done)
        .advance(Event::Done);
    let run = polling.advance(reply(503, "busy"));
    assert!(
        matches!(run.pending(), Action::Fail(m) if m == "http 503 Service Unavailable: {\"raw\":\"busy\"}")
    );
}

#[test]
fn a_result_needs_its_output() {
    let run = Run::generate_storyboard(client(), options("https://example.com/v.mp4"))
        .advance(Event::Done)
        .advance(reply(200, "{}"))
        .advance(Event::Queued("r".to_string()))
        .advance(Event::Done)
        .advance(Event::Done)
        .advance(reply(200, "{\"status\":\"COMPLETED\"}"))
        .advance(reply(200, "{\"output\": 3}"));
    assert!(matches!(run.pending(), Action::Fail(m) if m == "fal result missing output"));
}

#[test]
fn events_out_of_turn_change_nothing() {
    let run = Run::generate_storyboard(client(), options("https://example.com/v.mp4"));
    let run = run
        .advance(Event::Size(3))
        .advance(Event::Failed("x".to_string()))
        .advance(reply(500, "x"))
        .advance(Event::Queued("q".to_string()))
        .advance(Event::Elapsed { secs: 9999, nanos: 0 });
    assert!(matches!(run.pending(), Action::Note(_)));
    let failed = run.advance(Event::Done).advance(Event::Failed("over".to_string()));
    let failed = failed.advance(Event::Done).advance(reply(200, "{}"));
    assert!(matches!(failed.pending(), Action::Fail(m) if m == "over"));
}

#[test]
fn decoded_replies_can_be_handed_in() {
    let run = Run::generate_storyboard(client(), options("https://example.com/v.mp4"))
        .advance(Event::Done)
        .receive(Ok(value("{\"request_id\":\"r\"}")));
    assert!(matches!(run.pending(), Action::ReadQueued(v) if v["request_id"] == "r"));
    let run = run.advance(Event::Queued("r".to_string())).advance(Event::Done).advance(Event::Done);
    let run = run.receive(Err("gone".to_string()));
    assert!(matches!(run.pending(), Action::Fail(m) if m == "gone"));
    let run = Run::generate_storyboard(client(), options("https://example.com/v.mp4"))
        .advance(Event::Done)
        .fail("lost".to_string());
    assert!(matches!(run.pending(), Action::Fail(m) if m == "lost"));
}

#[test]
fn requests_hold_every_option() {
    let mut cli = options("x");
    cli.prompt = Some(" Look. ".to_string());
    cli.max_output_tokens = 9;
    let body = request_body(&cli, "https://v");
    assert_eq!(body["video_urls"], value("[\"https://v\"]"));
    assert!(body["prompt"].as_str().unwrap().ends_with("\n\nExtra instruction: Look."));
    assert_eq!(body["model"], "google/gemini-2.5-flash");
    assert_eq!(body["temperature"].to_string(), "1.0");
    assert_eq!(body["max_tokens"].to_string(), "9");
    assert_eq!(body.as_object().unwrap().len(), 5);
}

#[test]
fn verdicts_go_by_the_status() {
    assert_eq!(verdict(&value("{\"status\":\"COMPLETED\"}")), Verdict::Completed);
    assert_eq!(verdict(&value("{\"status\":\"FAILED\"}")), Verdict::Failed);
    assert_eq!(verdict(&value("{\"status\":\"completed\"}")), Verdict::Waiting);
    assert_eq!(verdict(&value("{\"status\":1}")), Verdict::Waiting);
    assert_eq!(verdict(&value("[]")), Verdict::Waiting);
}

#[test]
fn only_web_addresses_need_no_upload() {
    let info = resolve_input("http://a/b").unwrap();
    assert_eq!((info.kind.as_str(), info.source.as_str()), ("url", "http://a/b"));
    assert_eq!(info.resolved_url, "http://a/b");
    assert!(resolve_input("a/b.mp4").is_none());
}

#[test]
fn outputs_keep_the_usage_as_it_is() {
    let job = Job { input: resolve_input("http://a").unwrap(), request_id: "r".to_string() };
    let result = value("{\"output\":\"o\",\"usage\":[1,null]}");
    let out = assemble_output(&options("http://a"), job, &result).unwrap();
    assert_eq!(out.usage, value("[1,null]"));
    assert_eq!(out.request_id, "r");
    let job = Job { input: resolve_input("http://a").unwrap(), request_id: "r".to_string() };
    assert_eq!(
        assemble_output(&options("http://a"), job, &value("{}")).unwrap_err(),
        "fal result missing output"
    );
}

#[test]
fn answers_never_change_the_setting() {
    let run = Run::generate_storyboard(client(), options("clip.mp4"))
        .advance(Event::Done)
        .advance(Event::Done)
        .advance(reply(500, "{}"))
        .advance(reply(200, "{\"access_url\":\"https://files.example/clip.mp4\"}"));
    assert_eq!(run.cli.input, "clip.mp4");
    assert_eq!(run.client.fal_key, "test-key");
    assert!(matches!(run.pending(), Action::Note(_)));
    let run = run.advance(Event::Done);
    match run.pending() {
        Action::Send(request) => match request.body {
            Body::Json(body) => {
                assert_eq!(body["video_urls"], value("[\"https://files.example/clip.mp4\"]"))
            }
            other => panic!("{other:?}"),
        },
        other => panic!("{other:?}"),
    }
}

#[test]
fn web_addresses_never_touch_a_file() {
    let mut run = Run::generate_storyboard(client(), options("https://example.com/v.mp4"));
    let events = vec![
        Event::Done,
        reply(200, "{}"),
        Event::Queued("r".to_string()),
        Event::Done,
        Event::Done,
        reply(200, "{\"status\":\"COMPLETED\"}"),
        reply(200, "{\"output\":\"o\"}"),
    ];
    for event in events {
        match run.pending() {
            Action::Load(_) | Action::Measure(_) | Action::Open(_) | Action::Deliver(_) => {
                panic!("a file is touched")
            }
            Action::Send(request) => {
                assert!(matches!(request.body, Body::Empty | Body::Json(_)))
            }
            _ => {}
        }
        run = run.advance(event);
    }
    assert!(matches!(run.pending(), Action::Finish(output) if output.output == "o"));
}

#[test]
fn files_can_be_labelled_by_the_caller() {
    let label = FileLabel { name: "n.bin".to_string(), content_type: "x/y".to_string() };
    let run = Run::with_label(client(), options("some/clip.mp4"), label);
    assert!(matches!(run.pending(), Action::Note(t) if t == "uploading some/clip.mp4 (x/y)"));
    let label = FileLabel { name: "n.bin".to_string(), content_type: "x/y".to_string() };
    let run = Run::with_label(client(), options("http://a/b.mp4"), label);
    assert!(
        matches!(run.pending(), Action::Note(t) if t == "generating storyboard with google/gemini-2.5-flash")
    );
}

#[test]
fn a_large_file_is_found_where_it_was_sent_in_parts() {
    let mut run = Run::generate_storyboard(client(), options("clip.mp4"));
    let mut events = vec![
        Event::Done,
        Event::Done,
        reply(200, "{}"),
        Event::Token(CdnToken {
            token: "t".to_string(),
            token_type: "Bearer".to_string(),
            base_url: "http://base.test".to_string(),
        }),
        Event::Size(104_857_601),
        reply(201, "{\"access_url\":\"http://files.test/f\",\"uploadId\":\"u\"}"),
        Event::Size(104_857_601),
        Event::Done,
    ];
    for part in 0..11u16 {
        let status = Status::from_u16(200 + part).unwrap();
        events.push(Event::Receipt { status, etag: Some(format!("e{part}")) });
    }
    events.push(reply(200, "{}"));
    events.push(Event::Done);
    for event in events {
        run = run.advance(event);
    }
    match run.pending() {
        Action::Send(request) => match request.body {
            Body::Json(body) => assert_eq!(body["video_urls"], value("[\"http://files.test/f\"]")),
            other => panic!("{other:?}"),
        },
        other => panic!("{other:?}"),
    }
}

#[test]
fn many_undecided_looks_lead_to_the_storyboard() {
    let mut polls = 0;
    let cli = options("https://example.com/v.mp4");
    let (out, log) = drive(Run::generate_storyboard(client(), cli), &mut |request| {
        if request.url.ends_with("/status") {
            polls += 1;
            let done = if polls > 20 { "COMPLETED" } else { "IN_QUEUE" };
            (200, format!("{{\"status\":\"{done}\"}}"))
        } else if request.method == Method::Post {
            (200, "{\"request_id\":\"r\"}".to_string())
        } else {
            (200, "{\"output\":\"late\"}".to_string())
        }
    });
    assert_eq!(out.unwrap().output, "late");
    assert_eq!(log.iter().filter(|line| *line == "sleep 5").count(), 20);
}
