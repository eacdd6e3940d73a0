//! One run: from the input to the storyboard.

use crate::client::{FalClient, FileLabel, LocalFile, ENDPOINT};
use crate::flow::{Action, Event, InputInfo, StoryboardOutput};
use crate::http::{decode, decoded, json_outcome};
use crate::input::{build_prompt, is_url, prompt_with, url_like, Cli};
use crate::json::{
    contents, copy, get, json, new_int, new_list, new_object, new_text, put, render, rendered,
    text_member, Json,
};
use crate::paths::{file_name_of, portable};
use crate::text::same;
use crate::upload::{
    label_for_path, label_of, may_be_label, Progress, ProgressModel, Upload, UploadProgress,
    UploadStage, Uploading,
};
use serde_json::Value;
use vstd::prelude::*;

verus! {

/// The name of the service in what a run comes to.
pub const PROVIDER: &'static str = "fal-openrouter-video";

/// A request in the queue.
#[derive(Debug)]
pub struct Job<S> {
    /// Where the video comes from.
    pub input: InputInfo<S>,
    /// The queue's name for the request.
    pub request_id: S,
}

/// How far a run is. `S` is the type of texts, `J` the type of JSON values and
/// `L` the type of lists of texts.
#[derive(Debug)]
pub enum Stage<S, J, L> {
    /// The file is uploaded.
    Uploading(Upload<S, J, L>),
    /// The user is told that the storyboard is asked for.
    Announcing(InputInfo<S>),
    /// The request is put into the queue.
    Submitting(InputInfo<S>),
    /// The queue's answer is read.
    Queuing {
        /// Where the video comes from.
        input: InputInfo<S>,
        /// The queue's answer.
        reply: J,
    },
    /// The user is told that the request is in the queue.
    Reporting(Job<S>),
    /// The clock is started.
    Starting(Job<S>),
    /// The queue is asked how far the request is.
    Polling(Job<S>),
    /// The clock is read.
    Timing(Job<S>),
    /// Time passes.
    Sleeping(Job<S>),
    /// The queue is asked for the result.
    Fetching(Job<S>),
    /// The run has come to its end.
    Finished(StoryboardOutput<S, J>),
    /// The run has failed.
    Failed(S),
}

/// One run.
pub struct Session<S, J, L> {
    /// The service.
    pub client: FalClient<S>,
    /// The options.
    pub cli: Cli<S, J>,
    /// How far the run is.
    pub stage: Stage<S, J, L>,
}

/// A run as contracts see it.
pub type SessionModel = Session<Seq<char>, Json, Seq<Seq<char>>>;

/// The stage of a run as contracts see it.
pub type StageModel = Stage<Seq<char>, Json, Seq<Seq<char>>>;

impl View for Job<String> {
    type V = Job<Seq<char>>;

    open spec fn view(&self) -> Job<Seq<char>> {
        Job { input: self.input@, request_id: self.request_id@ }
    }
}

impl View for Stage<String, Value, Vec<String>> {
    type V = StageModel;

    open spec fn view(&self) -> StageModel {
        match *self {
            Stage::Uploading(upload) => Stage::Uploading(upload@),
            Stage::Announcing(input) => Stage::Announcing(input@),
            Stage::Submitting(input) => Stage::Submitting(input@),
            Stage::Queuing { input, reply } => Stage::Queuing { input: input@, reply: json(reply) },
            Stage::Reporting(job) => Stage::Reporting(job@),
            Stage::Starting(job) => Stage::Starting(job@),
            Stage::Polling(job) => Stage::Polling(job@),
            Stage::Timing(job) => Stage::Timing(job@),
            Stage::Sleeping(job) => Stage::Sleeping(job@),
            Stage::Fetching(job) => Stage::Fetching(job@),
            Stage::Finished(output) => Stage::Finished(output@),
            Stage::Failed(message) => Stage::Failed(message@),
        }
    }
}

impl View for Session<String, Value, Vec<String>> {
    type V = SessionModel;

    open spec fn view(&self) -> SessionModel {
        Session { client: self.client@, cli: self.cli@, stage: self.stage@ }
    }
}

/// A web address is its own resolution.
pub open spec fn url_input(input: Seq<char>) -> InputInfo<Seq<char>> {
    InputInfo { kind: "url"@, source: input, resolved_url: input }
}

/// A file is found where it was uploaded to.
pub open spec fn file_input(input: Seq<char>, url: Seq<char>) -> InputInfo<Seq<char>> {
    InputInfo { kind: "file"@, source: input, resolved_url: url }
}

/// The contents of the request for a storyboard.
pub open spec fn request_contents(cli: Cli<Seq<char>, Json>, url: Seq<char>) -> Json {
    Json::Object(
        Map::empty().insert("video_urls"@, Json::List(seq![Json::Text(url)])).insert(
            "prompt"@,
            Json::Text(prompt_with(cli.prompt)),
        ).insert("model"@, Json::Text(cli.model)).insert("temperature"@, cli.temperature).insert(
            "max_tokens"@,
            Json::Int(cli.max_output_tokens as int),
        ),
    )
}

/// What the queue says of a request.
#[derive(Clone, Copy, Debug, PartialEq, Eq, Structural)]
pub enum Verdict {
    /// It is done.
    Completed,
    /// It failed.
    Failed,
    /// Neither yet.
    Waiting,
}

/// What the queue says of a request, by the `status` of its reply.
pub open spec fn verdict_of(reply: Json) -> Verdict {
    match reply.text_member("status"@) {
        Some(status) => if status == "COMPLETED"@ {
            Verdict::Completed
        } else if status == "FAILED"@ {
            Verdict::Failed
        } else {
            Verdict::Waiting
        },
        None => Verdict::Waiting,
    }
}

/// Whether more time has passed than `max_wait_secs`.
pub open spec fn overdue(secs: u64, nanos: u32, max_wait_secs: u64) -> bool {
    secs > max_wait_secs || (secs == max_wait_secs && nanos > 0)
}

/// How long to sleep between two looks at the queue: never less than a second.
pub open spec fn nap(poll_interval_secs: u64) -> u64 {
    if poll_interval_secs < 1 {
        1
    } else {
        poll_interval_secs
    }
}

/// What a result comes to: the storyboard and what it used up, or a complaint
/// where the storyboard is missing.
pub open spec fn output_of(
    cli: Cli<Seq<char>, Json>,
    job: Job<Seq<char>>,
    result: Json,
) -> Result<StoryboardOutput<Seq<char>, Json>, Seq<char>> {
    match result.text_member("output"@) {
        Some(output) => Ok(
            StoryboardOutput {
                provider: PROVIDER@,
                endpoint: ENDPOINT@,
                request_id: job.request_id,
                model: cli.model,
                input: job.input,
                output,
                usage: match result.member("usage"@) {
                    Some(usage) => usage,
                    None => Json::Object(Map::empty()),
                },
            },
        ),
        None => Err("fal result missing output"@),
    }
}

/// The first stage of a run: a web address is used as it is, anything else is
/// the path of a file to upload, under this label.
pub open spec fn first_stage(input: Seq<char>, label: FileLabel<Seq<char>>) -> StageModel {
    if url_like(input) {
        Stage::Announcing(url_input(input))
    } else {
        Stage::Uploading(
            Upload { file: LocalFile { path: input, label }, stage: UploadStage::Announce },
        )
    }
}

/// A run before its first step. The label counts only for a file.
pub open spec fn started(
    client: FalClient<Seq<char>>,
    cli: Cli<Seq<char>, Json>,
    label: FileLabel<Seq<char>>,
) -> SessionModel {
    Session { client, cli, stage: first_stage(cli.input, label) }
}

/// The stage of a run after a step of the upload of `input`.
pub open spec fn after_upload(input: Seq<char>, progress: ProgressModel) -> StageModel {
    match progress {
        Progress::Going(upload) => Stage::Uploading(upload),
        Progress::Uploaded(url) => Stage::Announcing(file_input(input, url)),
        Progress::Failed(message) => Stage::Failed(message),
    }
}

impl SessionModel {
    /// The upload of a run is in order.
    pub open spec fn wf(self) -> bool {
        match self.stage {
            Stage::Uploading(upload) => upload.wf(),
            _ => true,
        }
    }

    /// What is to be done next.
    pub open spec fn pending_action(self) -> Action<Seq<char>, Json> {
        match self.stage {
            Stage::Uploading(upload) => upload.pending_action(self.client),
            Stage::Announcing(_) => Action::Note("generating storyboard with "@ + self.cli.model),
            Stage::Submitting(input) => Action::Send(
                self.client.submit_request(
                    ENDPOINT@,
                    request_contents(self.cli, input.resolved_url),
                ),
            ),
            Stage::Queuing { reply, .. } => Action::ReadQueued(reply),
            Stage::Reporting(job) => Action::Note("queued "@ + job.request_id + "; polling"@),
            Stage::Starting(_) => Action::StartClock,
            Stage::Polling(job) => Action::Send(
                self.client.status_request(ENDPOINT@, job.request_id),
            ),
            Stage::Timing(_) => Action::ReadClock,
            Stage::Sleeping(_) => Action::Sleep(nap(self.cli.poll_interval_secs)),
            Stage::Fetching(job) => Action::Send(
                self.client.result_request(ENDPOINT@, job.request_id),
            ),
            Stage::Finished(output) => Action::Finish(output),
            Stage::Failed(message) => Action::Fail(message),
        }
    }

    /// The stage after a reply, by what the reply came to.
    pub open spec fn after_reply(self, reply: Result<Json, Seq<char>>) -> StageModel {
        match self.stage {
            Stage::Uploading(upload) => after_upload(self.cli.input, upload.after_reply(reply)),
            Stage::Submitting(input) => match reply {
                Ok(contents) => Stage::Queuing { input, reply: contents },
                Err(message) => Stage::Failed(message),
            },
            Stage::Polling(job) => match reply {
                Ok(contents) => match verdict_of(contents) {
                    Verdict::Completed => Stage::Fetching(job),
                    Verdict::Failed => Stage::Failed("fal task failed: "@ + rendered(contents)),
                    Verdict::Waiting => Stage::Timing(job),
                },
                Err(message) => Stage::Failed(message),
            },
            Stage::Fetching(job) => match reply {
                Ok(contents) => match output_of(self.cli, job, contents) {
                    Ok(output) => Stage::Finished(output),
                    Err(message) => Stage::Failed(message),
                },
                Err(message) => Stage::Failed(message),
            },
            _ => self.stage,
        }
    }

    /// The stage after an action that could not be done.
    pub open spec fn after_failure(self, message: Seq<char>) -> StageModel {
        match self.stage {
            Stage::Uploading(upload) => after_upload(self.cli.input, upload.after_failure(message)),
            Stage::Submitting(_) | Stage::Polling(_) | Stage::Fetching(_) => Stage::Failed(message),
            Stage::Queuing { .. } => Stage::Failed("decode queue status: "@ + message),
            _ => self.stage,
        }
    }

    /// The stage after an answer. Anything but an answer to the pending action
    /// changes nothing.
    pub open spec fn next_stage(self, event: Event<Seq<char>>) -> StageModel {
        match event {
            Event::Reply { status, text } => self.after_reply(decoded(status@, text)),
            Event::Failed(message) => self.after_failure(message),
            _ => match self.stage {
                Stage::Uploading(upload) => after_upload(self.cli.input, upload.next(event)),
                Stage::Announcing(input) if event is Done => Stage::Submitting(input),
                Stage::Queuing { input, .. } if event is Queued => Stage::Reporting(
                    Job { input, request_id: event->Queued_0 },
                ),
                Stage::Reporting(job) if event is Done => Stage::Starting(job),
                Stage::Starting(job) if event is Done => Stage::Polling(job),
                Stage::Timing(job) if event is Elapsed => if overdue(
                    event->secs,
                    event->nanos,
                    self.cli.max_wait_secs,
                ) {
                    Stage::Failed("timeout waiting for "@ + job.request_id)
                } else {
                    Stage::Sleeping(job)
                },
                Stage::Sleeping(job) if event is Done => Stage::Polling(job),
                _ => self.stage,
            },
        }
    }

    /// The run after an answer.
    pub open spec fn next(self, event: Event<Seq<char>>) -> SessionModel {
        Session { stage: self.next_stage(event), ..self }
    }
}

/// A run.
pub type Run = Session<String, Value, Vec<String>>;

/// The stage of a run.
type RunStage = Stage<String, Value, Vec<String>>;

/// Resolves an input that needs no upload: a web address.
pub fn resolve_input(input: &str) -> (r: Option<InputInfo<String>>)
    ensures
        r is Some <==> url_like(input@),
        r matches Some(info) ==> info@ == url_input(input@),
{
    if is_url(input) {
        Some(
            InputInfo {
                kind: "url".to_owned(),
                source: input.to_owned(),
                resolved_url: input.to_owned(),
            },
        )
    } else {
        None
    }
}

/// The request for a storyboard of the video at `url`.
pub fn request_body(cli: &Cli<String, Value>, url: &str) -> (r: Value)
    ensures
        json(r) == request_contents(cli@, url@),
{
    let mut urls: Vec<Value> = Vec::new();
    urls.push(new_text(url.to_owned()));
    assert(contents(urls@) =~= seq![Json::Text(url@)]);
    let prompt = match &cli.prompt {
        Some(extra) => build_prompt(Some(extra.as_str())),
        None => build_prompt(None),
    };
    let mut body = new_object();
    put(&mut body, "video_urls", new_list(urls));
    put(&mut body, "prompt", new_text(prompt));
    put(&mut body, "model", new_text(cli.model.clone()));
    put(&mut body, "temperature", copy(&cli.temperature));
    put(&mut body, "max_tokens", new_int(cli.max_output_tokens as u64));
    body
}

/// What the queue says of a request.
pub fn verdict(reply: &Value) -> (r: Verdict)
    ensures
        r == verdict_of(json(*reply)),
{
    match text_member(reply, "status") {
        Some(status) => {
            if same(status, "COMPLETED") {
                Verdict::Completed
            } else if same(status, "FAILED") {
                Verdict::Failed
            } else {
                Verdict::Waiting
            }
        },
        None => Verdict::Waiting,
    }
}

/// The contents of what a run comes to.
pub open spec fn output_outcome(r: Result<StoryboardOutput<String, Value>, String>) -> Result<
    StoryboardOutput<Seq<char>, Json>,
    Seq<char>,
> {
    match r {
        Ok(output) => Ok(output@),
        Err(message) => Err(message@),
    }
}

/// What a result comes to.
pub fn assemble_output(cli: &Cli<String, Value>, job: Job<String>, result: &Value) -> (r: Result<
    StoryboardOutput<String, Value>,
    String,
>)
    ensures
        output_outcome(r) == output_of(cli@, job@, json(*result)),
{
    match text_member(result, "output") {
        Some(output) => Ok(
            StoryboardOutput {
                provider: PROVIDER.to_owned(),
                endpoint: ENDPOINT.to_owned(),
                request_id: job.request_id,
                model: cli.model.clone(),
                input: job.input,
                output: output.to_owned(),
                usage: match get(result, "usage") {
                    Some(usage) => copy(usage),
                    None => new_object(),
                },
            },
        ),
        None => Err("fal result missing output".to_owned()),
    }
}

/// The stage of a run after a step of the upload of `input`.
fn settle(input: &str, progress: UploadProgress) -> (r: RunStage)
    ensures
        r@ == after_upload(input@, progress@),
{
    match progress {
        Progress::Going(upload) => Stage::Uploading(upload),
        Progress::Uploaded(url) => Stage::Announcing(
            InputInfo { kind: "file".to_owned(), source: input.to_owned(), resolved_url: url },
        ),
        Progress::Failed(message) => Stage::Failed(message),
    }
}

impl Run {
    /// A run before its first step, with this label for the file.
    pub fn with_label(
        client: FalClient<String>,
        cli: Cli<String, Value>,
        label: FileLabel<String>,
    ) -> (r: Run)
        ensures
            r@ == started(client@, cli@, label@),
            r@.wf(),
    {
        let stage = match resolve_input(&cli.input) {
            Some(input) => Stage::Announcing(input),
            None => Stage::Uploading(
                Uploading::upload_file(LocalFile { path: cli.input.clone(), label }),
            ),
        };
        Session { client, cli, stage }
    }

    /// A run before its first step. A file gets the label that its path has on
    /// this machine.
    pub fn generate_storyboard(client: FalClient<String>, cli: Cli<String, Value>) -> (r: Run)
        ensures
            portable(cli@.input) ==> r@ == started(
                client@,
                cli@,
                label_of(file_name_of(cli@.input)),
            ),
            exists|label: FileLabel<Seq<char>>| #[trigger]
                may_be_label(cli@.input, label) && r@ == started(client@, cli@, label),
            r@.wf(),
    {
        let label = label_for_path(&cli.input);
        Run::with_label(client, cli, label)
    }

    /// What is to be done next.
    pub fn pending(&self) -> (r: Action<String, Value>)
        requires
            self@.wf(),
        ensures
            r@ == self@.pending_action(),
    {
        match &self.stage {
            Stage::Uploading(upload) => upload.pending(&self.client),
            Stage::Announcing(_) => Action::Note(
                "generating storyboard with ".to_owned().concat(&self.cli.model),
            ),
            Stage::Submitting(input) => Action::Send(
                self.client.submit(ENDPOINT, request_body(&self.cli, &input.resolved_url)),
            ),
            Stage::Queuing { reply, .. } => Action::ReadQueued(copy(reply)),
            Stage::Reporting(job) => Action::Note(
                "queued ".to_owned().concat(&job.request_id).concat("; polling"),
            ),
            Stage::Starting(_) => Action::StartClock,
            Stage::Polling(job) => Action::Send(self.client.get_status(ENDPOINT, &job.request_id)),
            Stage::Timing(_) => Action::ReadClock,
            Stage::Sleeping(_) => {
                let secs: u64 = self.cli.poll_interval_secs;
                Action::Sleep(
                    if secs < 1 {
                        1
                    } else {
                        secs
                    },
                )
            },
            Stage::Fetching(job) => Action::Send(self.client.get_result(ENDPOINT, &job.request_id)),
            Stage::Finished(output) => Action::Finish(copy_output(output)),
            Stage::Failed(message) => Action::Fail(message.clone()),
        }
    }

    /// The run after a reply, by what the reply came to.
    pub fn receive(self, reply: Result<Value, String>) -> (r: Run)
        requires
            self@.wf(),
        ensures
            r@ == (SessionModel { stage: self@.after_reply(json_outcome(reply)), ..self@ }),
            r@.wf(),
    {
        let Session { client, cli, stage } = self;
        let stage = match stage {
            Stage::Uploading(upload) => settle(&cli.input, upload.receive(reply)),
            Stage::Submitting(input) => match reply {
                Ok(value) => Stage::Queuing { input, reply: value },
                Err(message) => Stage::Failed(message),
            },
            Stage::Polling(job) => match reply {
                Ok(value) => match verdict(&value) {
                    Verdict::Completed => Stage::Fetching(job),
                    Verdict::Failed => Stage::Failed(
                        "fal task failed: ".to_owned().concat(&render(&value)),
                    ),
                    Verdict::Waiting => Stage::Timing(job),
                },
                Err(message) => Stage::Failed(message),
            },
            Stage::Fetching(job) => match reply {
                Ok(value) => match assemble_output(&cli, job, &value) {
                    Ok(output) => Stage::Finished(output),
                    Err(message) => Stage::Failed(message),
                },
                Err(message) => Stage::Failed(message),
            },
            other => other,
        };
        Session { client, cli, stage }
    }

    /// The run after an action that could not be done.
    pub fn fail(self, message: String) -> (r: Run)
        requires
            self@.wf(),
        ensures
            r@ == (SessionModel { stage: self@.after_failure(message@), ..self@ }),
            r@.wf(),
    {
        let Session { client, cli, stage } = self;
        let stage = match stage {
            Stage::Uploading(upload) => settle(&cli.input, upload.fail(message)),
            Stage::Submitting(_) => Stage::Failed(message),
            Stage::Polling(_) => Stage::Failed(message),
            Stage::Fetching(_) => Stage::Failed(message),
            Stage::Queuing { .. } => Stage::Failed(
                "decode queue status: ".to_owned().concat(&message),
            ),
            other => other,
        };
        Session { client, cli, stage }
    }

    /// The run after an answer.
    pub fn advance(self, event: Event<String>) -> (r: Run)
        requires
            self@.wf(),
        ensures
            r@ == self@.next(event@),
            r@.wf(),
    {
        match event {
            Event::Reply { status, text } => self.receive(decode(status, &text)),
            Event::Failed(message) => self.fail(message),
            event => {
                let Session { client, cli, stage } = self;
                let stage = match stage {
                    Stage::Uploading(upload) => settle(&cli.input, upload.advance(event)),
                    Stage::Announcing(input) => match event {
                        Event::Done => Stage::Submitting(input),
                        _ => Stage::Announcing(input),
                    },
                    Stage::Queuing { input, reply } => match event {
                        Event::Queued(request_id) => Stage::Reporting(Job { input, request_id }),
                        _ => Stage::Queuing { input, reply },
                    },
                    Stage::Reporting(job) => match event {
                        Event::Done => Stage::Starting(job),
                        _ => Stage::Reporting(job),
                    },
                    Stage::Starting(job) => match event {
                        Event::Done => Stage::Polling(job),
                        _ => Stage::Starting(job),
                    },
                    Stage::Timing(job) => match event {
                        Event::Elapsed { secs, nanos } => {
                            if secs > cli.max_wait_secs || (secs == cli.max_wait_secs && nanos > 0) {
                                Stage::Failed(
                                    "timeout waiting for ".to_owned().concat(&job.request_id),
                                )
                            } else {
                                Stage::Sleeping(job)
                            }
                        },
                        _ => Stage::Timing(job),
                    },
                    Stage::Sleeping(job) => match event {
                        Event::Done => Stage::Polling(job),
                        _ => Stage::Sleeping(job),
                    },
                    other => other,
                };
                Session { client, cli, stage }
            },
        }
    }
}

/// A copy of what a run came to.
fn copy_output(output: &StoryboardOutput<String, Value>) -> (r: StoryboardOutput<String, Value>)
    ensures
        r@ == output@,
{
    StoryboardOutput {
        provider: output.provider.clone(),
        endpoint: output.endpoint.clone(),
        request_id: output.request_id.clone(),
        model: output.model.clone(),
        input: InputInfo {
            kind: output.input.kind.clone(),
            source: output.input.source.clone(),
            resolved_url: output.input.resolved_url.clone(),
        },
        output: output.output.clone(),
        usage: copy(&output.usage),
    }
}

/// The request for a storyboard names one video, by its address, and has the
/// prompt, the model, the temperature and the limit on tokens. It has nothing
/// else.
pub proof fn law_request_members(cli: Cli<Seq<char>, Json>, url: Seq<char>)
    ensures
        request_contents(cli, url).member("video_urls"@) == Some(
            Json::List(seq![Json::Text(url)]),
        ),
        request_contents(cli, url).text_member("prompt"@) == Some(prompt_with(cli.prompt)),
        request_contents(cli, url).text_member("model"@) == Some(cli.model),
        request_contents(cli, url).member("temperature"@) == Some(cli.temperature),
        request_contents(cli, url).member("max_tokens"@) == Some(
            Json::Int(cli.max_output_tokens as int),
        ),
        forall|name: Seq<char>|
            (#[trigger] request_contents(cli, url).member(name)) is Some <==> name == "video_urls"@
                || name == "prompt"@ || name == "model"@ || name == "temperature"@ || name
                == "max_tokens"@,
{
    reveal_strlit("video_urls");
    reveal_strlit("prompt");
    reveal_strlit("model");
    reveal_strlit("temperature");
    reveal_strlit("max_tokens");
    assert("video_urls"@[0] == 'v' && "prompt"@[0] == 'p' && "temperature"@[0] == 't');
    assert("model"@.len() == 5 && "max_tokens"@.len() == 10);
}

/// An address that the user hands in is used as it was handed in, character for
/// character. A file is told by its path, and is found at the address that its
/// upload came to.
pub proof fn law_inputs(input: Seq<char>, url: Seq<char>)
    ensures
        url_input(input).resolved_url == input,
        url_input(input).source == input,
        url_input(input).kind == "url"@,
        file_input(input, url).resolved_url == url,
        file_input(input, url).source == input,
        file_input(input, url).kind == "file"@,
{
}

/// How a run starts: with the service and the options that it was given. An
/// input that starts with `http://` or `https://` is known already; any other
/// input is the path of a file that has yet to be uploaded under its label.
pub proof fn law_start(
    client: FalClient<Seq<char>>,
    cli: Cli<Seq<char>, Json>,
    label: FileLabel<Seq<char>>,
)
    ensures
        ({
            let run = started(client, cli, label);
            let address = "http://"@.is_prefix_of(cli.input) || "https://"@.is_prefix_of(cli.input);
            &&& run.client == client
            &&& run.cli == cli
            &&& address ==> run.stage == StageModel::Announcing(
                InputInfo { kind: "url"@, source: cli.input, resolved_url: cli.input },
            )
            &&& !address ==> run.stage == StageModel::Uploading(
                Upload {
                    file: LocalFile { path: cli.input, label },
                    stage: UploadStage::Announce,
                },
            )
        }),
{
}

/// The queue is done with a request where it says `COMPLETED`, has failed it
/// where it says `FAILED`, and is undecided whatever else it says.
pub proof fn law_verdicts(reply: Json)
    ensures
        verdict_of(reply) == Verdict::Completed <==> reply.member("status"@) == Some(
            Json::Text("COMPLETED"@),
        ),
        verdict_of(reply) == Verdict::Failed <==> reply.member("status"@) == Some(
            Json::Text("FAILED"@),
        ),
{
    reveal_strlit("COMPLETED");
    reveal_strlit("FAILED");
    assert("COMPLETED"@.len() != "FAILED"@.len());
}

/// What a result comes to holds the result's own members: the storyboard is the
/// string `output`, character for character, and what was used up is the member
/// `usage`, or an object without members. Where `output` is no string, the
/// result comes to nothing. The rest is what the run was about.
pub proof fn law_output_members(
    cli: Cli<Seq<char>, Json>,
    job: Job<Seq<char>>,
    result: Json,
    text: Seq<char>,
)
    ensures
        result.member("output"@) == Some(Json::Text(text)) ==> (output_of(
            cli,
            job,
            result,
        ) matches Ok(out) && {
            &&& out.output == text
            &&& result.member("usage"@) matches Some(usage) ==> out.usage == usage
            &&& result.member("usage"@) is None ==> out.usage == Json::Object(
                Map::<Seq<char>, Json>::empty(),
            )
            &&& out.request_id == job.request_id
            &&& out.input == job.input
            &&& out.model == cli.model
            &&& out.provider == "fal-openrouter-video"@
            &&& out.endpoint == "openrouter/router/video"@
        }),
        !(result.member("output"@) matches Some(Json::Text(_))) ==> output_of(cli, job, result)
            == Err::<StoryboardOutput<Seq<char>, Json>, Seq<char>>("fal result missing output"@),
{
}

/// What a run asks for at each stage. Its request names the video by the address
/// that was found for it, and it looks for the request that the queue named.
pub proof fn law_run_asks(run: SessionModel)
    ensures
        ({
            let asked = run.pending_action();
            match run.stage {
                Stage::Uploading(upload) => asked == upload.pending_action(run.client),
                Stage::Announcing(_) => asked == Action::<Seq<char>, Json>::Note(
                    "generating storyboard with "@ + run.cli.model,
                ),
                Stage::Submitting(input) => asked == Action::Send(
                    run.client.submit_request(
                        "openrouter/router/video"@,
                        request_contents(run.cli, input.resolved_url),
                    ),
                ),
                Stage::Queuing { reply, .. } => asked == Action::<Seq<char>, Json>::ReadQueued(
                    reply,
                ),
                Stage::Reporting(job) => asked == Action::<Seq<char>, Json>::Note(
                    "queued "@ + job.request_id + "; polling"@,
                ),
                Stage::Starting(_) => asked is StartClock,
                Stage::Polling(job) => asked == Action::Send(
                    run.client.status_request("openrouter/router/video"@, job.request_id),
                ),
                Stage::Timing(_) => asked is ReadClock,
                Stage::Sleeping(_) => asked matches Action::Sleep(secs) && {
                    &&& secs >= 1
                    &&& run.cli.poll_interval_secs >= 1 ==> secs == run.cli.poll_interval_secs
                    &&& run.cli.poll_interval_secs == 0 ==> secs == 1
                },
                Stage::Fetching(job) => asked == Action::Send(
                    run.client.result_request("openrouter/router/video"@, job.request_id),
                ),
                Stage::Finished(output) => asked == Action::Finish(output),
                Stage::Failed(message) => asked == Action::<Seq<char>, Json>::Fail(message),
            }
        }),
{
}

/// A run takes replies and failures for what they are, and goes along with the
/// upload of its file: while that goes on, when it has come to an address, and
/// when it has failed. The service and the options stay.
pub proof fn law_run_takes_answers(
    run: SessionModel,
    event: Event<Seq<char>>,
    reply: Result<Json, Seq<char>>,
    message: Seq<char>,
)
    ensures
        run.next(event).client == run.client,
        run.next(event).cli == run.cli,
        event matches Event::Reply { status, text } ==> run.next(event).stage == run.after_reply(
            decoded(status@, text),
        ),
        event matches Event::Failed(why) ==> run.next(event).stage == run.after_failure(why),
        run.stage matches Stage::Uploading(upload) ==> {
            &&& run.next(event).stage == match upload.next(event) {
                Progress::Going(next) => StageModel::Uploading(next),
                Progress::Uploaded(url) => StageModel::Announcing(
                    InputInfo { kind: "file"@, source: run.cli.input, resolved_url: url },
                ),
                Progress::Failed(why) => StageModel::Failed(why),
            }
            &&& run.after_reply(reply) == match upload.after_reply(reply) {
                Progress::Going(next) => StageModel::Uploading(next),
                Progress::Uploaded(url) => StageModel::Announcing(
                    InputInfo { kind: "file"@, source: run.cli.input, resolved_url: url },
                ),
                Progress::Failed(why) => StageModel::Failed(why),
            }
            &&& run.after_failure(message) == match upload.after_failure(message) {
                Progress::Going(next) => StageModel::Uploading(next),
                Progress::Uploaded(url) => StageModel::Announcing(
                    InputInfo { kind: "file"@, source: run.cli.input, resolved_url: url },
                ),
                Progress::Failed(why) => StageModel::Failed(why),
            }
        },
{
}

/// A run whose request, look or result cannot be had fails and says why. So
/// does one whose place in the queue cannot be read. At every other stage
/// beyond the upload there is nothing to fail.
pub proof fn law_run_failures(run: SessionModel, message: Seq<char>)
    ensures
        run.stage is Submitting || run.stage is Polling || run.stage is Fetching ==> {
            &&& run.after_failure(message) == StageModel::Failed(message)
            &&& run.after_reply(Err(message)) == StageModel::Failed(message)
        },
        run.stage is Queuing ==> run.after_failure(message) == StageModel::Failed(
            "decode queue status: "@ + message,
        ),
        !(run.stage is Uploading || run.stage is Submitting || run.stage is Polling || run.stage
            is Fetching || run.stage is Queuing) ==> run.after_failure(message) == run.stage,
{
}

/// A reply changes a run only where a reply is waited for.
pub proof fn law_replies_out_of_turn(run: SessionModel, reply: Result<Json, Seq<char>>)
    requires
        !(run.stage is Uploading || run.stage is Submitting || run.stage is Polling || run.stage
            is Fetching),
    ensures
        run.after_reply(reply) == run.stage,
{
}

/// The way of a request into the queue: it is announced, sent and reported under
/// the name that the queue gave it, the clock is started, and the queue is asked
/// for it. Where the video comes from stays the same.
pub proof fn law_way_into_the_queue(
    run: SessionModel,
    input: InputInfo<Seq<char>>,
    job: Job<Seq<char>>,
    reply: Json,
    request_id: Seq<char>,
)
    ensures
        run.stage == StageModel::Announcing(input) ==> run.next(Event::Done).stage
            == StageModel::Submitting(input),
        run.stage == StageModel::Submitting(input) ==> run.after_reply(Ok(reply)) == (
        StageModel::Queuing { input, reply }),
        run.stage == (StageModel::Queuing { input, reply }) ==> run.next(
            Event::Queued(request_id),
        ).stage == StageModel::Reporting(Job { input, request_id }),
        run.stage == StageModel::Reporting(job) ==> run.next(Event::Done).stage
            == StageModel::Starting(job),
        run.stage == StageModel::Starting(job) ==> run.next(Event::Done).stage
            == StageModel::Polling(job),
        run.stage == StageModel::Sleeping(job) ==> run.next(Event::Done).stage
            == StageModel::Polling(job),
{
}

/// What the queue says decides: a request that it calls `COMPLETED` has its
/// result fetched, one that it calls `FAILED` fails the run with the queue's own
/// words, and any other has the clock read.
pub proof fn law_queue_decides(run: SessionModel, job: Job<Seq<char>>, reply: Json)
    requires
        run.stage == StageModel::Polling(job),
    ensures
        reply.member("status"@) == Some(Json::Text("COMPLETED"@)) ==> run.after_reply(Ok(reply))
            == StageModel::Fetching(job),
        reply.member("status"@) == Some(Json::Text("FAILED"@)) ==> run.after_reply(Ok(reply))
            == StageModel::Failed("fal task failed: "@ + rendered(reply)),
        reply.member("status"@) != Some(Json::Text("COMPLETED"@)) && reply.member("status"@)
            != Some(Json::Text("FAILED"@)) ==> run.after_reply(Ok(reply)) == StageModel::Timing(
            job,
        ),
{
    law_verdicts(reply);
}

/// Waiting ends when more time has passed than the user allows, to the
/// nanosecond, and not before: until then the run sleeps for the interval that
/// the user chose, at least a second, and asks for the same request again.
pub proof fn law_time_limit(run: SessionModel, job: Job<Seq<char>>, secs: u64, nanos: u32)
    requires
        run.stage == StageModel::Timing(job),
        nanos < 1_000_000_000,
    ensures
        ({
            let elapsed = secs * 1_000_000_000 + nanos;
            let allowed = run.cli.max_wait_secs * 1_000_000_000;
            let timed = run.next(Event::Elapsed { secs, nanos });
            &&& elapsed > allowed <==> timed.pending_action() is Fail
            &&& elapsed <= allowed <==> timed.pending_action() is Sleep
            &&& elapsed > allowed ==> timed.pending_action() == Action::<Seq<char>, Json>::Fail(
                "timeout waiting for "@ + job.request_id,
            )
            &&& elapsed <= allowed ==> {
                &&& timed.stage == StageModel::Sleeping(job)
                &&& timed.pending_action()->Sleep_0 >= 1
                &&& timed.pending_action()->Sleep_0 >= run.cli.poll_interval_secs
                &&& timed.pending_action()->Sleep_0 == run.cli.poll_interval_secs
                    || run.cli.poll_interval_secs == 0 && timed.pending_action()->Sleep_0 == 1
                &&& timed.next(Event::Done).stage == StageModel::Polling(job)
            }
        }),
{
}

/// The result that was fetched is what the run comes to: the storyboard as the
/// service sent it, with what it used up. A result without a storyboard fails
/// the run.
pub proof fn law_fetched_result(
    run: SessionModel,
    job: Job<Seq<char>>,
    result: Json,
    text: Seq<char>,
)
    requires
        run.stage == StageModel::Fetching(job),
    ensures
        result.member("output"@) == Some(Json::Text(text)) ==> (run.after_reply(
            Ok(result),
        ) matches Stage::Finished(out) && {
            &&& out.output == text
            &&& result.member("usage"@) matches Some(usage) ==> out.usage == usage
            &&& result.member("usage"@) is None ==> out.usage == Json::Object(
                Map::<Seq<char>, Json>::empty(),
            )
            &&& out.request_id == job.request_id
            &&& out.input == job.input
            &&& out.model == run.cli.model
            &&& out.provider == "fal-openrouter-video"@
            &&& out.endpoint == "openrouter/router/video"@
        }),
        !(result.member("output"@) matches Some(Json::Text(_))) ==> run.after_reply(Ok(result))
            == StageModel::Failed("fal result missing output"@),
{
    law_output_members(run.cli, job, result, text);
}

/// Runs are seen stage by stage, field by field, none changed.
pub proof fn law_runs_are_seen_as_they_are(
    run: Run,
    result: Result<StoryboardOutput<String, Value>, String>,
    job: Job<String>,
)
    ensures
        run@.client == run.client@,
        run@.cli == run.cli@,
        job@.input == job.input@,
        job@.request_id == job.request_id@,
        match run.stage {
            Stage::Uploading(upload) => run@.stage == StageModel::Uploading(upload@),
            Stage::Announcing(input) => run@.stage == StageModel::Announcing(input@),
            Stage::Submitting(input) => run@.stage == StageModel::Submitting(input@),
            Stage::Queuing { input, reply } => run@.stage == (StageModel::Queuing {
                input: input@,
                reply: json(reply),
            }),
            Stage::Reporting(job) => run@.stage == StageModel::Reporting(job@),
            Stage::Starting(job) => run@.stage == StageModel::Starting(job@),
            Stage::Polling(job) => run@.stage == StageModel::Polling(job@),
            Stage::Timing(job) => run@.stage == StageModel::Timing(job@),
            Stage::Sleeping(job) => run@.stage == StageModel::Sleeping(job@),
            Stage::Fetching(job) => run@.stage == StageModel::Fetching(job@),
            Stage::Finished(output) => run@.stage == StageModel::Finished(output@),
            Stage::Failed(message) => run@.stage == StageModel::Failed(message@),
        },
        match result {
            Ok(output) => output_outcome(result) == Ok::<
                StoryboardOutput<Seq<char>, Json>,
                Seq<char>,
            >(output@),
            Err(message) => output_outcome(result) == Err::<
                StoryboardOutput<Seq<char>, Json>,
                Seq<char>,
            >(message@),
        },
{
}

} // verus!
