//! What the library asks its caller to do, and what the caller answers.

use crate::client::CdnToken;
use crate::http::{Request, Status};
use crate::json::{json, Json};
use crate::text::view_of;
use serde_json::Value;
use vstd::prelude::*;

verus! {

/// Where the video comes from.
#[derive(Debug)]
pub struct InputInfo<S> {
    /// `url` or `file`.
    pub kind: S,
    /// What the user handed in.
    pub source: S,
    /// The address under which the service finds the video.
    pub resolved_url: S,
}

/// What a run comes to, but for the time it took. `S` is the type of texts
/// and `J` the type of JSON values.
#[derive(Debug)]
pub struct StoryboardOutput<S, J> {
    /// The service.
    pub provider: S,
    /// The endpoint of the service.
    pub endpoint: S,
    /// The queue's name for the request.
    pub request_id: S,
    /// The model that was asked.
    pub model: S,
    /// Where the video came from.
    pub input: InputInfo<S>,
    /// The storyboard.
    pub output: S,
    /// What the request used up.
    pub usage: J,
}

/// Something for the caller to do.
#[derive(Debug)]
pub enum Action<S, J> {
    /// Tell the user. Answer: `Done`.
    Note(S),
    /// Read the whole file at this path. Answer: `Done`.
    Load(S),
    /// Find the size of the file at this path. Answer: `Size`.
    Measure(S),
    /// Open the file at this path, to read parts of it. Answer: `Done`.
    Open(S),
    /// Send a request and read the reply. Answer: `Reply`.
    Send(Request<S, J>),
    /// Send a request and look at the head of the reply. Answer: `Receipt`.
    Deliver(Request<S, J>),
    /// Read a permission to upload from a reply. Answer: `Token`.
    ReadToken(J),
    /// Read the queue's answer to a new request. Answer: `Queued`.
    ReadQueued(J),
    /// Start the clock. Answer: `Done`.
    StartClock,
    /// Read the clock. Answer: `Elapsed`.
    ReadClock,
    /// Sleep for this many seconds. Answer: `Done`.
    Sleep(u64),
    /// Print what the run came to. Nothing follows.
    Finish(StoryboardOutput<S, J>),
    /// Report that the run failed. Nothing follows.
    Fail(S),
}

/// The caller's answer to an action.
#[derive(Debug)]
pub enum Event<S> {
    /// It is done.
    Done,
    /// It could not be done.
    Failed(S),
    /// The status and the text of a reply.
    Reply {
        /// The status.
        status: Status,
        /// The text.
        text: S,
    },
    /// The status and the `ETag` of a reply.
    Receipt {
        /// The status.
        status: Status,
        /// The tag.
        etag: Option<S>,
    },
    /// A permission to upload.
    Token(CdnToken<S>),
    /// The queue's name for the request.
    Queued(S),
    /// The size of the file.
    Size(u64),
    /// The time since the clock was started.
    Elapsed {
        /// Whole seconds.
        secs: u64,
        /// Nanoseconds beyond them.
        nanos: u32,
    },
}

impl View for InputInfo<String> {
    type V = InputInfo<Seq<char>>;

    open spec fn view(&self) -> InputInfo<Seq<char>> {
        InputInfo {
            kind: self.kind@,
            source: self.source@,
            resolved_url: self.resolved_url@,
        }
    }
}

impl View for StoryboardOutput<String, Value> {
    type V = StoryboardOutput<Seq<char>, Json>;

    open spec fn view(&self) -> StoryboardOutput<Seq<char>, Json> {
        StoryboardOutput {
            provider: self.provider@,
            endpoint: self.endpoint@,
            request_id: self.request_id@,
            model: self.model@,
            input: self.input@,
            output: self.output@,
            usage: json(self.usage),
        }
    }
}

impl View for Action<String, Value> {
    type V = Action<Seq<char>, Json>;

    open spec fn view(&self) -> Action<Seq<char>, Json> {
        match *self {
            Action::Note(text) => Action::Note(text@),
            Action::Load(path) => Action::Load(path@),
            Action::Measure(path) => Action::Measure(path@),
            Action::Open(path) => Action::Open(path@),
            Action::Send(request) => Action::Send(request@),
            Action::Deliver(request) => Action::Deliver(request@),
            Action::ReadToken(value) => Action::ReadToken(json(value)),
            Action::ReadQueued(value) => Action::ReadQueued(json(value)),
            Action::StartClock => Action::StartClock,
            Action::ReadClock => Action::ReadClock,
            Action::Sleep(secs) => Action::Sleep(secs),
            Action::Finish(output) => Action::Finish(output@),
            Action::Fail(message) => Action::Fail(message@),
        }
    }
}

impl View for Event<String> {
    type V = Event<Seq<char>>;

    open spec fn view(&self) -> Event<Seq<char>> {
        match *self {
            Event::Done => Event::Done,
            Event::Failed(message) => Event::Failed(message@),
            Event::Reply { status, text } => Event::Reply { status, text: text@ },
            Event::Receipt { status, etag } => Event::Receipt { status, etag: view_of(etag) },
            Event::Token(token) => Event::Token(token@),
            Event::Queued(request_id) => Event::Queued(request_id@),
            Event::Size(size) => Event::Size(size),
            Event::Elapsed { secs, nanos } => Event::Elapsed { secs, nanos },
        }
    }
}

/// Whether an event is an answer to an action.
pub open spec fn answers(action: Action<Seq<char>, Json>, event: Event<Seq<char>>) -> bool {
    match action {
        Action::Note(_) | Action::StartClock | Action::Sleep(_) => event is Done,
        Action::Load(_) | Action::Open(_) => event is Done || event is Failed,
        Action::Measure(_) => event is Size || event is Failed,
        Action::Send(_) => event is Reply || event is Failed,
        Action::Deliver(_) => event is Receipt || event is Failed,
        Action::ReadToken(_) => event is Token || event is Failed,
        Action::ReadQueued(_) => event is Queued || event is Failed,
        Action::ReadClock => event is Elapsed,
        Action::Finish(_) | Action::Fail(_) => false,
    }
}

/// What is asked of the caller is seen as it is.
pub proof fn law_actions_are_seen_as_they_are(action: Action<String, Value>)
    ensures
        match action {
            Action::Note(text) => action@ == Action::<Seq<char>, Json>::Note(text@),
            Action::Load(path) => action@ == Action::<Seq<char>, Json>::Load(path@),
            Action::Measure(path) => action@ == Action::<Seq<char>, Json>::Measure(path@),
            Action::Open(path) => action@ == Action::<Seq<char>, Json>::Open(path@),
            Action::Send(request) => action@ == Action::Send(request@),
            Action::Deliver(request) => action@ == Action::Deliver(request@),
            Action::ReadToken(value) => action@ == Action::<Seq<char>, Json>::ReadToken(
                json(value),
            ),
            Action::ReadQueued(value) => action@ == Action::<Seq<char>, Json>::ReadQueued(
                json(value),
            ),
            Action::StartClock => action@ is StartClock,
            Action::ReadClock => action@ is ReadClock,
            Action::Sleep(secs) => action@ == Action::<Seq<char>, Json>::Sleep(secs),
            Action::Finish(output) => action@ == Action::Finish(output@),
            Action::Fail(message) => action@ == Action::<Seq<char>, Json>::Fail(message@),
        },
{
}

/// What the caller answers is seen as it is.
pub proof fn law_events_are_seen_as_they_are(event: Event<String>)
    ensures
        match event {
            Event::Done => event@ is Done,
            Event::Failed(message) => event@ == Event::Failed(message@),
            Event::Reply { status, text } => event@ matches Event::Reply { status: s, text: t } && s
                == status && t == text@,
            Event::Receipt { status, etag } => event@ matches Event::Receipt { status: s, etag: t }
                && s == status && t == view_of(etag),
            Event::Token(token) => event@ == Event::Token(token@),
            Event::Queued(request_id) => event@ == Event::Queued(request_id@),
            Event::Size(size) => event@ == Event::<Seq<char>>::Size(size),
            Event::Elapsed { secs, nanos } => event@ matches Event::Elapsed { secs: s, nanos: n }
                && s == secs && n == nanos,
        },
{
}

/// What a run comes to is seen field by field, none changed.
pub proof fn law_outputs_are_seen_as_they_are(output: StoryboardOutput<String, Value>)
    ensures
        output@.provider == output.provider@,
        output@.endpoint == output.endpoint@,
        output@.request_id == output.request_id@,
        output@.model == output.model@,
        output@.input == output.input@,
        output.input@.kind == output.input.kind@,
        output.input@.source == output.input.source@,
        output.input@.resolved_url == output.input.resolved_url@,
        output@.output == output.output@,
        output@.usage == json(output.usage),
{
}

/// Which answers there are: what is noted, started or slept is done; a file is
/// read, measured or opened, or that fails; what is sent has a reply, what is
/// delivered a receipt, or that fails; a token or a place in the queue is read
/// out of a reply, or that fails; the clock tells the time; nothing follows the
/// end of a run.
pub proof fn law_which_answers(action: Action<Seq<char>, Json>, event: Event<Seq<char>>)
    ensures
        action is Note || action is StartClock || action is Sleep ==> (answers(action, event)
            <==> event is Done),
        action is Load || action is Open ==> (answers(action, event) <==> event is Done || event
            is Failed),
        action is Measure ==> (answers(action, event) <==> event is Size || event is Failed),
        action is Send ==> (answers(action, event) <==> event is Reply || event is Failed),
        action is Deliver ==> (answers(action, event) <==> event is Receipt || event is Failed),
        action is ReadToken ==> (answers(action, event) <==> event is Token || event is Failed),
        action is ReadQueued ==> (answers(action, event) <==> event is Queued || event is Failed),
        action is ReadClock ==> (answers(action, event) <==> event is Elapsed),
        action is Finish || action is Fail ==> !answers(action, event),
{
}

} // verus!
