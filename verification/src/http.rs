//! HTTP as values: the requests to send, and what a reply comes to.

use crate::json::{
    json, new_object, new_text, parse, parsed, render, rendered, put, text_member, Json,
};
use crate::text::{decimal, outcome, view_of};
use serde_json::Value;
use vstd::prelude::*;

verus! {

/// The method of a request.
#[derive(Clone, Copy, Debug, PartialEq, Eq, Structural)]
pub enum Method {
    /// `GET`.
    Get,
    /// `POST`.
    Post,
    /// `PUT`.
    Put,
}

/// The headers of a request; one that is `None` is not sent.
#[derive(Debug)]
pub struct Headers<S> {
    /// `Authorization`.
    pub authorization: Option<S>,
    /// `Accept`.
    pub accept: Option<S>,
    /// `Content-Type`.
    pub content_type: Option<S>,
    /// `X-Fal-File-Name`.
    pub file_name: Option<S>,
    /// `Accept-Encoding`.
    pub accept_encoding: Option<S>,
}

/// The body of a request.
#[derive(Debug)]
pub enum Body<J> {
    /// No body.
    Empty,
    /// A JSON value.
    Json(J),
    /// The bytes of the whole file.
    File,
    /// The bytes of the file from `start` on, `len` of them.
    Part {
        /// Where the bytes start.
        start: u64,
        /// How many bytes there are.
        len: u64,
    },
}

/// A request to send. `S` is the type of texts and `J` the type of JSON
/// values.
#[derive(Debug)]
pub struct Request<S, J> {
    /// The method.
    pub method: Method,
    /// The address.
    pub url: S,
    /// The headers.
    pub headers: Headers<S>,
    /// The body.
    pub body: Body<J>,
}

impl View for Headers<String> {
    type V = Headers<Seq<char>>;

    open spec fn view(&self) -> Headers<Seq<char>> {
        Headers {
            authorization: view_of(self.authorization),
            accept: view_of(self.accept),
            content_type: view_of(self.content_type),
            file_name: view_of(self.file_name),
            accept_encoding: view_of(self.accept_encoding),
        }
    }
}

impl View for Body<Value> {
    type V = Body<Json>;

    open spec fn view(&self) -> Body<Json> {
        match *self {
            Body::Empty => Body::Empty,
            Body::Json(value) => Body::Json(json(value)),
            Body::File => Body::File,
            Body::Part { start, len } => Body::Part { start, len },
        }
    }
}

impl View for Request<String, Value> {
    type V = Request<Seq<char>, Json>;

    open spec fn view(&self) -> Request<Seq<char>, Json> {
        Request {
            method: self.method,
            url: self.url@,
            headers: self.headers@,
            body: self.body@,
        }
    }
}

/// The status code of a reply, a number from 100 to 999.
#[derive(Clone, Copy, Debug)]
pub struct Status {
    code: u16,
}

impl View for Status {
    type V = u16;

    closed spec fn view(&self) -> u16 {
        self.code
    }
}

/// Whether a status code stands for success.
pub open spec fn success(code: u16) -> bool {
    200 <= code < 300
}

/// The status code and its reason phrase, as a status line has them.
pub uninterp spec fn status_text(code: u16) -> Seq<char>;

/// Calls `reqwest::StatusCode::from_u16` and the `Display` of the status code:
/// the code in decimal, a space, and a phrase that depends on the code alone.
#[verifier::external_body]
fn status_line(code: u16) -> (r: String)
    requires
        100 <= code <= 999,
    ensures
        r@ == status_text(code),
        (decimal(code as nat) + " "@).is_prefix_of(r@),
{
    reqwest::StatusCode::from_u16(code).unwrap().to_string()
}

impl Status {
    #[verifier::type_invariant]
    spec fn three_digits(self) -> bool {
        100 <= self.code <= 999
    }

    /// The status with this code.
    pub fn from_u16(code: u16) -> (r: Option<Status>)
        ensures
            r is Some <==> 100 <= code <= 999,
            r matches Some(status) ==> status@ == code,
    {
        if 100 <= code && code <= 999 {
            Some(Status { code })
        } else {
            None
        }
    }

    /// Whether the status stands for success.
    pub fn is_success(&self) -> (r: bool)
        ensures
            r == success(self@),
    {
        200 <= self.code && self.code < 300
    }

    /// The status code and its reason phrase.
    pub fn line(&self) -> (r: String)
        ensures
            r@ == status_text(self@),
            (decimal(self@ as nat) + " "@).is_prefix_of(r@),
    {
        proof {
            use_type_invariant(self);
        }
        status_line(self.code)
    }
}

/// The contents of a reply that is read as JSON: what its text stands for, or
/// an object that holds the text as `raw` where the text is no JSON.
pub open spec fn reply_contents(text: Seq<char>, read: Option<Json>) -> Json {
    match read {
        Some(contents) => contents,
        None => Json::Object(Map::empty().insert("raw"@, Json::Text(text))),
    }
}

/// What a reply comes to: its contents, or a complaint that quotes them where
/// the status is no success.
pub open spec fn reply_outcome(code: u16, contents: Json) -> Result<Json, Seq<char>> {
    if success(code) {
        Ok(contents)
    } else {
        Err("http "@ + status_text(code) + ": "@ + rendered(contents))
    }
}

/// What a reply comes to, by its status and its text.
pub open spec fn decoded(code: u16, text: Seq<char>) -> Result<Json, Seq<char>> {
    reply_outcome(code, reply_contents(text, parsed(text)))
}

/// The contents of an outcome.
pub open spec fn json_outcome(r: Result<Value, String>) -> Result<Json, Seq<char>> {
    match r {
        Ok(value) => Ok(json(value)),
        Err(message) => Err(message@),
    }
}

/// The contents of an optional JSON value.
pub open spec fn json_of(value: Option<Value>) -> Option<Json> {
    match value {
        Some(v) => Some(json(v)),
        None => None,
    }
}

/// What a reply comes to whose text has been read as JSON, with `read` the
/// value that the text stands for, if any.
pub fn decode_read(status: Status, text: &str, read: Option<Value>) -> (r: Result<Value, String>)
    ensures
        json_outcome(r) == reply_outcome(status@, reply_contents(text@, json_of(read))),
{
    let value: Value = match read {
        Some(value) => value,
        None => {
            let mut object = new_object();
            put(&mut object, "raw", new_text(text.to_owned()));
            object
        },
    };
    if status.is_success() {
        Ok(value)
    } else {
        Err("http ".to_owned().concat(&status.line()).concat(": ").concat(&render(&value)))
    }
}

/// What a reply comes to.
pub fn decode(status: Status, text: &str) -> (r: Result<Value, String>)
    ensures
        json_outcome(r) == decoded(status@, text@),
{
    decode_read(status, text, parse(text))
}

/// The string member `name` of a reply, or a complaint: the reply's own, or
/// `missing` where the reply has no such member.
pub open spec fn member_outcome(
    reply: Result<Json, Seq<char>>,
    name: Seq<char>,
    missing: Seq<char>,
) -> Result<Seq<char>, Seq<char>> {
    match reply {
        Ok(contents) => match contents.text_member(name) {
            Some(text) => Ok(text),
            None => Err(missing),
        },
        Err(message) => Err(message),
    }
}

/// The string member `name` of a reply.
pub fn reply_member(reply: &Result<Value, String>, name: &str, missing: &str) -> (r: Result<
    String,
    String,
>)
    ensures
        outcome(r) == member_outcome(json_outcome(*reply), name@, missing@),
{
    match reply {
        Ok(value) => match text_member(value, name) {
            Some(text) => Ok(text.to_owned()),
            None => Err(missing.to_owned()),
        },
        Err(message) => Err(message.clone()),
    }
}

/// Replies with a status from 200 to 299 are successes. A success comes to what
/// its text stands for, or, where the text is no JSON, to an object whose one
/// member `raw` is the text. Every other reply is a failure that tells the
/// status and quotes what a success would have come to.
pub proof fn law_replies(code: u16, text: Seq<char>, read: Option<Json>)
    ensures
        ({
            let contents = reply_contents(text, read);
            &&& read matches Some(value) ==> contents == value
            &&& read is None ==> contents.member("raw"@) == Some(Json::Text(text)) && forall|
                name: Seq<char>,
            |
                (#[trigger] contents.member(name)) is Some ==> name == "raw"@
            &&& 200 <= code <= 299 ==> reply_outcome(code, contents) == Ok::<Json, Seq<char>>(
                contents,
            )
            &&& code < 200 || code > 299 ==> reply_outcome(code, contents) == Err::<
                Json,
                Seq<char>,
            >("http "@ + status_text(code) + ": "@ + rendered(contents))
            &&& parsed(text) == read ==> decoded(code, text) == reply_outcome(code, contents)
            &&& success(code) <==> 200 <= code <= 299
        }),
{
}

/// What is read from a reply is its string member of that name. A reply without
/// one leads to the complaint that is handed in, and a failure to its own.
pub proof fn law_reply_members(
    contents: Json,
    message: Seq<char>,
    name: Seq<char>,
    missing: Seq<char>,
    text: Seq<char>,
)
    ensures
        contents.member(name) == Some(Json::Text(text)) ==> member_outcome(
            Ok(contents),
            name,
            missing,
        ) == Ok::<Seq<char>, Seq<char>>(text),
        !(contents.member(name) matches Some(Json::Text(_))) ==> member_outcome(
            Ok(contents),
            name,
            missing,
        ) == Err::<Seq<char>, Seq<char>>(missing),
        member_outcome(Err(message), name, missing) == Err::<Seq<char>, Seq<char>>(message),
{
}

/// Requests and outcomes are seen field by field, none changed or left out.
pub proof fn law_requests_are_seen_as_they_are(
    request: Request<String, Value>,
    value: Value,
    message: String,
)
    ensures
        request@.method == request.method,
        request@.url == request.url@,
        request@.headers.authorization == view_of(request.headers.authorization),
        request@.headers.accept == view_of(request.headers.accept),
        request@.headers.content_type == view_of(request.headers.content_type),
        request@.headers.file_name == view_of(request.headers.file_name),
        request@.headers.accept_encoding == view_of(request.headers.accept_encoding),
        match request.body {
            Body::Empty => request@.body is Empty,
            Body::Json(value) => request@.body == Body::Json(json(value)),
            Body::File => request@.body is File,
            Body::Part { start, len } => request@.body matches Body::Part { start: at, len: count }
                && at == start && count == len,
        },
        json_outcome(Ok(value)) == Ok::<Json, Seq<char>>(json(value)),
        json_outcome(Err(message)) == Err::<Json, Seq<char>>(message@),
        json_of(Some(value)) == Some(json(value)),
        json_of(None) is None,
{
}

} // verus!
