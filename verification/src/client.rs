//! The service: where its parts live, and the requests that it understands.

use crate::http::{Body, Headers, Method, Request};
use crate::json::{contents, json, new_int, new_list, new_object, new_text, put, Json};
use crate::parts::{part_count_of, part_end_of, part_range, part_start_of};
use crate::text::{
    decimal, law_decimal_reads_back, law_trimmed_end_ignores_more, numeral, slash, trim, trim_end, trimmed, trimmed_end, views, Cut,
};
use serde_json::Value;
use vstd::prelude::*;

verus! {

/// Where the queue lives where nothing else is set.
pub const DEFAULT_QUEUE_URL: &'static str = "https://queue.fal.run";

/// Where the REST service lives where nothing else is set.
pub const DEFAULT_REST_URL: &'static str = "https://rest.fal.ai";

/// Where files go where nothing else is set.
pub const DEFAULT_CDN_URL: &'static str = "https://v3.fal.media";

/// Where files go in the second place where nothing else is set.
pub const DEFAULT_CDN_FALLBACK_URL: &'static str = "https://fal.media";

/// The queue's endpoint for videos.
pub const ENDPOINT: &'static str = "openrouter/router/video";

/// The key and the addresses of the service. `S` is the type of texts.
pub struct FalClient<S> {
    /// The key of the user.
    pub fal_key: S,
    /// The address of the queue.
    pub queue_url: S,
    /// The address of the REST service.
    pub rest_url: S,
    /// The address that files go to.
    pub cdn_url: S,
    /// The address that files go to in the second place.
    pub cdn_fallback_url: S,
}

impl View for FalClient<String> {
    type V = FalClient<Seq<char>>;

    open spec fn view(&self) -> FalClient<Seq<char>> {
        FalClient {
            fal_key: self.fal_key@,
            queue_url: self.queue_url@,
            rest_url: self.rest_url@,
            cdn_url: self.cdn_url@,
            cdn_fallback_url: self.cdn_fallback_url@,
        }
    }
}

/// A permission to upload.
#[derive(Debug)]
pub struct CdnToken<S> {
    /// The token.
    pub token: S,
    /// The scheme under which the token is presented.
    pub token_type: S,
    /// The address for uploads in parts.
    pub base_url: S,
}

impl View for CdnToken<String> {
    type V = CdnToken<Seq<char>>;

    open spec fn view(&self) -> CdnToken<Seq<char>> {
        CdnToken {
            token: self.token@,
            token_type: self.token_type@,
            base_url: self.base_url@,
        }
    }
}

impl CdnToken<Seq<char>> {
    /// How the token is presented.
    pub open spec fn authorization(self) -> Seq<char> {
        self.token_type + " "@ + self.token
    }
}

impl CdnToken<String> {
    /// How the token is presented.
    pub fn authorization_header(&self) -> (r: String)
        ensures
            r@ == self@.authorization(),
    {
        self.token_type.clone().concat(" ").concat(&self.token)
    }
}

/// An upload in parts that the service has agreed to.
#[derive(Debug)]
pub struct Multipart<S> {
    /// How the permission to upload is presented.
    pub authorization: S,
    /// The address that the file will have.
    pub access_url: S,
    /// The service's name for the upload.
    pub upload_id: S,
}

impl View for Multipart<String> {
    type V = Multipart<Seq<char>>;

    open spec fn view(&self) -> Multipart<Seq<char>> {
        Multipart {
            authorization: self.authorization@,
            access_url: self.access_url@,
            upload_id: self.upload_id@,
        }
    }
}

/// The name and the media type under which a file is uploaded.
#[derive(Debug)]
pub struct FileLabel<S> {
    /// The file name.
    pub name: S,
    /// The media type.
    pub content_type: S,
}

impl View for FileLabel<String> {
    type V = FileLabel<Seq<char>>;

    open spec fn view(&self) -> FileLabel<Seq<char>> {
        FileLabel { name: self.name@, content_type: self.content_type@ }
    }
}

/// A local file, and how it is labelled for an upload.
#[derive(Debug)]
pub struct LocalFile<S> {
    /// The path of the file.
    pub path: S,
    /// The name and the media type.
    pub label: FileLabel<S>,
}

impl View for LocalFile<String> {
    type V = LocalFile<Seq<char>>;

    open spec fn view(&self) -> LocalFile<Seq<char>> {
        LocalFile { path: self.path@, label: self.label@ }
    }
}

/// No headers.
pub open spec fn no_headers() -> Headers<Seq<char>> {
    Headers {
        authorization: None,
        accept: None,
        content_type: None,
        file_name: None,
        accept_encoding: None,
    }
}

/// No headers.
fn bare() -> (r: Headers<String>)
    ensures
        r@ == no_headers(),
{
    Headers {
        authorization: None,
        accept: None,
        content_type: None,
        file_name: None,
        accept_encoding: None,
    }
}

/// `base` without the slashes at its end, and `path` after it.
pub open spec fn under(base: Seq<char>, path: Seq<char>) -> Seq<char> {
    trimmed_end(base, slash()) + path
}

/// `base` without the slashes at its end, and `path` after it.
fn join(base: &str, path: &str) -> (r: String)
    ensures
        r@ == under(base@, path@),
{
    trim_end(base, Cut::Slash).to_owned().concat(path)
}

/// The JSON description of the parts of an upload, by the tags that the
/// service gave them: the numbers go up from 1.
pub open spec fn parts_list(etags: Seq<Seq<char>>) -> Seq<Json> {
    Seq::new(
        etags.len(),
        |i: int|
            Json::Object(
                Map::empty().insert("partNumber"@, Json::Int(i + 1)).insert(
                    "etag"@,
                    Json::Text(etags[i]),
                ),
            ),
    )
}

impl FalClient<Seq<char>> {
    /// How the key is presented.
    pub open spec fn key_authorization(self) -> Seq<char> {
        "Key "@ + self.fal_key
    }

    /// How the key is presented to the second place for files.
    pub open spec fn bearer_authorization(self) -> Seq<char> {
        "Bearer "@ + self.fal_key
    }

    /// Asks for a permission to upload.
    pub open spec fn token_request(self) -> Request<Seq<char>, Json> {
        Request {
            method: Method::Post,
            url: under(self.rest_url, "/storage/auth/token?storage_type=fal-cdn-v3"@),
            headers: Headers {
                authorization: Some(self.key_authorization()),
                accept: Some("application/json"@),
                content_type: Some("application/json"@),
                ..no_headers()
            },
            body: Body::Json(Json::Object(Map::empty())),
        }
    }

    /// Uploads the whole file to the first place for files.
    pub open spec fn v3_request(
        self,
        token: CdnToken<Seq<char>>,
        file: FileLabel<Seq<char>>,
    ) -> Request<Seq<char>, Json> {
        Request {
            method: Method::Post,
            url: under(self.cdn_url, "/files/upload"@),
            headers: Headers {
                authorization: Some(token.authorization()),
                content_type: Some(file.content_type),
                file_name: Some(file.name),
                ..no_headers()
            },
            body: Body::File,
        }
    }

    /// Uploads the whole file to the second place for files.
    pub open spec fn cdn_request(self, file: FileLabel<Seq<char>>) -> Request<Seq<char>, Json> {
        Request {
            method: Method::Post,
            url: under(self.cdn_fallback_url, "/files/upload"@),
            headers: Headers {
                authorization: Some(self.bearer_authorization()),
                content_type: Some(file.content_type),
                file_name: Some(file.name),
                ..no_headers()
            },
            body: Body::File,
        }
    }

    /// Asks the storage for an address to upload to.
    pub open spec fn storage_request(self, file: FileLabel<Seq<char>>) -> Request<Seq<char>, Json> {
        Request {
            method: Method::Post,
            url: under(self.rest_url, "/storage/upload/initiate?storage_type=gcs"@),
            headers: Headers {
                authorization: Some(self.key_authorization()),
                accept: Some("application/json"@),
                content_type: Some("application/json"@),
                ..no_headers()
            },
            body: Body::Json(
                Json::Object(
                    Map::empty().insert("file_name"@, Json::Text(file.name)).insert(
                        "content_type"@,
                        Json::Text(file.content_type),
                    ),
                ),
            ),
        }
    }

    /// The address of an endpoint in the queue.
    pub open spec fn endpoint_url(self, endpoint: Seq<char>) -> Seq<char> {
        under(self.queue_url, "/"@ + trimmed(endpoint, slash()))
    }

    /// Puts a request into the queue.
    pub open spec fn submit_request(self, endpoint: Seq<char>, body: Json) -> Request<
        Seq<char>,
        Json,
    > {
        Request {
            method: Method::Post,
            url: self.endpoint_url(endpoint),
            headers: Headers { authorization: Some(self.key_authorization()), ..no_headers() },
            body: Body::Json(body),
        }
    }

    /// Asks how far a request of the queue is.
    pub open spec fn status_request(self, endpoint: Seq<char>, request_id: Seq<char>) -> Request<
        Seq<char>,
        Json,
    > {
        Request {
            method: Method::Get,
            url: self.endpoint_url(endpoint) + "/requests/"@ + request_id + "/status"@,
            headers: Headers { authorization: Some(self.key_authorization()), ..no_headers() },
            body: Body::Empty,
        }
    }

    /// Asks for the result of a request of the queue.
    pub open spec fn result_request(self, endpoint: Seq<char>, request_id: Seq<char>) -> Request<
        Seq<char>,
        Json,
    > {
        Request {
            method: Method::Get,
            url: self.endpoint_url(endpoint) + "/requests/"@ + request_id,
            headers: Headers { authorization: Some(self.key_authorization()), ..no_headers() },
            body: Body::Empty,
        }
    }
}

/// Asks for an upload in parts.
pub open spec fn multipart_request(
    token: CdnToken<Seq<char>>,
    file: FileLabel<Seq<char>>,
) -> Request<Seq<char>, Json> {
    Request {
        method: Method::Post,
        url: under(token.base_url, "/files/upload/multipart"@),
        headers: Headers {
            authorization: Some(token.authorization()),
            accept: Some("application/json"@),
            content_type: Some(file.content_type),
            file_name: Some(file.name),
            ..no_headers()
        },
        body: Body::Empty,
    }
}

impl Multipart<Seq<char>> {
    /// The address of the upload, as far as its parts share it.
    pub open spec fn upload_url(self) -> Seq<char> {
        under(self.access_url, "/multipart/"@ + self.upload_id + "/"@)
    }

    /// Uploads one part of a file of `size` bytes.
    pub open spec fn part_request(
        self,
        file: FileLabel<Seq<char>>,
        size: u64,
        part: int,
    ) -> Request<Seq<char>, Json> {
        Request {
            method: Method::Put,
            url: self.upload_url() + decimal(part as nat),
            headers: Headers {
                authorization: Some(self.authorization),
                content_type: Some(file.content_type),
                accept_encoding: Some("identity"@),
                ..no_headers()
            },
            body: Body::Part {
                start: part_start_of(part) as u64,
                len: (part_end_of(size, part) - part_start_of(part)) as u64,
            },
        }
    }

    /// Ends an upload in parts.
    pub open spec fn complete_request(self, etags: Seq<Seq<char>>) -> Request<Seq<char>, Json> {
        Request {
            method: Method::Post,
            url: self.upload_url() + "complete"@,
            headers: Headers { authorization: Some(self.authorization), ..no_headers() },
            body: Body::Json(
                Json::Object(Map::empty().insert("parts"@, Json::List(parts_list(etags)))),
            ),
        }
    }
}

/// Uploads the whole file to an address that the storage gave. The address is
/// its own permission, so the request carries no other.
pub open spec fn storage_put(upload_url: Seq<char>, file: FileLabel<Seq<char>>) -> Request<
    Seq<char>,
    Json,
> {
    Request {
        method: Method::Put,
        url: upload_url,
        headers: Headers { content_type: Some(file.content_type), ..no_headers() },
        body: Body::File,
    }
}

impl FalClient<String> {
    /// The service at these addresses, each at its default where it is `None`.
    pub fn new(
        fal_key: String,
        queue_url: Option<String>,
        rest_url: Option<String>,
        cdn_url: Option<String>,
        cdn_fallback_url: Option<String>,
    ) -> (r: FalClient<String>)
        ensures
            r@ == (FalClient {
                fal_key: fal_key@,
                queue_url: text_or(queue_url, DEFAULT_QUEUE_URL@),
                rest_url: text_or(rest_url, DEFAULT_REST_URL@),
                cdn_url: text_or(cdn_url, DEFAULT_CDN_URL@),
                cdn_fallback_url: text_or(cdn_fallback_url, DEFAULT_CDN_FALLBACK_URL@),
            }),
    {
        FalClient {
            fal_key,
            queue_url: or_default(queue_url, DEFAULT_QUEUE_URL),
            rest_url: or_default(rest_url, DEFAULT_REST_URL),
            cdn_url: or_default(cdn_url, DEFAULT_CDN_URL),
            cdn_fallback_url: or_default(cdn_fallback_url, DEFAULT_CDN_FALLBACK_URL),
        }
    }

    /// The service at these addresses.
    pub fn with_key_and_urls(
        fal_key: String,
        queue_url: String,
        rest_url: String,
        cdn_url: String,
        cdn_fallback_url: String,
    ) -> (r: FalClient<String>)
        ensures
            r@ == (FalClient {
                fal_key: fal_key@,
                queue_url: queue_url@,
                rest_url: rest_url@,
                cdn_url: cdn_url@,
                cdn_fallback_url: cdn_fallback_url@,
            }),
    {
        FalClient { fal_key, queue_url, rest_url, cdn_url, cdn_fallback_url }
    }

    /// How the key is presented.
    pub fn auth_header(&self) -> (r: String)
        ensures
            r@ == self@.key_authorization(),
    {
        "Key ".to_owned().concat(&self.fal_key)
    }

    /// How the key is presented to the second place for files.
    pub fn bearer_header(&self) -> (r: String)
        ensures
            r@ == self@.bearer_authorization(),
    {
        "Bearer ".to_owned().concat(&self.fal_key)
    }

    /// Asks for a permission to upload.
    pub fn cdn_token(&self) -> (r: Request<String, Value>)
        ensures
            r@ == self@.token_request(),
    {
        Request {
            method: Method::Post,
            url: join(&self.rest_url, "/storage/auth/token?storage_type=fal-cdn-v3"),
            headers: Headers {
                authorization: Some(self.auth_header()),
                accept: Some("application/json".to_owned()),
                content_type: Some("application/json".to_owned()),
                ..bare()
            },
            body: Body::Json(new_object()),
        }
    }

    /// Uploads the whole file to the first place for files.
    pub fn upload_v3(&self, token: &CdnToken<String>, file: &FileLabel<String>) -> (r: Request<
        String,
        Value,
    >)
        ensures
            r@ == self@.v3_request(token@, file@),
    {
        Request {
            method: Method::Post,
            url: join(&self.cdn_url, "/files/upload"),
            headers: Headers {
                authorization: Some(token.authorization_header()),
                content_type: Some(file.content_type.clone()),
                file_name: Some(file.name.clone()),
                ..bare()
            },
            body: Body::File,
        }
    }

    /// Uploads the whole file to the second place for files.
    pub fn upload_cdn(&self, file: &FileLabel<String>) -> (r: Request<String, Value>)
        ensures
            r@ == self@.cdn_request(file@),
    {
        Request {
            method: Method::Post,
            url: join(&self.cdn_fallback_url, "/files/upload"),
            headers: Headers {
                authorization: Some(self.bearer_header()),
                content_type: Some(file.content_type.clone()),
                file_name: Some(file.name.clone()),
                ..bare()
            },
            body: Body::File,
        }
    }

    /// Asks the storage for an address to upload to.
    pub fn upload_storage(&self, file: &FileLabel<String>) -> (r: Request<String, Value>)
        ensures
            r@ == self@.storage_request(file@),
    {
        let mut body = new_object();
        put(&mut body, "file_name", new_text(file.name.clone()));
        put(&mut body, "content_type", new_text(file.content_type.clone()));
        Request {
            method: Method::Post,
            url: join(&self.rest_url, "/storage/upload/initiate?storage_type=gcs"),
            headers: Headers {
                authorization: Some(self.auth_header()),
                accept: Some("application/json".to_owned()),
                content_type: Some("application/json".to_owned()),
                ..bare()
            },
            body: Body::Json(body),
        }
    }

    /// The address of an endpoint in the queue.
    fn queue_endpoint(&self, endpoint: &str) -> (r: String)
        ensures
            r@ == self@.endpoint_url(endpoint@),
    {
        join(&self.queue_url, &"/".to_owned().concat(trim(endpoint, Cut::Slash)))
    }

    /// Puts a request into the queue.
    pub fn submit(&self, endpoint: &str, body: Value) -> (r: Request<String, Value>)
        ensures
            r@ == self@.submit_request(endpoint@, json(body)),
    {
        Request {
            method: Method::Post,
            url: self.queue_endpoint(endpoint),
            headers: Headers { authorization: Some(self.auth_header()), ..bare() },
            body: Body::Json(body),
        }
    }

    /// Asks how far a request of the queue is.
    pub fn get_status(&self, endpoint: &str, request_id: &str) -> (r: Request<String, Value>)
        ensures
            r@ == self@.status_request(endpoint@, request_id@),
    {
        Request {
            method: Method::Get,
            url: self.queue_endpoint(endpoint).concat("/requests/").concat(request_id).concat(
                "/status",
            ),
            headers: Headers { authorization: Some(self.auth_header()), ..bare() },
            body: Body::Empty,
        }
    }

    /// Asks for the result of a request of the queue.
    pub fn get_result(&self, endpoint: &str, request_id: &str) -> (r: Request<String, Value>)
        ensures
            r@ == self@.result_request(endpoint@, request_id@),
    {
        Request {
            method: Method::Get,
            url: self.queue_endpoint(endpoint).concat("/requests/").concat(request_id),
            headers: Headers { authorization: Some(self.auth_header()), ..bare() },
            body: Body::Empty,
        }
    }
}

/// Asks for an upload in parts.
pub fn create_multipart(token: &CdnToken<String>, file: &FileLabel<String>) -> (r: Request<
    String,
    Value,
>)
    ensures
        r@ == multipart_request(token@, file@),
{
    Request {
        method: Method::Post,
        url: join(&token.base_url, "/files/upload/multipart"),
        headers: Headers {
            authorization: Some(token.authorization_header()),
            accept: Some("application/json".to_owned()),
            content_type: Some(file.content_type.clone()),
            file_name: Some(file.name.clone()),
            ..bare()
        },
        body: Body::Empty,
    }
}

impl Multipart<String> {
    /// The address of the upload, as far as its parts share it.
    fn address(&self) -> (r: String)
        ensures
            r@ == self@.upload_url(),
    {
        join(&self.access_url, &"/multipart/".to_owned().concat(&self.upload_id).concat("/"))
    }

    /// Uploads one part of a file of `size` bytes.
    pub fn upload_part(&self, file: &FileLabel<String>, size: u64, part: u64) -> (r: Request<
        String,
        Value,
    >)
        requires
            1 <= part <= part_count_of(size),
        ensures
            r@ == self@.part_request(file@, size, part as int),
    {
        let (start, len) = part_range(size, part);
        Request {
            method: Method::Put,
            url: self.address().concat(&numeral(part)),
            headers: Headers {
                authorization: Some(self.authorization.clone()),
                content_type: Some(file.content_type.clone()),
                accept_encoding: Some("identity".to_owned()),
                ..bare()
            },
            body: Body::Part { start, len },
        }
    }

    /// Ends an upload in parts.
    pub fn complete(&self, etags: &Vec<String>) -> (r: Request<String, Value>)
        ensures
            r@ == self@.complete_request(views(etags@)),
    {
        let mut list: Vec<Value> = Vec::new();
        let mut i: usize = 0;
        while i < etags.len()
            invariant
                i <= etags.len(),
                contents(list@) =~= parts_list(views(etags@)).take(i as int),
            decreases etags.len() - i,
        {
            let mut entry = new_object();
            put(&mut entry, "partNumber", new_int(i as u64 + 1));
            put(&mut entry, "etag", new_text(etags[i].clone()));
            let ghost known = contents(list@);
            assert(json(entry) == parts_list(views(etags@))[i as int]);
            list.push(entry);
            assert(contents(list@) =~= known.push(json(entry)));
            i = i + 1;
        }
        assert(contents(list@) =~= parts_list(views(etags@)));
        let mut body = new_object();
        put(&mut body, "parts", new_list(list));
        Request {
            method: Method::Post,
            url: self.address().concat("complete"),
            headers: Headers { authorization: Some(self.authorization.clone()), ..bare() },
            body: Body::Json(body),
        }
    }
}

/// Uploads the whole file to an address that the storage gave.
pub fn put_storage(upload_url: &str, file: &FileLabel<String>) -> (r: Request<String, Value>)
    ensures
        r@ == storage_put(upload_url@, file@),
{
    Request {
        method: Method::Put,
        url: upload_url.to_owned(),
        headers: Headers { content_type: Some(file.content_type.clone()), ..bare() },
        body: Body::File,
    }
}

/// A text, or another one where it is missing.
pub open spec fn text_or(text: Option<String>, default: Seq<char>) -> Seq<char> {
    match text {
        Some(given) => given@,
        None => default,
    }
}

/// A text, or another one where it is missing.
fn or_default(text: Option<String>, default: &str) -> (r: String)
    ensures
        r@ == text_or(text, default@),
{
    match text {
        Some(given) => given,
        None => default.to_owned(),
    }
}

/// Different parts of an upload have different addresses.
pub proof fn law_parts_have_their_own_addresses(
    upload: Multipart<Seq<char>>,
    file: FileLabel<Seq<char>>,
    size: u64,
    part: int,
    other: int,
)
    requires
        1 <= part,
        1 <= other,
        upload.part_request(file, size, part).url == upload.part_request(file, size, other).url,
    ensures
        part == other,
{
    let base = upload.upload_url();
    let a = decimal(part as nat);
    let b = decimal(other as nat);
    assert((base + a).skip(base.len() as int) =~= a);
    assert((base + b).skip(base.len() as int) =~= b);
    law_decimal_reads_back(part as nat);
    law_decimal_reads_back(other as nat);
}

/// Slashes at the end of the service's addresses make no difference to any
/// request.
pub proof fn law_trailing_slashes_do_not_matter(
    client: FalClient<Seq<char>>,
    slashes: Seq<char>,
    token: CdnToken<Seq<char>>,
    file: FileLabel<Seq<char>>,
    endpoint: Seq<char>,
    request_id: Seq<char>,
    body: Json,
)
    requires
        forall|i: int| 0 <= i < slashes.len() ==> #[trigger] slashes[i] == '/',
    ensures
        ({
            let other = FalClient {
                fal_key: client.fal_key,
                queue_url: client.queue_url + slashes,
                rest_url: client.rest_url + slashes,
                cdn_url: client.cdn_url + slashes,
                cdn_fallback_url: client.cdn_fallback_url + slashes,
            };
            &&& other.token_request() == client.token_request()
            &&& other.v3_request(token, file) == client.v3_request(token, file)
            &&& other.cdn_request(file) == client.cdn_request(file)
            &&& other.storage_request(file) == client.storage_request(file)
            &&& other.submit_request(endpoint, body) == client.submit_request(endpoint, body)
            &&& other.status_request(endpoint, request_id) == client.status_request(
                endpoint,
                request_id,
            )
            &&& other.result_request(endpoint, request_id) == client.result_request(
                endpoint,
                request_id,
            )
        }),
{
    assert forall|i: int| 0 <= i < slashes.len() implies slash().contains(#[trigger] slashes[i]) by {
        assert(slashes[i] == '/');
    }
    law_trimmed_end_ignores_more(client.queue_url, slashes, slash());
    law_trimmed_end_ignores_more(client.rest_url, slashes, slash());
    law_trimmed_end_ignores_more(client.cdn_url, slashes, slash());
    law_trimmed_end_ignores_more(client.cdn_fallback_url, slashes, slash());
}

/// The description of the parts of an upload gives each part its number, from
/// 1 on, and its tag.
pub proof fn law_parts_list_members(etags: Seq<Seq<char>>, i: int)
    requires
        0 <= i < etags.len(),
    ensures
        parts_list(etags).len() == etags.len(),
        parts_list(etags)[i].member("partNumber"@) == Some(Json::Int(i + 1)),
        parts_list(etags)[i].text_member("etag"@) == Some(etags[i]),
{
    reveal_strlit("partNumber");
    reveal_strlit("etag");
    assert("partNumber"@.len() != "etag"@.len());
}

/// The request that ends an upload in parts tells of every part that was sent
/// and of no other: the tags that were handed in, all of them, in their order,
/// each with the number of its part, counted from 1.
pub proof fn law_complete_tells_every_part(upload: Multipart<Seq<char>>, etags: Seq<Seq<char>>)
    ensures
        upload.complete_request(etags).body matches Body::Json(body) && {
            &&& forall|name: Seq<char>| (#[trigger] body.member(name)) is Some <==> name == "parts"@
            &&& body.member("parts"@) matches Some(Json::List(list)) && {
                &&& list.len() == etags.len()
                &&& forall|i: int|
                    0 <= i < etags.len() ==> {
                        &&& (#[trigger] list[i]).member("partNumber"@) == Some(Json::Int(i + 1))
                        &&& list[i].member("etag"@) == Some(Json::Text(etags[i]))
                        &&& forall|name: Seq<char>|
                            (#[trigger] list[i].member(name)) is Some <==> name == "partNumber"@
                                || name == "etag"@
                    }
            }
        },
{
    reveal_strlit("partNumber");
    reveal_strlit("etag");
    assert("partNumber"@.len() != "etag"@.len());
}

/// Whatever carries bytes of the file says of which media type they are, and so
/// does whatever asks for a place for them. The places that name the file
/// themselves are told its name. The bytes are those of the whole file, or of
/// the part that is due: 10 MiB from where it starts, or what is left.
pub proof fn law_bytes_are_labelled(
    client: FalClient<Seq<char>>,
    token: CdnToken<Seq<char>>,
    file: FileLabel<Seq<char>>,
    upload: Multipart<Seq<char>>,
    size: u64,
    part: int,
    upload_url: Seq<char>,
)
    requires
        1 <= part <= part_count_of(size),
    ensures
        client.v3_request(token, file).headers.content_type == Some(file.content_type),
        client.v3_request(token, file).headers.file_name == Some(file.name),
        client.v3_request(token, file).body is File,
        client.cdn_request(file).headers.content_type == Some(file.content_type),
        client.cdn_request(file).headers.file_name == Some(file.name),
        client.cdn_request(file).body is File,
        storage_put(upload_url, file).headers.content_type == Some(file.content_type),
        storage_put(upload_url, file).headers.file_name is None,
        storage_put(upload_url, file).body is File,
        multipart_request(token, file).headers.content_type == Some(file.content_type),
        multipart_request(token, file).headers.file_name == Some(file.name),
        multipart_request(token, file).body is Empty,
        upload.part_request(file, size, part).headers.content_type == Some(file.content_type),
        upload.part_request(file, size, part).headers.file_name is None,
        upload.part_request(file, size, part).body matches Body::Part { start, len } && {
            let whole: nat = 10 * 1024 * 1024;
            &&& start == (part - 1) * whole
            &&& len <= whole
            &&& start + len <= size
            &&& len == whole || start + len == size
        },
        client.storage_request(file).body matches Body::Json(body) && {
            &&& body.member("file_name"@) == Some(Json::Text(file.name))
            &&& body.member("content_type"@) == Some(Json::Text(file.content_type))
            &&& forall|name: Seq<char>|
                (#[trigger] body.member(name)) is Some <==> name == "file_name"@ || name
                    == "content_type"@
        },
{
    reveal_strlit("file_name");
    reveal_strlit("content_type");
    assert("file_name"@.len() != "content_type"@.len());
}

/// Who is shown which permission: the queue and the services that hand out
/// tokens and addresses see the key, the second place for files sees it as a
/// bearer's, the first place and uploads in parts see the token that they gave,
/// and the address that the storage gave sees none.
pub proof fn law_permissions(
    client: FalClient<Seq<char>>,
    token: CdnToken<Seq<char>>,
    file: FileLabel<Seq<char>>,
    upload: Multipart<Seq<char>>,
    size: u64,
    part: int,
    etags: Seq<Seq<char>>,
    upload_url: Seq<char>,
    endpoint: Seq<char>,
    request_id: Seq<char>,
    body: Json,
)
    ensures
        ({
            let key = Some("Key "@ + client.fal_key);
            let pass = Some(token.token_type + " "@ + token.token);
            &&& client.token_request().headers.authorization == key
            &&& client.storage_request(file).headers.authorization == key
            &&& client.submit_request(endpoint, body).headers.authorization == key
            &&& client.status_request(endpoint, request_id).headers.authorization == key
            &&& client.result_request(endpoint, request_id).headers.authorization == key
            &&& client.cdn_request(file).headers.authorization == Some("Bearer "@ + client.fal_key)
            &&& client.v3_request(token, file).headers.authorization == pass
            &&& multipart_request(token, file).headers.authorization == pass
            &&& upload.part_request(file, size, part).headers.authorization == Some(
                upload.authorization,
            )
            &&& upload.complete_request(etags).headers.authorization == Some(upload.authorization)
            &&& storage_put(upload_url, file).headers.authorization is None
            &&& client.key_authorization() == "Key "@ + client.fal_key
            &&& client.bearer_authorization() == "Bearer "@ + client.fal_key
            &&& token.authorization() == token.token_type + " "@ + token.token
        }),
{
}

/// Where each request goes: under the address of its service without the
/// slashes at its end, or to the very address that the storage gave.
pub proof fn law_addresses(
    client: FalClient<Seq<char>>,
    token: CdnToken<Seq<char>>,
    file: FileLabel<Seq<char>>,
    upload: Multipart<Seq<char>>,
    size: u64,
    part: nat,
    etags: Seq<Seq<char>>,
    upload_url: Seq<char>,
    endpoint: Seq<char>,
    request_id: Seq<char>,
    body: Json,
)
    ensures
        ({
            let rest = trimmed_end(client.rest_url, slash());
            let cdn = trimmed_end(client.cdn_url, slash());
            let fallback = trimmed_end(client.cdn_fallback_url, slash());
            let queue = trimmed_end(client.queue_url, slash()) + "/"@ + trimmed(endpoint, slash());
            let parts = trimmed_end(upload.access_url, slash()) + "/multipart/"@ + upload.upload_id
                + "/"@;
            &&& client.token_request().url == rest
                + "/storage/auth/token?storage_type=fal-cdn-v3"@
            &&& client.storage_request(file).url == rest
                + "/storage/upload/initiate?storage_type=gcs"@
            &&& client.v3_request(token, file).url == cdn + "/files/upload"@
            &&& client.cdn_request(file).url == fallback + "/files/upload"@
            &&& multipart_request(token, file).url == trimmed_end(token.base_url, slash())
                + "/files/upload/multipart"@
            &&& upload.part_request(file, size, part as int).url == parts + decimal(part)
            &&& upload.complete_request(etags).url == parts + "complete"@
            &&& storage_put(upload_url, file).url == upload_url
            &&& client.submit_request(endpoint, body).url == queue
            &&& client.status_request(endpoint, request_id).url == queue + "/requests/"@
                + request_id + "/status"@
            &&& client.result_request(endpoint, request_id).url == queue + "/requests/"@
                + request_id
        }),
{
    let queue = trimmed_end(client.queue_url, slash()) + "/"@ + trimmed(endpoint, slash());
    let parts = trimmed_end(upload.access_url, slash()) + "/multipart/"@ + upload.upload_id + "/"@;
    assert(client.endpoint_url(endpoint) =~= queue);
    assert(upload.upload_url() =~= parts);
}

/// The video endpoint of the queue, and the requests that go there, have
/// addresses that can be written down.
pub proof fn law_endpoint_addresses(
    client: FalClient<Seq<char>>,
    request_id: Seq<char>,
    body: Json,
)
    ensures
        ({
            let queue = trimmed_end(client.queue_url, slash()) + "/openrouter/router/video"@;
            &&& client.submit_request(ENDPOINT@, body).url == queue
            &&& client.status_request(ENDPOINT@, request_id).url == queue + "/requests/"@
                + request_id + "/status"@
            &&& client.result_request(ENDPOINT@, request_id).url == queue + "/requests/"@
                + request_id
        }),
{
    reveal_strlit("/openrouter/router/video");
    reveal_strlit("openrouter/router/video");
    reveal_strlit("/");
    let endpoint = "openrouter/router/video"@;
    assert(endpoint.len() > 0 && endpoint[0] == 'o' && endpoint.last() == 'o');
    assert(!slash().contains('o'));
    assert(trimmed(endpoint, slash()) == endpoint);
    assert("/"@ + endpoint =~= "/openrouter/router/video"@);
}

/// What is looked at is fetched with `GET`, what takes a known address for
/// bytes goes with `PUT`, and everything else goes with `POST`.
pub proof fn law_methods(
    client: FalClient<Seq<char>>,
    token: CdnToken<Seq<char>>,
    file: FileLabel<Seq<char>>,
    upload: Multipart<Seq<char>>,
    size: u64,
    part: int,
    etags: Seq<Seq<char>>,
    upload_url: Seq<char>,
    endpoint: Seq<char>,
    request_id: Seq<char>,
    body: Json,
)
    ensures
        client.status_request(endpoint, request_id).method == Method::Get,
        client.result_request(endpoint, request_id).method == Method::Get,
        upload.part_request(file, size, part).method == Method::Put,
        storage_put(upload_url, file).method == Method::Put,
        client.token_request().method == Method::Post,
        client.v3_request(token, file).method == Method::Post,
        client.cdn_request(file).method == Method::Post,
        client.storage_request(file).method == Method::Post,
        multipart_request(token, file).method == Method::Post,
        upload.complete_request(etags).method == Method::Post,
        client.submit_request(endpoint, body).method == Method::Post,
{
}

/// A request to the queue carries the JSON that it was made with, a look at the
/// queue carries nothing, and the request for a token carries an object without
/// members. None of them names a file.
pub proof fn law_json_is_sent_as_it_is(
    client: FalClient<Seq<char>>,
    upload: Multipart<Seq<char>>,
    file: FileLabel<Seq<char>>,
    etags: Seq<Seq<char>>,
    endpoint: Seq<char>,
    request_id: Seq<char>,
    body: Json,
)
    ensures
        client.submit_request(endpoint, body).body == Body::Json(body),
        client.status_request(endpoint, request_id).body is Empty,
        client.result_request(endpoint, request_id).body is Empty,
        client.token_request().body == Body::Json(Json::Object(Map::<Seq<char>, Json>::empty())),
        client.submit_request(endpoint, body).headers.content_type is None,
        client.status_request(endpoint, request_id).headers.content_type is None,
        client.result_request(endpoint, request_id).headers.content_type is None,
        upload.complete_request(etags).headers.content_type is None,
        client.token_request().headers.content_type == Some("application/json"@),
        client.storage_request(file).headers.content_type == Some("application/json"@),
        client.submit_request(endpoint, body).headers.file_name is None,
        client.status_request(endpoint, request_id).headers.file_name is None,
        client.result_request(endpoint, request_id).headers.file_name is None,
        upload.complete_request(etags).headers.file_name is None,
        client.token_request().headers.file_name is None,
        client.storage_request(file).headers.file_name is None,
{
}

/// Replies are asked for as JSON where a token, an address or an upload in
/// parts is handed out, and as they are where a part is sent. No other request
/// says how it wants its reply.
pub proof fn law_replies_asked_for(
    client: FalClient<Seq<char>>,
    token: CdnToken<Seq<char>>,
    file: FileLabel<Seq<char>>,
    upload: Multipart<Seq<char>>,
    size: u64,
    part: int,
    etags: Seq<Seq<char>>,
    upload_url: Seq<char>,
    endpoint: Seq<char>,
    request_id: Seq<char>,
    body: Json,
)
    ensures
        client.token_request().headers.accept == Some("application/json"@),
        client.storage_request(file).headers.accept == Some("application/json"@),
        multipart_request(token, file).headers.accept == Some("application/json"@),
        client.v3_request(token, file).headers.accept is None,
        client.cdn_request(file).headers.accept is None,
        upload.part_request(file, size, part).headers.accept is None,
        upload.complete_request(etags).headers.accept is None,
        storage_put(upload_url, file).headers.accept is None,
        client.submit_request(endpoint, body).headers.accept is None,
        client.status_request(endpoint, request_id).headers.accept is None,
        client.result_request(endpoint, request_id).headers.accept is None,
        upload.part_request(file, size, part).headers.accept_encoding == Some("identity"@),
        client.token_request().headers.accept_encoding is None,
        client.storage_request(file).headers.accept_encoding is None,
        multipart_request(token, file).headers.accept_encoding is None,
        client.v3_request(token, file).headers.accept_encoding is None,
        client.cdn_request(file).headers.accept_encoding is None,
        upload.complete_request(etags).headers.accept_encoding is None,
        storage_put(upload_url, file).headers.accept_encoding is None,
        client.submit_request(endpoint, body).headers.accept_encoding is None,
        client.status_request(endpoint, request_id).headers.accept_encoding is None,
        client.result_request(endpoint, request_id).headers.accept_encoding is None,
{
}

/// The service, its tokens, its uploads and the labels of files are seen field
/// by field, none changed.
pub proof fn law_service_is_seen_as_it_is(
    client: FalClient<String>,
    token: CdnToken<String>,
    upload: Multipart<String>,
    file: LocalFile<String>,
)
    ensures
        client@.fal_key == client.fal_key@,
        client@.queue_url == client.queue_url@,
        client@.rest_url == client.rest_url@,
        client@.cdn_url == client.cdn_url@,
        client@.cdn_fallback_url == client.cdn_fallback_url@,
        token@.token == token.token@,
        token@.token_type == token.token_type@,
        token@.base_url == token.base_url@,
        upload@.authorization == upload.authorization@,
        upload@.access_url == upload.access_url@,
        upload@.upload_id == upload.upload_id@,
        file@.path == file.path@,
        file@.label == file.label@,
        file.label@.name == file.label.name@,
        file.label@.content_type == file.label.content_type@,
{
}

/// Where the service lives: each of its addresses is the one that is given, or
/// else the public one.
pub proof fn law_public_addresses(given: String, public: Seq<char>)
    ensures
        text_or(Some(given), public) == given@,
        text_or(None, public) == public,
        DEFAULT_QUEUE_URL@ == "https://queue.fal.run"@,
        DEFAULT_REST_URL@ == "https://rest.fal.ai"@,
        DEFAULT_CDN_URL@ == "https://v3.fal.media"@,
        DEFAULT_CDN_FALLBACK_URL@ == "https://fal.media"@,
        ENDPOINT@ == "openrouter/router/video"@,
{
}

} // verus!
