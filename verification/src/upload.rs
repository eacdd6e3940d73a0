//! Uploading a local file: three ways, tried one after the other.

use crate::client::{
    create_multipart, multipart_request, put_storage, storage_put, CdnToken, FalClient, FileLabel,
    LocalFile, Multipart,
};
use crate::flow::{Action, Event};
use crate::http::{
    decode, decoded, json_outcome, member_outcome, reply_member, status_text, success, Status,
};
use crate::input::{media_type_of, mime_for_name, UNNAMED_FILE};
use crate::json::{copy, json, Json};
use crate::parts::{part_count, part_count_of, MULTIPART_THRESHOLD};
use crate::paths::{
    components, file_name, file_name_of, law_name_ends_the_path, law_names_after_two_slashes,
    law_portable_paths_have_one_name, may_be_file_name, portable, starts_with_two_separators,
};
use crate::text::{decimal, numeral, view_of, views};
use serde_json::Value;
use vstd::prelude::*;

verus! {

/// How far an upload is. `S` is the type of texts, `J` the type of JSON values
/// and `L` the type of lists of texts.
#[derive(Debug)]
pub enum UploadStage<S, J, L> {
    /// The user is told that the upload starts.
    Announce,
    /// The file is read.
    Load,
    /// First way: a permission is asked for.
    Token,
    /// First way: the permission is read from the reply.
    TokenReply(J),
    /// First way: the file's size decides whether it goes in parts.
    Measure(CdnToken<S>),
    /// First way: the whole file is sent.
    Single(CdnToken<S>),
    /// First way: an upload in parts is asked for.
    Create(CdnToken<S>),
    /// First way: the file's size decides how many parts there are.
    MeasureParts(Multipart<S>),
    /// First way: the file is opened.
    Open {
        /// The upload in parts.
        upload: Multipart<S>,
        /// The size of the file.
        size: u64,
    },
    /// First way: a part is sent, the one after those that have a tag.
    Part {
        /// The upload in parts.
        upload: Multipart<S>,
        /// The size of the file.
        size: u64,
        /// The tags of the parts that were sent.
        etags: L,
    },
    /// First way: the upload in parts is ended.
    Complete {
        /// The upload in parts.
        upload: Multipart<S>,
        /// The tags of the parts.
        etags: L,
    },
    /// Second way: the whole file is sent.
    Cdn {
        /// Why the first way failed.
        v3: S,
    },
    /// Third way: an address is asked for.
    Storage {
        /// Why the first way failed.
        v3: S,
        /// Why the second way failed.
        cdn: S,
    },
    /// Third way: the whole file is sent.
    StoragePut {
        /// Why the first way failed.
        v3: S,
        /// Why the second way failed.
        cdn: S,
        /// Where the file is sent.
        upload_url: S,
        /// The address that the file will have.
        file_url: S,
    },
}

/// The upload of a file.
#[derive(Debug)]
pub struct Upload<S, J, L> {
    /// The file.
    pub file: LocalFile<S>,
    /// How far the upload is.
    pub stage: UploadStage<S, J, L>,
}

/// What a step of an upload leads to.
#[derive(Debug)]
pub enum Progress<S, J, L> {
    /// The upload goes on.
    Going(Upload<S, J, L>),
    /// The file has this address.
    Uploaded(S),
    /// The upload failed.
    Failed(S),
}

/// An upload as contracts see it.
pub type UploadModel = Upload<Seq<char>, Json, Seq<Seq<char>>>;

/// The stage of an upload as contracts see it.
pub type UploadStageModel = UploadStage<Seq<char>, Json, Seq<Seq<char>>>;

/// The progress of an upload as contracts see it.
pub type ProgressModel = Progress<Seq<char>, Json, Seq<Seq<char>>>;

impl View for UploadStage<String, Value, Vec<String>> {
    type V = UploadStageModel;

    open spec fn view(&self) -> UploadStageModel {
        match *self {
            UploadStage::Announce => UploadStage::Announce,
            UploadStage::Load => UploadStage::Load,
            UploadStage::Token => UploadStage::Token,
            UploadStage::TokenReply(value) => UploadStage::TokenReply(json(value)),
            UploadStage::Measure(token) => UploadStage::Measure(token@),
            UploadStage::Single(token) => UploadStage::Single(token@),
            UploadStage::Create(token) => UploadStage::Create(token@),
            UploadStage::MeasureParts(upload) => UploadStage::MeasureParts(upload@),
            UploadStage::Open { upload, size } => UploadStage::Open { upload: upload@, size },
            UploadStage::Part { upload, size, etags } => UploadStage::Part {
                upload: upload@,
                size,
                etags: views(etags@),
            },
            UploadStage::Complete { upload, etags } => UploadStage::Complete {
                upload: upload@,
                etags: views(etags@),
            },
            UploadStage::Cdn { v3 } => UploadStage::Cdn { v3: v3@ },
            UploadStage::Storage { v3, cdn } => UploadStage::Storage { v3: v3@, cdn: cdn@ },
            UploadStage::StoragePut { v3, cdn, upload_url, file_url } => UploadStage::StoragePut {
                v3: v3@,
                cdn: cdn@,
                upload_url: upload_url@,
                file_url: file_url@,
            },
        }
    }
}

impl View for Upload<String, Value, Vec<String>> {
    type V = UploadModel;

    open spec fn view(&self) -> UploadModel {
        Upload { file: self.file@, stage: self.stage@ }
    }
}

impl View for Progress<String, Value, Vec<String>> {
    type V = ProgressModel;

    open spec fn view(&self) -> ProgressModel {
        match *self {
            Progress::Going(upload) => Progress::Going(upload@),
            Progress::Uploaded(url) => Progress::Uploaded(url@),
            Progress::Failed(message) => Progress::Failed(message@),
        }
    }
}

/// The label of a file with this name, if it has one.
pub open spec fn label_of(name: Option<Seq<char>>) -> FileLabel<Seq<char>> {
    FileLabel {
        name: match name {
            Some(known) => known,
            None => UNNAMED_FILE@,
        },
        content_type: media_type_of(name),
    }
}

/// Whether a machine may give the file at `path` this label. Where the path is
/// portable there is one such label.
pub open spec fn may_be_label(path: Seq<char>, label: FileLabel<Seq<char>>) -> bool {
    exists|name: Option<Seq<char>>| #[trigger]
        may_be_file_name(path, name) && label == label_of(name)
}

/// The label of a file with this name, if it has one.
pub fn label(name: Option<String>) -> (r: FileLabel<String>)
    ensures
        r@ == label_of(view_of(name)),
{
    let content_type = mime_for_name(&name).to_owned();
    FileLabel {
        name: match name {
            Some(known) => known,
            None => UNNAMED_FILE.to_owned(),
        },
        content_type,
    }
}

/// The label of the file at `path`, by the file name that the path has on this
/// machine.
pub fn label_for_path(path: &str) -> (r: FileLabel<String>)
    ensures
        portable(path@) ==> r@ == label_of(file_name_of(path@)),
        may_be_label(path@, r@),
{
    let name = file_name(path);
    proof {
        assert(may_be_file_name(path@, view_of(name)));
        if portable(path@) {
            law_portable_paths_have_one_name(path@, view_of(name));
        }
    }
    label(name)
}

/// A path that does not start with two separators and does not end with a
/// separator, a `.` or a `:` gives on every machine a label whose name is the
/// end of the path and whose content type goes by that name.
pub proof fn law_label_ends_the_path(path: Seq<char>, label: FileLabel<Seq<char>>)
    requires
        path.len() > 0,
        !starts_with_two_separators(path),
        path.last() != '/' && path.last() != '\\' && path.last() != '.' && path.last() != ':',
        may_be_label(path, label),
    ensures
        label.name.is_suffix_of(path),
        label == label_of(Some(label.name)),
{
    let name = choose|name: Option<Seq<char>>| #[trigger]
        may_be_file_name(path, name) && label == label_of(name);
    law_name_ends_the_path(path, name);
}

/// A path that starts with `//` and has no `\` gives on every machine the label
/// of its last component, or of no name; it gives the former once there are
/// three components.
pub proof fn law_label_after_two_slashes(path: Seq<char>, label: FileLabel<Seq<char>>)
    requires
        "//"@.is_prefix_of(path),
        !path.contains('\\'),
        may_be_label(path, label),
    ensures
        label == label_of(file_name_of(path)) || label == label_of(None),
        components(path).len() >= 3 ==> label == label_of(file_name_of(path)),
{
    let name = choose|name: Option<Seq<char>>| #[trigger]
        may_be_file_name(path, name) && label == label_of(name);
    law_names_after_two_slashes(path, name);
}

/// The upload of a file goes on at this stage.
pub open spec fn upload_at(file: LocalFile<Seq<char>>, stage: UploadStageModel) -> ProgressModel {
    Progress::Going(Upload { file, stage })
}

/// The first way failed: the second is tried.
pub open spec fn second_way(file: LocalFile<Seq<char>>, message: Seq<char>) -> ProgressModel {
    upload_at(file, UploadStage::Cdn { v3: "fal_v3: "@ + message })
}

/// The second way failed: the third is tried.
pub open spec fn third_way(
    file: LocalFile<Seq<char>>,
    v3: Seq<char>,
    message: Seq<char>,
) -> ProgressModel {
    upload_at(file, UploadStage::Storage { v3, cdn: "cdn: "@ + message })
}

/// The third way failed: the upload fails, and says why each way failed.
pub open spec fn no_way_left(
    v3: Seq<char>,
    cdn: Seq<char>,
    message: Seq<char>,
) -> ProgressModel {
    Progress::Failed(
        "all fal upload methods failed: "@ + v3 + " | "@ + cdn + " | "@ + ("storage: "@ + message),
    )
}

/// A part is due, or the end of the upload where every part has its tag.
pub open spec fn parts_due(
    file: LocalFile<Seq<char>>,
    upload: Multipart<Seq<char>>,
    size: u64,
    etags: Seq<Seq<char>>,
) -> ProgressModel {
    if etags.len() < part_count_of(size) {
        upload_at(file, UploadStage::Part { upload, size, etags })
    } else {
        upload_at(file, UploadStage::Complete { upload, etags })
    }
}

impl UploadModel {
    /// A part is due only while there are parts without a tag.
    pub open spec fn wf(self) -> bool {
        match self.stage {
            UploadStage::Part { size, etags, .. } => etags.len() < part_count_of(size),
            _ => true,
        }
    }

    /// What is to be done next.
    pub open spec fn pending_action(self, client: FalClient<Seq<char>>) -> Action<Seq<char>, Json> {
        let file = self.file.label;
        match self.stage {
            UploadStage::Announce => Action::Note(
                "uploading "@ + self.file.path + " ("@ + file.content_type + ")"@,
            ),
            UploadStage::Load => Action::Load(self.file.path),
            UploadStage::Token => Action::Send(client.token_request()),
            UploadStage::TokenReply(reply) => Action::ReadToken(reply),
            UploadStage::Measure(_) | UploadStage::MeasureParts(_) => Action::Measure(self.file.path),
            UploadStage::Single(token) => Action::Send(client.v3_request(token, file)),
            UploadStage::Create(token) => Action::Send(multipart_request(token, file)),
            UploadStage::Open { .. } => Action::Open(self.file.path),
            UploadStage::Part { upload, size, etags } => Action::Deliver(
                upload.part_request(file, size, etags.len() as int + 1),
            ),
            UploadStage::Complete { upload, etags } => Action::Send(upload.complete_request(etags)),
            UploadStage::Cdn { .. } => Action::Send(client.cdn_request(file)),
            UploadStage::Storage { .. } => Action::Send(client.storage_request(file)),
            UploadStage::StoragePut { upload_url, .. } => Action::Deliver(
                storage_put(upload_url, file),
            ),
        }
    }

    /// The step after an action that could not be done.
    pub open spec fn after_failure(self, message: Seq<char>) -> ProgressModel {
        match self.stage {
            UploadStage::Announce => Progress::Going(self),
            UploadStage::Load => Progress::Failed("read "@ + self.file.path + ": "@ + message),
            UploadStage::TokenReply(_) => second_way(self.file, "decode CDN token: "@ + message),
            UploadStage::Cdn { v3 } => third_way(self.file, v3, message),
            UploadStage::Storage { v3, cdn } => no_way_left(v3, cdn, message),
            UploadStage::StoragePut { v3, cdn, .. } => no_way_left(v3, cdn, message),
            _ => second_way(self.file, message),
        }
    }

    /// The step after a reply, by what the reply came to.
    pub open spec fn after_reply(self, reply: Result<Json, Seq<char>>) -> ProgressModel {
        match self.stage {
            UploadStage::Token => match reply {
                Ok(contents) => upload_at(self.file, UploadStage::TokenReply(contents)),
                Err(message) => second_way(self.file, message),
            },
            UploadStage::Single(_) => match member_outcome(
                reply,
                "access_url"@,
                "v3 upload missing access_url"@,
            ) {
                Ok(url) => Progress::Uploaded(url),
                Err(message) => second_way(self.file, message),
            },
            UploadStage::Create(token) => match member_outcome(
                reply,
                "access_url"@,
                "multipart missing access_url"@,
            ) {
                Ok(access_url) => match member_outcome(
                    reply,
                    "uploadId"@,
                    "multipart missing uploadId"@,
                ) {
                    Ok(upload_id) => upload_at(self.file, 
                        UploadStage::MeasureParts(
                            Multipart {
                                authorization: token.authorization(),
                                access_url,
                                upload_id,
                            },
                        ),
                    ),
                    Err(message) => second_way(self.file, message),
                },
                Err(message) => second_way(self.file, message),
            },
            UploadStage::Complete { upload, .. } => match reply {
                Ok(_) => Progress::Uploaded(upload.access_url),
                Err(message) => second_way(self.file, message),
            },
            UploadStage::Cdn { v3 } => match member_outcome(
                reply,
                "access_url"@,
                "cdn upload missing access_url"@,
            ) {
                Ok(url) => Progress::Uploaded(url),
                Err(message) => third_way(self.file, v3, message),
            },
            UploadStage::Storage { v3, cdn } => match member_outcome(
                reply,
                "upload_url"@,
                "storage missing upload_url"@,
            ) {
                Ok(upload_url) => match member_outcome(
                    reply,
                    "file_url"@,
                    "storage missing file_url"@,
                ) {
                    Ok(file_url) => upload_at(self.file, 
                        UploadStage::StoragePut { v3, cdn, upload_url, file_url },
                    ),
                    Err(message) => no_way_left(v3, cdn, message),
                },
                Err(message) => no_way_left(v3, cdn, message),
            },
            _ => Progress::Going(self),
        }
    }

    /// The step after the head of a reply.
    pub open spec fn after_receipt(self, code: u16, etag: Option<Seq<char>>) -> ProgressModel {
        match self.stage {
            UploadStage::Part { upload, size, etags } => if !success(code) {
                second_way(self.file, 
                    "multipart part "@ + decimal(etags.len() + 1) + " failed: http "@
                        + status_text(code),
                )
            } else {
                match etag {
                    Some(tag) => parts_due(self.file, upload, size, etags.push(tag)),
                    None => second_way(self.file, "multipart part missing etag"@),
                }
            },
            UploadStage::StoragePut { v3, cdn, file_url, .. } => if success(code) {
                Progress::Uploaded(file_url)
            } else {
                no_way_left(v3, cdn, "storage PUT failed: http "@ + status_text(code))
            },
            _ => Progress::Going(self),
        }
    }

    /// The step after an answer. Anything but an answer to the pending action
    /// changes nothing.
    pub open spec fn next(self, event: Event<Seq<char>>) -> ProgressModel {
        match event {
            Event::Failed(message) => self.after_failure(message),
            Event::Reply { status, text } => self.after_reply(decoded(status@, text)),
            Event::Receipt { status, etag } => self.after_receipt(status@, etag),
            Event::Done => match self.stage {
                UploadStage::Announce => upload_at(self.file, UploadStage::Load),
                UploadStage::Load => upload_at(self.file, UploadStage::Token),
                UploadStage::Open { upload, size } => parts_due(self.file, upload, size, Seq::empty()),
                _ => Progress::Going(self),
            },
            Event::Token(token) => match self.stage {
                UploadStage::TokenReply(_) => upload_at(self.file, UploadStage::Measure(token)),
                _ => Progress::Going(self),
            },
            Event::Size(size) => match self.stage {
                UploadStage::Measure(token) => if size > MULTIPART_THRESHOLD {
                    upload_at(self.file, UploadStage::Create(token))
                } else {
                    upload_at(self.file, UploadStage::Single(token))
                },
                UploadStage::MeasureParts(upload) => upload_at(self.file, UploadStage::Open { upload, size }),
                _ => Progress::Going(self),
            },
            _ => Progress::Going(self),
        }
    }
}

/// An upload.
pub type Uploading = Upload<String, Value, Vec<String>>;

/// The stage of an upload.
type Stage = UploadStage<String, Value, Vec<String>>;

/// The progress of an upload.
pub type UploadProgress = Progress<String, Value, Vec<String>>;

/// The upload goes on at this stage.
fn going(file: LocalFile<String>, stage: Stage) -> (r: UploadProgress)
    ensures
        r@ == upload_at(file@, stage@),
{
    Progress::Going(Upload { file, stage })
}

/// The first way failed.
fn v3_failed(file: LocalFile<String>, message: &str) -> (r: UploadProgress)
    ensures
        r@ == second_way(file@, message@),
{
    going(file, UploadStage::Cdn { v3: "fal_v3: ".to_owned().concat(message) })
}

/// The second way failed.
fn cdn_failed(file: LocalFile<String>, v3: String, message: &str) -> (r: UploadProgress)
    ensures
        r@ == third_way(file@, v3@, message@),
{
    going(file, UploadStage::Storage { v3, cdn: "cdn: ".to_owned().concat(message) })
}

/// The third way failed.
fn storage_failed(v3: String, cdn: String, message: &str) -> (r: UploadProgress)
    ensures
        r@ == no_way_left(v3@, cdn@, message@),
{
    Progress::Failed(
        "all fal upload methods failed: ".to_owned().concat(&v3).concat(" | ").concat(&cdn).concat(
            " | ",
        ).concat(&"storage: ".to_owned().concat(message)),
    )
}

/// A part is due, or the end of the upload where every part has its tag.
fn parts_from(file: LocalFile<String>, upload: Multipart<String>, size: u64, etags: Vec<String>) -> (r:
    UploadProgress)
    ensures
        r@ == parts_due(file@, upload@, size, views(etags@)),
        r matches Progress::Going(next) ==> next@.wf(),
{
    if (etags.len() as u64) < part_count(size) {
        going(file, UploadStage::Part { upload, size, etags })
    } else {
        going(file, UploadStage::Complete { upload, etags })
    }
}

impl Uploading {
    /// The upload of a file, before its first step.
    pub fn upload_file(file: LocalFile<String>) -> (r: Uploading)
        ensures
            r@ == (Upload::<Seq<char>, Json, Seq<Seq<char>>> {
                file: file@,
                stage: UploadStage::Announce,
            }),
            r@.wf(),
    {
        Upload { file, stage: UploadStage::Announce }
    }

    /// What is to be done next.
    pub fn pending(&self, client: &FalClient<String>) -> (r: Action<String, Value>)
        requires
            self@.wf(),
        ensures
            r@ == self@.pending_action(client@),
    {
        let file = &self.file.label;
        match &self.stage {
            UploadStage::Announce => Action::Note(
                "uploading ".to_owned().concat(&self.file.path).concat(" (").concat(
                    &file.content_type,
                ).concat(")"),
            ),
            UploadStage::Load => Action::Load(self.file.path.clone()),
            UploadStage::Token => Action::Send(client.cdn_token()),
            UploadStage::TokenReply(reply) => Action::ReadToken(copy(reply)),
            UploadStage::Measure(_) => Action::Measure(self.file.path.clone()),
            UploadStage::MeasureParts(_) => Action::Measure(self.file.path.clone()),
            UploadStage::Single(token) => Action::Send(client.upload_v3(token, file)),
            UploadStage::Create(token) => Action::Send(create_multipart(token, file)),
            UploadStage::Open { .. } => Action::Open(self.file.path.clone()),
            UploadStage::Part { upload, size, etags } => Action::Deliver(
                upload.upload_part(file, *size, etags.len() as u64 + 1),
            ),
            UploadStage::Complete { upload, etags } => Action::Send(upload.complete(etags)),
            UploadStage::Cdn { .. } => Action::Send(client.upload_cdn(file)),
            UploadStage::Storage { .. } => Action::Send(client.upload_storage(file)),
            UploadStage::StoragePut { upload_url, .. } => Action::Deliver(
                put_storage(upload_url, file),
            ),
        }
    }

    /// The step after an action that could not be done.
    pub fn fail(self, message: String) -> (r: UploadProgress)
        requires
            self@.wf(),
        ensures
            r@ == self@.after_failure(message@),
            r matches Progress::Going(next) ==> next@.wf(),
    {
        let Upload { file, stage } = self;
        match stage {
            UploadStage::Announce => going(file, UploadStage::Announce),
            UploadStage::Load => Progress::Failed(
                "read ".to_owned().concat(&file.path).concat(": ").concat(&message),
            ),
            UploadStage::TokenReply(_) => v3_failed(
                file,
                &"decode CDN token: ".to_owned().concat(&message),
            ),
            UploadStage::Cdn { v3 } => cdn_failed(file, v3, &message),
            UploadStage::Storage { v3, cdn } => storage_failed(v3, cdn, &message),
            UploadStage::StoragePut { v3, cdn, .. } => storage_failed(v3, cdn, &message),
            _ => v3_failed(file, &message),
        }
    }

    /// The step after a reply, by what the reply came to.
    pub fn receive(self, reply: Result<Value, String>) -> (r: UploadProgress)
        requires
            self@.wf(),
        ensures
            r@ == self@.after_reply(json_outcome(reply)),
            r matches Progress::Going(next) ==> next@.wf(),
    {
        let Upload { file, stage } = self;
        match stage {
            UploadStage::Token => match reply {
                Ok(value) => going(file, UploadStage::TokenReply(value)),
                Err(message) => v3_failed(file, &message),
            },
            UploadStage::Single(_) => match reply_member(
                &reply,
                "access_url",
                "v3 upload missing access_url",
            ) {
                Ok(url) => Progress::Uploaded(url),
                Err(message) => v3_failed(file, &message),
            },
            UploadStage::Create(token) => match reply_member(
                &reply,
                "access_url",
                "multipart missing access_url",
            ) {
                Ok(access_url) => match reply_member(
                    &reply,
                    "uploadId",
                    "multipart missing uploadId",
                ) {
                    Ok(upload_id) => going(
                        file,
                        UploadStage::MeasureParts(
                            Multipart {
                                authorization: token.authorization_header(),
                                access_url,
                                upload_id,
                            },
                        ),
                    ),
                    Err(message) => v3_failed(file, &message),
                },
                Err(message) => v3_failed(file, &message),
            },
            UploadStage::Complete { upload, .. } => match reply {
                Ok(_) => Progress::Uploaded(upload.access_url),
                Err(message) => v3_failed(file, &message),
            },
            UploadStage::Cdn { v3 } => match reply_member(
                &reply,
                "access_url",
                "cdn upload missing access_url",
            ) {
                Ok(url) => Progress::Uploaded(url),
                Err(message) => cdn_failed(file, v3, &message),
            },
            UploadStage::Storage { v3, cdn } => match reply_member(
                &reply,
                "upload_url",
                "storage missing upload_url",
            ) {
                Ok(upload_url) => match reply_member(
                    &reply,
                    "file_url",
                    "storage missing file_url",
                ) {
                    Ok(file_url) => going(
                        file,
                        UploadStage::StoragePut { v3, cdn, upload_url, file_url },
                    ),
                    Err(message) => storage_failed(v3, cdn, &message),
                },
                Err(message) => storage_failed(v3, cdn, &message),
            },
            other => going(file, other),
        }
    }

    /// The step after the head of a reply.
    pub fn acknowledge(self, status: Status, etag: Option<String>) -> (r: UploadProgress)
        requires
            self@.wf(),
        ensures
            r@ == self@.after_receipt(status@, view_of(etag)),
            r matches Progress::Going(next) ==> next@.wf(),
    {
        let Upload { file, stage } = self;
        match stage {
            UploadStage::Part { upload, size, etags } => {
                if !status.is_success() {
                    let part: u64 = etags.len() as u64 + 1;
                    v3_failed(
                        file,
                        &"multipart part ".to_owned().concat(&numeral(part)).concat(
                            " failed: http ",
                        ).concat(&status.line()),
                    )
                } else {
                    match etag {
                        Some(tag) => {
                            let ghost known = views(etags@);
                            let mut etags = etags;
                            etags.push(tag);
                            assert(views(etags@) =~= known.push(tag@));
                            parts_from(file, upload, size, etags)
                        },
                        None => v3_failed(file, "multipart part missing etag"),
                    }
                }
            },
            UploadStage::StoragePut { v3, cdn, upload_url, file_url } => {
                if status.is_success() {
                    Progress::Uploaded(file_url)
                } else {
                    storage_failed(
                        v3,
                        cdn,
                        &"storage PUT failed: http ".to_owned().concat(&status.line()),
                    )
                }
            },
            other => going(file, other),
        }
    }

    /// The step after an answer.
    pub fn advance(self, event: Event<String>) -> (r: UploadProgress)
        requires
            self@.wf(),
        ensures
            r@ == self@.next(event@),
            r matches Progress::Going(next) ==> next@.wf(),
    {
        match event {
            Event::Failed(message) => self.fail(message),
            Event::Reply { status, text } => self.receive(decode(status, &text)),
            Event::Receipt { status, etag } => self.acknowledge(status, etag),
            Event::Done => {
                let Upload { file, stage } = self;
                match stage {
                    UploadStage::Announce => going(file, UploadStage::Load),
                    UploadStage::Load => going(file, UploadStage::Token),
                    UploadStage::Open { upload, size } => {
                        let etags: Vec<String> = Vec::new();
                        assert(views(etags@) =~= Seq::empty());
                        parts_from(file, upload, size, etags)
                    },
                    other => going(file, other),
                }
            },
            Event::Token(token) => {
                let Upload { file, stage } = self;
                match stage {
                    UploadStage::TokenReply(_) => going(file, UploadStage::Measure(token)),
                    other => going(file, other),
                }
            },
            Event::Size(size) => {
                let Upload { file, stage } = self;
                match stage {
                    UploadStage::Measure(token) => {
                        if size > MULTIPART_THRESHOLD {
                            going(file, UploadStage::Create(token))
                        } else {
                            going(file, UploadStage::Single(token))
                        }
                    },
                    UploadStage::MeasureParts(upload) => going(
                        file,
                        UploadStage::Open { upload, size },
                    ),
                    other => going(file, other),
                }
            },
            _ => Progress::Going(self),
        }
    }
}

/// A file is labelled with its own name, and with `upload.bin` where it has
/// none; its media type goes by its own name.
pub proof fn law_labels(name: Seq<char>)
    ensures
        label_of(Some(name)).name == name,
        label_of(Some(name)).content_type == media_type_of(Some(name)),
        label_of(None).name == "upload.bin"@,
        label_of(None).content_type == "application/octet-stream"@,
{
}

/// Every label that a machine may give a file goes by a file name that it may
/// find in the path: the label has that name, or `upload.bin` where there is
/// none, and the media type that belongs to that name.
pub proof fn law_label_goes_by_a_name(path: Seq<char>, label: FileLabel<Seq<char>>) -> (name: Option<
    Seq<char>,
>)
    requires
        may_be_label(path, label),
    ensures
        may_be_file_name(path, name),
        label.content_type == media_type_of(name),
        name is Some ==> label.name == name->0,
        name is None ==> label.name == "upload.bin"@,
{
    choose|name: Option<Seq<char>>| #[trigger]
        may_be_file_name(path, name) && label == label_of(name)
}

/// What an upload asks for at each stage. The path is that of the file, the
/// label is the file's own, and the part that is due comes right after those
/// that have their tags.
pub proof fn law_upload_asks(upload: UploadModel, client: FalClient<Seq<char>>)
    ensures
        ({
            let path = upload.file.path;
            let label = upload.file.label;
            let asked = upload.pending_action(client);
            match upload.stage {
                UploadStage::Announce => asked == Action::<Seq<char>, Json>::Note(
                    "uploading "@ + path + " ("@ + label.content_type + ")"@,
                ),
                UploadStage::Load => asked == Action::<Seq<char>, Json>::Load(path),
                UploadStage::Token => asked == Action::Send(client.token_request()),
                UploadStage::TokenReply(reply) => asked == Action::<Seq<char>, Json>::ReadToken(
                    reply,
                ),
                UploadStage::Measure(_) => asked == Action::<Seq<char>, Json>::Measure(path),
                UploadStage::Single(token) => asked == Action::Send(
                    client.v3_request(token, label),
                ),
                UploadStage::Create(token) => asked == Action::Send(
                    multipart_request(token, label),
                ),
                UploadStage::MeasureParts(_) => asked == Action::<Seq<char>, Json>::Measure(path),
                UploadStage::Open { .. } => asked == Action::<Seq<char>, Json>::Open(path),
                UploadStage::Part { upload: parts, size, etags } => asked == Action::Deliver(
                    parts.part_request(label, size, etags.len() as int + 1),
                ),
                UploadStage::Complete { upload: parts, etags } => asked == Action::Send(
                    parts.complete_request(etags),
                ),
                UploadStage::Cdn { .. } => asked == Action::Send(client.cdn_request(label)),
                UploadStage::Storage { .. } => asked == Action::Send(client.storage_request(label)),
                UploadStage::StoragePut { upload_url, .. } => asked == Action::Deliver(
                    storage_put(upload_url, label),
                ),
            }
        }),
{
}

/// Replies, receipts and failures are taken for what they are.
pub proof fn law_upload_takes_answers(
    upload: UploadModel,
    event: Event<Seq<char>>,
)
    ensures
        event matches Event::Failed(message) ==> upload.next(event) == upload.after_failure(message),
        event matches Event::Reply { status, text } ==> upload.next(event) == upload.after_reply(
            decoded(status@, text),
        ),
        event matches Event::Receipt { status, etag } ==> upload.next(event)
            == upload.after_receipt(status@, etag),
{
}

/// A file that cannot be read ends the upload. Every failure of the first way
/// leads to the second, one of the second to the third, and one of the third
/// ends the upload with the three reasons, in this order. The file stays the
/// same.
pub proof fn law_upload_failures(upload: UploadModel, message: Seq<char>)
    ensures
        ({
            let failed = upload.after_failure(message);
            match upload.stage {
                UploadStage::Announce => failed == Progress::Going(upload),
                UploadStage::Load => failed == ProgressModel::Failed(
                    "read "@ + upload.file.path + ": "@ + message,
                ),
                UploadStage::TokenReply(_) => failed == ProgressModel::Going(
                    Upload {
                        file: upload.file,
                        stage: UploadStage::Cdn {
                            v3: "fal_v3: "@ + ("decode CDN token: "@ + message),
                        },
                    },
                ),
                UploadStage::Cdn { v3 } => failed == ProgressModel::Going(
                    Upload {
                        file: upload.file,
                        stage: UploadStage::Storage { v3, cdn: "cdn: "@ + message },
                    },
                ),
                UploadStage::Storage { v3, cdn } => failed == ProgressModel::Failed(
                    "all fal upload methods failed: "@ + v3 + " | "@ + cdn + " | "@ + (
                    "storage: "@ + message),
                ),
                UploadStage::StoragePut { v3, cdn, .. } => failed == ProgressModel::Failed(
                    "all fal upload methods failed: "@ + v3 + " | "@ + cdn + " | "@ + (
                    "storage: "@ + message),
                ),
                _ => failed == ProgressModel::Going(
                    Upload {
                        file: upload.file,
                        stage: UploadStage::Cdn { v3: "fal_v3: "@ + message },
                    },
                ),
            }
        }),
{
}

/// A reply that is a failure is worth the same as no reply.
pub proof fn law_bad_reply_is_a_failure(upload: UploadModel, message: Seq<char>)
    requires
        upload.stage is Token || upload.stage is Single || upload.stage is Create || upload.stage
            is Complete || upload.stage is Cdn || upload.stage is Storage,
    ensures
        upload.after_reply(Err(message)) == upload.after_failure(message),
{
}

/// A reply or a receipt changes an upload only where it is waited for.
pub proof fn law_upload_replies_out_of_turn(
    upload: UploadModel,
    reply: Result<Json, Seq<char>>,
    code: u16,
    etag: Option<Seq<char>>,
)
    ensures
        !(upload.stage is Token || upload.stage is Single || upload.stage is Create || upload.stage
            is Complete || upload.stage is Cdn || upload.stage is Storage) ==> upload.after_reply(
            reply,
        ) == Progress::Going(upload),
        !(upload.stage is Part || upload.stage is StoragePut) ==> upload.after_receipt(code, etag)
            == Progress::Going(upload),
{
}

/// A reply without the address that it was to give is worth the same, too.
pub proof fn law_missing_address_is_a_failure(upload: UploadModel, reply: Json)
    ensures
        ({
            let address = reply.member("access_url"@) matches Some(Json::Text(_));
            let id = reply.member("uploadId"@) matches Some(Json::Text(_));
            let target = reply.member("upload_url"@) matches Some(Json::Text(_));
            let found = reply.member("file_url"@) matches Some(Json::Text(_));
            let after = upload.after_reply(Ok(reply));
            &&& upload.stage is Single && !address ==> after == upload.after_failure(
                "v3 upload missing access_url"@,
            )
            &&& upload.stage is Create && !address ==> after == upload.after_failure(
                "multipart missing access_url"@,
            )
            &&& upload.stage is Create && address && !id ==> after == upload.after_failure(
                "multipart missing uploadId"@,
            )
            &&& upload.stage is Cdn && !address ==> after == upload.after_failure(
                "cdn upload missing access_url"@,
            )
            &&& upload.stage is Storage && !target ==> after == upload.after_failure(
                "storage missing upload_url"@,
            )
            &&& upload.stage is Storage && target && !found ==> after == upload.after_failure(
                "storage missing file_url"@,
            )
        }),
{
}

/// A receipt without success, and that of a part without a tag, is worth the
/// same as none.
pub proof fn law_bad_receipt_is_a_failure(
    upload: UploadModel,
    code: u16,
    etag: Option<Seq<char>>,
)
    ensures
        ({
            let after = upload.after_receipt(code, etag);
            let good = 200 <= code <= 299;
            &&& upload.stage matches UploadStage::Part { etags, .. } ==> {
                &&& !good ==> after == upload.after_failure(
                    "multipart part "@ + decimal(etags.len() + 1) + " failed: http "@
                        + status_text(code),
                )
                &&& good && etag is None ==> after == upload.after_failure(
                    "multipart part missing etag"@,
                )
            }
            &&& upload.stage is StoragePut && !good ==> after == upload.after_failure(
                "storage PUT failed: http "@ + status_text(code),
            )
        }),
{
}

/// The first way, as long as it goes well: the file is read, a token is asked
/// for and read, and the size of the file decides. Up to 100 MiB it goes in one
/// piece, and then it is found where the reply says.
pub proof fn law_first_way(
    upload: UploadModel,
    reply: Json,
    token: CdnToken<Seq<char>>,
    size: u64,
    url: Seq<char>,
)
    ensures
        upload.stage is Announce ==> upload.next(Event::Done) == ProgressModel::Going(
            Upload { file: upload.file, stage: UploadStage::Load },
        ),
        upload.stage is Load ==> upload.next(Event::Done) == ProgressModel::Going(
            Upload { file: upload.file, stage: UploadStage::Token },
        ),
        upload.stage is Token ==> upload.after_reply(Ok(reply)) == ProgressModel::Going(
            Upload { file: upload.file, stage: UploadStage::TokenReply(reply) },
        ),
        upload.stage is TokenReply ==> upload.next(Event::Token(token)) == ProgressModel::Going(
            Upload { file: upload.file, stage: UploadStage::Measure(token) },
        ),
        upload.stage == UploadStageModel::Measure(token) && size <= 100 * 1024 * 1024
            ==> upload.next(Event::Size(size)) == ProgressModel::Going(
            Upload { file: upload.file, stage: UploadStage::Single(token) },
        ),
        upload.stage == UploadStageModel::Measure(token) && size > 100 * 1024 * 1024
            ==> upload.next(Event::Size(size)) == ProgressModel::Going(
            Upload { file: upload.file, stage: UploadStage::Create(token) },
        ),
        upload.stage is Single && reply.member("access_url"@) == Some(Json::Text(url))
            ==> upload.after_reply(Ok(reply)) == ProgressModel::Uploaded(url),
{
}

/// The first way in parts, as long as it goes well: the upload goes by the token
/// and by what the reply says, the size counts that the file has when it is cut,
/// each part adds its tag behind the others, and the upload ends once each part
/// of 10 MiB has its tag. Then the file is found where the first reply said.
pub proof fn law_first_way_in_parts(
    file: LocalFile<Seq<char>>,
    token: CdnToken<Seq<char>>,
    reply: Json,
    upload: Multipart<Seq<char>>,
    size: u64,
    etags: Seq<Seq<char>>,
    code: u16,
    tag: Seq<char>,
)
    ensures
        reply.member("access_url"@) == Some(Json::Text(upload.access_url)) && reply.member(
            "uploadId"@,
        ) == Some(Json::Text(upload.upload_id)) && upload.authorization == token.token_type + " "@
            + token.token ==> (UploadModel { file, stage: UploadStage::Create(token) }).after_reply(
            Ok(reply),
        ) == ProgressModel::Going(Upload { file, stage: UploadStage::MeasureParts(upload) }),
        (UploadModel { file, stage: UploadStage::MeasureParts(upload) }).next(Event::Size(size))
            == ProgressModel::Going(Upload { file, stage: UploadStage::Open { upload, size } }),
        size > 0 ==> (UploadModel { file, stage: UploadStage::Open { upload, size } }).next(
            Event::Done,
        ) == ProgressModel::Going(
            Upload { file, stage: UploadStage::Part { upload, size, etags: Seq::empty() } },
        ),
        size == 0 ==> (UploadModel { file, stage: UploadStage::Open { upload, size } }).next(
            Event::Done,
        ) == ProgressModel::Going(
            Upload { file, stage: UploadStage::Complete { upload, etags: Seq::empty() } },
        ),
        200 <= code <= 299 && (etags.len() + 1) * (10 * 1024 * 1024) < size ==> (UploadModel {
            file,
            stage: UploadStage::Part { upload, size, etags },
        }).after_receipt(code, Some(tag)) == ProgressModel::Going(
            Upload { file, stage: UploadStage::Part { upload, size, etags: etags.push(tag) } },
        ),
        200 <= code <= 299 && (etags.len() + 1) * (10 * 1024 * 1024) >= size ==> (UploadModel {
            file,
            stage: UploadStage::Part { upload, size, etags },
        }).after_receipt(code, Some(tag)) == ProgressModel::Going(
            Upload { file, stage: UploadStage::Complete { upload, etags: etags.push(tag) } },
        ),
        (UploadModel { file, stage: UploadStage::Complete { upload, etags } }).after_reply(Ok(reply))
            == ProgressModel::Uploaded(upload.access_url),
{
    let sent = etags.push(tag).len();
    assert(sent == etags.len() + 1);
    assert((etags.len() + 1) * (10 * 1024 * 1024) == sent * 10_485_760);
    assert(sent * 10_485_760 < size <==> sent < part_count_of(size));
}

/// The other two ways, where they go well: the file is found where the reply
/// says. The storage says in one reply where the file goes and where it is
/// found.
pub proof fn law_other_ways(
    file: LocalFile<Seq<char>>,
    v3: Seq<char>,
    cdn: Seq<char>,
    reply: Json,
    url: Seq<char>,
    upload_url: Seq<char>,
    code: u16,
    etag: Option<Seq<char>>,
)
    ensures
        reply.member("access_url"@) == Some(Json::Text(url)) ==> (UploadModel {
            file,
            stage: UploadStage::Cdn { v3 },
        }).after_reply(Ok(reply)) == ProgressModel::Uploaded(url),
        reply.member("upload_url"@) == Some(Json::Text(upload_url)) && reply.member("file_url"@)
            == Some(Json::Text(url)) ==> (UploadModel {
            file,
            stage: UploadStage::Storage { v3, cdn },
        }).after_reply(Ok(reply)) == ProgressModel::Going(
            Upload { file, stage: UploadStage::StoragePut { v3, cdn, upload_url, file_url: url } },
        ),
        200 <= code <= 299 ==> (UploadModel {
            file,
            stage: UploadStage::StoragePut { v3, cdn, upload_url, file_url: url },
        }).after_receipt(code, etag) == ProgressModel::Uploaded(url),
{
}

/// Uploads are seen stage by stage, field by field, none changed.
pub proof fn law_uploads_are_seen_as_they_are(upload: Uploading, progress: UploadProgress)
    ensures
        upload@.file == upload.file@,
        match upload.stage {
            UploadStage::Announce => upload@.stage is Announce,
            UploadStage::Load => upload@.stage is Load,
            UploadStage::Token => upload@.stage is Token,
            UploadStage::TokenReply(value) => upload@.stage == UploadStageModel::TokenReply(
                json(value),
            ),
            UploadStage::Measure(token) => upload@.stage == UploadStageModel::Measure(token@),
            UploadStage::Single(token) => upload@.stage == UploadStageModel::Single(token@),
            UploadStage::Create(token) => upload@.stage == UploadStageModel::Create(token@),
            UploadStage::MeasureParts(parts) => upload@.stage == UploadStageModel::MeasureParts(
                parts@,
            ),
            UploadStage::Open { upload: parts, size } => upload@.stage == (UploadStageModel::Open {
                upload: parts@,
                size,
            }),
            UploadStage::Part { upload: parts, size, etags } => upload@.stage == (
            UploadStageModel::Part { upload: parts@, size, etags: views(etags@) }),
            UploadStage::Complete { upload: parts, etags } => upload@.stage == (
            UploadStageModel::Complete { upload: parts@, etags: views(etags@) }),
            UploadStage::Cdn { v3 } => upload@.stage == (UploadStageModel::Cdn { v3: v3@ }),
            UploadStage::Storage { v3, cdn } => upload@.stage == (UploadStageModel::Storage {
                v3: v3@,
                cdn: cdn@,
            }),
            UploadStage::StoragePut { v3, cdn, upload_url, file_url } => upload@.stage == (
            UploadStageModel::StoragePut {
                v3: v3@,
                cdn: cdn@,
                upload_url: upload_url@,
                file_url: file_url@,
            }),
        },
        match progress {
            Progress::Going(next) => progress@ == Progress::Going(next@),
            Progress::Uploaded(url) => progress@ == ProgressModel::Uploaded(url@),
            Progress::Failed(message) => progress@ == ProgressModel::Failed(message@),
        },
{
}

} // verus!
