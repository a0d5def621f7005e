//! Sending messages with attachments, and reading the results of a message search.
use vstd::prelude::*;
use vstd::string::StringExecFns;

use crate::errors::ChorusError;
use super::common::{spec_status_is_success, status_is_success};
use crate::gateway::options::InstanceSoftware;
use crate::text::{decimal, decimal_string};
use super::ratelimits::LimitType;
use super::types::{CloudAttachment, CloudUploadAttachment, PartialDiscordFileAttachment, Snowflake, ids_view, same_metadata};

verus! {

/// How a message is sent.
#[derive(Clone, Copy, Debug, PartialEq, Eq, Structural)]
pub enum SendMethod {
    /// As a plain JSON body: the message has no attachments.
    WithoutAttachments,
    /// As a multipart form holding the attachments.
    MultipartAttachments,
    /// With the attachments uploaded to a storage bucket beforehand.
    CloudAttachments,
}

/// How a message is sent: without attachments as plain JSON; with attachments as a multipart
/// form to Spacebar and Symfonia instances, and through a storage bucket to any other.
pub open spec fn spec_send_method(has_attachments: bool, software: InstanceSoftware) -> SendMethod {
    if !has_attachments {
        SendMethod::WithoutAttachments
    } else {
        match software {
            InstanceSoftware::SpacebarTypescript | InstanceSoftware::Symfonia =>
                SendMethod::MultipartAttachments,
            InstanceSoftware::Other => SendMethod::CloudAttachments,
        }
    }
}

/// Decides how a message is sent.
pub fn send_method(has_attachments: bool, software: InstanceSoftware) -> (res: SendMethod)
    ensures
        res == spec_send_method(has_attachments, software),
{
    if !has_attachments {
        return SendMethod::WithoutAttachments;
    }
    match software {
        InstanceSoftware::SpacebarTypescript | InstanceSoftware::Symfonia => {
            SendMethod::MultipartAttachments
        },
        InstanceSoftware::Other => SendMethod::CloudAttachments,
    }
}

fn clone_string_option(o: &Option<String>) -> (res: Option<String>)
    ensures
        res == *o,
{
    match o {
        Some(s) => Some(s.clone()),
        None => None,
    }
}

fn clone_snowflakes_option(o: &Option<Vec<Snowflake>>) -> (res: Option<Vec<Snowflake>>)
    ensures
        ids_view(res) == ids_view(*o),
{
    match o {
        Some(v) => {
            let mut w: Vec<Snowflake> = Vec::new();
            let mut i: usize = 0;
            while i < v.len()
                invariant
                    i <= v@.len(),
                    w@ == v@.take(i as int),
                decreases v@.len() - i,
            {
                w.push(v[i]);
                i = i + 1;
                proof {
                    assert(w@ =~= v@.take(i as int));
                }
            }
            proof {
                assert(w@ =~= v@);
            }
            Some(w)
        },
        None => None,
    }
}

impl PartialDiscordFileAttachment {
    /// A copy of the attachment without its content.
    pub fn clone_metadata(&self) -> (res: PartialDiscordFileAttachment)
        ensures
            res.content@.len() == 0,
            res.filename == self.filename,
            res.content_type == self.content_type,
            same_metadata(res, *self),
    {
        PartialDiscordFileAttachment {
            id: self.id,
            filename: self.filename.clone(),
            description: clone_string_option(&self.description),
            content_type: clone_string_option(&self.content_type),
            size: self.size,
            url: clone_string_option(&self.url),
            proxy_url: clone_string_option(&self.proxy_url),
            height: self.height,
            width: self.width,
            ephemeral: self.ephemeral,
            duration_secs: self.duration_secs,
            waveform: clone_string_option(&self.waveform),
            is_clip: self.is_clip,
            clip_created_at: clone_string_option(&self.clip_created_at),
            clip_participant_ids: clone_snowflakes_option(&self.clip_participant_ids),
            clip_application_id: self.clip_application_id,
            title: clone_string_option(&self.title),
            uploaded_filename: clone_string_option(&self.uploaded_filename),
            content: Vec::new(),
        }
    }
}

} // verus!

verus! {

/// The metadata copies and the upload forms of attachments that are to be uploaded to a
/// storage bucket.
pub open spec fn prepared_for_upload(
    attachments: Seq<PartialDiscordFileAttachment>,
    metadata: Seq<PartialDiscordFileAttachment>,
    uploads: Seq<CloudUploadAttachment>,
) -> bool {
    &&& metadata.len() == attachments.len()
    &&& uploads.len() == attachments.len()
    &&& forall|i: int|
        0 <= i < attachments.len() ==> {
            &&& (#[trigger] metadata[i]).content@.len() == 0
            &&& metadata[i].filename == attachments[i].filename
            &&& metadata[i].content_type == attachments[i].content_type
            &&& same_metadata(metadata[i], attachments[i])
            &&& (#[trigger] uploads[i]).id == attachments[i].id
            &&& uploads[i].filename == attachments[i].filename
            &&& uploads[i].file_size == match attachments[i].size {
                Some(s) => s as int,
                None => attachments[i].content@.len() as int,
            }
            &&& uploads[i].content == attachments[i].content
        }
}

/// Splits attachments into their metadata (kept to be sent with the message) and their
/// upload forms (sent to the storage bucket).
pub fn prepare_cloud_upload(attachments: Vec<PartialDiscordFileAttachment>) -> (res: (
    Vec<PartialDiscordFileAttachment>,
    Vec<CloudUploadAttachment>,
))
    ensures
        prepared_for_upload(attachments@, res.0@, res.1@),
{
    let ghost start = attachments@;
    let mut metadata: Vec<PartialDiscordFileAttachment> = Vec::new();
    let mut uploads: Vec<CloudUploadAttachment> = Vec::new();
    for a in iter: attachments
        invariant
            iter.seq() == start,
            prepared_for_upload(start.take(iter.index() as int), metadata@, uploads@),
    {
        let m = a.clone_metadata();
        metadata.push(m);
        uploads.push(CloudUploadAttachment::from_attachment(a));
        proof {
            let k = iter.index() as int;
            assert(start.take(k + 1) =~= start.take(k).push(start[k]));
        }
    }
    proof {
        assert(start.take(start.len() as int) =~= start);
    }
    (metadata, uploads)
}

/// Checks that the server handed out one upload URL per attachment.
pub fn check_upload_url_count(urls: usize, attachments: usize) -> (res: Result<(), ChorusError>)
    ensures
        res is Ok <==> urls == attachments,
        res matches Err(e) ==> (e matches ChorusError::InvalidResponse { error } && error@
            == "Received different number of upload URLs than we have attachments"@),
{
    if urls != attachments {
        return Err(
            ChorusError::InvalidResponse {
                error: String::from_str(
                    "Received different number of upload URLs than we have attachments",
                ),
            },
        );
    }
    Ok(())
}

/// Checks that an upload URL is the one handed out for this attachment.
pub fn check_upload_url_id(url_id: Option<u64>, attachment_id: Option<u64>) -> (res: Result<(), ChorusError>)
    ensures
        res is Ok <==> url_id == attachment_id,
        res matches Err(e) ==> (e matches ChorusError::InvalidResponse { error } && error@
            == "Attachment URL ID does not match attachment ID"@),
{
    if url_id != attachment_id {
        return Err(
            ChorusError::InvalidResponse {
                error: String::from_str("Attachment URL ID does not match attachment ID"),
            },
        );
    }
    Ok(())
}

/// Records, for each uploaded attachment, the name under which it was uploaded; the
/// uploads answer the attachments one to one, in order.
pub fn apply_uploaded_filenames(
    metadata: &mut Vec<PartialDiscordFileAttachment>,
    uploaded: &Vec<CloudAttachment>,
)
    requires
        uploaded@.len() <= old(metadata)@.len(),
    ensures
        final(metadata)@.len() == old(metadata)@.len(),
        forall|i: int|
            0 <= i < uploaded@.len() ==> (#[trigger] final(metadata)@[i]).uploaded_filename == Some(
                uploaded@[i].upload_filename,
            ) && final(metadata)@[i].filename == old(metadata)@[i].filename
                && final(metadata)@[i].content_type == old(metadata)@[i].content_type
                && final(metadata)@[i].content == old(metadata)@[i].content
                && same_metadata(
                final(metadata)@[i],
                PartialDiscordFileAttachment {
                    uploaded_filename: Some(uploaded@[i].upload_filename),
                    ..old(metadata)@[i]
                },
            ),
        forall|i: int|
            uploaded@.len() <= i < old(metadata)@.len() ==> #[trigger] final(metadata)@[i]
                == old(metadata)@[i],
{
    let ghost start = metadata@;
    let mut i: usize = 0;
    while i < uploaded.len()
        invariant
            uploaded@.len() <= start.len(),
            metadata@.len() == start.len(),
            i <= uploaded@.len(),
            forall|k: int|
                0 <= k < i ==> (#[trigger] metadata@[k]).uploaded_filename == Some(
                    uploaded@[k].upload_filename,
                ) && metadata@[k].filename == start[k].filename
                    && metadata@[k].content_type == start[k].content_type
                    && metadata@[k].content == start[k].content
                    && same_metadata(
                    metadata@[k],
                    PartialDiscordFileAttachment {
                        uploaded_filename: Some(uploaded@[k].upload_filename),
                        ..start[k]
                    },
                ),
            forall|k: int| i <= k < start.len() ==> #[trigger] metadata@[k] == start[k],
        decreases uploaded@.len() - i,
    {
        metadata[i].uploaded_filename = Some(uploaded[i].upload_filename.clone());
        i = i + 1;
    }
}

/// Checks the answer of the storage bucket to the upload of one attachment: a success lets
/// the uploads go on; any other status stops them with that status and the answer's body.
pub fn check_upload_status(status: u16, body: String) -> (res: Result<(), ChorusError>)
    ensures
        res is Ok <==> spec_status_is_success(status),
        !spec_status_is_success(status) ==> res == Err::<(), ChorusError>(
            ChorusError::ReceivedErrorCode { error_code: status, error: body },
        ),
{
    if !status_is_success(status) {
        return Err(ChorusError::ReceivedErrorCode { error_code: status, error: body });
    }
    Ok(())
}

/// What the upload loop does next.
#[derive(Debug)]
pub enum UploadAction {
    /// Upload the attachment at this position (after checking its URL).
    Upload(usize),
    /// Every attachment is uploaded.
    Finish,
    /// Stop with this error: the last upload failed.
    Fail(ChorusError),
}

/// Decides the next step of uploading attachments to a storage bucket, given how many are
/// uploaded already, how many there are and how the last upload went. The attachments go
/// one after another in order, and the first failure stops the uploads.
pub fn next_upload(done: usize, total: usize, last: Result<(), ChorusError>) -> (res: UploadAction)
    ensures
        last matches Err(e) ==> res == UploadAction::Fail(e),
        last is Ok && done < total ==> res == UploadAction::Upload(done),
        last is Ok && done >= total ==> res is Finish,
{
    match last {
        Err(e) => UploadAction::Fail(e),
        Ok(()) => if done < total {
            UploadAction::Upload(done)
        } else {
            UploadAction::Finish
        },
    }
}

/// Checks the messages of a bulk delete before it is sent: at least two are needed.
pub fn check_bulk_delete(messages: usize) -> (res: Result<(), ChorusError>)
    ensures
        res is Ok <==> messages >= 2,
        res matches Err(e) ==> (e matches ChorusError::InvalidArguments { error } && error@
            == "`messages` must contain at least 2 entries."@),
{
    if messages < 2 {
        return Err(
            ChorusError::InvalidArguments {
                error: String::from_str("`messages` must contain at least 2 entries."),
            },
        );
    }
    Ok(())
}

/// Where a message search runs.
#[derive(Clone, Copy, Debug, PartialEq, Eq, Structural)]
pub enum MessageSearchEndpoint {
    /// In a (private) channel.
    Channel(Snowflake),
    /// In a guild.
    GuildChannel(Snowflake),
}

impl MessageSearchEndpoint {
    /// The rate-limit bucket a search at this endpoint counts against.
    pub fn limit_type(&self) -> (res: LimitType)
        ensures
            res == match *self {
                MessageSearchEndpoint::Channel(id) => LimitType::Channel(id),
                MessageSearchEndpoint::GuildChannel(id) => LimitType::Guild(id),
            },
    {
        match self {
            MessageSearchEndpoint::Channel(id) => LimitType::Channel(*id),
            MessageSearchEndpoint::GuildChannel(id) => LimitType::Guild(*id),
        }
    }
}

/// The concatenation of the groups of `groups`, in order.
pub open spec fn flattened<T>(groups: Seq<Vec<T>>) -> Seq<T>
    decreases groups.len(),
{
    if groups.len() == 0 {
        Seq::empty()
    } else {
        flattened(groups.drop_last()) + groups.last()@
    }
}

/// The items of all groups, group after group.
pub fn flatten<T>(groups: Vec<Vec<T>>) -> (res: Vec<T>)
    ensures
        res@ == flattened(groups@),
{
    let ghost start = groups@;
    let mut res: Vec<T> = Vec::new();
    for g in iter: groups
        invariant
            iter.seq() == start,
            res@ == flattened(start.take(iter.index() as int)),
    {
        let mut g = g;
        let ghost before = res@;
        res.append(&mut g);
        proof {
            let k = iter.index() as int;
            assert(start.take(k + 1).drop_last() =~= start.take(k));
        }
    }
    proof {
        assert(start.take(start.len() as int) =~= start);
    }
    res
}

/// What a message search returned, as far as the library reads it.
#[derive(Debug)]
pub enum SearchOutcome<T> {
    /// The messages found.
    Messages(Vec<T>),
    /// The response was not a JSON object, or neither messages nor an index notice.
    Unexpected,
    /// The channel or guild is not indexed yet.
    NotIndexed { code: u64, retry_after: u64 },
}

/// What a search response means: its messages, if it is an object with a `messages` field
/// that parses; otherwise an index notice, if it has both a `code` and a `retry_after`;
/// otherwise an unexpected response.
pub fn search_outcome<T>(
    is_object: bool,
    messages: Option<Vec<Vec<T>>>,
    code: Option<u64>,
    retry_after: Option<u64>,
) -> (res: SearchOutcome<T>)
    ensures
        !is_object ==> res is Unexpected,
        is_object && messages is Some ==> (res matches SearchOutcome::Messages(m) && m@
            == flattened(messages->0@)),
        is_object && messages is None ==> match (code, retry_after) {
            (Some(c), Some(r)) => res == SearchOutcome::<T>::NotIndexed { code: c, retry_after: r },
            _ => res is Unexpected,
        },
{
    if !is_object {
        return SearchOutcome::Unexpected;
    }
    if let Some(groups) = messages {
        return SearchOutcome::Messages(flatten(groups));
    }
    match (code, retry_after) {
        (Some(c), Some(r)) => SearchOutcome::NotIndexed { code: c, retry_after: r },
        _ => SearchOutcome::Unexpected,
    }
}

/// The message given when a search hits a channel or guild that is not indexed yet.
pub open spec fn not_indexed_message(code: u64, retry_after: u64) -> Seq<char> {
    "Index not yet available. Try again later. Code: "@ + decimal(code as nat) + ". Retry after "@
        + decimal(retry_after as nat) + "s"@
}

/// The error returned when a search hits a channel or guild that is not indexed yet.
pub fn not_indexed_error(code: u64, retry_after: u64) -> (res: ChorusError)
    ensures
        res matches ChorusError::InvalidResponse { error } && error@ == not_indexed_message(
            code,
            retry_after,
        ),
{
    let mut error = String::from_str("Index not yet available. Try again later. Code: ");
    error.append(decimal_string(code).as_str());
    error.append(". Retry after ");
    error.append(decimal_string(retry_after).as_str());
    error.append("s");
    ChorusError::InvalidResponse { error }
}

} // verus!

verus! {

/// The name of the multipart form part that carries the attachment at `index`.
pub open spec fn spec_attachment_part_name(index: u64) -> Seq<char> {
    "files["@ + decimal(index as nat) + "]"@
}

/// The name of the multipart form part that carries the attachment at `index`:
/// `files[index]`.
pub fn attachment_part_name(index: u64) -> (res: String)
    ensures
        res@ == spec_attachment_part_name(index),
{
    let mut name = String::from_str("files[");
    name.append(decimal_string(index).as_str());
    name.append("]");
    name
}

/// The content disposition of the multipart form part named `part_name` that carries the
/// file `filename`.
pub open spec fn spec_attachment_content_disposition(part_name: Seq<char>, filename: Seq<char>) -> Seq<char> {
    "form-data; name=\""@ + part_name + "\"; filename=\""@ + filename + "\""@
}

/// The content disposition of the multipart form part named `part_name` that carries the
/// file `filename`.
pub fn attachment_content_disposition(part_name: &str, filename: &str) -> (res: String)
    ensures
        res@ == spec_attachment_content_disposition(part_name@, filename@),
{
    let mut disposition = String::from_str("form-data; name=\"");
    disposition.append(part_name);
    disposition.append("\"; filename=\"");
    disposition.append(filename);
    disposition.append("\"");
    disposition
}

} // verus!

verus! {

/// A message without attachments is always sent as plain JSON; with attachments, Spacebar and
/// Symfonia instances get a multipart form and any other instance a storage-bucket upload.
pub proof fn lemma_send_methods(has_attachments: bool, software: InstanceSoftware)
    ensures
        !has_attachments ==> spec_send_method(has_attachments, software) == SendMethod::WithoutAttachments,
        has_attachments && software == InstanceSoftware::Other ==> spec_send_method(has_attachments, software)
            == SendMethod::CloudAttachments,
        has_attachments && software != InstanceSoftware::Other ==> spec_send_method(
            has_attachments,
            software,
        ) == SendMethod::MultipartAttachments,
{
}

} // verus!
