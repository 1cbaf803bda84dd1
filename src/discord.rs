//! The attachment pull: the decisions taken around the two upstream calls
//! (fetch the message, download its capture attachment).
use vstd::prelude::*;

use crate::error::PullError;
use crate::snowflake::{capture_file_name, is_pcap_file, is_valid_snowflake, valid_snowflake};

verus! {

/// A message as the upstream API describes it.
#[derive(Clone, Debug)]
pub struct DiscordMessage {
    pub id: String,
    pub channel_id: String,
    pub attachments: Vec<DiscordAttachment>,
}

/// One file attached to a message.
#[derive(Clone, Debug)]
pub struct DiscordAttachment {
    pub id: String,
    pub filename: String,
    pub url: String,
    pub content_type: Option<String>,
    pub size: Option<u32>,
}

/// Where the upstream messaging API lives.
pub const DISCORD_API_BASE: &'static str = "https://discord.com/api/v9";

/// The largest attachment that is relayed: 100 MiB.
pub const MAX_ATTACHMENT_SIZE: usize = 100 * 1024 * 1024;

/// What goes before the credential in the `Authorization` header.
pub const TOKEN_PREFIX: &'static str = "Bot ";

/// The upstream call that fetches one message.
#[derive(Clone, Debug)]
pub struct MessageRequest {
    pub url: String,
    pub authorization: String,
}

pub open spec fn spec_message_url(channel_id: Seq<char>, message_id: Seq<char>) -> Seq<char> {
    DISCORD_API_BASE@ + "/channels/"@ + channel_id + "/messages/"@ + message_id
}

pub open spec fn spec_authorization(token: Seq<char>) -> Seq<char> {
    TOKEN_PREFIX@ + token
}

/// The address of one message on the upstream API.
pub fn message_url(channel_id: &str, message_id: &str) -> (r: String)
    ensures
        r@ == spec_message_url(channel_id@, message_id@),
{
    let mut url = String::from_str(DISCORD_API_BASE);
    url.append("/channels/");
    url.append(channel_id);
    url.append("/messages/");
    url.append(message_id);
    url
}

/// The `Authorization` header value that carries `token`.
pub fn authorization_header(token: &str) -> (r: String)
    ensures
        r@ == spec_authorization(token@),
{
    let mut header = String::from_str(TOKEN_PREFIX);
    header.append(token);
    header
}

/// Which check, if any, stops a pull before any upstream call: the
/// credential is looked at first, then the channel, then the message.
pub open spec fn start_error(
    channel_id: Seq<char>,
    message_id: Seq<char>,
    has_token: bool,
) -> Option<PullError> {
    if !has_token {
        Some(PullError::CredentialMissing)
    } else if !valid_snowflake(channel_id) {
        Some(PullError::BadChannelId)
    } else if !valid_snowflake(message_id) {
        Some(PullError::BadMessageId)
    } else {
        None
    }
}

/// Checks a pull request and, when it may go on, builds the upstream call
/// that fetches the message.
pub fn begin_pull(channel_id: &str, message_id: &str, token: Option<&str>) -> (r: Result<
    MessageRequest,
    PullError,
>)
    ensures
        match start_error(channel_id@, message_id@, token is Some) {
            Some(e) => r == Err::<MessageRequest, PullError>(e),
            None => r matches Ok(req) && req.url@ == spec_message_url(channel_id@, message_id@)
                && req.authorization@ == spec_authorization(token->Some_0@),
        },
{
    let token = match token {
        Some(t) => t,
        None => {
            return Err(PullError::CredentialMissing);
        },
    };
    if !is_valid_snowflake(channel_id) {
        return Err(PullError::BadChannelId);
    }
    if !is_valid_snowflake(message_id) {
        return Err(PullError::BadMessageId);
    }
    Ok(MessageRequest { url: message_url(channel_id, message_id), authorization: authorization_header(token) })
}

pub open spec fn spec_is_success(status: u16) -> bool {
    200 <= status <= 299
}

/// Whether an HTTP status reports success (2xx).
pub fn is_success_status(status: u16) -> (r: bool)
    ensures
        r == spec_is_success(status),
{
    200 <= status && status <= 299
}

/// The failure that a non-success status of the message fetch stands for.
pub open spec fn status_error(status: u16) -> PullError {
    if status == 401 {
        PullError::CredentialRejected
    } else if status == 403 {
        PullError::Forbidden
    } else if status == 404 {
        PullError::NotFound
    } else {
        PullError::UpstreamOther
    }
}

pub open spec fn has_capture_attachment(attachments: Seq<DiscordAttachment>) -> bool {
    exists|i: int| 0 <= i < attachments.len() && capture_file_name(#[trigger] attachments[i].filename@)
}

/// `i` is the first attachment, in the order given, with a capture file name.
pub open spec fn is_first_capture(attachments: Seq<DiscordAttachment>, i: int) -> bool {
    &&& 0 <= i < attachments.len()
    &&& capture_file_name(attachments[i].filename@)
    &&& forall|j: int| 0 <= j < i ==> !capture_file_name(#[trigger] attachments[j].filename@)
}

/// The first attachment whose name ends in `.pcap` or `.pcapng`, if any.
/// The first one wins, whatever the others are.
pub fn first_pcap_attachment(attachments: &Vec<DiscordAttachment>) -> (r: Option<usize>)
    ensures
        r is None <==> !has_capture_attachment(attachments@),
        r matches Some(i) ==> is_first_capture(attachments@, i as int),
{
    let mut i: usize = 0;
    while i < attachments.len()
        invariant
            i <= attachments@.len(),
            forall|j: int| 0 <= j < i ==> !capture_file_name(#[trigger] attachments@[j].filename@),
        decreases attachments@.len() - i,
    {
        if is_pcap_file(attachments[i].filename.as_str()) {
            return Some(i);
        }
        i = i + 1;
    }
    None
}

/// What the answer to the message fetch comes to.
pub open spec fn message_outcome(status: u16, parsed: Option<DiscordMessage>) -> Result<
    DiscordMessage,
    PullError,
> {
    if !spec_is_success(status) {
        Err(status_error(status))
    } else {
        match parsed {
            None => Err(PullError::UpstreamBadResponse),
            Some(m) => if has_capture_attachment(m.attachments@) {
                Ok(m)
            } else {
                Err(PullError::NoMatchingAttachment)
            },
        }
    }
}

/// Decides on the answer to the message fetch: `status` is what the
/// upstream API answered, and `parsed` its body read as a message (`None`
/// where it did not parse, or was not read because the status failed).
pub fn check_message_response(status: u16, parsed: Option<DiscordMessage>) -> (r: Result<
    DiscordMessage,
    PullError,
>)
    ensures
        r == message_outcome(status, parsed),
{
    if !is_success_status(status) {
        if status == 401 {
            return Err(PullError::CredentialRejected);
        } else if status == 403 {
            return Err(PullError::Forbidden);
        } else if status == 404 {
            return Err(PullError::NotFound);
        } else {
            return Err(PullError::UpstreamOther);
        }
    }
    match parsed {
        None => Err(PullError::UpstreamBadResponse),
        Some(m) => {
            if first_pcap_attachment(&m.attachments).is_some() {
                Ok(m)
            } else {
                Err(PullError::NoMatchingAttachment)
            }
        },
    }
}

/// Picks the attachment to download: the first capture file of the message.
pub fn select_attachment(message: &DiscordMessage) -> (r: Result<usize, PullError>)
    ensures
        r is Err <==> !has_capture_attachment(message.attachments@),
        r matches Err(e) ==> e == PullError::NoMatchingAttachment,
        r matches Ok(i) ==> is_first_capture(message.attachments@, i as int),
{
    match first_pcap_attachment(&message.attachments) {
        Some(i) => Ok(i),
        None => Err(PullError::NoMatchingAttachment),
    }
}

/// The failure, if any, that the head of the download's answer already
/// shows: a non-success status, or a declared length over the ceiling.
pub open spec fn download_head_error(status: u16, content_length: Option<u64>) -> Option<PullError> {
    if !spec_is_success(status) {
        Some(PullError::DownloadFailed)
    } else if content_length matches Some(n) && n > MAX_ATTACHMENT_SIZE {
        Some(PullError::PayloadTooLarge)
    } else {
        None
    }
}

/// Decides, before any byte of the body is read, whether the download may
/// go on.
pub fn check_download_head(status: u16, content_length: Option<u64>) -> (r: Result<(), PullError>)
    ensures
        match download_head_error(status, content_length) {
            Some(e) => r == Err::<(), PullError>(e),
            None => r is Ok,
        },
{
    if !is_success_status(status) {
        return Err(PullError::DownloadFailed);
    }
    match content_length {
        Some(n) => {
            if n > MAX_ATTACHMENT_SIZE as u64 {
                Err(PullError::PayloadTooLarge)
            } else {
                Ok(())
            }
        },
        None => Ok(()),
    }
}

/// The body of an attachment as it is read, chunk by chunk, never longer
/// than the size ceiling, whatever length the server declared.
pub struct PayloadBuffer {
    bytes: Vec<u8>,
}

impl View for PayloadBuffer {
    type V = Seq<u8>;

    closed spec fn view(&self) -> Seq<u8> {
        self.bytes@
    }
}

impl PayloadBuffer {
    /// A buffer never holds more than the ceiling.
    pub open spec fn wf(&self) -> bool {
        self@.len() <= MAX_ATTACHMENT_SIZE
    }

    /// An empty body.
    pub fn new() -> (r: PayloadBuffer)
        ensures
            r@ == Seq::<u8>::empty(),
            r.wf(),
    {
        PayloadBuffer { bytes: Vec::new() }
    }

    /// How many bytes have been taken so far.
    pub fn len(&self) -> (r: usize)
        requires
            self.wf(),
        ensures
            r == self@.len(),
            r <= MAX_ATTACHMENT_SIZE,
    {
        self.bytes.len()
    }

    /// Takes the next chunk of the body. A chunk that would carry the body
    /// past the ceiling is refused whole and leaves the buffer as it was.
    pub fn push_chunk(&mut self, chunk: &[u8]) -> (r: Result<(), PullError>)
        requires
            old(self).wf(),
        ensures
            final(self).wf(),
            old(self)@.len() + chunk@.len() > MAX_ATTACHMENT_SIZE ==> r == Err::<(), PullError>(
                PullError::PayloadTooLarge,
            ) && final(self)@ == old(self)@,
            old(self)@.len() + chunk@.len() <= MAX_ATTACHMENT_SIZE ==> r is Ok && final(self)@
                == old(self)@ + chunk@,
    {
        if chunk.len() > MAX_ATTACHMENT_SIZE - self.bytes.len() {
            return Err(PullError::PayloadTooLarge);
        }
        let ghost start = self.bytes@;
        let mut i: usize = 0;
        while i < chunk.len()
            invariant
                start.len() + chunk@.len() <= MAX_ATTACHMENT_SIZE,
                i <= chunk@.len(),
                self.bytes@ == start + chunk@.subrange(0, i as int),
            decreases chunk@.len() - i,
        {
            self.bytes.push(chunk[i]);
            i = i + 1;
            assert(self.bytes@ =~= start + chunk@.subrange(0, i as int));
        }
        assert(chunk@.subrange(0, i as int) =~= chunk@);
        Ok(())
    }

    /// The whole body that was taken.
    pub fn into_bytes(self) -> (r: Vec<u8>)
        requires
            self.wf(),
        ensures
            r@ == self@,
            r@.len() <= MAX_ATTACHMENT_SIZE,
    {
        self.bytes
    }
}

} // verus!
