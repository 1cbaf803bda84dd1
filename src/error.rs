//! The failures of an attachment pull, and how each one is reported.
use vstd::prelude::*;

verus! {

/// Every way an attachment pull can fail. Each kind is reported with
/// exactly one status code and one short message.
#[derive(Clone, Copy, Debug, PartialEq, Eq, Structural)]
pub enum PullError {
    /// The channel identifier does not have the shape of a snowflake.
    BadChannelId,
    /// The message identifier does not have the shape of a snowflake.
    BadMessageId,
    /// No credential is configured for the upstream API.
    CredentialMissing,
    /// The upstream API answered 401.
    CredentialRejected,
    /// The upstream API answered 403.
    Forbidden,
    /// The upstream API answered 404.
    NotFound,
    /// The message carries no `.pcap` or `.pcapng` attachment.
    NoMatchingAttachment,
    /// The attachment is larger than the size ceiling.
    PayloadTooLarge,
    /// The upstream API could not be reached.
    UpstreamUnreachable,
    /// The upstream API's answer did not parse as a message.
    UpstreamBadResponse,
    /// The upstream API answered with another non-success status.
    UpstreamOther,
    /// The attachment could not be fetched, or its server did not answer
    /// with success.
    DownloadFailed,
    /// The attachment's body broke off while it was being read.
    ReadFailed,
}

impl PullError {
    pub open spec fn spec_status(self) -> u16 {
        match self {
            PullError::BadChannelId => 400,
            PullError::BadMessageId => 400,
            PullError::NoMatchingAttachment => 400,
            PullError::PayloadTooLarge => 400,
            PullError::CredentialMissing => 401,
            PullError::CredentialRejected => 401,
            PullError::Forbidden => 403,
            PullError::NotFound => 404,
            PullError::UpstreamUnreachable => 500,
            PullError::UpstreamBadResponse => 500,
            PullError::UpstreamOther => 500,
            PullError::DownloadFailed => 500,
            PullError::ReadFailed => 500,
        }
    }

    pub open spec fn spec_message(self) -> Seq<char> {
        match self {
            PullError::BadChannelId => "Invalid channel ID format"@,
            PullError::BadMessageId => "Invalid message ID format"@,
            PullError::CredentialMissing => "Discord OAuth token not configured"@,
            PullError::CredentialRejected => "Discord authentication failed (invalid or missing token)"@,
            PullError::Forbidden => "Access denied to Discord message"@,
            PullError::NotFound => "Discord message not found"@,
            PullError::NoMatchingAttachment => "Message has no PCAP attachments (.pcap or .pcapng)"@,
            PullError::PayloadTooLarge => "Attachment exceeds maximum size limit (100 MB)"@,
            PullError::UpstreamUnreachable => "Failed to connect to Discord API"@,
            PullError::UpstreamBadResponse => "Failed to parse Discord response"@,
            PullError::UpstreamOther => "Discord API error"@,
            PullError::DownloadFailed => "Failed to download attachment"@,
            PullError::ReadFailed => "Failed to read attachment"@,
        }
    }

    /// The HTTP status code that reports this failure.
    pub fn status_code(&self) -> (r: u16)
        ensures
            r == self.spec_status(),
    {
        match self {
            PullError::BadChannelId => 400,
            PullError::BadMessageId => 400,
            PullError::NoMatchingAttachment => 400,
            PullError::PayloadTooLarge => 400,
            PullError::CredentialMissing => 401,
            PullError::CredentialRejected => 401,
            PullError::Forbidden => 403,
            PullError::NotFound => 404,
            PullError::UpstreamUnreachable => 500,
            PullError::UpstreamBadResponse => 500,
            PullError::UpstreamOther => 500,
            PullError::DownloadFailed => 500,
            PullError::ReadFailed => 500,
        }
    }

    /// The short message that reports this failure. It never repeats what
    /// the upstream service sent.
    pub fn message(&self) -> (r: String)
        ensures
            r@ == self.spec_message(),
    {
        let s = match self {
            PullError::BadChannelId => "Invalid channel ID format",
            PullError::BadMessageId => "Invalid message ID format",
            PullError::CredentialMissing => "Discord OAuth token not configured",
            PullError::CredentialRejected => "Discord authentication failed (invalid or missing token)",
            PullError::Forbidden => "Access denied to Discord message",
            PullError::NotFound => "Discord message not found",
            PullError::NoMatchingAttachment => "Message has no PCAP attachments (.pcap or .pcapng)",
            PullError::PayloadTooLarge => "Attachment exceeds maximum size limit (100 MB)",
            PullError::UpstreamUnreachable => "Failed to connect to Discord API",
            PullError::UpstreamBadResponse => "Failed to parse Discord response",
            PullError::UpstreamOther => "Discord API error",
            PullError::DownloadFailed => "Failed to download attachment",
            PullError::ReadFailed => "Failed to read attachment",
        };
        String::from_str(s)
    }
}

/// Every failure is reported with a client or server error status and a
/// message that is not empty.
pub proof fn lemma_error_report_nonempty(e: PullError)
    ensures
        400 <= e.spec_status() <= 500,
        e.spec_message().len() > 0,
{
    reveal_strlit("Invalid channel ID format");
    reveal_strlit("Invalid message ID format");
    reveal_strlit("Discord OAuth token not configured");
    reveal_strlit("Discord authentication failed (invalid or missing token)");
    reveal_strlit("Access denied to Discord message");
    reveal_strlit("Discord message not found");
    reveal_strlit("Message has no PCAP attachments (.pcap or .pcapng)");
    reveal_strlit("Attachment exceeds maximum size limit (100 MB)");
    reveal_strlit("Failed to connect to Discord API");
    reveal_strlit("Failed to parse Discord response");
    reveal_strlit("Discord API error");
    reveal_strlit("Failed to download attachment");
    reveal_strlit("Failed to read attachment");
}

} // verus!
