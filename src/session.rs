//! One attachment pull as a state machine. The caller performs the upstream
//! calls; the session decides, from each answer, what happens next, and
//! ends the pull at the first failure.
use vstd::prelude::*;

use crate::discord::{
    begin_pull, check_download_head, check_message_response, download_head_error, has_capture_attachment, spec_is_success,
    first_pcap_attachment, is_first_capture, message_outcome, start_error, spec_authorization,
    spec_message_url, DiscordMessage, MessageRequest, PayloadBuffer, MAX_ATTACHMENT_SIZE,
};
use crate::error::PullError;

verus! {

/// Where a pull stands.
pub enum PullStage {
    /// The message fetch has been sent.
    AwaitingMessage,
    /// The attachment download has been sent.
    AwaitingDownload,
    /// The attachment body is being read.
    Reading(PayloadBuffer),
    /// The answer has been given; nothing more happens.
    Finished,
}

/// What the caller saw of the upstream call it made.
pub enum PullEvent {
    /// The message fetch could not reach the upstream API.
    MessageUnreachable,
    /// The upstream API answered the message fetch; `parsed` is its body read
    /// as a message, where the status was a success and the body parsed.
    MessageAnswered { status: u16, parsed: Option<DiscordMessage> },
    /// The attachment server could not be reached.
    DownloadUnreachable,
    /// The attachment server answered with this status and declared length.
    DownloadAnswered { status: u16, content_length: Option<u64> },
    /// The next chunk of the attachment body.
    Chunk(Vec<u8>),
    /// Reading the body broke off.
    BodyBroken,
    /// The body has been read to its end.
    BodyDone,
}

/// What the caller is to do next.
pub enum PullAction {
    /// Download the attachment at `url`, without credential.
    Download { url: String },
    /// Read the next chunk of the body.
    ReadBody,
    /// Answer the request: the attachment's bytes, or the failure.
    Respond(Result<Vec<u8>, PullError>),
    /// The event does not belong to this stage; nothing changes.
    Ignore,
}

pub enum StageView {
    AwaitingMessage,
    AwaitingDownload,
    Reading(Seq<u8>),
    Finished,
}

pub enum EventView {
    MessageUnreachable,
    MessageAnswered { status: u16, parsed: Option<DiscordMessage> },
    DownloadUnreachable,
    DownloadAnswered { status: u16, content_length: Option<u64> },
    Chunk(Seq<u8>),
    BodyBroken,
    BodyDone,
}

pub enum ActionView {
    Download(Seq<char>),
    ReadBody,
    Respond(Result<Seq<u8>, PullError>),
    Ignore,
}

impl View for PullStage {
    type V = StageView;

    open spec fn view(&self) -> StageView {
        match self {
            PullStage::AwaitingMessage => StageView::AwaitingMessage,
            PullStage::AwaitingDownload => StageView::AwaitingDownload,
            PullStage::Reading(b) => StageView::Reading(b@),
            PullStage::Finished => StageView::Finished,
        }
    }
}

impl View for PullEvent {
    type V = EventView;

    open spec fn view(&self) -> EventView {
        match self {
            PullEvent::MessageUnreachable => EventView::MessageUnreachable,
            PullEvent::MessageAnswered { status, parsed } => EventView::MessageAnswered {
                status: *status,
                parsed: *parsed,
            },
            PullEvent::DownloadUnreachable => EventView::DownloadUnreachable,
            PullEvent::DownloadAnswered { status, content_length } => EventView::DownloadAnswered {
                status: *status,
                content_length: *content_length,
            },
            PullEvent::Chunk(c) => EventView::Chunk(c@),
            PullEvent::BodyBroken => EventView::BodyBroken,
            PullEvent::BodyDone => EventView::BodyDone,
        }
    }
}

impl View for PullAction {
    type V = ActionView;

    open spec fn view(&self) -> ActionView {
        match self {
            PullAction::Download { url } => ActionView::Download(url@),
            PullAction::ReadBody => ActionView::ReadBody,
            PullAction::Respond(Ok(bytes)) => ActionView::Respond(Ok(bytes@)),
            PullAction::Respond(Err(e)) => ActionView::Respond(Err(*e)),
            PullAction::Ignore => ActionView::Ignore,
        }
    }
}

/// The url of the first capture attachment of `m`.
pub open spec fn capture_url(m: DiscordMessage) -> Seq<char> {
    m.attachments@[choose|i: int| is_first_capture(m.attachments@, i)].url@
}

pub open spec fn fail(e: PullError) -> (StageView, ActionView) {
    (StageView::Finished, ActionView::Respond(Err(e)))
}

/// The transition table of a pull.
pub open spec fn spec_step(stage: StageView, event: EventView) -> (StageView, ActionView) {
    match (stage, event) {
        (StageView::AwaitingMessage, EventView::MessageUnreachable) => fail(
            PullError::UpstreamUnreachable,
        ),
        (StageView::AwaitingMessage, EventView::MessageAnswered { status, parsed }) => match message_outcome(status, parsed) {
            Err(e) => fail(e),
            Ok(m) => (StageView::AwaitingDownload, ActionView::Download(capture_url(m))),
        },
        (StageView::AwaitingDownload, EventView::DownloadUnreachable) => fail(PullError::DownloadFailed),
        (StageView::AwaitingDownload, EventView::DownloadAnswered { status, content_length }) => match download_head_error(status, content_length) {
            Some(e) => fail(e),
            None => (StageView::Reading(Seq::empty()), ActionView::ReadBody),
        },
        (StageView::Reading(body), EventView::Chunk(c)) => if body.len() + c.len() > MAX_ATTACHMENT_SIZE {
            fail(PullError::PayloadTooLarge)
        } else {
            (StageView::Reading(body + c), ActionView::ReadBody)
        },
        (StageView::Reading(_), EventView::BodyBroken) => fail(PullError::ReadFailed),
        (StageView::Reading(body), EventView::BodyDone) => (StageView::Finished, ActionView::Respond(Ok(body))),
        _ => (stage, ActionView::Ignore),
    }
}

/// When the upstream API answers 404 for the message, the pull is answered
/// at once with a 404 and a message that is not empty, whatever the body
/// held; after that, no event leads to a download or to any other action.
pub proof fn lemma_not_found_ends_pull(parsed: Option<DiscordMessage>, later: EventView)
    ensures
        spec_step(
            StageView::AwaitingMessage,
            EventView::MessageAnswered { status: 404, parsed },
        ) == fail(PullError::NotFound),
        PullError::NotFound.spec_status() == 404,
        PullError::NotFound.spec_message().len() > 0,
        spec_step(StageView::Finished, later) == (StageView::Finished, ActionView::Ignore),
{
    crate::error::lemma_error_report_nonempty(PullError::NotFound);
}

/// A pull whose message fetch succeeds with a message that has a capture
/// attachment, whose download answers with success and a declared length
/// within the ceiling (or none), and whose body is read within the ceiling,
/// is answered with exactly the bytes that were read.
pub proof fn lemma_pull_delivers_body(
    message_status: u16,
    message: DiscordMessage,
    download_status: u16,
    content_length: Option<u64>,
    body: Seq<u8>,
)
    requires
        spec_is_success(message_status),
        has_capture_attachment(message.attachments@),
        spec_is_success(download_status),
        content_length matches Some(n) ==> n <= MAX_ATTACHMENT_SIZE,
        body.len() <= MAX_ATTACHMENT_SIZE,
    ensures
        spec_step(
            StageView::AwaitingMessage,
            EventView::MessageAnswered { status: message_status, parsed: Some(message) },
        ) == (StageView::AwaitingDownload, ActionView::Download(capture_url(message))),
        spec_step(
            StageView::AwaitingDownload,
            EventView::DownloadAnswered { status: download_status, content_length },
        ) == (StageView::Reading(Seq::empty()), ActionView::ReadBody),
        spec_step(StageView::Reading(Seq::empty()), EventView::Chunk(body)) == (
            StageView::Reading(body),
            ActionView::ReadBody,
        ),
        spec_step(StageView::Reading(body), EventView::BodyDone) == (
            StageView::Finished,
            ActionView::Respond(Ok(body)),
        ),
{
    assert(Seq::<u8>::empty() + body =~= body);
}

/// One attachment pull in progress.
pub struct PullSession {
    stage: PullStage,
}

impl View for PullSession {
    type V = StageView;

    closed spec fn view(&self) -> StageView {
        self.stage@
    }
}

impl PullSession {
    /// A body being read never exceeds the ceiling.
    pub closed spec fn wf(&self) -> bool {
        match self.stage {
            PullStage::Reading(b) => b.wf(),
            _ => true,
        }
    }

    /// Opens a pull: checks the credential and the identifiers and, where
    /// they pass, hands back the message fetch to make.
    pub fn start(channel_id: &str, message_id: &str, token: Option<&str>) -> (r: Result<
        (PullSession, MessageRequest),
        PullError,
    >)
        ensures
            match start_error(channel_id@, message_id@, token is Some) {
                Some(e) => r == Err::<(PullSession, MessageRequest), PullError>(e),
                None => r matches Ok((s, req)) && s@ == StageView::AwaitingMessage && s.wf()
                    && req.url@ == spec_message_url(channel_id@, message_id@)
                    && req.authorization@ == spec_authorization(token->Some_0@),
            },
    {
        match begin_pull(channel_id, message_id, token) {
            Ok(req) => Ok((PullSession { stage: PullStage::AwaitingMessage }, req)),
            Err(e) => Err(e),
        }
    }

    /// Takes what the caller saw of its last upstream call and says what to
    /// do next.
    pub fn step(&mut self, event: PullEvent) -> (r: PullAction)
        requires
            old(self).wf(),
        ensures
            final(self).wf(),
            (final(self)@, r@) == spec_step(old(self)@, event@),
    {
        let mut stage = PullStage::Finished;
        core::mem::swap(&mut stage, &mut self.stage);
        match (stage, event) {
            (PullStage::AwaitingMessage, PullEvent::MessageUnreachable) => {
                PullAction::Respond(Err(PullError::UpstreamUnreachable))
            },
            (PullStage::AwaitingMessage, PullEvent::MessageAnswered { status, parsed }) => {
                match check_message_response(status, parsed) {
                    Err(e) => PullAction::Respond(Err(e)),
                    Ok(m) => {
                        let i = first_pcap_attachment(&m.attachments).unwrap();
                        proof {
                            let k = choose|k: int| is_first_capture(m.attachments@, k);
                            assert(is_first_capture(m.attachments@, k));
                            if k < i {
                                assert(!crate::snowflake::capture_file_name(m.attachments@[k].filename@));
                            } else if k > i {
                                assert(!crate::snowflake::capture_file_name(m.attachments@[i as int].filename@));
                            }
                        }
                        let url = m.attachments[i].url.clone();
                        self.stage = PullStage::AwaitingDownload;
                        PullAction::Download { url }
                    },
                }
            },
            (PullStage::AwaitingDownload, PullEvent::DownloadUnreachable) => {
                PullAction::Respond(Err(PullError::DownloadFailed))
            },
            (PullStage::AwaitingDownload, PullEvent::DownloadAnswered { status, content_length }) => {
                match check_download_head(status, content_length) {
                    Err(e) => PullAction::Respond(Err(e)),
                    Ok(()) => {
                        self.stage = PullStage::Reading(PayloadBuffer::new());
                        PullAction::ReadBody
                    },
                }
            },
            (PullStage::Reading(mut body), PullEvent::Chunk(c)) => {
                match body.push_chunk(c.as_slice()) {
                    Err(e) => PullAction::Respond(Err(e)),
                    Ok(()) => {
                        self.stage = PullStage::Reading(body);
                        PullAction::ReadBody
                    },
                }
            },
            (PullStage::Reading(_), PullEvent::BodyBroken) => {
                PullAction::Respond(Err(PullError::ReadFailed))
            },
            (PullStage::Reading(body), PullEvent::BodyDone) => {
                PullAction::Respond(Ok(body.into_bytes()))
            },
            (stage, _) => {
                self.stage = stage;
                PullAction::Ignore
            },
        }
    }
}

} // verus!
