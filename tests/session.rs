use pcap_relay::discord::{DiscordAttachment, DiscordMessage, MAX_ATTACHMENT_SIZE};
use pcap_relay::error::PullError;
use pcap_relay::session::{PullAction, PullEvent, PullSession};

const CHANNEL: &str = "123456789012345678";
const MESSAGE: &str = "876543210987654321";

fn message_with(names: &[&str]) -> DiscordMessage {
    DiscordMessage {
        id: MESSAGE.to_string(),
        channel_id: CHANNEL.to_string(),
        attachments: names
            .iter()
            .map(|n| DiscordAttachment {
                id: "9".to_string(),
                filename: n.to_string(),
                url: format!("https://cdn.example/{n}"),
                content_type: Some("application/octet-stream".to_string()),
                size: Some(6),
            })
            .collect(),
    }
}

fn open() -> PullSession {
    let (session, request) = PullSession::start(CHANNEL, MESSAGE, Some("token")).unwrap();
    assert_eq!(request.authorization, "Bot token");
    session
}

fn respond(action: PullAction) -> Result<Vec<u8>, PullError> {
    match action {
        PullAction::Respond(r) => r,
        _ => panic!("expected an answer"),
    }
}

#[test]
fn end_to_end_pull_returns_downloaded_bytes() {
    let mut s = open();
    let action = s.step(PullEvent::MessageAnswered {
        status: 200,
        parsed: Some(message_with(&["readme.md", "capture.pcap"])),
    });
    match action {
        PullAction::Download { url } => assert_eq!(url, "https://cdn.example/capture.pcap"),
        _ => panic!("expected a download"),
    }
    assert!(matches!(
        s.step(PullEvent::DownloadAnswered { status: 200, content_length: Some(6) }),
        PullAction::ReadBody
    ));
    assert!(matches!(s.step(PullEvent::Chunk(vec![0xd4, 0xc3, 0xb2])), PullAction::ReadBody));
    assert!(matches!(s.step(PullEvent::Chunk(vec![0xa1, 0x02, 0x00])), PullAction::ReadBody));
    let body = respond(s.step(PullEvent::BodyDone)).unwrap();
    assert_eq!(body, vec![0xd4, 0xc3, 0xb2, 0xa1, 0x02, 0x00]);
}

#[test]
fn end_to_end_not_found_never_downloads() {
    let mut s = open();
    let e = respond(s.step(PullEvent::MessageAnswered { status: 404, parsed: None })).unwrap_err();
    assert_eq!(e, PullError::NotFound);
    assert_eq!(e.status_code(), 404);
    assert!(!e.message().is_empty());
    assert!(matches!(
        s.step(PullEvent::DownloadAnswered { status: 200, content_length: None }),
        PullAction::Ignore
    ));
    assert!(matches!(s.step(PullEvent::Chunk(vec![1])), PullAction::Ignore));
    assert!(matches!(s.step(PullEvent::BodyDone), PullAction::Ignore));
}

#[test]
fn session_start_errors() {
    assert_eq!(PullSession::start(CHANNEL, MESSAGE, None).err(), Some(PullError::CredentialMissing));
    assert_eq!(PullSession::start("1", MESSAGE, Some("t")).err(), Some(PullError::BadChannelId));
    assert_eq!(PullSession::start(CHANNEL, "x", Some("t")).err(), Some(PullError::BadMessageId));
}

#[test]
fn session_failures() {
    let mut s = open();
    assert_eq!(respond(s.step(PullEvent::MessageUnreachable)), Err(PullError::UpstreamUnreachable));

    let mut s = open();
    let r = s.step(PullEvent::MessageAnswered { status: 200, parsed: Some(message_with(&["a.txt"])) });
    assert_eq!(respond(r), Err(PullError::NoMatchingAttachment));

    let mut s = open();
    assert_eq!(
        respond(s.step(PullEvent::MessageAnswered { status: 403, parsed: None })),
        Err(PullError::Forbidden)
    );

    let mut s = open();
    s.step(PullEvent::MessageAnswered { status: 200, parsed: Some(message_with(&["a.pcap"])) });
    assert_eq!(respond(s.step(PullEvent::DownloadUnreachable)), Err(PullError::DownloadFailed));

    let mut s = open();
    s.step(PullEvent::MessageAnswered { status: 200, parsed: Some(message_with(&["a.pcap"])) });
    let r = s.step(PullEvent::DownloadAnswered { status: 200, content_length: Some(104_857_601) });
    assert_eq!(respond(r), Err(PullError::PayloadTooLarge));

    let mut s = open();
    s.step(PullEvent::MessageAnswered { status: 200, parsed: Some(message_with(&["a.pcap"])) });
    s.step(PullEvent::DownloadAnswered { status: 200, content_length: None });
    assert!(matches!(s.step(PullEvent::Chunk(vec![0; MAX_ATTACHMENT_SIZE])), PullAction::ReadBody));
    assert_eq!(respond(s.step(PullEvent::Chunk(vec![0]))), Err(PullError::PayloadTooLarge));

    let mut s = open();
    s.step(PullEvent::MessageAnswered { status: 200, parsed: Some(message_with(&["a.pcap"])) });
    s.step(PullEvent::DownloadAnswered { status: 200, content_length: Some(104_857_600) });
    assert_eq!(respond(s.step(PullEvent::BodyBroken)), Err(PullError::ReadFailed));
}

#[test]
fn session_ignores_out_of_order_events() {
    let mut s = open();
    assert!(matches!(s.step(PullEvent::BodyDone), PullAction::Ignore));
    assert!(matches!(s.step(PullEvent::DownloadUnreachable), PullAction::Ignore));
    let r = s.step(PullEvent::MessageAnswered { status: 404, parsed: None });
    assert_eq!(respond(r), Err(PullError::NotFound));
}
