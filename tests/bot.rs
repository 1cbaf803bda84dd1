use pcap_relay::bot::{find_pcap_mention, pcap_detect_log, pcap_reply, viewer_link};
use pcap_relay::reply::{not_found_reply, parse_command, server_lookup_reply, server_reply, BotCommand};
use pcap_relay::resolver::{PlayerInfo, ServerInfo};

fn server(discord: Option<&str>, players: Option<u32>) -> ServerInfo {
    ServerInfo {
        name: "Coldeve".to_string(),
        description: String::new(),
        server_type: "PvE".to_string(),
        software: "ACE".to_string(),
        host: "ac.example".to_string(),
        port: "9000".to_string(),
        website_url: None,
        discord_url: discord.map(|d| d.to_string()),
        players: players.map(|count| PlayerInfo {
            count,
            updated_at: String::new(),
            age: "5 minutes ago".to_string(),
        }),
    }
}

#[test]
fn mention_is_case_insensitive_contains() {
    let names = vec!["notes.txt".to_string(), "TRACE.PCAP".to_string(), "b.pcap".to_string()];
    assert_eq!(find_pcap_mention(&names), Some(1));
    let names = vec!["x.pcap.gz".to_string()];
    assert_eq!(find_pcap_mention(&names), Some(0));
    let names = vec!["notes.txt".to_string(), "pcap".to_string()];
    assert_eq!(find_pcap_mention(&names), None);
}

#[test]
fn link_and_reply_texts() {
    let link = viewer_link("http://localhost:3000", "11", "22");
    assert_eq!(link, "http://localhost:3000?channel=11&msg=22");
    assert_eq!(pcap_reply(&link), "You can view your PCAP [here](http://localhost:3000?channel=11&msg=22)");
}

#[test]
fn detect_log_records_failure() {
    let ok = pcap_detect_log("u".into(), "name".into(), "c".into(), None, "m".into(), true);
    assert_eq!(ok.command_name, "pcap_detect");
    assert!(ok.success && ok.error_message.is_none());
    let bad = pcap_detect_log("u".into(), "name".into(), "c".into(), Some("g".into()), "m".into(), false);
    assert_eq!(bad.error_message.as_deref(), Some("Failed to send reply"));
    assert_eq!(bad.guild_id.as_deref(), Some("g"));
}

#[test]
fn command_names() {
    assert_eq!(parse_command("status"), BotCommand::Status);
    assert_eq!(parse_command("server"), BotCommand::Server);
    assert_eq!(parse_command("Server"), BotCommand::Unknown);
}

#[test]
fn server_reply_variants() {
    assert_eq!(
        server_reply(&server(Some("https://d.example"), Some(1))),
        "You can connect to Coldeve at `ac.example:9000`. Coldeve's Discord is https://d.example. As of 5 minutes ago, 1 character was in the game world."
    );
    assert_eq!(
        server_reply(&server(None, Some(120))),
        "You can connect to Coldeve at `ac.example:9000`. Coldeve doesn't have a Discord. As of 5 minutes ago, 120 characters were in the game world."
    );
    assert_eq!(
        server_reply(&server(Some("https://d.example"), None)),
        "You can connect to Coldeve at `ac.example:9000`. Coldeve's Discord is https://d.example. I don't seem to have any information on player counts. They must not use TreeStats :("
    );
    assert_eq!(
        server_reply(&server(None, Some(0))),
        "You can connect to Coldeve at `ac.example:9000`. Coldeve doesn't have a Discord. As of 5 minutes ago, 0 characters were in the game world."
    );
    assert_eq!(
        server_reply(&server(None, None)),
        "You can connect to Coldeve at `ac.example:9000`. Coldeve doesn't have a Discord and I don't seem to have any information on player counts. They must not use TreeStats :("
    );
}

#[test]
fn lookup_reply() {
    let servers = vec![server(None, None)];
    assert!(server_lookup_reply(&servers, "coldeve").starts_with("You can connect to Coldeve"));
    assert_eq!(
        server_lookup_reply(&servers, "qq"),
        "Server 'qq' not found. Please check the name and try again."
    );
    assert_eq!(not_found_reply(""), "Server '' not found. Please check the name and try again.");
}
