use pcap_relay::resolver::{
    best_scored, eq_ignore_ascii_case, find_server, ServerInfo, SIMILARITY_THRESHOLD_BITS,
};

fn server(name: &str) -> ServerInfo {
    ServerInfo {
        name: name.to_string(),
        description: String::new(),
        server_type: String::new(),
        software: String::new(),
        host: "play.example".to_string(),
        port: "9000".to_string(),
        website_url: None,
        discord_url: None,
        players: None,
    }
}

#[test]
fn exact_match_precedence() {
    let servers = vec![server("Alpha"), server("alpha-2")];
    assert_eq!(find_server(&servers, "ALPHA"), Some(0));
    let servers = vec![server("alpha-2"), server("Alpha")];
    assert_eq!(find_server(&servers, "ALPHA"), Some(1));
}

#[test]
fn length_gate_keeps_short_query_out() {
    let servers = vec![server("Lighthouse")];
    assert_eq!(find_server(&servers, "Lig"), None);
}

#[test]
fn fuzzy_match_finds_misspelling() {
    let servers = vec![server("Leafcull"), server("Harvestgain")];
    assert_eq!(find_server(&servers, "harvestgian"), Some(1));
    assert_eq!(find_server(&servers, "LEAFCUL"), Some(0));
}

#[test]
fn no_match_returns_none() {
    let servers = vec![server("Alpha"), server("Lighthouse"), server("Coldeve")];
    assert_eq!(find_server(&servers, "zzzzz"), None);
    assert_eq!(find_server(&[], "anything"), None);
}

#[test]
fn threshold_boundary() {
    assert_eq!(SIMILARITY_THRESHOLD_BITS, 0.8f64.to_bits());
    assert_eq!(best_scored(&vec![Some(0.8f64.to_bits())]), Some(0));
    assert_eq!(best_scored(&vec![Some(0.79f64.to_bits())]), None);
}

#[test]
fn best_score_wins_first_on_ties() {
    let s = |v: f64| Some(v.to_bits());
    assert_eq!(best_scored(&vec![s(0.85), None, s(0.95), s(0.9)]), Some(2));
    assert_eq!(best_scored(&vec![s(0.9), s(0.9)]), Some(0));
    assert_eq!(best_scored(&vec![None, s(0.5), s(1.0)]), Some(2));
    assert_eq!(best_scored(&vec![]), None);
}

#[test]
fn ascii_case_folding() {
    assert!(eq_ignore_ascii_case("Alpha", "aLPHA"));
    assert!(!eq_ignore_ascii_case("Alpha", "Alpha "));
    assert!(eq_ignore_ascii_case("Ünïcode", "Ünïcode"));
    assert!(!eq_ignore_ascii_case("Ü", "ü"));
}
