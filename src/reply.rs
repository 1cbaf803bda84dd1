//! The texts with which the bot answers its slash commands.
use vstd::prelude::*;

use crate::resolver::{
    ServerInfo, PlayerInfo, candidate_scores, find_server, has_exact, is_best, is_first_exact,
    no_candidate,
};

verus! {

/// The slash commands that the bot knows.
#[derive(Clone, Copy, Debug, PartialEq, Eq, Structural)]
pub enum BotCommand {
    /// `status`: is the bot alive.
    Status,
    /// `server <name>`: connection details of a server.
    Server,
    /// Anything else.
    Unknown,
}

/// Which command a command name stands for.
pub fn parse_command(name: &str) -> (r: BotCommand)
    ensures
        name@ == "status"@ ==> r == BotCommand::Status,
        name@ == "server"@ ==> r == BotCommand::Server,
        name@ != "status"@ && name@ != "server"@ ==> r == BotCommand::Unknown,
{
    proof {
        reveal_strlit("status");
        reveal_strlit("server");
        assert("status"@[2] != "server"@[2]);
    }
    let owned = String::from_str(name);
    if owned == String::from_str("status") {
        BotCommand::Status
    } else if owned == String::from_str("server") {
        BotCommand::Server
    } else {
        BotCommand::Unknown
    }
}

pub open spec fn digit_char(d: nat) -> char {
    seq!['0', '1', '2', '3', '4', '5', '6', '7', '8', '9'][d as int]
}

/// The decimal digits of `n`, most significant first, without leading zeros.
pub open spec fn decimal(n: nat) -> Seq<char>
    decreases n,
{
    if n < 10 {
        seq![digit_char(n)]
    } else {
        decimal(n / 10).push(digit_char(n % 10))
    }
}

fn digit_str(d: u32) -> (r: &'static str)
    requires
        d < 10,
    ensures
        r@ == seq![digit_char(d as nat)],
{
    proof {
        reveal_strlit("0");
        reveal_strlit("1");
        reveal_strlit("2");
        reveal_strlit("3");
        reveal_strlit("4");
        reveal_strlit("5");
        reveal_strlit("6");
        reveal_strlit("7");
        reveal_strlit("8");
        reveal_strlit("9");
    }
    let r = match d {
        0 => "0",
        1 => "1",
        2 => "2",
        3 => "3",
        4 => "4",
        5 => "5",
        6 => "6",
        7 => "7",
        8 => "8",
        _ => "9",
    };
    assert(r@ =~= seq![digit_char(d as nat)]);
    r
}

/// Appends the decimal digits of `n` to `out`.
pub fn append_decimal(out: &mut String, n: u32)
    ensures
        final(out)@ == old(out)@ + decimal(n as nat),
    decreases n,
{
    if n >= 10 {
        append_decimal(out, n / 10);
    }
    out.append(digit_str(n % 10));
    proof {
        if n >= 10 {
            assert(final(out)@ =~= old(out)@ + decimal(n as nat));
        } else {
            assert(final(out)@ =~= old(out)@ + decimal(n as nat));
        }
    }
}

/// The player-count sentence: "N character(s) was/were in the game world".
pub open spec fn spec_players_sentence(p: PlayerInfo) -> Seq<char> {
    "As of "@ + p.age@ + ", "@ + decimal(p.count as nat) + (if p.count == 1 {
        " character was"@
    } else {
        " characters were"@
    }) + " in the game world."@
}

/// The answer to `server` when the server was found.
pub open spec fn spec_server_reply(s: ServerInfo) -> Seq<char> {
    "You can connect to "@ + s.name@ + " at `"@ + s.host@ + ":"@ + s.port@ + "`."@ + match (
        s.discord_url,
        s.players,
    ) {
        (Some(d), Some(p)) => " "@ + s.name@ + "'s Discord is "@ + d@ + ". "@
            + spec_players_sentence(p),
        (None, Some(p)) => " "@ + s.name@ + " doesn't have a Discord. "@ + spec_players_sentence(p),
        (Some(d), None) => " "@ + s.name@ + "'s Discord is "@ + d@
            + ". I don't seem to have any information on player counts. They must not use TreeStats :("@,
        (None, None) => " "@ + s.name@
            + " doesn't have a Discord and I don't seem to have any information on player counts. They must not use TreeStats :("@,
    }
}

fn append_players_sentence(out: &mut String, p: &PlayerInfo)
    ensures
        final(out)@ == old(out)@ + spec_players_sentence(*p),
{
    out.append("As of ");
    out.append(p.age.as_str());
    out.append(", ");
    append_decimal(out, p.count);
    if p.count == 1 {
        out.append(" character was");
    } else {
        out.append(" characters were");
    }
    out.append(" in the game world.");
    assert(final(out)@ =~= old(out)@ + spec_players_sentence(*p));
}

/// How the bot describes a server it found.
pub fn server_reply(s: &ServerInfo) -> (r: String)
    ensures
        r@ == spec_server_reply(*s),
{
    let mut out = String::from_str("You can connect to ");
    out.append(s.name.as_str());
    out.append(" at `");
    out.append(s.host.as_str());
    out.append(":");
    out.append(s.port.as_str());
    out.append("`.");
    let ghost head = out@;
    out.append(" ");
    out.append(s.name.as_str());
    match (&s.discord_url, &s.players) {
        (Some(d), Some(p)) => {
            out.append("'s Discord is ");
            out.append(d.as_str());
            out.append(". ");
            append_players_sentence(&mut out, p);
        },
        (None, Some(p)) => {
            out.append(" doesn't have a Discord. ");
            append_players_sentence(&mut out, p);
        },
        (Some(d), None) => {
            out.append("'s Discord is ");
            out.append(d.as_str());
            out.append(
                ". I don't seem to have any information on player counts. They must not use TreeStats :(",
            );
        },
        (None, None) => {
            out.append(
                " doesn't have a Discord and I don't seem to have any information on player counts. They must not use TreeStats :(",
            );
        },
    }
    assert(out@ =~= spec_server_reply(*s));
    out
}

pub open spec fn spec_not_found_reply(query: Seq<char>) -> Seq<char> {
    "Server '"@ + query + "' not found. Please check the name and try again."@
}

/// The answer to `server` when no server matched the query.
pub fn not_found_reply(query: &str) -> (r: String)
    ensures
        r@ == spec_not_found_reply(query@),
{
    let mut out = String::from_str("Server '");
    out.append(query);
    out.append("' not found. Please check the name and try again.");
    out
}

/// Resolves `query` against the listing and says what was found. The
/// server named is the one that `find_server` picks.
pub fn server_lookup_reply(servers: &[ServerInfo], query: &str) -> (r: String)
    ensures
        has_exact(servers@, query@) ==> exists|i: int|
            is_first_exact(servers@, query@, i) && r@ == spec_server_reply(#[trigger] servers@[i]),
        !has_exact(servers@, query@) && no_candidate(candidate_scores(servers@, query@)) ==> r@
            == spec_not_found_reply(query@),
        !has_exact(servers@, query@) && !no_candidate(candidate_scores(servers@, query@))
            ==> exists|i: int|
            is_best(candidate_scores(servers@, query@), i) && r@ == spec_server_reply(
                #[trigger] servers@[i],
            ),
{
    match find_server(servers, query) {
        Some(i) => server_reply(&servers[i]),
        None => not_found_reply(query),
    }
}

} // verus!
