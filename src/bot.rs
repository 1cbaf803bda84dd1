//! What the chat bot decides when a message carries a capture file: which
//! attachment it noticed, the link it answers with, and the audit record.
use vstd::prelude::*;

use crate::db::CommandLog;
use crate::resolver::lower_of;

verus! {

/// The name under which a noticed capture file is logged.
pub const PCAP_DETECT_COMMAND: &'static str = "pcap_detect";

/// The error logged when the reply could not be sent.
pub const REPLY_FAILED_MESSAGE: &'static str = "Failed to send reply";

pub open spec fn contains(s: Seq<char>, part: Seq<char>) -> bool {
    exists|i: int| 0 <= i <= s.len() - part.len() && #[trigger] s.subrange(i, i + part.len()) == part
}

pub open spec fn pcap_marker() -> Seq<char> {
    seq!['.', 'p', 'c', 'a', 'p']
}

/// A file name that the bot notices: once lowercased it holds `.pcap`
/// anywhere (so `.pcapng` and `.PCAP` count too).
pub open spec fn mentions_capture(filename: Seq<char>) -> bool {
    contains(lower_of(filename), pcap_marker())
}

/// Whether `s` holds `part` anywhere.
pub fn str_contains(s: &str, part: &str) -> (r: bool)
    ensures
        r == contains(s@, part@),
{
    let n = s.unicode_len();
    let m = part.unicode_len();
    if m > n {
        return false;
    }
    if m == 0 {
        assert(s@.subrange(0, 0 + part@.len() as int) =~= part@);
        return true;
    }
    let mut i: usize = 0;
    while i <= n - m
        invariant
            n == s@.len(),
            m == part@.len(),
            1 <= m <= n,
            i <= n - m + 1,
            forall|k: int| 0 <= k < i ==> #[trigger] s@.subrange(k, k + m) != part@,
        decreases n - m + 1 - i,
    {
        let mut j: usize = 0;
        let mut same = true;
        while j < m
            invariant
                n == s@.len(),
                m == part@.len(),
                i + m <= n,
                j <= m,
                same ==> forall|t: int| 0 <= t < j ==> s@[i + t] == part@[t],
                !same ==> s@.subrange(i as int, i + m) != part@,
            decreases m - j,
        {
            if same && s.get_char(i + j) != part.get_char(j) {
                same = false;
                assert(s@.subrange(i as int, i + m)[j as int] != part@[j as int]);
            }
            j = j + 1;
        }
        if same {
            assert(s@.subrange(i as int, i + part@.len() as int) =~= part@);
            return true;
        }
        i = i + 1;
    }
    false
}

/// The first of `filenames` that the bot notices as a capture file.
pub fn find_pcap_mention(filenames: &Vec<String>) -> (r: Option<usize>)
    ensures
        r is None <==> forall|i: int| 0 <= i < filenames@.len() ==> !mentions_capture(#[trigger] filenames@[i]@),
        r matches Some(i) ==> i < filenames@.len() && mentions_capture(filenames@[i as int]@) && forall|j: int|
            0 <= j < i ==> !mentions_capture(#[trigger] filenames@[j]@),
{
    proof {
        reveal_strlit(".pcap");
        assert(".pcap"@ =~= pcap_marker());
    }
    let mut i: usize = 0;
    while i < filenames.len()
        invariant
            i <= filenames@.len(),
            ".pcap"@ == pcap_marker(),
            forall|j: int| 0 <= j < i ==> !mentions_capture(#[trigger] filenames@[j]@),
        decreases filenames@.len() - i,
    {
        let lowered = crate::resolver::lowercase(filenames[i].as_str());
        if str_contains(lowered.as_str(), ".pcap") {
            return Some(i);
        }
        i = i + 1;
    }
    None
}

pub open spec fn spec_viewer_link(web_url: Seq<char>, channel_id: Seq<char>, message_id: Seq<char>) -> Seq<char> {
    web_url + "?channel="@ + channel_id + "&msg="@ + message_id
}

/// The web page that shows the capture attached to one message.
pub fn viewer_link(web_url: &str, channel_id: &str, message_id: &str) -> (r: String)
    ensures
        r@ == spec_viewer_link(web_url@, channel_id@, message_id@),
{
    let mut link = String::from_str(web_url);
    link.append("?channel=");
    link.append(channel_id);
    link.append("&msg=");
    link.append(message_id);
    link
}

pub open spec fn spec_pcap_reply(link: Seq<char>) -> Seq<char> {
    "You can view your PCAP [here]("@ + link + ")"@
}

/// The bot's answer to a message that carries a capture file.
pub fn pcap_reply(link: &str) -> (r: String)
    ensures
        r@ == spec_pcap_reply(link@),
{
    let mut reply = String::from_str("You can view your PCAP [here](");
    reply.append(link);
    reply.append(")");
    reply
}

/// The audit record of one noticed capture file: a failed reply is logged
/// with an error message, a sent one without.
pub fn pcap_detect_log(
    user_id: String,
    user_name: String,
    channel_id: String,
    guild_id: Option<String>,
    message_id: String,
    success: bool,
) -> (r: CommandLog)
    ensures
        r.command_name@ == PCAP_DETECT_COMMAND@,
        r.user_id == user_id,
        r.user_name == user_name,
        r.channel_id == channel_id,
        r.guild_id == guild_id,
        r.message_id == message_id,
        r.success == success,
        r.error_message is None <==> success,
        r.error_message matches Some(e) ==> e@ == REPLY_FAILED_MESSAGE@,
{
    let error_message = if success {
        None
    } else {
        Some(String::from_str(REPLY_FAILED_MESSAGE))
    };
    CommandLog {
        command_name: String::from_str(PCAP_DETECT_COMMAND),
        user_id,
        user_name,
        channel_id,
        guild_id,
        message_id,
        success,
        error_message,
    }
}

} // verus!
