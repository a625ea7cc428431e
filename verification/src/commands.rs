//! The command encoder.
//!
//! Each outbound command is a small value whose `encode` method yields the
//! exact CRLF-terminated wire frame its contract spells out. Channel names
//! are normalized on construction: a caller may pass `ch` or `#ch` and the
//! encoding is the same, which [`lemma_channel_normalization`] states as a
//! law.

use vstd::prelude::*;
use vstd::string::StrSliceExecFns;
use vstd::string::StringExecFns;
use crate::trovo::{norm_channel, normalize_channel, Error};
use crate::irc::InvalidMessage;
use crate::color::Trovo;
use crate::messages::Privmsg;
use crate::tags::{tag_pairs, lookup_pairs};

verus! {

/// Law: channel normalization. Whether a caller passes `ch` or `#ch`, the
/// normalized channel, and with it the encoding of every command, is the
/// same.
pub proof fn lemma_channel_normalization(ch: Seq<char>)
    requires
        ch.len() == 0 || ch[0] != '#',
    ensures
        norm_channel(seq!['#'] + ch) == norm_channel(ch),
{
    assert((seq!['#'] + ch)[0] == '#');
    assert(seq!['#'] + ch =~= norm_channel(ch));
}

/// Join a channel. The leading `#` is prepended if omitted.
#[derive(Clone, Debug, PartialEq, Eq, Hash)]
pub struct Join {
    channel: String,
}

/// Join a channel. The leading `#` is prepended if omitted.
pub fn join(channel: &str) -> (r: Join)
    requires
        channel@.len() < usize::MAX,
    ensures
        r.s_channel() == norm_channel(channel@),
{
    Join { channel: normalize_channel(channel) }
}

impl Join {
    /// The normalized channel.
    pub closed spec fn s_channel(self) -> Seq<char> {
        self.channel@
    }

    /// The wire frame: `JOIN #channel\r\n`.
    pub fn encode(&self) -> (r: String)
        ensures
            r@ == "JOIN "@ + self.s_channel() + "\r\n"@,
    {
        let mut out = String::new();
        out.append("JOIN ");
        out.append(self.channel.as_str());
        out.append("\r\n");
        out
    }
}

/// Leave a channel. The leading `#` is prepended if omitted.
#[derive(Clone, Debug, PartialEq, Eq, Hash)]
pub struct Part {
    channel: String,
}

/// Leave a channel. The leading `#` is prepended if omitted.
pub fn part(channel: &str) -> (r: Part)
    requires
        channel@.len() < usize::MAX,
    ensures
        r.s_channel() == norm_channel(channel@),
{
    Part { channel: normalize_channel(channel) }
}

impl Part {
    /// The normalized channel.
    pub closed spec fn s_channel(self) -> Seq<char> {
        self.channel@
    }

    /// The wire frame: `PART #channel\r\n`.
    pub fn encode(&self) -> (r: String)
        ensures
            r@ == "PART "@ + self.s_channel() + "\r\n"@,
    {
        let mut out = String::new();
        out.append("PART ");
        out.append(self.channel.as_str());
        out.append("\r\n");
        out
    }
}

/// Send chat text to a channel.
#[derive(Clone, Debug, PartialEq, Eq, Hash)]
pub struct PrivmsgCmd {
    channel: String,
    data: String,
}

/// Send chat text to a channel. The leading `#` is prepended if omitted.
pub fn privmsg(channel: &str, data: &str) -> (r: PrivmsgCmd)
    requires
        channel@.len() < usize::MAX,
    ensures
        r.s_channel() == norm_channel(channel@),
        r.s_data() == data@,
{
    PrivmsgCmd { channel: normalize_channel(channel), data: data.to_owned() }
}

impl PrivmsgCmd {
    /// The normalized channel.
    pub closed spec fn s_channel(self) -> Seq<char> {
        self.channel@
    }

    /// The chat text.
    pub closed spec fn s_data(self) -> Seq<char> {
        self.data@
    }

    /// The wire frame: `PRIVMSG #channel :text\r\n`.
    pub fn encode(&self) -> (r: String)
        ensures
            r@ == "PRIVMSG "@ + self.s_channel() + " :"@ + self.s_data() + "\r\n"@,
    {
        let mut out = String::new();
        out.append("PRIVMSG ");
        out.append(self.channel.as_str());
        out.append(" :");
        out.append(self.data.as_str());
        out.append("\r\n");
        out
    }
}

/// Reply to an earlier message, by its `id` tag.
#[derive(Clone, Debug, PartialEq, Eq, Hash)]
pub struct Reply {
    msg_id: String,
    channel: String,
    data: String,
}

/// Reply to the message with the given `id` tag, in a channel. The leading
/// `#` is prepended if omitted.
pub fn reply(channel: &str, msg_id: &str, data: &str) -> (r: Reply)
    requires
        channel@.len() < usize::MAX,
    ensures
        r.s_channel() == norm_channel(channel@),
        r.s_msg_id() == msg_id@,
        r.s_data() == data@,
{
    Reply {
        msg_id: msg_id.to_owned(),
        channel: normalize_channel(channel),
        data: data.to_owned(),
    }
}

impl Reply {
    /// The normalized channel.
    pub closed spec fn s_channel(self) -> Seq<char> {
        self.channel@
    }

    /// The `id` tag of the message replied to.
    pub closed spec fn s_msg_id(self) -> Seq<char> {
        self.msg_id@
    }

    /// The chat text.
    pub closed spec fn s_data(self) -> Seq<char> {
        self.data@
    }

    /// The wire frame:
    /// `@reply-parent-msg-id=<id> PRIVMSG #channel :text\r\n`.
    pub fn encode(&self) -> (r: String)
        ensures
            r@ == "@reply-parent-msg-id="@ + self.s_msg_id() + " PRIVMSG "@ + self.s_channel()
                + " :"@ + self.s_data() + "\r\n"@,
    {
        let mut out = String::new();
        out.append("@reply-parent-msg-id=");
        out.append(self.msg_id.as_str());
        out.append(" PRIVMSG ");
        out.append(self.channel.as_str());
        out.append(" :");
        out.append(self.data.as_str());
        out.append("\r\n");
        out
    }
}

/// A liveness probe.
#[derive(Clone, Debug, PartialEq, Eq, Hash)]
pub struct PingCmd {
    token: String,
}

/// A liveness probe with the given token.
pub fn ping(token: &str) -> (r: PingCmd)
    ensures
        r.s_token() == token@,
{
    PingCmd { token: token.to_owned() }
}

impl PingCmd {
    /// The probe's token.
    pub closed spec fn s_token(self) -> Seq<char> {
        self.token@
    }

    /// The wire frame: `PING :token\r\n`.
    pub fn encode(&self) -> (r: String)
        ensures
            r@ == "PING :"@ + self.s_token() + "\r\n"@,
    {
        let mut out = String::new();
        out.append("PING :");
        out.append(self.token.as_str());
        out.append("\r\n");
        out
    }
}

/// The answer to a liveness probe.
#[derive(Clone, Debug, PartialEq, Eq, Hash)]
pub struct PongCmd {
    token: String,
}

/// The answer to a liveness probe, echoing its token.
pub fn pong(token: &str) -> (r: PongCmd)
    ensures
        r.s_token() == token@,
{
    PongCmd { token: token.to_owned() }
}

impl PongCmd {
    /// The echoed token.
    pub closed spec fn s_token(self) -> Seq<char> {
        self.token@
    }

    /// The wire frame: `PONG :token\r\n`.
    pub fn encode(&self) -> (r: String)
        ensures
            r@ == "PONG :"@ + self.s_token() + "\r\n"@,
    {
        let mut out = String::new();
        out.append("PONG :");
        out.append(self.token.as_str());
        out.append("\r\n");
        out
    }
}

/// The wire form of a raw line: itself, CRLF-terminated.
pub open spec fn spec_raw_line(line: Seq<char>) -> Seq<char> {
    if line.len() >= 2 && line.subrange(line.len() - 2, line.len() as int) == "\r\n"@ {
        line
    } else {
        line + "\r\n"@
    }
}

/// An arbitrary raw line.
#[derive(Clone, Debug, PartialEq, Eq, Hash)]
pub struct RawCmd {
    line: String,
}

/// An arbitrary raw line; `\r\n` is appended when absent.
pub fn raw(line: &str) -> (r: RawCmd)
    ensures
        r.s_line() == line@,
{
    RawCmd { line: line.to_owned() }
}

impl RawCmd {
    /// The raw line, as given.
    pub closed spec fn s_line(self) -> Seq<char> {
        self.line@
    }

    /// The wire frame: the line itself, `\r\n` appended when absent.
    pub fn encode(&self) -> (r: String)
        ensures
            r@ == spec_raw_line(self.s_line()),
    {
        let s = self.line.as_str();
        let n = s.unicode_len();
        proof {
            reveal_strlit("\r\n");
        }
        if n >= 2 && s.get_char(n - 2) == '\r' && s.get_char(n - 1) == '\n' {
            proof {
                assert(s@.subrange(n - 2, n as int) =~= "\r\n"@);
            }
            self.line.clone()
        } else {
            proof {
                if n >= 2 && s@.subrange(n - 2, n as int) == "\r\n"@ {
                    assert(s@.subrange(n - 2, n as int)[0] == '\r');
                    assert(s@.subrange(n - 2, n as int)[1] == '\n');
                    assert(s@[n - 2] == '\r');
                    assert(s@[n - 1] == '\n');
                    assert(false);
                }
            }
            let mut out = self.line.clone();
            out.append("\r\n");
            out
        }
    }
}

/// Enable unique-message ("r9k") mode in a channel.
#[derive(Clone, Debug, PartialEq, Eq, Hash)]
pub struct R9kBeta {
    channel: String,
}

/// Enable unique-message ("r9k") mode. The leading `#` is prepended if
/// omitted.
pub fn r9k_beta(channel: &str) -> (r: R9kBeta)
    requires
        channel@.len() < usize::MAX,
    ensures
        r.s_channel() == norm_channel(channel@),
{
    R9kBeta { channel: normalize_channel(channel) }
}

impl R9kBeta {
    /// The normalized channel.
    pub closed spec fn s_channel(self) -> Seq<char> {
        self.channel@
    }

    /// The wire frame: `PRIVMSG #channel :/r9kbeta\r\n`.
    pub fn encode(&self) -> (r: String)
        ensures
            r@ == "PRIVMSG "@ + self.s_channel() + " :/r9kbeta\r\n"@,
    {
        let mut out = String::new();
        out.append("PRIVMSG ");
        out.append(self.channel.as_str());
        out.append(" :/r9kbeta\r\n");
        out
    }
}

/// Disable emote-only mode in a channel.
#[derive(Clone, Debug, PartialEq, Eq, Hash)]
pub struct EmoteOnlyOff {
    channel: String,
}

/// Disable emote-only mode. The leading `#` is prepended if omitted.
pub fn emote_only_off(channel: &str) -> (r: EmoteOnlyOff)
    requires
        channel@.len() < usize::MAX,
    ensures
        r.s_channel() == norm_channel(channel@),
{
    EmoteOnlyOff { channel: normalize_channel(channel) }
}

impl EmoteOnlyOff {
    /// The normalized channel.
    pub closed spec fn s_channel(self) -> Seq<char> {
        self.channel@
    }

    /// The wire frame: `PRIVMSG #channel :/emoteonlyoff\r\n`.
    pub fn encode(&self) -> (r: String)
        ensures
            r@ == "PRIVMSG "@ + self.s_channel() + " :/emoteonlyoff\r\n"@,
    {
        let mut out = String::new();
        out.append("PRIVMSG ");
        out.append(self.channel.as_str());
        out.append(" :/emoteonlyoff\r\n");
        out
    }
}

/// End an ongoing raid of a channel.
#[derive(Clone, Debug, PartialEq, Eq, Hash)]
pub struct Unraid {
    channel: String,
}

/// End an ongoing raid. The leading `#` is prepended if omitted.
pub fn unraid(channel: &str) -> (r: Unraid)
    requires
        channel@.len() < usize::MAX,
    ensures
        r.s_channel() == norm_channel(channel@),
{
    Unraid { channel: normalize_channel(channel) }
}

impl Unraid {
    /// The normalized channel.
    pub closed spec fn s_channel(self) -> Seq<char> {
        self.channel@
    }

    /// The wire frame: `PRIVMSG #channel :/unraid\r\n`.
    pub fn encode(&self) -> (r: String)
        ensures
            r@ == "PRIVMSG "@ + self.s_channel() + " :/unraid\r\n"@,
    {
        let mut out = String::new();
        out.append("PRIVMSG ");
        out.append(self.channel.as_str());
        out.append(" :/unraid\r\n");
        out
    }
}

/// Set the client user's chat color.
#[derive(Clone, Copy, Debug, PartialEq, Eq, Structural)]
pub struct Color {
    /// The color to set.
    pub color: Trovo,
}

/// Set the client user's chat color.
pub fn color(chosen: Trovo) -> (r: Color)
    ensures
        r.color == chosen,
{
    Color { color: chosen }
}

impl Color {
    /// The wire frame: `PRIVMSG jtv :/color <name>\r\n`.
    pub fn encode(&self) -> (r: String)
        ensures
            r@ == "PRIVMSG jtv :/color "@ + self.color.spec_color_name() + "\r\n"@,
    {
        let mut out = String::new();
        out.append("PRIVMSG jtv :/color ");
        let name = self.color.name();
        out.append(name.as_str());
        out.append("\r\n");
        out
    }
}

/// Extensions to the [`Privmsg`] message type: encode an answer back to the
/// channel the message came from.
pub trait PrivmsgExt {
    /// The channel the message came from.
    spec fn s_ext_channel(&self) -> Seq<char>;

    /// The message's tag pairs.
    spec fn s_ext_tags(&self) -> Seq<(Seq<char>, Seq<char>)>;

    /// The frame that replies to this message with `data`, threaded through
    /// the message's `id` tag; without that tag (the tags capability is
    /// off), the error says a tag was expected.
    fn reply(&self, data: &str) -> (r: Result<String, Error>)
        ensures
            match r {
                Ok(line) => {
                    &&& lookup_pairs(self.s_ext_tags(), "id"@) matches Some(id) && line@
                        == "@reply-parent-msg-id="@ + id + " PRIVMSG "@ + self.s_ext_channel()
                        + " :"@ + data@ + "\r\n"@
                },
                Err(e) => {
                    &&& lookup_pairs(self.s_ext_tags(), "id"@) is None
                    &&& (e matches Error::InvalidMessage(InvalidMessage::ExpectedTag(t)) && t@
                        == "id"@)
                },
            },
    ;

    /// The frame that sends `data` back to the channel the message came
    /// from.
    fn say(&self, data: &str) -> (r: String)
        ensures
            r@ == "PRIVMSG "@ + self.s_ext_channel() + " :"@ + data@ + "\r\n"@,
    ;
}

impl PrivmsgExt for Privmsg {
    open spec fn s_ext_channel(&self) -> Seq<char> {
        self.s_channel()
    }

    open spec fn s_ext_tags(&self) -> Seq<(Seq<char>, Seq<char>)> {
        tag_pairs(self.s_msg().s_tags())
    }

    fn reply(&self, data: &str) -> (r: Result<String, Error>) {
        match self.tag("id") {
            Some(id) => {
                let mut out = String::new();
                out.append("@reply-parent-msg-id=");
                out.append(id.as_str());
                out.append(" PRIVMSG ");
                out.append(self.channel());
                out.append(" :");
                out.append(data);
                out.append("\r\n");
                Ok(out)
            },
            None => Err(Error::InvalidMessage(InvalidMessage::ExpectedTag(String::from_str("id")))),
        }
    }

    fn say(&self, data: &str) -> (r: String) {
        let mut out = String::new();
        out.append("PRIVMSG ");
        out.append(self.channel());
        out.append(" :");
        out.append(data);
        out.append("\r\n");
        out
    }
}

} // verus!
