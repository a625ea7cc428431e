//! The typed message layer.
//!
//! Each recognised server command projects specific fields out of a raw
//! message through `from_irc`. A projection fails only as its contract
//! says: the wrong command, a missing argument, or missing trailing data.
//! Unknown tags never cause a failure, and [`Raw`] accepts every message,
//! so new server commands cannot break decoding.

use vstd::prelude::*;
use vstd::string::StrSliceExecFns;
use crate::irc::{IrcMessage, InvalidMessage};
use crate::tags::{tag_pairs, lookup_pairs};
use crate::util::{find_from, find_char, str_eq, substr_string};

verus! {

/// The nickname within a source: everything before the first `!`, or the
/// whole source when it has none.
pub open spec fn nick_of(source: Seq<char>) -> Seq<char> {
    source.take(find_from(source, '!', 0))
}

/// The nickname of a frame's source, or empty when it has none.
pub open spec fn spec_nick_of_raw(s: Seq<char>) -> Seq<char> {
    match crate::irc::spec_parse(s).source {
        Some(src) => nick_of(src),
        None => Seq::empty(),
    }
}

/// The nickname of the message's source, or empty when it has none.
pub open spec fn spec_nick(msg: IrcMessage) -> Seq<char> {
    spec_nick_of_raw(msg.s_raw())
}

/// The nickname within a source, executable form.
pub fn nick_of_source(source: &str) -> (r: String)
    ensures
        r@ == nick_of(source@),
{
    let e = find_char(source, '!', 0);
    substr_string(source, 0, e)
}

/// A parsed capability.
#[derive(Clone, Debug, PartialEq, Eq)]
pub enum Capability {
    /// This capability was acknowledged.
    Acknowledged(String),
    /// This capability was not acknowledged.
    NotAcknowledged(String),
}

/// Acknowledgement (or not) of a capability request.
#[derive(Clone, Debug, PartialEq)]
pub struct Cap {
    raw: String,
    capability: String,
    acknowledged: bool,
}

impl Cap {
    /// The frame this message was parsed from.
    pub closed spec fn s_raw(self) -> Seq<char> {
        self.raw@
    }

    /// The requested capability's name.
    pub closed spec fn s_capability(self) -> Seq<char> {
        self.capability@
    }

    /// Whether the capability was acknowledged.
    pub closed spec fn s_acknowledged(self) -> bool {
        self.acknowledged
    }

    /// Project a `CAP` message: the second argument says `ACK` or `NAK`,
    /// the trailing data names the capability.
    pub fn from_irc(msg: IrcMessage) -> (r: Result<Cap, InvalidMessage>)
        requires
            msg.wf(),
        ensures
            match r {
                Ok(c) => {
                    &&& msg.s_command() == "CAP"@
                    &&& msg.s_args().len() >= 2
                    &&& msg.s_data() is Some
                    &&& c.s_raw() == msg.s_raw()
                    &&& c.s_capability() == msg.s_data()->0
                    &&& c.s_acknowledged() == (msg.s_args()[1] == "ACK"@)
                },
                Err(InvalidMessage::UnexpectedCommand) => msg.s_command() != "CAP"@,
                Err(InvalidMessage::ExpectedData) => msg.s_command() == "CAP"@ && msg.s_data()
                    is None,
                Err(InvalidMessage::ExpectedArg(n)) => {
                    &&& msg.s_command() == "CAP"@
                    &&& msg.s_data() is Some
                    &&& n == 1
                    &&& msg.s_args().len() < 2
                },
                Err(_) => false,
            },
    {
        if let Err(e) = msg.expect_command("CAP") {
            return Err(e);
        }
        let capability = match msg.expect_data() {
            Ok(d) => d.to_owned(),
            Err(e) => {
                return Err(e);
            },
        };
        let acknowledged = match msg.expect_arg(1) {
            Ok(a) => str_eq(a, "ACK"),
            Err(e) => {
                return Err(e);
            },
        };
        Ok(Cap { raw: msg.raw().to_owned(), capability, acknowledged })
    }

    /// The parsed capability.
    pub fn capability(&self) -> (r: Capability)
        ensures
            self.s_acknowledged() ==> (r matches Capability::Acknowledged(c) && c@
                == self.s_capability()),
            !self.s_acknowledged() ==> (r matches Capability::NotAcknowledged(c) && c@
                == self.s_capability()),
    {
        if self.acknowledged {
            Capability::Acknowledged(self.capability.clone())
        } else {
            Capability::NotAcknowledged(self.capability.clone())
        }
    }

    /// The frame this message was parsed from.
    pub fn raw(&self) -> (r: &str)
        ensures
            r@ == self.s_raw(),
    {
        self.raw.as_str()
    }
}

/// A liveness probe from the server; its token must be echoed in a `PONG`.
#[derive(Clone, Debug, PartialEq)]
pub struct Ping {
    /// The token to echo back.
    pub token: String,
}

impl Ping {
    /// Project a `PING` message: the trailing data is the token.
    pub fn from_irc(msg: IrcMessage) -> (r: Result<Ping, InvalidMessage>)
        requires
            msg.wf(),
        ensures
            match r {
                Ok(p) => msg.s_command() == "PING"@ && msg.s_data() == Some(p.token@),
                Err(InvalidMessage::UnexpectedCommand) => msg.s_command() != "PING"@,
                Err(InvalidMessage::ExpectedData) => msg.s_command() == "PING"@ && msg.s_data()
                    is None,
                Err(_) => false,
            },
    {
        if let Err(e) = msg.expect_command("PING") {
            return Err(e);
        }
        match msg.expect_data() {
            Ok(d) => Ok(Ping { token: d.to_owned() }),
            Err(e) => Err(e),
        }
    }
}

/// The answer to a liveness probe, carrying the probe's token.
#[derive(Clone, Debug, PartialEq)]
pub struct Pong {
    /// The echoed token.
    pub token: String,
}

impl Pong {
    /// Project a `PONG` message: the trailing data is the token.
    pub fn from_irc(msg: IrcMessage) -> (r: Result<Pong, InvalidMessage>)
        requires
            msg.wf(),
        ensures
            match r {
                Ok(p) => msg.s_command() == "PONG"@ && msg.s_data() == Some(p.token@),
                Err(InvalidMessage::UnexpectedCommand) => msg.s_command() != "PONG"@,
                Err(InvalidMessage::ExpectedData) => msg.s_command() == "PONG"@ && msg.s_data()
                    is None,
                Err(_) => false,
            },
    {
        if let Err(e) = msg.expect_command("PONG") {
            return Err(e);
        }
        match msg.expect_data() {
            Ok(d) => Ok(Pong { token: d.to_owned() }),
            Err(e) => Err(e),
        }
    }
}

/// The marker around an emote ("action") chat message.
pub open spec fn is_action(d: Seq<char>) -> bool {
    d.len() >= 9 && d.take(8) == "\u{1}ACTION "@ && d[d.len() - 1] == '\u{1}'
}

/// The chat text with the action marker stripped, when it carries one.
pub open spec fn unwrap_action(d: Seq<char>) -> Seq<char> {
    if is_action(d) {
        d.subrange(8, d.len() - 1)
    } else {
        d
    }
}

/// A chat message sent to a channel.
#[derive(Debug, PartialEq)]
pub struct Privmsg {
    msg: IrcMessage,
    channel: String,
    name: String,
    data: String,
    action: bool,
}

impl Privmsg {
    /// The raw message this was projected from.
    pub closed spec fn s_msg(self) -> IrcMessage {
        self.msg
    }

    /// The channel the message was sent to.
    pub closed spec fn s_channel(self) -> Seq<char> {
        self.channel@
    }

    /// The nickname of the sender.
    pub closed spec fn s_name(self) -> Seq<char> {
        self.name@
    }

    /// The chat text, the action marker stripped.
    pub closed spec fn s_data(self) -> Seq<char> {
        self.data@
    }

    /// Whether the message was an emote ("action") message.
    pub closed spec fn s_action(self) -> bool {
        self.action
    }

    /// The raw message is intact and well formed.
    #[verifier::type_invariant]
    pub closed spec fn wf(self) -> bool {
        self.msg.wf()
    }

    /// Project a `PRIVMSG`: the first argument is the channel, the trailing
    /// data the chat text; a text wrapped in the action marker is unwrapped
    /// and flagged.
    pub fn from_irc(msg: IrcMessage) -> (r: Result<Privmsg, InvalidMessage>)
        requires
            msg.wf(),
        ensures
            match r {
                Ok(p) => {
                    &&& msg.s_command() == "PRIVMSG"@
                    &&& msg.s_args().len() >= 1
                    &&& msg.s_data() is Some
                    &&& p.wf()
                    &&& p.s_msg() == msg
                    &&& p.s_channel() == msg.s_args()[0]
                    &&& p.s_name() == spec_nick(msg)
                    &&& p.s_data() == unwrap_action(msg.s_data()->0)
                    &&& p.s_action() == is_action(msg.s_data()->0)
                },
                Err(InvalidMessage::UnexpectedCommand) => msg.s_command() != "PRIVMSG"@,
                Err(InvalidMessage::ExpectedArg(n)) => {
                    &&& msg.s_command() == "PRIVMSG"@
                    &&& n == 0
                    &&& msg.s_args().len() == 0
                },
                Err(InvalidMessage::ExpectedData) => {
                    &&& msg.s_command() == "PRIVMSG"@
                    &&& msg.s_args().len() >= 1
                    &&& msg.s_data() is None
                },
                Err(_) => false,
            },
    {
        if let Err(e) = msg.expect_command("PRIVMSG") {
            return Err(e);
        }
        let channel = match msg.expect_arg(0) {
            Ok(a) => a.to_owned(),
            Err(e) => {
                return Err(e);
            },
        };
        let raw_data = match msg.expect_data() {
            Ok(d) => d,
            Err(e) => {
                return Err(e);
            },
        };
        let name = match msg.source() {
            Some(src) => nick_of_source(src),
            None => String::new(),
        };
        let dn = raw_data.unicode_len();
        let mut action = false;
        if dn >= 9 {
            let head = raw_data.substring_char(0, 8);
            if str_eq(head, "\u{1}ACTION ") && raw_data.get_char(dn - 1) == '\u{1}' {
                action = true;
            }
        }
        let data = if action {
            substr_string(raw_data, 8, dn - 1)
        } else {
            raw_data.to_owned()
        };
        Ok(Privmsg { msg, channel, name, data, action })
    }

    /// The channel the message was sent to.
    pub fn channel(&self) -> (r: &str)
        ensures
            r@ == self.s_channel(),
    {
        self.channel.as_str()
    }

    /// The nickname of the sender.
    pub fn name(&self) -> (r: &str)
        ensures
            r@ == self.s_name(),
    {
        self.name.as_str()
    }

    /// The chat text, the action marker stripped.
    pub fn data(&self) -> (r: &str)
        ensures
            r@ == self.s_data(),
    {
        self.data.as_str()
    }

    /// Whether the message was an emote ("action") message.
    pub fn is_action(&self) -> (r: bool)
        ensures
            r == self.s_action(),
    {
        self.action
    }

    /// The first value of the tag named `key` on this message.
    pub fn tag(&self, key: &str) -> (r: Option<String>)
        ensures
            match r {
                Some(v) => lookup_pairs(tag_pairs(self.s_msg().s_tags()), key@) == Some(v@),
                None => lookup_pairs(tag_pairs(self.s_msg().s_tags()), key@) is None,
            },
    {
        proof {
            use_type_invariant(self);
        }
        self.msg.tag(key)
    }
}

/// The server asks the client to reconnect: the connection will be closed
/// shortly, and the client should connect and rejoin as it normally would.
#[derive(Clone, Debug, PartialEq)]
pub struct Reconnect {
    raw: String,
}

impl Reconnect {
    /// The frame this message was parsed from.
    pub closed spec fn s_raw(self) -> Seq<char> {
        self.raw@
    }

    /// Project a `RECONNECT` message.
    pub fn from_irc(msg: IrcMessage) -> (r: Result<Reconnect, InvalidMessage>)
        requires
            msg.wf(),
        ensures
            match r {
                Ok(m) => msg.s_command() == "RECONNECT"@ && m.s_raw() == msg.s_raw(),
                Err(InvalidMessage::UnexpectedCommand) => msg.s_command() != "RECONNECT"@,
                Err(_) => false,
            },
    {
        if let Err(e) = msg.expect_command("RECONNECT") {
            return Err(e);
        }
        Ok(Reconnect { raw: msg.raw().to_owned() })
    }

    /// The frame this message was parsed from.
    pub fn raw(&self) -> (r: &str)
        ensures
            r@ == self.s_raw(),
    {
        self.raw.as_str()
    }
}

/// The registration acknowledgement (numeric `001`), carrying the nickname
/// the server confirmed.
#[derive(Clone, Debug, PartialEq)]
pub struct IrcReady {
    /// The confirmed nickname.
    pub nickname: String,
}

impl IrcReady {
    /// Project an `001` message: the first argument is the nickname.
    pub fn from_irc(msg: IrcMessage) -> (r: Result<IrcReady, InvalidMessage>)
        requires
            msg.wf(),
        ensures
            match r {
                Ok(m) => msg.s_command() == "001"@ && msg.s_args().len() >= 1 && m.nickname@
                    == msg.s_args()[0],
                Err(InvalidMessage::UnexpectedCommand) => msg.s_command() != "001"@,
                Err(InvalidMessage::ExpectedArg(n)) => msg.s_command() == "001"@ && n == 0
                    && msg.s_args().len() == 0,
                Err(_) => false,
            },
    {
        if let Err(e) = msg.expect_command("001") {
            return Err(e);
        }
        match msg.expect_arg(0) {
            Ok(a) => Ok(IrcReady { nickname: a.to_owned() }),
            Err(e) => Err(e),
        }
    }
}

/// The end of the server's message of the day (numeric `376`): the point
/// after which the connection is fully ready.
#[derive(Clone, Debug, PartialEq)]
pub struct Ready {
    /// The nickname the message was addressed to.
    pub username: String,
}

impl Ready {
    /// Project a `376` message: the first argument is the nickname.
    pub fn from_irc(msg: IrcMessage) -> (r: Result<Ready, InvalidMessage>)
        requires
            msg.wf(),
        ensures
            match r {
                Ok(m) => msg.s_command() == "376"@ && msg.s_args().len() >= 1 && m.username@
                    == msg.s_args()[0],
                Err(InvalidMessage::UnexpectedCommand) => msg.s_command() != "376"@,
                Err(InvalidMessage::ExpectedArg(n)) => msg.s_command() == "376"@ && n == 0
                    && msg.s_args().len() == 0,
                Err(_) => false,
            },
    {
        if let Err(e) = msg.expect_command("376") {
            return Err(e);
        }
        match msg.expect_arg(0) {
            Ok(a) => Ok(Ready { username: a.to_owned() }),
            Err(e) => Err(e),
        }
    }
}

/// The catch-all projection: it accepts every message and keeps its line,
/// so an unknown server command never breaks decoding.
#[derive(Clone, Debug, PartialEq)]
pub struct Raw {
    msg: IrcMessage,
}

impl Raw {
    /// The raw message, intact.
    pub closed spec fn s_msg(self) -> IrcMessage {
        self.msg
    }

    /// Project any message, keeping it intact.
    pub fn from_irc(msg: IrcMessage) -> (r: Raw)
        ensures
            r.s_msg() == msg,
    {
        Raw { msg }
    }

    /// Law: unknown command preservation. Re-rendering a raw message yields
    /// the byte-identical line it was decoded from.
    pub fn line(&self) -> (r: &str)
        ensures
            r@ == self.s_msg().s_raw(),
    {
        self.msg.raw()
    }

    /// The raw message.
    pub fn into_inner(self) -> (r: IrcMessage)
        ensures
            r == self.s_msg(),
    {
        self.msg
    }
}

} // verus!
