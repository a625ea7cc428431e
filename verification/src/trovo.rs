//! Service-specific types: capabilities, channels, owned tags, badges, and
//! the typed commands the server pushes.
//!
//! [`parse`] projects a raw message into the closed [`Message`] sum type,
//! routing unrecognised commands to [`Message::Unknown`] so that new server
//! commands never break decoding. The projection of every variant is pinned
//! by [`parses_to`].

use vstd::prelude::*;
use vstd::string::StrSliceExecFns;
use vstd::string::StringExecFns;
use crate::irc::{IrcMessage, InvalidMessage};
use crate::decoder::DecodeError;
use crate::tags::{TagIndices, tag_pairs, lookup_pairs};
use crate::irc::spec_parse;
use crate::messages::{spec_nick, spec_nick_of_raw, nick_of_source, is_action, unwrap_action};
use crate::util::{
    find_from, split_char, all_digits, digits_val, find_char, str_eq, substr_string,
    split_string, parse_usize,
};

verus! {

/// A capability negotiated at registration, unlocking extra message types
/// and tags.
#[derive(Clone, Copy, Debug, PartialEq, Eq, Hash, PartialOrd, Ord, Structural)]
pub enum Capability {
    /// Read basic membership messages: who joins and leaves a channel.
    Membership,
    /// Metadata tags attached to each message.
    Tags,
    /// The service's own extra commands.
    Commands,
}

impl Capability {
    /// The request line this capability is asked for with.
    pub open spec fn spec_encode(self) -> Seq<char> {
        match self {
            Capability::Membership => "CAP REQ :trovo.tv/membership"@,
            Capability::Tags => "CAP REQ :trovo.tv/tags"@,
            Capability::Commands => "CAP REQ :trovo.tv/commands"@,
        }
    }

    /// The capability's wire name, as the server acknowledges it.
    pub open spec fn spec_name(self) -> Seq<char> {
        match self {
            Capability::Membership => "trovo.tv/membership"@,
            Capability::Tags => "trovo.tv/tags"@,
            Capability::Commands => "trovo.tv/commands"@,
        }
    }

    /// Encode this capability as a request line, to be sent to the server.
    pub fn encode_as_str(self) -> (r: &'static str)
        ensures
            r@ == self.spec_encode(),
    {
        match self {
            Capability::Membership => "CAP REQ :trovo.tv/membership",
            Capability::Tags => "CAP REQ :trovo.tv/tags",
            Capability::Commands => "CAP REQ :trovo.tv/commands",
        }
    }

    /// The capability a wire name refers to, if any.
    pub open spec fn spec_maybe_from(input: Seq<char>) -> Option<Capability> {
        if input == "trovo.tv/membership"@ {
            Some(Capability::Membership)
        } else if input == "trovo.tv/tags"@ {
            Some(Capability::Tags)
        } else if input == "trovo.tv/commands"@ {
            Some(Capability::Commands)
        } else {
            None
        }
    }

    /// Parse a capability from its wire name, `trovo.tv/<cap>`.
    pub fn maybe_from_str(input: &str) -> (r: Option<Capability>)
        ensures
            r == Capability::spec_maybe_from(input@),
    {
        if str_eq(input, "trovo.tv/membership") {
            Some(Capability::Membership)
        } else if str_eq(input, "trovo.tv/tags") {
            Some(Capability::Tags)
        } else if str_eq(input, "trovo.tv/commands") {
            Some(Capability::Commands)
        } else {
            None
        }
    }
}

/// What can go wrong between the wire and a typed message.
#[derive(Clone, Debug, PartialEq, Eq)]
pub enum Error {
    /// The server rejected the registration (bad or malformed token).
    InvalidRegistration,
    /// A message could not be projected into its typed form.
    InvalidMessage(InvalidMessage),
    /// The framer could not yield a frame.
    Decode(DecodeError),
    /// A channel name must not be empty.
    EmptyChannel,
}

impl Error {
    /// A short human-readable description.
    pub fn describe(&self) -> (r: &'static str) {
        match self {
            Error::InvalidRegistration => "the server rejected the registration",
            Error::InvalidMessage(_) => "a message could not be projected into its typed form",
            Error::Decode(_) => "the framer could not yield a frame",
            Error::EmptyChannel => "a channel name must not be empty",
        }
    }
}

/// A channel name with the `#` prefix: the form it takes on the wire.
pub open spec fn norm_channel(s: Seq<char>) -> Seq<char> {
    if s.len() > 0 && s[0] == '#' {
        s
    } else {
        seq!['#'] + s
    }
}

/// Prefix a channel name with `#` unless it already carries one.
pub fn normalize_channel(s: &str) -> (r: String)
    requires
        s@.len() < usize::MAX,
    ensures
        r@ == norm_channel(s@),
{
    let n = s.unicode_len();
    if n > 0 && s.get_char(0) == '#' {
        s.to_owned()
    } else {
        let mut out = String::new();
        out.append("#");
        out.append(s);
        proof {
            reveal_strlit("#");
            assert(out@ =~= seq!['#'] + s@);
        }
        out
    }
}

/// A channel name, always `#`-prefixed.
#[derive(Clone, Debug, PartialEq, Eq, Hash)]
pub struct Channel {
    name: String,
}

impl Channel {
    /// The channel's wire name.
    pub closed spec fn s_name(self) -> Seq<char> {
        self.name@
    }

    /// A channel from a name, prefixing `#` when the caller omitted it.
    pub fn new(s: &str) -> (r: Channel)
        requires
            s@.len() < usize::MAX,
        ensures
            r.s_name() == norm_channel(s@),
    {
        Channel { name: normalize_channel(s) }
    }

    /// The channel's wire name.
    pub fn name(&self) -> (r: &str)
        ensures
            r@ == self.s_name(),
    {
        self.name.as_str()
    }
}

/// Conversion into a validated channel name.
pub trait IntoChannel: Sized {
    /// The name this value spells.
    spec fn s_channel_name(self) -> Seq<char>;

    /// The channel this value names; empty names are rejected.
    fn into_channel(self) -> (r: Result<Channel, Error>)
        requires
            self.s_channel_name().len() < usize::MAX,
        ensures
            match r {
                Ok(c) => self.s_channel_name().len() > 0 && c.s_name() == norm_channel(
                    self.s_channel_name(),
                ),
                Err(e) => self.s_channel_name().len() == 0 && e == Error::EmptyChannel,
            },
    ;
}

impl IntoChannel for &str {
    open spec fn s_channel_name(self) -> Seq<char> {
        self@
    }

    fn into_channel(self) -> (r: Result<Channel, Error>) {
        if self.unicode_len() == 0 {
            Err(Error::EmptyChannel)
        } else {
            Ok(Channel::new(self))
        }
    }
}

/// The pairs of a tags fragment, whether or not it carries the leading `@`.
pub open spec fn tags_of_fragment(s: Seq<char>) -> Seq<(Seq<char>, Seq<char>)> {
    if s.len() > 0 && s[0] == '@' {
        tag_pairs(s)
    } else {
        tag_pairs(seq!['@'] + s)
    }
}

/// Owned message tags: the `(key, value)` pairs of one tags fragment.
#[derive(Clone, Debug, PartialEq, Eq)]
pub struct Tags {
    pairs: Vec<(String, String)>,
}

impl Default for Tags {
    /// No tags.
    fn default() -> (r: Self)
        ensures
            r.s_pairs().len() == 0,
    {
        Tags { pairs: Vec::new() }
    }
}

impl Tags {
    /// The `(key, value)` pairs, in parse order.
    pub closed spec fn s_pairs(self) -> Seq<(Seq<char>, Seq<char>)> {
        self.pairs@.map_values(|p: (String, String)| (p.0@, p.1@))
    }

    /// Parse a tags fragment, with or without its leading `@`.
    pub fn parse(input: &str) -> (r: Tags)
        requires
            input@.len() + 1 < usize::MAX || (input@.len() < usize::MAX && input@.len() > 0
                && input@[0] == '@'),
        ensures
            r.s_pairs() == tags_of_fragment(input@),
    {
        let n = input.unicode_len();
        let frag: String = if n > 0 && input.get_char(0) == '@' {
            input.to_owned()
        } else {
            let mut f = String::new();
            f.append("@");
            f.append(input);
            proof {
                reveal_strlit("@");
                assert(f@ =~= seq!['@'] + input@);
            }
            f
        };
        let indices = TagIndices::build_indices(frag.as_str());
        let pairs = indices.iter(frag.as_str());
        let r = Tags { pairs };
        proof {
            assert(r.s_pairs() =~= tags_of_fragment(input@));
        }
        r
    }

    /// The first value paired with `key`, if any.
    pub fn get(&self, key: &str) -> (r: Option<&str>)
        ensures
            match r {
                Some(v) => lookup_pairs(self.s_pairs(), key@) == Some(v@),
                None => lookup_pairs(self.s_pairs(), key@) is None,
            },
    {
        let ghost ps = self.s_pairs();
        let mut i: usize = 0;
        proof {
            assert(ps.skip(0) =~= ps);
        }
        while i < self.pairs.len()
            invariant
                ps == self.s_pairs(),
                0 <= i <= self.pairs@.len(),
                lookup_pairs(ps, key@) == lookup_pairs(ps.skip(i as int), key@),
            decreases self.pairs@.len() - i,
        {
            proof {
                assert(ps.skip(i as int)[0] == ps[i as int]);
                assert(ps.skip(i as int).skip(1) =~= ps.skip(i as int + 1));
            }
            if str_eq(self.pairs[i].0.as_str(), key) {
                return Some(self.pairs[i].1.as_str());
            }
            i = i + 1;
        }
        proof {
            assert(ps.skip(i as int) =~= Seq::<(Seq<char>, Seq<char>)>::empty());
        }
        None
    }

    /// The number of tags.
    pub fn len(&self) -> (r: usize)
        ensures
            r == self.s_pairs().len(),
    {
        self.pairs.len()
    }
}

/// The badge a badge token names.
#[derive(Clone, Debug, PartialEq, Eq)]
pub enum BadgeKind {
    /// An administrator.
    Admin,
    /// A bits badge.
    Bits,
    /// The broadcaster of the channel.
    Broadcaster,
    /// A global moderator.
    GlobalMod,
    /// A moderator of the channel.
    Moderator,
    /// A subscriber of the channel.
    Subscriber,
    /// A staff member of the service.
    Staff,
    /// A turbo user.
    Turbo,
    /// A premium user.
    Premium,
    /// A VIP of the channel.
    Vip,
    /// A partner of the service.
    Partner,
    /// A badge this library does not recognise, kept by its name.
    Unknown(String),
}

/// Which badge kind a badge name refers to.
pub open spec fn kind_matches(k: BadgeKind, name: Seq<char>) -> bool {
    match k {
        BadgeKind::Admin => name == "admin"@,
        BadgeKind::Bits => name == "bits"@,
        BadgeKind::Broadcaster => name == "broadcaster"@,
        BadgeKind::GlobalMod => name == "global_mod"@,
        BadgeKind::Moderator => name == "moderator"@,
        BadgeKind::Subscriber => name == "subscriber"@,
        BadgeKind::Staff => name == "staff"@,
        BadgeKind::Turbo => name == "turbo"@,
        BadgeKind::Premium => name == "premium"@,
        BadgeKind::Vip => name == "vip"@,
        BadgeKind::Partner => name == "partner"@,
        BadgeKind::Unknown(u) => {
            &&& u@ == name
            &&& name != "admin"@
            &&& name != "bits"@
            &&& name != "broadcaster"@
            &&& name != "global_mod"@
            &&& name != "moderator"@
            &&& name != "subscriber"@
            &&& name != "staff"@
            &&& name != "turbo"@
            &&& name != "premium"@
            &&& name != "vip"@
            &&& name != "partner"@
        },
    }
}

/// The badge kind a badge name refers to.
pub fn badge_kind_of(name: &str) -> (r: BadgeKind)
    ensures
        kind_matches(r, name@),
{
    if str_eq(name, "admin") {
        BadgeKind::Admin
    } else if str_eq(name, "bits") {
        BadgeKind::Bits
    } else if str_eq(name, "broadcaster") {
        BadgeKind::Broadcaster
    } else if str_eq(name, "global_mod") {
        BadgeKind::GlobalMod
    } else if str_eq(name, "moderator") {
        BadgeKind::Moderator
    } else if str_eq(name, "subscriber") {
        BadgeKind::Subscriber
    } else if str_eq(name, "staff") {
        BadgeKind::Staff
    } else if str_eq(name, "turbo") {
        BadgeKind::Turbo
    } else if str_eq(name, "premium") {
        BadgeKind::Premium
    } else if str_eq(name, "vip") {
        BadgeKind::Vip
    } else if str_eq(name, "partner") {
        BadgeKind::Partner
    } else {
        BadgeKind::Unknown(name.to_owned())
    }
}

/// One badge of a sender: its kind and its version data.
#[derive(Clone, Debug, PartialEq, Eq)]
pub struct Badge {
    /// The badge's kind.
    pub kind: BadgeKind,
    /// The badge's version data, after the `/`.
    pub data: String,
}

/// The `(name, data)` of one badge token: the name before the first `/`,
/// the data after it, or empty data with no `/`.
pub open spec fn badge_of_seg(seg: Seq<char>) -> (Seq<char>, Seq<char>) {
    let i = find_from(seg, '/', 0);
    (seg.take(i), if i < seg.len() {
        seg.skip(i + 1)
    } else {
        Seq::empty()
    })
}

/// The badge tokens of a badges tag value: `kind/data` pairs separated by
/// commas.
pub open spec fn spec_badges(s: Seq<char>) -> Seq<(Seq<char>, Seq<char>)> {
    split_char(s, ',').map_values(|seg: Seq<char>| badge_of_seg(seg))
}

/// Parse a badges tag value, `kind/data` tokens separated by commas.
pub fn badges(input: &str) -> (r: Vec<Badge>)
    requires
        input@.len() < usize::MAX,
    ensures
        r@.len() == spec_badges(input@).len(),
        forall|i: int|
            0 <= i < r@.len() ==> kind_matches((#[trigger] r@[i]).kind, spec_badges(input@)[i].0)
                && r@[i].data@ == spec_badges(input@)[i].1,
{
    let segs = split_string(input, ',');
    let mut out: Vec<Badge> = Vec::new();
    let mut i: usize = 0;
    while i < segs.len()
        invariant
            0 <= i <= segs@.len(),
            segs@.len() == split_char(input@, ',').len(),
            forall|x: int|
                0 <= x < segs@.len() ==> (#[trigger] segs@[x])@ == split_char(input@, ',')[x],
            out@.len() == i,
            forall|x: int|
                0 <= x < i ==> kind_matches((#[trigger] out@[x]).kind, spec_badges(input@)[x].0)
                    && out@[x].data@ == spec_badges(input@)[x].1,
        decreases segs@.len() - i,
    {
        let seg = segs[i].as_str();
        let e = find_char(seg, '/', 0);
        let name = seg.substring_char(0, e);
        let kind = badge_kind_of(name);
        let data = if e < seg.unicode_len() {
            substr_string(seg, e + 1, seg.unicode_len())
        } else {
            String::new()
        };
        proof {
            assert(seg@.take(e as int) == badge_of_seg(seg@).0);
            if e < seg@.len() {
                assert(seg@.subrange(e as int + 1, seg@.len() as int) =~= seg@.skip(e as int + 1));
            }
            assert(spec_badges(input@)[i as int] == badge_of_seg(seg@));
        }
        out.push(Badge { kind, data });
        i = i + 1;
    }
    out
}

/// When a user joins a channel.
#[derive(Clone, Debug, PartialEq, Eq)]
pub struct Join {
    /// The joining user.
    pub user: String,
    /// The channel joined.
    pub channel: Channel,
}

/// Whether a moderation mode was gained or lost.
#[derive(Clone, Copy, Debug, PartialEq, Eq, Structural)]
pub enum ModeStatus {
    /// The mode was granted.
    Gained,
    /// The mode was taken away.
    Lost,
}

/// The status a mode argument spells: `+...` grants, anything else revokes.
pub open spec fn spec_mode_status(a: Seq<char>) -> ModeStatus {
    if a.len() > 0 && a[0] == '+' {
        ModeStatus::Gained
    } else {
        ModeStatus::Lost
    }
}

/// When a user gains or loses moderator status.
#[derive(Clone, Debug, PartialEq, Eq)]
pub struct Mode {
    /// The channel this event happened on.
    pub channel: Channel,
    /// Whether the mode was gained or lost.
    pub status: ModeStatus,
    /// The user affected.
    pub user: String,
}

/// The start (or continuation) of a names list for a channel.
#[derive(Clone, Debug, PartialEq, Eq)]
pub struct NamesStart {
    /// The channel the names belong to.
    pub channel: Channel,
    /// The user the list was sent to.
    pub user: String,
    /// The names in this batch.
    pub users: Vec<String>,
}

/// The end of a names list.
#[derive(Clone, Debug, PartialEq, Eq)]
pub struct NamesEnd {
    /// The channel the names belonged to.
    pub channel: Channel,
    /// The user the list was sent to.
    pub user: String,
}

/// When a user leaves a channel.
#[derive(Clone, Debug, PartialEq, Eq)]
pub struct Part {
    /// The leaving user.
    pub user: String,
    /// The channel left.
    pub channel: Channel,
}

/// When a channel's chat, or one user's messages, were cleared.
#[derive(Clone, Debug, PartialEq, Eq)]
pub struct ClearChat {
    /// IRC tags.
    pub tags: Tags,
    /// The channel this event happened on.
    pub channel: Channel,
    /// The user whose messages were cleared, or none for the whole chat.
    pub user: Option<String>,
}

/// When a single message was removed from a channel.
#[derive(Clone, Debug, PartialEq, Eq)]
pub struct ClearMsg {
    /// IRC tags.
    pub tags: Tags,
    /// The channel this event happened on.
    pub channel: Channel,
    /// The removed message's text, when the server included it.
    pub message: Option<String>,
}

impl ClearMsg {
    /// IRC tags.
    pub fn tags(&self) -> (r: &Tags)
        ensures
            r == self.tags,
    {
        &self.tags
    }

    /// The channel this event happened on.
    pub fn channel(&self) -> (r: &Channel)
        ensures
            r == self.channel,
    {
        &self.channel
    }

    /// The removed message's text, when the server included it.
    pub fn message(&self) -> (r: Option<&str>)
        ensures
            match r {
                Some(m) => self.message matches Some(t) && t@ == m@,
                None => self.message is None,
            },
    {
        match &self.message {
            Some(m) => Some(m.as_str()),
            None => None,
        }
    }

    /// The first value of the tag named `key`.
    pub fn get(&self, key: &str) -> (r: Option<&str>)
        ensures
            match r {
                Some(v) => lookup_pairs(self.tags.s_pairs(), key@) == Some(v@),
                None => lookup_pairs(self.tags.s_pairs(), key@) is None,
            },
    {
        self.tags.get(key)
    }

    /// Name of the user who sent the removed message.
    pub fn login(&self) -> (r: Option<&str>)
        ensures
            match r {
                Some(v) => lookup_pairs(self.tags.s_pairs(), "login"@) == Some(v@),
                None => lookup_pairs(self.tags.s_pairs(), "login"@) is None,
            },
    {
        self.tags.get("login")
    }

    /// UUID of the removed message.
    pub fn target_msg_id(&self) -> (r: Option<&str>)
        ensures
            match r {
                Some(v) => lookup_pairs(self.tags.s_pairs(), "target-msg-id"@) == Some(v@),
                None => lookup_pairs(self.tags.s_pairs(), "target-msg-id"@) is None,
            },
    {
        self.tags.get("target-msg-id")
    }
}

/// When a channel starts host mode.
#[derive(Clone, Debug, PartialEq, Eq)]
pub struct HostTargetStart {
    /// The hosting channel.
    pub source: String,
    /// The hosted channel.
    pub target: String,
    /// Optional number of viewers watching.
    pub viewers: Option<usize>,
}

/// When a channel ends host mode.
#[derive(Clone, Debug, PartialEq, Eq)]
pub struct HostTargetEnd {
    /// The hosting channel.
    pub source: String,
    /// Optional number of viewers watching.
    pub viewers: Option<usize>,
}

/// A server notice sent to a channel.
#[derive(Clone, Debug, PartialEq, Eq)]
pub struct Notice {
    /// IRC tags.
    pub tags: Tags,
    /// The channel the notice was sent to.
    pub channel: Channel,
    /// The notice's text.
    pub message: String,
}

/// The server asks the client to reconnect.
#[derive(Clone, Debug, PartialEq, Eq)]
pub struct Reconnect;

/// A channel's settings, sent on join and on change.
#[derive(Clone, Debug, PartialEq, Eq)]
pub struct RoomState {
    /// IRC tags.
    pub tags: Tags,
    /// The channel the settings belong to.
    pub channel: Channel,
}

/// An event the server announces in a channel.
#[derive(Clone, Debug, PartialEq, Eq)]
pub struct UserNotice {
    /// IRC tags.
    pub tags: Tags,
    /// The channel this event happened on.
    pub channel: Channel,
    /// The event's text, when it carries one.
    pub message: Option<String>,
}

/// The client user's state within a channel.
#[derive(Clone, Debug, PartialEq, Eq)]
pub struct UserState {
    /// IRC tags.
    pub tags: Tags,
    /// The channel the state belongs to.
    pub channel: Channel,
}

/// The client user's global state.
#[derive(Clone, Debug, PartialEq, Eq)]
pub struct GlobalUserState {
    /// IRC tags.
    pub tags: Tags,
}

/// A private message sent directly to the client user.
#[derive(Clone, Debug, PartialEq, Eq)]
pub struct Whisper {
    /// The sender.
    pub user: String,
    /// The message's text.
    pub message: String,
}

/// A chat message sent to a channel.
#[derive(Clone, Debug, PartialEq, Eq)]
pub struct PrivMsg {
    /// The sender.
    pub user: String,
    /// IRC tags.
    pub tags: Tags,
    /// The channel the message was sent to.
    pub channel: Channel,
    /// The chat text, the action marker stripped.
    pub message: String,
    /// Whether the message was an emote ("action") message.
    pub action: bool,
}

/// The closed set of recognised server commands. Anything else lands in
/// [`Message::Unknown`], intact.
#[derive(Clone, Debug, PartialEq, Eq)]
pub enum Message {
    /// A user joined a channel.
    Join(Join),
    /// A user gained or lost moderator status.
    Mode(Mode),
    /// The start of a names list.
    NamesStart(NamesStart),
    /// The end of a names list.
    NamesEnd(NamesEnd),
    /// A user left a channel.
    Part(Part),
    /// A channel's chat was cleared.
    ClearChat(ClearChat),
    /// A single message was removed.
    ClearMsg(ClearMsg),
    /// A channel started host mode.
    HostTargetStart(HostTargetStart),
    /// A channel ended host mode.
    HostTargetEnd(HostTargetEnd),
    /// A server notice.
    Notice(Notice),
    /// The server asks the client to reconnect.
    Reconnect(Reconnect),
    /// A channel's settings.
    RoomState(RoomState),
    /// An event announced in a channel.
    UserNotice(UserNotice),
    /// The client user's state within a channel.
    UserState(UserState),
    /// The client user's global state.
    GlobalUserState(GlobalUserState),
    /// A chat message.
    PrivMsg(PrivMsg),
    /// A private message to the client user.
    Whisper(Whisper),
    /// A command this library does not recognise, kept as its raw line.
    Unknown(String),
}

/// The number of viewers a token spells, when it is a decimal number that
/// fits.
pub open spec fn spec_viewers_token(t: Seq<char>) -> Option<usize> {
    if t.len() > 0 && all_digits(t) && digits_val(t) <= usize::MAX {
        Some(digits_val(t) as usize)
    } else {
        None
    }
}

/// The viewers of a host start: the third argument, when present and
/// numeric.
pub open spec fn spec_start_viewers(args: Seq<Seq<char>>) -> Option<usize> {
    if args.len() >= 3 {
        spec_viewers_token(args[2])
    } else {
        None
    }
}

/// The viewers of a host end: the number after `- ` in the trailing data.
pub open spec fn spec_end_viewers(d: Seq<char>) -> Option<usize> {
    if d.len() >= 2 && d.take(2) == "- "@ {
        spec_viewers_token(d.skip(2))
    } else {
        None
    }
}

/// What `parse` yields for a raw message: the projection of every variant,
/// and exactly when each error comes.
pub open spec fn parses_to(raw: Seq<char>, r: Result<Message, Error>) -> bool {
    let cmd = spec_parse(raw).command;
    let args = spec_parse(raw).args;
    let data = spec_parse(raw).data;
    let tags = tag_pairs(spec_parse(raw).tags);
    if cmd == "JOIN"@ {
        match r {
            Ok(Message::Join(m)) => {
                &&& args.len() >= 1
                &&& m.user@ == spec_nick_of_raw(raw)
                &&& m.channel.s_name() == norm_channel(args[0])
            },
            Err(Error::InvalidMessage(InvalidMessage::ExpectedArg(n))) => args.len() == 0 && n
                == 0,
            _ => false,
        }
    } else if cmd == "MODE"@ {
        match r {
            Ok(Message::Mode(m)) => {
                &&& args.len() >= 3
                &&& m.channel.s_name() == norm_channel(args[0])
                &&& m.status == spec_mode_status(args[1])
                &&& m.user@ == args[2]
            },
            Err(Error::InvalidMessage(InvalidMessage::ExpectedArg(n))) => args.len() < 3 && n
                == args.len(),
            _ => false,
        }
    } else if cmd == "353"@ {
        match r {
            Ok(Message::NamesStart(m)) => {
                &&& args.len() >= 3
                &&& data is Some
                &&& m.channel.s_name() == norm_channel(args[2])
                &&& m.user@ == args[0]
                &&& m.users@.map_values(|u: String| u@) == split_char(data->0, ' ')
            },
            Err(Error::InvalidMessage(InvalidMessage::ExpectedArg(n))) => args.len() < 3 && n
                == args.len(),
            Err(Error::InvalidMessage(InvalidMessage::ExpectedData)) => args.len() >= 3 && data
                is None,
            _ => false,
        }
    } else if cmd == "366"@ {
        match r {
            Ok(Message::NamesEnd(m)) => {
                &&& args.len() >= 2
                &&& m.user@ == args[0]
                &&& m.channel.s_name() == norm_channel(args[1])
            },
            Err(Error::InvalidMessage(InvalidMessage::ExpectedArg(n))) => args.len() < 2 && n
                == args.len(),
            _ => false,
        }
    } else if cmd == "PART"@ {
        match r {
            Ok(Message::Part(m)) => {
                &&& args.len() >= 1
                &&& m.user@ == spec_nick_of_raw(raw)
                &&& m.channel.s_name() == norm_channel(args[0])
            },
            Err(Error::InvalidMessage(InvalidMessage::ExpectedArg(n))) => args.len() == 0 && n
                == 0,
            _ => false,
        }
    } else if cmd == "CLEARCHAT"@ {
        match r {
            Ok(Message::ClearChat(m)) => {
                &&& args.len() >= 1
                &&& m.tags.s_pairs() == tags
                &&& m.channel.s_name() == norm_channel(args[0])
                &&& match (m.user, data) {
                    (Some(u), Some(d)) => u@ == d,
                    (None, None) => true,
                    _ => false,
                }
            },
            Err(Error::InvalidMessage(InvalidMessage::ExpectedArg(n))) => args.len() == 0 && n
                == 0,
            _ => false,
        }
    } else if cmd == "CLEARMSG"@ {
        match r {
            Ok(Message::ClearMsg(m)) => {
                &&& args.len() >= 1
                &&& m.tags.s_pairs() == tags
                &&& m.channel.s_name() == norm_channel(args[0])
                &&& match (m.message, data) {
                    (Some(t), Some(d)) => t@ == d,
                    (None, None) => true,
                    _ => false,
                }
            },
            Err(Error::InvalidMessage(InvalidMessage::ExpectedArg(n))) => args.len() == 0 && n
                == 0,
            _ => false,
        }
    } else if cmd == "HOSTTARGET"@ {
        match r {
            Ok(Message::HostTargetStart(m)) => {
                &&& data is None
                &&& args.len() >= 2
                &&& m.source@ == args[0]
                &&& m.target@ == args[1]
                &&& m.viewers == spec_start_viewers(args)
            },
            Ok(Message::HostTargetEnd(m)) => {
                &&& data is Some
                &&& args.len() >= 1
                &&& m.source@ == args[0]
                &&& m.viewers == spec_end_viewers(data->0)
            },
            Err(Error::InvalidMessage(InvalidMessage::ExpectedArg(n))) => (data is None
                && args.len() < 2 && n == args.len()) || (data is Some && args.len() == 0 && n
                == 0),
            _ => false,
        }
    } else if cmd == "NOTICE"@ {
        match r {
            Ok(Message::Notice(m)) => {
                &&& args.len() >= 1
                &&& data is Some
                &&& m.tags.s_pairs() == tags
                &&& m.channel.s_name() == norm_channel(args[0])
                &&& m.message@ == data->0
            },
            Err(Error::InvalidMessage(InvalidMessage::ExpectedArg(n))) => args.len() == 0 && n
                == 0,
            Err(Error::InvalidMessage(InvalidMessage::ExpectedData)) => args.len() >= 1 && data
                is None,
            _ => false,
        }
    } else if cmd == "RECONNECT"@ {
        r == Ok::<Message, Error>(Message::Reconnect(Reconnect))
    } else if cmd == "ROOMSTATE"@ {
        match r {
            Ok(Message::RoomState(m)) => {
                &&& args.len() >= 1
                &&& m.tags.s_pairs() == tags
                &&& m.channel.s_name() == norm_channel(args[0])
            },
            Err(Error::InvalidMessage(InvalidMessage::ExpectedArg(n))) => args.len() == 0 && n
                == 0,
            _ => false,
        }
    } else if cmd == "USERNOTICE"@ {
        match r {
            Ok(Message::UserNotice(m)) => {
                &&& args.len() >= 1
                &&& m.tags.s_pairs() == tags
                &&& m.channel.s_name() == norm_channel(args[0])
                &&& match (m.message, data) {
                    (Some(t), Some(d)) => t@ == d,
                    (None, None) => true,
                    _ => false,
                }
            },
            Err(Error::InvalidMessage(InvalidMessage::ExpectedArg(n))) => args.len() == 0 && n
                == 0,
            _ => false,
        }
    } else if cmd == "USERSTATE"@ {
        match r {
            Ok(Message::UserState(m)) => {
                &&& args.len() >= 1
                &&& m.tags.s_pairs() == tags
                &&& m.channel.s_name() == norm_channel(args[0])
            },
            Err(Error::InvalidMessage(InvalidMessage::ExpectedArg(n))) => args.len() == 0 && n
                == 0,
            _ => false,
        }
    } else if cmd == "GLOBALUSERSTATE"@ {
        match r {
            Ok(Message::GlobalUserState(m)) => m.tags.s_pairs() == tags,
            _ => false,
        }
    } else if cmd == "PRIVMSG"@ {
        match r {
            Ok(Message::PrivMsg(m)) => {
                &&& args.len() >= 1
                &&& data is Some
                &&& m.user@ == spec_nick_of_raw(raw)
                &&& m.tags.s_pairs() == tags
                &&& m.channel.s_name() == norm_channel(args[0])
                &&& m.message@ == unwrap_action(data->0)
                &&& m.action == is_action(data->0)
            },
            Err(Error::InvalidMessage(InvalidMessage::ExpectedArg(n))) => args.len() == 0 && n
                == 0,
            Err(Error::InvalidMessage(InvalidMessage::ExpectedData)) => args.len() >= 1 && data
                is None,
            _ => false,
        }
    } else if cmd == "WHISPER"@ {
        match r {
            Ok(Message::Whisper(m)) => {
                &&& data is Some
                &&& m.user@ == spec_nick_of_raw(raw)
                &&& m.message@ == data->0
            },
            Err(Error::InvalidMessage(InvalidMessage::ExpectedData)) => data is None,
            _ => false,
        }
    } else {
        match r {
            Ok(Message::Unknown(line)) => line@ == raw,
            _ => false,
        }
    }
}

/// A tags fragment out of a parsed message is empty or `@`-led, so parsing
/// it as a fragment yields exactly its pairs.
proof fn lemma_tags_of_fragment_at(s: Seq<char>)
    requires
        s.len() == 0 || s[0] == '@',
    ensures
        tags_of_fragment(s) == tag_pairs(s),
{
    if s.len() == 0 {
        let t = seq!['@'] + s;
        assert(t =~= seq!['@']);
        assert(t.len() == 1 && t[0] == '@');
        let u = t.skip(1);
        assert(u =~= Seq::<char>::empty());
        assert(find_from(u, ';', 0) == 0);
        assert(split_char(u, ';') == seq![u]);
        assert(find_from(u, '=', 0) == 0);
        assert(crate::tags::seg_key(u).len() == 0);
        assert(crate::tags::pairs_of_segs(seq![u]) =~= crate::tags::pairs_of_segs(
            seq![u].skip(1),
        ));
        assert(seq![u].skip(1) =~= Seq::<Seq<char>>::empty());
        assert(tag_pairs(t) =~= Seq::<(Seq<char>, Seq<char>)>::empty());
        assert(tag_pairs(s) =~= Seq::<(Seq<char>, Seq<char>)>::empty());
    }
}

/// The nickname of the message's source, or empty, as an owned string.
fn nick_of_msg(msg: &IrcMessage) -> (r: String)
    requires
        msg.wf(),
    ensures
        r@ == spec_nick(*msg),
{
    match msg.source() {
        Some(src) => nick_of_source(src),
        None => String::new(),
    }
}

/// The tags of a parsed message, owned.
fn tags_of_msg(msg: &IrcMessage) -> (r: Tags)
    requires
        msg.wf(),
    ensures
        r.s_pairs() == tag_pairs(msg.s_tags()),
{
    let fragment = msg.tags_fragment();
    proof {
        let s = msg.s_raw();
        if fragment@.len() > 0 {
            crate::util::lemma_find_from(s, ' ', 0);
            assert(s.len() > 0 && s[0] == '@');
            assert(fragment@[0] == s[0]);
        }
        lemma_tags_of_fragment_at(fragment@);
    }
    Tags::parse(fragment)
}

/// Project a raw message into the typed [`Message`] it spells, routing
/// unrecognised commands to [`Message::Unknown`].
pub fn parse(msg: &IrcMessage) -> (r: Result<Message, Error>)
    requires
        msg.wf(),
    ensures
        parses_to(msg.s_raw(), r),
{
    let cmd = msg.command();
    if str_eq(cmd, "JOIN") {
        let a0 = match msg.expect_arg(0) {
            Ok(a) => a,
            Err(e) => {
                return Err(Error::InvalidMessage(e));
            },
        };
        Ok(Message::Join(Join { user: nick_of_msg(msg), channel: Channel::new(a0) }))
    } else if str_eq(cmd, "MODE") {
        let a0 = match msg.expect_arg(0) {
            Ok(a) => a,
            Err(e) => {
                return Err(Error::InvalidMessage(e));
            },
        };
        let a1 = match msg.expect_arg(1) {
            Ok(a) => a,
            Err(e) => {
                return Err(Error::InvalidMessage(e));
            },
        };
        let a2 = match msg.expect_arg(2) {
            Ok(a) => a,
            Err(e) => {
                return Err(Error::InvalidMessage(e));
            },
        };
        let status = if a1.unicode_len() > 0 && a1.get_char(0) == '+' {
            ModeStatus::Gained
        } else {
            ModeStatus::Lost
        };
        Ok(Message::Mode(Mode { channel: Channel::new(a0), status, user: a2.to_owned() }))
    } else if str_eq(cmd, "353") {
        let a0 = match msg.expect_arg(0) {
            Ok(a) => a,
            Err(e) => {
                return Err(Error::InvalidMessage(e));
            },
        };
        if let Err(e) = msg.expect_arg(1) {
            return Err(Error::InvalidMessage(e));
        }
        let a2 = match msg.expect_arg(2) {
            Ok(a) => a,
            Err(e) => {
                return Err(Error::InvalidMessage(e));
            },
        };
        let d = match msg.expect_data() {
            Ok(d) => d,
            Err(e) => {
                return Err(Error::InvalidMessage(e));
            },
        };
        let users = split_string(d, ' ');
        proof {
            assert(users@.map_values(|u: String| u@) =~= split_char(d@, ' '));
        }
        Ok(Message::NamesStart(NamesStart {
            channel: Channel::new(a2),
            user: a0.to_owned(),
            users,
        }))
    } else if str_eq(cmd, "366") {
        let a0 = match msg.expect_arg(0) {
            Ok(a) => a,
            Err(e) => {
                return Err(Error::InvalidMessage(e));
            },
        };
        let a1 = match msg.expect_arg(1) {
            Ok(a) => a,
            Err(e) => {
                return Err(Error::InvalidMessage(e));
            },
        };
        Ok(Message::NamesEnd(NamesEnd { channel: Channel::new(a1), user: a0.to_owned() }))
    } else if str_eq(cmd, "PART") {
        let a0 = match msg.expect_arg(0) {
            Ok(a) => a,
            Err(e) => {
                return Err(Error::InvalidMessage(e));
            },
        };
        Ok(Message::Part(Part { user: nick_of_msg(msg), channel: Channel::new(a0) }))
    } else if str_eq(cmd, "CLEARCHAT") {
        let a0 = match msg.expect_arg(0) {
            Ok(a) => a,
            Err(e) => {
                return Err(Error::InvalidMessage(e));
            },
        };
        let user = match msg.data() {
            Some(d) => Some(d.to_owned()),
            None => None,
        };
        Ok(Message::ClearChat(ClearChat {
            tags: tags_of_msg(msg),
            channel: Channel::new(a0),
            user,
        }))
    } else if str_eq(cmd, "CLEARMSG") {
        let a0 = match msg.expect_arg(0) {
            Ok(a) => a,
            Err(e) => {
                return Err(Error::InvalidMessage(e));
            },
        };
        let message = match msg.data() {
            Some(d) => Some(d.to_owned()),
            None => None,
        };
        Ok(Message::ClearMsg(ClearMsg {
            tags: tags_of_msg(msg),
            channel: Channel::new(a0),
            message,
        }))
    } else if str_eq(cmd, "HOSTTARGET") {
        let a0 = match msg.expect_arg(0) {
            Ok(a) => a,
            Err(e) => {
                return Err(Error::InvalidMessage(e));
            },
        };
        match msg.data() {
            Some(d) => {
                let dn = d.unicode_len();
                let viewers = if dn >= 2 && str_eq(d.substring_char(0, 2), "- ") {
                    let tok = d.substring_char(2, dn);
                    proof {
                        assert(tok@ =~= d@.skip(2));
                    }
                    parse_usize(tok)
                } else {
                    None
                };
                Ok(Message::HostTargetEnd(HostTargetEnd { source: a0.to_owned(), viewers }))
            },
            None => {
                let a1 = match msg.expect_arg(1) {
                    Ok(a) => a,
                    Err(e) => {
                        return Err(Error::InvalidMessage(e));
                    },
                };
                let viewers = match msg.nth_arg(2) {
                    Some(t) => parse_usize(t),
                    None => None,
                };
                Ok(Message::HostTargetStart(HostTargetStart {
                    source: a0.to_owned(),
                    target: a1.to_owned(),
                    viewers,
                }))
            },
        }
    } else if str_eq(cmd, "NOTICE") {
        let a0 = match msg.expect_arg(0) {
            Ok(a) => a,
            Err(e) => {
                return Err(Error::InvalidMessage(e));
            },
        };
        let d = match msg.expect_data() {
            Ok(d) => d,
            Err(e) => {
                return Err(Error::InvalidMessage(e));
            },
        };
        Ok(Message::Notice(Notice {
            tags: tags_of_msg(msg),
            channel: Channel::new(a0),
            message: d.to_owned(),
        }))
    } else if str_eq(cmd, "RECONNECT") {
        Ok(Message::Reconnect(Reconnect))
    } else if str_eq(cmd, "ROOMSTATE") {
        let a0 = match msg.expect_arg(0) {
            Ok(a) => a,
            Err(e) => {
                return Err(Error::InvalidMessage(e));
            },
        };
        Ok(Message::RoomState(RoomState { tags: tags_of_msg(msg), channel: Channel::new(a0) }))
    } else if str_eq(cmd, "USERNOTICE") {
        let a0 = match msg.expect_arg(0) {
            Ok(a) => a,
            Err(e) => {
                return Err(Error::InvalidMessage(e));
            },
        };
        let message = match msg.data() {
            Some(d) => Some(d.to_owned()),
            None => None,
        };
        Ok(Message::UserNotice(UserNotice {
            tags: tags_of_msg(msg),
            channel: Channel::new(a0),
            message,
        }))
    } else if str_eq(cmd, "USERSTATE") {
        let a0 = match msg.expect_arg(0) {
            Ok(a) => a,
            Err(e) => {
                return Err(Error::InvalidMessage(e));
            },
        };
        Ok(Message::UserState(UserState { tags: tags_of_msg(msg), channel: Channel::new(a0) }))
    } else if str_eq(cmd, "GLOBALUSERSTATE") {
        Ok(Message::GlobalUserState(GlobalUserState { tags: tags_of_msg(msg) }))
    } else if str_eq(cmd, "PRIVMSG") {
        let a0 = match msg.expect_arg(0) {
            Ok(a) => a,
            Err(e) => {
                return Err(Error::InvalidMessage(e));
            },
        };
        let d = match msg.expect_data() {
            Ok(d) => d,
            Err(e) => {
                return Err(Error::InvalidMessage(e));
            },
        };
        let dn = d.unicode_len();
        let mut action = false;
        if dn >= 9 {
            if str_eq(d.substring_char(0, 8), "\u{1}ACTION ") && d.get_char(dn - 1) == '\u{1}' {
                action = true;
            }
        }
        let message = if action {
            substr_string(d, 8, dn - 1)
        } else {
            d.to_owned()
        };
        Ok(Message::PrivMsg(PrivMsg {
            user: nick_of_msg(msg),
            tags: tags_of_msg(msg),
            channel: Channel::new(a0),
            message,
            action,
        }))
    } else if str_eq(cmd, "WHISPER") {
        let d = match msg.expect_data() {
            Ok(d) => d,
            Err(e) => {
                return Err(Error::InvalidMessage(e));
            },
        };
        Ok(Message::Whisper(Whisper { user: nick_of_msg(msg), message: d.to_owned() }))
    } else {
        Ok(Message::Unknown(msg.raw().to_owned()))
    }
}

} // verus!
