//! The runner: the connection lifecycle as a verified state machine.
//!
//! A connection registers (capability requests, then `PASS` and `NICK`),
//! pumps frames, answers liveness probes, and leaves on `RECONNECT`, end of
//! stream, a timeout or a user abort. All of that is decided here, on plain
//! values; the thin layer that owns the socket performs the reads, writes
//! and sleeps the machine asks for.
//!
//! The write side keeps two lanes: answers to liveness probes go into a
//! high-priority lane that is always drained before user-submitted frames,
//! which [`lemma_ping_pong_liveness`] states as a law.

use vstd::prelude::*;
use vstd::string::StrSliceExecFns;
use vstd::string::StringExecFns;
use crate::decoder::{Decoder, DecodeError, MAX_FRAME, wire_frames, wire_rest};
use crate::irc::{IrcMessage, spec_parse};
use crate::tags::{tag_pairs, lookup_pairs};
use crate::trovo::{Capability, Error, Message, parse, parses_to};
use crate::userconfig::UserConfig;
use crate::util::str_eq;

verus! {

/// How a finished run ended.
#[derive(Clone, Debug, PartialEq, Eq)]
pub enum Status {
    /// The server closed the stream cleanly.
    Eof,
    /// The user asked the runner to stop.
    Canceled,
    /// The server stopped answering liveness probes.
    Timeout,
    /// The transport failed, with its error's description.
    Error(String),
}

/// Why a run could not proceed.
#[derive(Clone, Debug, PartialEq, Eq)]
pub enum RunnerError {
    /// Registration failed, with the server's reason.
    Registration(String),
    /// The transport failed, with its error's description.
    Io(String),
    /// The server stopped answering liveness probes.
    Timeout,
    /// The rate limiter was closed while a sender waited.
    RateLimiterClosed,
}

/// The capabilities the server acknowledged.
#[derive(Clone, Debug, PartialEq, Eq)]
pub struct Capabilities {
    /// The membership capability was acknowledged.
    pub membership: bool,
    /// The service's extra commands were acknowledged.
    pub commands: bool,
    /// The tags capability was acknowledged.
    pub tags: bool,
    /// Capability names the server sent that this library does not know.
    pub unknown: Vec<String>,
}

impl Default for Capabilities {
    /// Nothing acknowledged yet.
    fn default() -> (r: Self)
        ensures
            !r.membership && !r.commands && !r.tags && r.unknown@.len() == 0,
    {
        Capabilities { membership: false, commands: false, tags: false, unknown: Vec::new() }
    }
}

impl Capabilities {
    /// Record one acknowledged capability by its wire name; an unknown name
    /// is kept in `unknown`.
    pub fn acknowledge(&mut self, name: &str)
        ensures
            ({
                let old_c = *old(self);
                let new_c = *final(self);
                match Capability::spec_maybe_from(name@) {
                    Some(Capability::Membership) => new_c == (Capabilities {
                        membership: true,
                        ..old_c
                    }),
                    Some(Capability::Tags) => new_c == (Capabilities { tags: true, ..old_c }),
                    Some(Capability::Commands) => new_c == (Capabilities {
                        commands: true,
                        ..old_c
                    }),
                    None => {
                        &&& new_c.membership == old_c.membership
                        &&& new_c.commands == old_c.commands
                        &&& new_c.tags == old_c.tags
                        &&& new_c.unknown@.len() == old_c.unknown@.len() + 1
                        &&& new_c.unknown@.last()@ == name@
                        &&& forall|i: int|
                            0 <= i < old_c.unknown@.len() ==> new_c.unknown@[i]
                                == old_c.unknown@[i]
                    },
                }
            }),
    {
        match Capability::maybe_from_str(name) {
            Some(Capability::Membership) => {
                self.membership = true;
            },
            Some(Capability::Tags) => {
                self.tags = true;
            },
            Some(Capability::Commands) => {
                self.commands = true;
            },
            None => {
                self.unknown.push(name.to_owned());
            },
        }
    }
}

/// The post-registration summary: the confirmed nickname, the acknowledged
/// capabilities, and the display attributes discovered during registration.
#[derive(Clone, Debug, PartialEq, Eq)]
pub struct Identity {
    /// The nickname the server confirmed.
    pub nickname: String,
    /// The capabilities the server acknowledged.
    pub caps: Capabilities,
    /// The user id, when the server announced one.
    pub user_id: Option<String>,
    /// The display name, when the server announced one.
    pub display_name: Option<String>,
    /// The chat color, when the server announced one.
    pub color: Option<String>,
}

/// Where the connection stands.
#[derive(Clone, Debug, PartialEq, Eq)]
pub enum RunnerState {
    /// Waiting for the server to confirm the registration.
    Registering,
    /// Pumping frames.
    Running,
    /// The server asked for a reconnect; the retry strategy decides.
    Reconnecting,
    /// The run is over.
    Terminated(Status),
}

/// The registration frames for a configuration: one `CAP REQ` per requested
/// capability, then `PASS` and `NICK`.
pub fn register_frames(config: &UserConfig) -> (r: Vec<String>)
    ensures
        r@.len() == config.caps@.len() + 2,
        forall|i: int|
            0 <= i < config.caps@.len() ==> (#[trigger] r@[i])@ == config.caps@[i].spec_encode()
                + "\r\n"@,
        r@[config.caps@.len() as int]@ == "PASS "@ + config.token@ + "\r\n"@,
        r@[config.caps@.len() as int + 1]@ == "NICK "@ + config.nick@ + "\r\n"@,
{
    let mut out: Vec<String> = Vec::new();
    let mut i: usize = 0;
    let n = config.caps.len();
    while i < n
        invariant
            0 <= i <= n,
            n == config.caps@.len(),
            out@.len() == i,
            forall|x: int|
                0 <= x < i ==> (#[trigger] out@[x])@ == config.caps@[x].spec_encode() + "\r\n"@,
        decreases n - i,
    {
        let mut line = String::new();
        line.append(config.caps[i].encode_as_str());
        line.append("\r\n");
        out.push(line);
        i = i + 1;
    }
    let mut pass = String::new();
    pass.append("PASS ");
    pass.append(config.token.as_str());
    pass.append("\r\n");
    out.push(pass);
    let mut nick = String::new();
    nick.append("NICK ");
    nick.append(config.nick.as_str());
    nick.append("\r\n");
    out.push(nick);
    out
}

/// The `PONG` frame that answers a probe with token `t`.
pub open spec fn pong_frame(t: Seq<char>) -> Seq<char> {
    "PONG :"@ + t + "\r\n"@
}

/// The connection state machine: what to do next, decided frame by frame.
#[derive(Clone, Debug)]
pub struct Runner {
    state: RunnerState,
    caps: Capabilities,
    nickname: Option<String>,
    user_id: Option<String>,
    display_name: Option<String>,
    color: Option<String>,
    priority: Vec<String>,
    outgoing: Vec<String>,
}

impl Runner {
    /// Where the connection stands.
    pub closed spec fn s_state(self) -> RunnerState {
        self.state
    }

    /// The high-priority lane: probe answers, drained before user frames.
    pub closed spec fn s_priority(self) -> Seq<Seq<char>> {
        self.priority@.map_values(|x: String| x@)
    }

    /// The user-submitted lane.
    pub closed spec fn s_outgoing(self) -> Seq<Seq<char>> {
        self.outgoing@.map_values(|x: String| x@)
    }

    /// The capabilities acknowledged so far.
    pub closed spec fn s_caps(self) -> Capabilities {
        self.caps
    }

    /// The nickname the server confirmed, if registration is done.
    pub closed spec fn s_nickname(self) -> Option<Seq<char>> {
        match self.nickname {
            Some(n) => Some(n@),
            None => None,
        }
    }

    /// The user id the server announced, if it announced one.
    pub closed spec fn s_user_id(self) -> Option<Seq<char>> {
        match self.user_id {
            Some(v) => Some(v@),
            None => None,
        }
    }

    /// The display name the server announced, if it announced one.
    pub closed spec fn s_display_name(self) -> Option<Seq<char>> {
        match self.display_name {
            Some(v) => Some(v@),
            None => None,
        }
    }

    /// The chat color the server announced, if it announced one.
    pub closed spec fn s_color(self) -> Option<Seq<char>> {
        match self.color {
            Some(v) => Some(v@),
            None => None,
        }
    }

    /// A fresh runner, waiting for registration to be confirmed.
    pub fn new() -> (r: Runner)
        ensures
            r.s_state() == RunnerState::Registering,
            r.s_priority().len() == 0,
            r.s_outgoing().len() == 0,
            r.s_nickname() is None,
    {
        let r = Runner {
            state: RunnerState::Registering,
            caps: Capabilities::default(),
            nickname: None,
            user_id: None,
            display_name: None,
            color: None,
            priority: Vec::new(),
            outgoing: Vec::new(),
        };
        proof {
            assert(r.s_priority() =~= Seq::<Seq<char>>::empty());
            assert(r.s_outgoing() =~= Seq::<Seq<char>>::empty());
        }
        r
    }

    /// React to one received frame.
    ///
    /// A `PING` enqueues the matching `PONG` on the high-priority lane; a
    /// `RECONNECT` moves to `Reconnecting`; the registration
    /// acknowledgement (`001`) moves to `Running` and records the nickname;
    /// an acknowledged `CAP` is recorded. Everything else changes nothing
    /// here; they are the dispatcher's to fan out.
    pub fn on_frame(&mut self, msg: &IrcMessage)
        requires
            msg.wf(),
        ensures
            ({
                let cmd = msg.s_command();
                let data = msg.s_data();
                let args = msg.s_args();
                &&& final(self).s_outgoing() == old(self).s_outgoing()
                &&& (if cmd == "PING"@ && data is Some {
                    final(self).s_priority() == old(self).s_priority().push(pong_frame(data->0))
                } else {
                    final(self).s_priority() == old(self).s_priority()
                })
                &&& (if cmd == "RECONNECT"@ {
                    final(self).s_state() == RunnerState::Reconnecting
                } else if cmd == "001"@ && args.len() >= 1 {
                    final(self).s_state() == RunnerState::Running && final(self).s_nickname()
                        == Some(args[0])
                } else {
                    final(self).s_state() == old(self).s_state() && final(self).s_nickname() == old(
                        self,
                    ).s_nickname()
                })
                &&& (if cmd == "GLOBALUSERSTATE"@ {
                    let tags = tag_pairs(msg.s_tags());
                    &&& final(self).s_user_id() == lookup_pairs(tags, "user-id"@)
                    &&& final(self).s_display_name() == lookup_pairs(tags, "display-name"@)
                    &&& final(self).s_color() == lookup_pairs(tags, "color"@)
                } else {
                    &&& final(self).s_user_id() == old(self).s_user_id()
                    &&& final(self).s_display_name() == old(self).s_display_name()
                    &&& final(self).s_color() == old(self).s_color()
                })
            }),
    {
        proof {
            // The dispatch below needs the four command literals to be
            // distinguishable.
            reveal_strlit("PING");
            reveal_strlit("RECONNECT");
            reveal_strlit("001");
            reveal_strlit("CAP");
            assert("PING"@.len() == 4);
            assert("RECONNECT"@.len() == 9);
            reveal_strlit("GLOBALUSERSTATE");
            assert("001"@.len() == 3);
            assert("CAP"@.len() == 3);
            assert("GLOBALUSERSTATE"@.len() == 15);
            assert("001"@[0] == '0' && "CAP"@[0] == 'C');
        }
        let cmd = msg.command();
        if str_eq(cmd, "PING") {
            if let Some(t) = msg.data() {
                let mut line = String::new();
                line.append("PONG :");
                line.append(t);
                line.append("\r\n");
                let ghost before = self.priority@.map_values(|x: String| x@);
                self.priority.push(line);
                proof {
                    assert(self.priority@.map_values(|x: String| x@) =~= before.push(
                        pong_frame(msg.s_data()->0),
                    ));
                }
            }
        } else if str_eq(cmd, "RECONNECT") {
            self.state = RunnerState::Reconnecting;
        } else if str_eq(cmd, "001") {
            if let Some(n) = msg.nth_arg(0) {
                self.nickname = Some(n.to_owned());
                self.state = RunnerState::Running;
            }
        } else if str_eq(cmd, "CAP") {
            let acked = match msg.nth_arg(1) {
                Some(a) => str_eq(a, "ACK"),
                None => false,
            };
            if acked {
                if let Some(name) = msg.data() {
                    self.caps.acknowledge(name);
                }
            }
        } else if str_eq(cmd, "GLOBALUSERSTATE") {
            self.user_id = msg.tag("user-id");
            self.display_name = msg.tag("display-name");
            self.color = msg.tag("color");
        }
    }

    /// Submit a user frame; it waits behind the high-priority lane.
    pub fn queue_frame(&mut self, line: String)
        ensures
            final(self).s_outgoing() == old(self).s_outgoing().push(line@),
            final(self).s_priority() == old(self).s_priority(),
            final(self).s_state() == old(self).s_state(),
    {
        let ghost before = self.outgoing@.map_values(|x: String| x@);
        self.outgoing.push(line);
        proof {
            assert(self.outgoing@.map_values(|x: String| x@) =~= before.push(
                self.outgoing@.last()@,
            ));
        }
    }

    /// The order frames leave in: the high-priority lane first.
    pub open spec fn outbound_order(self) -> Seq<Seq<char>> {
        self.s_priority() + self.s_outgoing()
    }

    /// The next frame to write, high-priority lane first.
    pub fn next_outbound(&mut self) -> (r: Option<String>)
        ensures
            final(self).s_state() == old(self).s_state(),
            match r {
                Some(line) => {
                    &&& old(self).outbound_order().len() > 0
                    &&& line@ == old(self).outbound_order()[0]
                    &&& final(self).outbound_order() == old(self).outbound_order().skip(1)
                },
                None => {
                    &&& old(self).outbound_order().len() == 0
                    &&& *final(self) == *old(self)
                },
            },
    {
        if self.priority.len() > 0 {
            let ghost before = self.priority@.map_values(|x: String| x@);
            let line = self.priority.remove(0);
            proof {
                assert(self.priority@.map_values(|x: String| x@) =~= before.skip(1));
                assert((before + old(self).s_outgoing()).skip(1) =~= before.skip(1) + old(
                    self,
                ).s_outgoing());
                assert(old(self).outbound_order()[0] == before[0]);
            }
            Some(line)
        } else if self.outgoing.len() > 0 {
            let ghost before = self.outgoing@.map_values(|x: String| x@);
            let line = self.outgoing.remove(0);
            proof {
                assert(old(self).s_priority() =~= Seq::<Seq<char>>::empty());
                assert(self.outgoing@.map_values(|x: String| x@) =~= before.skip(1));
                assert(old(self).outbound_order() =~= before);
                assert(final(self).outbound_order() =~= before.skip(1));
            }
            Some(line)
        } else {
            proof {
                assert(old(self).outbound_order().len() == 0);
            }
            None
        }
    }

    /// Ask the runner to stop: the farewell frame is enqueued ahead of user
    /// frames and the run ends as canceled.
    pub fn quit(&mut self)
        ensures
            final(self).s_state() == RunnerState::Terminated(Status::Canceled),
            final(self).s_priority() == old(self).s_priority().push("QUIT :bye\r\n"@),
            final(self).s_outgoing() == old(self).s_outgoing(),
    {
        let ghost before = self.priority@.map_values(|x: String| x@);
        self.priority.push(String::from_str("QUIT :bye\r\n"));
        proof {
            assert(self.priority@.map_values(|x: String| x@) =~= before.push("QUIT :bye\r\n"@));
        }
        self.state = RunnerState::Terminated(Status::Canceled);
    }

    /// The stream ended cleanly: the run is over.
    pub fn on_eof(&mut self)
        ensures
            final(self).s_state() == RunnerState::Terminated(Status::Eof),
            final(self).s_priority() == old(self).s_priority(),
            final(self).s_outgoing() == old(self).s_outgoing(),
    {
        self.state = RunnerState::Terminated(Status::Eof);
    }

    /// The server stopped answering liveness probes: the run is over.
    pub fn on_timeout(&mut self)
        ensures
            final(self).s_state() == RunnerState::Terminated(Status::Timeout),
            final(self).s_priority() == old(self).s_priority(),
            final(self).s_outgoing() == old(self).s_outgoing(),
    {
        self.state = RunnerState::Terminated(Status::Timeout);
    }

    /// The capabilities acknowledged so far.
    pub fn capabilities(&self) -> (r: &Capabilities)
        ensures
            r == self.s_caps(),
    {
        &self.caps
    }

    /// The post-registration summary, once the server confirmed it.
    pub fn identity(&self) -> (r: Option<Identity>)
        ensures
            match r {
                Some(id) => {
                    &&& self.s_nickname() == Some(id.nickname@)
                    &&& id.caps.membership == self.s_caps().membership
                    &&& id.caps.commands == self.s_caps().commands
                    &&& id.caps.tags == self.s_caps().tags
                    &&& id.caps.unknown@.map_values(|x: String| x@) == self.s_caps().unknown@
                        .map_values(|x: String| x@)
                    &&& opt_view(id.user_id) == self.s_user_id()
                    &&& opt_view(id.display_name) == self.s_display_name()
                    &&& opt_view(id.color) == self.s_color()
                },
                None => self.s_nickname() is None,
            },
    {
        match &self.nickname {
            Some(n) => {
                let unknown = self.caps.unknown.clone();
                proof {
                    assert(forall|i: int|
                        0 <= i < unknown@.len() ==> #[trigger] unknown@[i] == self.caps.unknown@[i]);
                    assert(unknown@.map_values(|x: String| x@) =~= self.caps.unknown@.map_values(
                        |x: String| x@,
                    ));
                }
                let caps = Capabilities {
                    membership: self.caps.membership,
                    commands: self.caps.commands,
                    tags: self.caps.tags,
                    unknown,
                };
                Some(Identity {
                    nickname: n.clone(),
                    caps,
                    user_id: clone_opt(&self.user_id),
                    display_name: clone_opt(&self.display_name),
                    color: clone_opt(&self.color),
                })
            },
            None => None,
        }
    }

    /// Where the connection stands.
    pub fn state(&self) -> (r: &RunnerState)
        ensures
            r == self.s_state(),
    {
        &self.state
    }
}

/// Law: ping/pong liveness. When a probe's answer is enqueued on the
/// high-priority lane, it stands before every user-submitted frame in the
/// order frames leave, so the `PONG` is emitted before any of them.
pub proof fn lemma_ping_pong_liveness(
    priority: Seq<Seq<char>>,
    outgoing: Seq<Seq<char>>,
    t: Seq<char>,
)
    ensures
        ({
            let order = priority.push(pong_frame(t)) + outgoing;
            &&& order[priority.len() as int] == pong_frame(t)
            &&& forall|j: int|
                0 <= j < outgoing.len() ==> order[priority.len() + 1 + j] == outgoing[j]
        }),
{
    let order = priority.push(pong_frame(t)) + outgoing;
    assert(order[priority.len() as int] == pong_frame(t));
}

/// The view of an optional string.
pub open spec fn opt_view(v: Option<String>) -> Option<Seq<char>> {
    match v {
        Some(s) => Some(s@),
        None => None,
    }
}

/// An owned copy of an optional string.
fn clone_opt(v: &Option<String>) -> (r: Option<String>)
    ensures
        opt_view(r) == opt_view(*v),
{
    match v {
        Some(s) => Some(s.clone()),
        None => None,
    }
}

/// What a retry strategy decides after a failed connection attempt.
#[derive(Clone, Copy, Debug, PartialEq, Eq, Structural)]
pub enum Decision {
    /// Try again after this many milliseconds.
    Retry(u64),
    /// Give up.
    Stop,
}

/// The built-in retry strategy: reconnect at once, on every attempt.
#[allow(unused_variables)]
pub fn immediately(attempt: u64) -> (r: Decision)
    ensures
        r == Decision::Retry(0u64),
{
    Decision::Retry(0)
}

/// How long the stream may stay silent before a proactive probe is sent,
/// in milliseconds.
pub const IDLE_WINDOW_MS: u64 = 300000;

/// How long a proactive probe may stay unanswered, in milliseconds.
pub const GRACE_MS: u64 = 30000;

/// What the liveness watchdog should do.
#[derive(Clone, Copy, Debug, PartialEq, Eq, Structural)]
pub enum IdleAction {
    /// The stream is alive; keep pumping.
    Wait,
    /// The stream has been silent too long; send a proactive probe.
    Probe,
    /// A probe went unanswered past the grace window; the run is over.
    TimedOut,
}

/// The liveness decision: probe after [`IDLE_WINDOW_MS`] of silence, and
/// give up when a probe stands unanswered past [`GRACE_MS`].
///
/// `probe_sent` is when the outstanding probe went out, if one did.
pub fn idle_decision(now: u64, last_received: u64, probe_sent: Option<u64>) -> (r: IdleAction)
    requires
        now >= last_received,
        probe_sent matches Some(t) ==> now >= t,
    ensures
        r == (match probe_sent {
            Some(t) => {
                if now - t >= GRACE_MS {
                    IdleAction::TimedOut
                } else {
                    IdleAction::Wait
                }
            },
            None => {
                if now - last_received >= IDLE_WINDOW_MS {
                    IdleAction::Probe
                } else {
                    IdleAction::Wait
                }
            },
        }),
{
    match probe_sent {
        Some(t) => {
            if now - t >= GRACE_MS {
                IdleAction::TimedOut
            } else {
                IdleAction::Wait
            }
        },
        None => {
            if now - last_received >= IDLE_WINDOW_MS {
                IdleAction::Probe
            } else {
                IdleAction::Wait
            }
        },
    }
}

/// Whether a frame is the notice the server answers a malformed
/// registration with.
pub open spec fn bad_auth(s: Seq<char>) -> bool {
    spec_parse(s).command == "NOTICE"@ && spec_parse(s).data == Some(
        "Improperly formatted auth"@,
    )
}

/// A synchronous client over received text: it frames, checks the
/// registration, and hands out typed messages.
#[derive(Debug)]
pub struct Client {
    dec: Decoder,
}

impl Client {
    /// The text not yet consumed.
    pub closed spec fn rem(self) -> Seq<char> {
        self.dec.rem()
    }

    /// The decoder's bookkeeping is intact.
    pub closed spec fn wf(self) -> bool {
        self.dec.wf()
    }

    /// A client over the given received text.
    pub fn new(input: &str) -> (r: Client)
        requires
            input@.len() < usize::MAX,
        ensures
            r.wf(),
            r.rem() == input@,
    {
        Client { dec: Decoder::new(String::from_str(input)) }
    }

    /// Read one typed message.
    ///
    /// The registration-rejection notice surfaces as
    /// `Error::InvalidRegistration`; framing trouble as `Error::Decode`;
    /// every other frame is projected as [`parse`] pins it.
    pub fn read_message(&mut self) -> (r: Result<Message, Error>)
        requires
            old(self).wf(),
        ensures
            final(self).wf(),
            ({
                let fs = wire_frames(old(self).rem());
                match r {
                    Err(Error::Decode(DecodeError::Eof)) => fs.len() == 0 && wire_rest(
                        old(self).rem(),
                    ).len() == 0,
                    Err(Error::Decode(DecodeError::Incomplete)) => fs.len() == 0 && wire_rest(
                        old(self).rem(),
                    ).len() > 0,
                    Err(Error::Decode(DecodeError::TooLong)) => fs.len() > 0 && fs[0].len()
                        > MAX_FRAME,
                    Err(Error::Decode(DecodeError::InvalidUtf8)) => false,
                    Err(Error::InvalidRegistration) => fs.len() > 0 && bad_auth(fs[0]),
                    _ => fs.len() > 0 && !bad_auth(fs[0]) && parses_to(fs[0], r),
                }
            }),
    {
        let frame = match self.dec.next_frame() {
            Ok(f) => f,
            Err(e) => {
                return Err(Error::Decode(e));
            },
        };
        let msg = IrcMessage::parse(frame.as_str());
        if str_eq(msg.command(), "NOTICE") {
            if let Some(d) = msg.data() {
                if str_eq(d, "Improperly formatted auth") {
                    return Err(Error::InvalidRegistration);
                }
            }
        }
        parse(&msg)
    }
}

} // verus!
