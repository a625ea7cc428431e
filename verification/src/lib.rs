//! A client library for the Trovo chat service, which speaks an
//! IRCv3-derived text protocol.
//!
//! The crate is organised around the protocol engine that sits between a
//! byte-stream transport and the application:
//!
//! * [`decoder`] splits a received stream into CRLF-terminated frames.
//! * [`tags`] parses an `@k=v;...` prefix into indexed key/value pairs.
//! * [`irc`] decomposes one frame into tags, source, command, arguments and
//!   trailing data, as index ranges over the backing string.
//! * [`messages`] projects recognised server commands out of a raw message.
//! * [`trovo`] holds the service-specific types: typed commands, owned tags,
//!   badges, channels and capabilities; [`color`] the color palette.
//! * [`commands`] formats outbound commands, normalizing channel names.
//! * [`rate_limit`] gates outbound writes through a token bucket.
//! * [`dispatcher`] fans decoded messages out to bounded subscriber queues.
//! * [`runner`] is the connection state machine: registration, ping/pong
//!   liveness, reconnection and shutdown; [`userconfig`] its declarative
//!   input.
//!
//! Transport setup (TCP, TLS) is out of scope: the engine consumes and
//! produces plain strings, and a thin layer around the crate owns the
//! sockets.

use vstd::prelude::*;

pub mod strindex;
pub mod util;
pub mod tags;
pub mod decoder;
pub mod irc;
pub mod messages;
pub mod trovo;
pub mod color;
pub mod commands;
pub mod rate_limit;
pub mod dispatcher;
pub mod userconfig;
pub mod runner;

verus! {

/// The Trovo IRC address for non-TLS connections.
pub const TROVO_IRC_ADDRESS: &'static str = "irc.chat.trovo.tv:6667";

/// The Trovo IRC address for TLS connections.
pub const TROVO_IRC_ADDRESS_TLS: &'static str = "irc.chat.trovo.tv:6697";

/// The Trovo WebSocket address for non-TLS connections.
pub const TROVO_WS_ADDRESS: &'static str = "ws://irc-ws.chat.trovo.tv:80";

/// The Trovo WebSocket address for TLS connections.
pub const TROVO_WS_ADDRESS_TLS: &'static str = "wss://irc-ws.chat.trovo.tv:443";

/// A TLS domain for Trovo.
pub const TROVO_TLS_DOMAIN: &'static str = "irc.chat.trovo.tv";

/// The nickname (and token) of an anonymous, read-only login.
pub const JUSTINFAN1234: &'static str = "justinfan1234";

} // verus!
