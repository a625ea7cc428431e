use trovochat::irc::{parse, parse_one, IrcMessage, InvalidMessage};
use trovochat::messages::{Cap, Capability, Ping, Pong, Privmsg, Raw, Reconnect, IrcReady};

#[test]
fn cap_acknowledged() {
    let input = ":tmi.trovo.tv CAP * ACK :trovo.tv/membership\r\n\
                 :tmi.trovo.tv CAP * ACK :trovo.tv/tags\r\n\
                 :tmi.trovo.tv CAP * ACK :trovo.tv/commands\r\n";
    let expected = &[
        "trovo.tv/membership",
        "trovo.tv/tags",
        "trovo.tv/commands",
    ];
    for (msg, expected) in parse(input).into_iter().zip(expected) {
        let msg = Cap::from_irc(msg).unwrap();
        assert_eq!(
            msg.capability(),
            Capability::Acknowledged(expected.to_string())
        );
    }
}

#[test]
fn cap_failed() {
    let input = ":tmi.trovo.tv CAP * NAK :foobar\r\n";
    for msg in parse(input) {
        let cap = Cap::from_irc(msg).unwrap();
        assert_eq!(
            cap.capability(),
            Capability::NotAcknowledged("foobar".to_string())
        );
    }
}

#[test]
fn reconnect() {
    let input = ":tmi.trovo.tv RECONNECT\r\n";
    for msg in parse(input) {
        let _msg = Reconnect::from_irc(msg).unwrap();
    }
}

#[test]
fn event_mapped() {
    let msg = parse_one("PING :1234567890\r\n").unwrap();
    let msg = Ping::from_irc(msg).unwrap();
    assert_eq!(msg.token, "1234567890")
}

#[test]
fn ping_needs_data() {
    let msg = IrcMessage::parse("PING");
    assert_eq!(Ping::from_irc(msg), Err(InvalidMessage::ExpectedData));
    let msg = IrcMessage::parse("PONG");
    assert_eq!(Pong::from_irc(msg), Err(InvalidMessage::ExpectedData));
}

#[test]
fn cap_wrong_command() {
    let msg = IrcMessage::parse(":tmi.trovo.tv NOTICE * :hi");
    assert_eq!(Cap::from_irc(msg), Err(InvalidMessage::UnexpectedCommand));
}

#[test]
fn cap_needs_second_arg() {
    let msg = IrcMessage::parse(":tmi.trovo.tv CAP :trovo.tv/tags");
    assert_eq!(Cap::from_irc(msg), Err(InvalidMessage::ExpectedArg(1)));
}

// Scenario: a tagged chat message projects its channel, sender, text and
// tags.
#[test]
fn privmsg_projection() {
    let input = "@id=abc;badge-info=subscriber/13 :u!u@u.tmi.trovo.tv PRIVMSG #ch :hello world";
    let msg = Privmsg::from_irc(IrcMessage::parse(input)).unwrap();
    assert_eq!(msg.channel(), "#ch");
    assert_eq!(msg.name(), "u");
    assert_eq!(msg.data(), "hello world");
    assert!(!msg.is_action());
    assert_eq!(msg.tag("id"), Some("abc".to_string()));
    assert_eq!(msg.tag("badge-info"), Some("subscriber/13".to_string()));
    assert_eq!(msg.tag("missing"), None);
}

// Scenario: an action message is unwrapped and flagged.
#[test]
fn privmsg_action() {
    let input = ":u!u@u.tmi.trovo.tv PRIVMSG #ch :\u{1}ACTION waves\u{1}";
    let msg = Privmsg::from_irc(IrcMessage::parse(input)).unwrap();
    assert!(msg.is_action());
    assert_eq!(msg.data(), "waves");
}

#[test]
fn privmsg_missing_parts() {
    let msg = IrcMessage::parse("PRIVMSG");
    assert!(matches!(
        Privmsg::from_irc(msg),
        Err(InvalidMessage::ExpectedArg(0))
    ));
    let msg = IrcMessage::parse("PRIVMSG #ch");
    assert!(matches!(
        Privmsg::from_irc(msg),
        Err(InvalidMessage::ExpectedData)
    ));
}

#[test]
fn irc_ready_carries_nickname() {
    let msg = IrcMessage::parse(":tmi.trovo.tv 001 museun :Welcome");
    let ready = IrcReady::from_irc(msg).unwrap();
    assert_eq!(ready.nickname, "museun");
}

// Unknown command preservation: a raw message re-renders byte-identically.
#[test]
fn raw_round_trip() {
    let line = "@k=v :server WEIRDCMD a b :trailing data";
    let raw = Raw::from_irc(IrcMessage::parse(line));
    assert_eq!(raw.line(), line);
}

#[test]
fn irc_message_accessors() {
    let msg = IrcMessage::parse("@a=1 :nick!user@host CMD one two :rest of it");
    assert_eq!(msg.command(), "CMD");
    assert_eq!(msg.nth_arg(0), Some("one"));
    assert_eq!(msg.nth_arg(1), Some("two"));
    assert_eq!(msg.nth_arg(2), None);
    assert_eq!(msg.data(), Some("rest of it"));
    assert_eq!(msg.source(), Some("nick!user@host"));
    assert_eq!(msg.tags_fragment(), "@a=1");
    assert_eq!(msg.tag("a"), Some("1".to_string()));
}
