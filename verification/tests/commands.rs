use trovochat::commands::{
    join, part, privmsg, reply, ping, pong, raw, r9k_beta, emote_only_off, unraid, color,
    PrivmsgExt,
};
use trovochat::color::{Trovo, RGB};
use trovochat::irc::IrcMessage;
use trovochat::messages::Privmsg;
use trovochat::trovo::Error;

fn test_encode_join(cmd: trovochat::commands::Join, expected: &str) {
    assert_eq!(cmd.encode(), expected);
}

fn test_encode_r9k(cmd: trovochat::commands::R9kBeta, expected: &str) {
    assert_eq!(cmd.encode(), expected);
}

#[test]
fn join_encode() {
    test_encode_join(join("#museun"), "JOIN #museun\r\n");
    test_encode_join(join("museun"), "JOIN #museun\r\n");
}

#[test]
fn r9k_beta_encode() {
    test_encode_r9k(r9k_beta("#museun"), "PRIVMSG #museun :/r9kbeta\r\n");
    test_encode_r9k(r9k_beta("museun"), "PRIVMSG #museun :/r9kbeta\r\n");
}

#[test]
fn emote_only_off_encode() {
    assert_eq!(
        emote_only_off("#museun").encode(),
        "PRIVMSG #museun :/emoteonlyoff\r\n"
    );
    assert_eq!(
        emote_only_off("museun").encode(),
        "PRIVMSG #museun :/emoteonlyoff\r\n"
    );
}

#[test]
fn unraid_encode() {
    assert_eq!(unraid("#museun").encode(), "PRIVMSG #museun :/unraid\r\n");
    assert_eq!(unraid("museun").encode(), "PRIVMSG #museun :/unraid\r\n");
}

#[test]
fn part_encode() {
    assert_eq!(part("museun").encode(), "PART #museun\r\n");
}

#[test]
fn privmsg_encode() {
    assert_eq!(
        privmsg("#museun", "hello world").encode(),
        "PRIVMSG #museun :hello world\r\n"
    );
}

#[test]
fn reply_encode() {
    assert_eq!(
        reply("museun", "abc", "hi").encode(),
        "@reply-parent-msg-id=abc PRIVMSG #museun :hi\r\n"
    );
}

#[test]
fn ping_pong_encode() {
    assert_eq!(ping("tok").encode(), "PING :tok\r\n");
    assert_eq!(pong("tok").encode(), "PONG :tok\r\n");
}

#[test]
fn raw_appends_crlf_only_when_absent() {
    assert_eq!(raw("FOO bar").encode(), "FOO bar\r\n");
    assert_eq!(raw("FOO bar\r\n").encode(), "FOO bar\r\n");
}

#[test]
fn color_encode() {
    assert_eq!(
        color(Trovo::Blue).encode(),
        "PRIVMSG jtv :/color Blue\r\n"
    );
    assert_eq!(
        color(Trovo::Turbo(RGB(0xAB, 0x01, 0xEF))).encode(),
        "PRIVMSG jtv :/color #AB01EF\r\n"
    );
}

// Channel normalization: any command encodes the same whether the channel
// was passed with or without the `#`.
#[test]
fn channel_normalization() {
    assert_eq!(join("museun").encode(), join("#museun").encode());
    assert_eq!(
        privmsg("museun", "x").encode(),
        privmsg("#museun", "x").encode()
    );
    assert_eq!(part("museun").encode(), part("#museun").encode());
}

#[test]
fn privmsg_ext_say_and_reply() {
    let line = "@id=abc :u!u@u.tmi.trovo.tv PRIVMSG #ch :hello";
    let msg = Privmsg::from_irc(IrcMessage::parse(line)).unwrap();
    assert_eq!(msg.say("hey"), "PRIVMSG #ch :hey\r\n");
    assert_eq!(
        msg.reply("hey").unwrap(),
        "@reply-parent-msg-id=abc PRIVMSG #ch :hey\r\n"
    );

    let no_tags = "PRIVMSG #ch :hello";
    let msg = Privmsg::from_irc(IrcMessage::parse(no_tags)).unwrap();
    match msg.reply("hey") {
        Err(Error::InvalidMessage(trovochat::irc::InvalidMessage::ExpectedTag(t))) => {
            assert_eq!(t, "id")
        }
        other => panic!("unexpected reply result: {:?}", other),
    }
}
