use trovochat::irc::IrcMessage;
use trovochat::runner::Client;
use trovochat::trovo::{
    parse, badges, Badge, BadgeKind, ClearChat, ClearMsg, Error, GlobalUserState, HostTargetEnd,
    HostTargetStart, IntoChannel, Join, Message as Command, Mode, ModeStatus, NamesEnd,
    NamesStart, Notice, Part, PrivMsg, Reconnect, RoomState, Tags, UserNotice, UserState, Whisper,
};

#[test]
fn parse_bad_auth() {
    let input = ":tmi.trovo.tv NOTICE * :Improperly formatted auth";
    let mut client = Client::new(&format!("{}\r\n", input));

    let err = client.read_message().unwrap_err();
    if let Error::InvalidRegistration = err {
        return;
    }
    panic!("unexpected error: {:?}", err)
}

#[test]
fn parse_commands() {
    let input = ":museun!museun@museun.tmi.trovo.tv JOIN #museun";
    let expected = Command::Join(Join {
        user: "museun".to_string(),
        channel: "#museun".into_channel().unwrap(),
    });
    assert_eq!(parse(&IrcMessage::parse(input)).unwrap(), expected);

    let input = ":jtv MODE #museun +o shaken_bot";
    let expected = Command::Mode(Mode {
        channel: "#museun".into_channel().unwrap(),
        status: ModeStatus::Gained,
        user: "shaken_bot".into(),
    });
    assert_eq!(parse(&IrcMessage::parse(input)).unwrap(), expected);

    let input = ":jtv MODE #museun -o shaken_bot";
    let expected = Command::Mode(Mode {
        channel: "#museun".into_channel().unwrap(),
        status: ModeStatus::Lost,
        user: "shaken_bot".into(),
    });
    assert_eq!(parse(&IrcMessage::parse(input)).unwrap(), expected);

    let input =
        ":museun!museun@museun.tmi.trovo.tv 353 museun = #museun :museun shaken_bot2 shaken_bot3";
    let expected = Command::NamesStart(NamesStart {
        channel: "#museun".into_channel().unwrap(),
        user: "museun".into(),
        users: ["museun", "shaken_bot2", "shaken_bot3"]
            .iter()
            .cloned()
            .map(str::to_string)
            .collect(),
    });
    assert_eq!(parse(&IrcMessage::parse(input)).unwrap(), expected);

    let input = ":museun!museun@museun.tmi.trovo.tv 353 museun = #museun :shaken_bot4 shaken_bot5";
    let expected = Command::NamesStart(NamesStart {
        channel: "#museun".into_channel().unwrap(),
        user: "museun".into(),
        users: ["shaken_bot4", "shaken_bot5"]
            .iter()
            .cloned()
            .map(str::to_string)
            .collect(),
    });
    assert_eq!(parse(&IrcMessage::parse(input)).unwrap(), expected);

    let input = ":museun!museun@museun.tmi.trovo.tv 366 museun #museun :End of /NAMES list";
    let expected = Command::NamesEnd(NamesEnd {
        channel: "#museun".into_channel().unwrap(),
        user: "museun".into(),
    });
    assert_eq!(parse(&IrcMessage::parse(input)).unwrap(), expected);

    let input = ":museun!museun@museun.tmi.trovo.tv PART #museun";
    let expected = Command::Part(Part {
        user: "museun".into(),
        channel: "#museun".into_channel().unwrap(),
    });
    assert_eq!(parse(&IrcMessage::parse(input)).unwrap(), expected);

    let input = ":tmi.trovo.tv CLEARCHAT #museun :shaken_bot";
    let expected = Command::ClearChat(ClearChat {
        tags: Tags::default(),
        channel: "#museun".into_channel().unwrap(),
        user: Some("shaken_bot".into()),
    });
    assert_eq!(parse(&IrcMessage::parse(input)).unwrap(), expected);

    let input = ":tmi.trovo.tv CLEARCHAT #museun";
    let expected = Command::ClearChat(ClearChat {
        tags: Tags::default(),
        channel: "#museun".into_channel().unwrap(),
        user: None,
    });
    assert_eq!(parse(&IrcMessage::parse(input)).unwrap(), expected);

    let input = ":tmi.trovo.tv CLEARMSG #museun :HeyGuys";
    let expected = Command::ClearMsg(ClearMsg {
        tags: Tags::default(),
        channel: "#museun".into_channel().unwrap(),
        message: Some("HeyGuys".into()),
    });
    assert_eq!(parse(&IrcMessage::parse(input)).unwrap(), expected);

    let input = ":tmi.trovo.tv CLEARMSG #museun";
    let expected = Command::ClearMsg(ClearMsg {
        tags: Tags::default(),
        channel: "#museun".into_channel().unwrap(),
        message: None,
    });
    assert_eq!(parse(&IrcMessage::parse(input)).unwrap(), expected);

    let input = ":tmi.trovo.tv HOSTTARGET #shaken_bot #museun 1024";
    let expected = Command::HostTargetStart(HostTargetStart {
        source: "#shaken_bot".into(),
        target: "#museun".into(),
        viewers: Some(1024),
    });
    assert_eq!(parse(&IrcMessage::parse(input)).unwrap(), expected);

    let input = ":tmi.trovo.tv HOSTTARGET #shaken_bot #museun";
    let expected = Command::HostTargetStart(HostTargetStart {
        source: "#shaken_bot".into(),
        target: "#museun".into(),
        viewers: None,
    });
    assert_eq!(parse(&IrcMessage::parse(input)).unwrap(), expected);

    let input = ":tmi.trovo.tv HOSTTARGET #shaken_bot :- 1024";
    let expected = Command::HostTargetEnd(HostTargetEnd {
        source: "#shaken_bot".into(),
        viewers: Some(1024),
    });
    assert_eq!(parse(&IrcMessage::parse(input)).unwrap(), expected);

    let input = ":tmi.trovo.tv HOSTTARGET #shaken_bot :-";
    let expected = Command::HostTargetEnd(HostTargetEnd {
        source: "#shaken_bot".into(),
        viewers: None,
    });
    assert_eq!(parse(&IrcMessage::parse(input)).unwrap(), expected);

    let input = ":tmi.trovo.tv NOTICE #museun :This room is no longer in slow mode.";
    let expected = Command::Notice(Notice {
        tags: Tags::default(),
        channel: "#museun".into_channel().unwrap(),
        message: "This room is no longer in slow mode.".into(),
    });
    assert_eq!(parse(&IrcMessage::parse(input)).unwrap(), expected);

    let input = ":tmi.trovo.tv RECONNECT";
    let expected = Command::Reconnect(Reconnect);
    assert_eq!(parse(&IrcMessage::parse(input)).unwrap(), expected);

    let input = ":tmi.trovo.tv ROOMSTATE #museun";
    let expected = Command::RoomState(RoomState {
        tags: Tags::default(),
        channel: "#museun".into_channel().unwrap(),
    });
    assert_eq!(parse(&IrcMessage::parse(input)).unwrap(), expected);

    let input = ":tmi.trovo.tv USERNOTICE #museun :This room is no longer in slow mode.";
    let expected = Command::UserNotice(UserNotice {
        tags: Tags::default(),
        channel: "#museun".into_channel().unwrap(),
        message: Some("This room is no longer in slow mode.".into()),
    });
    assert_eq!(parse(&IrcMessage::parse(input)).unwrap(), expected);

    let input = ":tmi.trovo.tv USERSTATE #museun";
    let expected = Command::UserState(UserState {
        tags: Tags::default(),
        channel: "#museun".into_channel().unwrap(),
    });
    assert_eq!(parse(&IrcMessage::parse(input)).unwrap(), expected);

    let input = "GLOBALUSERSTATE";
    let expected = Command::GlobalUserState(GlobalUserState {
        tags: Tags::default(),
    });
    assert_eq!(parse(&IrcMessage::parse(input)).unwrap(), expected);

    let input = ":museun!museun@museun.tmi.trovo.tv PRIVMSG #museun :VoHiYo";
    let expected = Command::PrivMsg(PrivMsg {
        user: "museun".into(),
        tags: Tags::default(),
        channel: "#museun".into_channel().unwrap(),
        message: "VoHiYo".into(),
        action: false,
    });
    assert_eq!(parse(&IrcMessage::parse(input)).unwrap(), expected);

    let input = ":museun!museun@museun.tmi.trovo.tv PRIVMSG #museun :\u{1}ACTION VoHiYo\u{1}";
    let expected = Command::PrivMsg(PrivMsg {
        user: "museun".into(),
        tags: Tags::default(),
        channel: "#museun".into_channel().unwrap(),
        message: "VoHiYo".into(),
        action: true,
    });
    assert_eq!(parse(&IrcMessage::parse(input)).unwrap(), expected);
}

#[test]
fn parse_badge_info() {
    let input = "@badge-info=subscriber/13;badges=subscriber/12;color=#0000FF;display-name=emilgardis;emote-sets=0;mod=0;subscriber=1;user-type=";
    let tags = Tags::parse(&input);
    assert_eq!(
        badges(tags.get("badge-info").unwrap_or_default()),
        vec![Badge {
            kind: BadgeKind::Subscriber,
            data: "13".into(),
        }],
    );

    assert_eq!(
        badges(tags.get("badges").unwrap_or_default()),
        vec![Badge {
            kind: BadgeKind::Subscriber,
            data: "12".into(),
        }],
    );
}

#[test]
fn whisper_projection() {
    let input = ":museun!museun@museun.tmi.trovo.tv WHISPER shaken_bot :psst";
    let expected = Command::Whisper(Whisper {
        user: "museun".into(),
        message: "psst".into(),
    });
    assert_eq!(parse(&IrcMessage::parse(input)).unwrap(), expected);
}

#[test]
fn ready_carries_the_username() {
    let msg = IrcMessage::parse(":tmi.trovo.tv 376 museun :>");
    let ready = trovochat::messages::Ready::from_irc(msg).unwrap();
    assert_eq!(ready.username, "museun");
}

#[test]
fn unknown_command_falls_through() {
    let input = ":server SOMENEWTHING a b :c";
    match parse(&IrcMessage::parse(input)).unwrap() {
        Command::Unknown(raw) => assert_eq!(raw, input),
        other => panic!("unexpected command: {:?}", other),
    }
}

#[test]
fn parse_missing_arg_is_an_error() {
    let input = "JOIN";
    match parse(&IrcMessage::parse(input)) {
        Err(Error::InvalidMessage(trovochat::irc::InvalidMessage::ExpectedArg(0))) => {}
        other => panic!("unexpected result: {:?}", other),
    }
}

#[test]
fn client_reads_in_order() {
    let input = "PING :one\r\n:tmi.trovo.tv RECONNECT\r\n";
    let mut client = Client::new(input);
    match client.read_message().unwrap() {
        Command::Unknown(raw) => assert_eq!(raw, "PING :one"),
        other => panic!("unexpected command: {:?}", other),
    }
    assert_eq!(client.read_message().unwrap(), Command::Reconnect(Reconnect));
    assert_eq!(
        client.read_message().unwrap_err(),
        Error::Decode(trovochat::decoder::DecodeError::Eof)
    );
}
