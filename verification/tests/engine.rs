use trovochat::dispatcher::Dispatcher;
use trovochat::irc::IrcMessage;
use trovochat::rate_limit::{class_from_tags, RateClass, RateLimit};
use trovochat::trovo::Tags;
use trovochat::runner::{register_frames, Capabilities, Runner, RunnerState, Status};
use trovochat::trovo::Capability;
use trovochat::userconfig::{ConfigError, UserConfig};
use trovochat::runner::{immediately, idle_decision, Decision, IdleAction, GRACE_MS, IDLE_WINDOW_MS};

// Rate-limit honoring: within one window a bucket grants at most its
// capacity, and the window slide refills it.
#[test]
fn rate_limit_honoring() {
    let mut bucket = RateLimit::new(2, 1000);
    assert!(bucket.try_acquire(0));
    assert!(bucket.try_acquire(10));
    assert!(!bucket.try_acquire(20));
    assert!(!bucket.try_acquire(999));
    // the window slides: the bucket refills
    assert!(bucket.try_acquire(1000));
}

#[test]
fn rate_classes() {
    assert_eq!(RateClass::Normal.cap(), 20);
    assert_eq!(RateClass::Moderator.cap(), 100);
    let normal = RateLimit::from_class(RateClass::Normal);
    assert_eq!(normal.cap, 20);
    assert_eq!(normal.period, 30000);
    let joins = RateLimit::for_joins();
    assert_eq!(joins.cap, 50);
    assert_eq!(joins.period, 15000);
}

// Ordering per subscriber: a bounded queue drops oldest and never reorders.
#[test]
fn ordering_per_subscriber() {
    let mut d = Dispatcher::new();
    let privmsgs = d.subscribe("PRIVMSG", 2);
    let pings = d.subscribe("PING", 8);
    assert_eq!(d.len(), 2);

    d.publish(&IrcMessage::parse(":a!a@a PRIVMSG #ch :first"));
    d.publish(&IrcMessage::parse("PING :tok"));
    d.publish(&IrcMessage::parse(":a!a@a PRIVMSG #ch :second"));
    d.publish(&IrcMessage::parse(":a!a@a PRIVMSG #ch :third"));

    // bounded at 2: the oldest chat line was dropped; order kept
    assert_eq!(
        d.drain(privmsgs),
        vec![
            ":a!a@a PRIVMSG #ch :second".to_string(),
            ":a!a@a PRIVMSG #ch :third".to_string(),
        ]
    );
    assert_eq!(d.drain(pings), vec!["PING :tok".to_string()]);

    d.clear();
    assert_eq!(d.len(), 0);
}

// Ping/pong liveness: the answer to a probe goes out before any
// user-submitted frame.
#[test]
fn ping_pong_liveness() {
    let mut runner = Runner::new();
    runner.queue_frame("PRIVMSG #ch :queued first\r\n".to_string());
    runner.on_frame(&IrcMessage::parse("PING :1234567890"));
    assert_eq!(runner.next_outbound().unwrap(), "PONG :1234567890\r\n");
    assert_eq!(
        runner.next_outbound().unwrap(),
        "PRIVMSG #ch :queued first\r\n"
    );
    assert_eq!(runner.next_outbound(), None);
}

// Scenario: a RECONNECT moves the runner to the reconnecting state.
#[test]
fn reconnect_transitions() {
    let mut runner = Runner::new();
    assert_eq!(*runner.state(), RunnerState::Registering);
    runner.on_frame(&IrcMessage::parse(":tmi.trovo.tv RECONNECT"));
    assert_eq!(*runner.state(), RunnerState::Reconnecting);
}

#[test]
fn registration_confirms_identity() {
    let mut runner = Runner::new();
    assert!(runner.identity().is_none());
    runner.on_frame(&IrcMessage::parse(":tmi.trovo.tv CAP * ACK :trovo.tv/tags"));
    runner.on_frame(&IrcMessage::parse(":tmi.trovo.tv CAP * ACK :weird/extra"));
    runner.on_frame(&IrcMessage::parse(":tmi.trovo.tv 001 museun :Welcome"));
    assert_eq!(*runner.state(), RunnerState::Running);
    let id = runner.identity().unwrap();
    assert_eq!(id.nickname, "museun");
    assert!(id.caps.tags);
    assert!(!id.caps.membership);
    assert_eq!(id.caps.unknown, vec!["weird/extra".to_string()]);
    assert_eq!(id.user_id, None);
}

#[test]
fn global_user_state_fills_the_identity() {
    let mut runner = Runner::new();
    runner.on_frame(&IrcMessage::parse(":tmi.trovo.tv 001 museun :Welcome"));
    runner.on_frame(&IrcMessage::parse(
        "@user-id=1024;display-name=Museun;color=#FF4500 :tmi.trovo.tv GLOBALUSERSTATE",
    ));
    let id = runner.identity().unwrap();
    assert_eq!(id.user_id, Some("1024".to_string()));
    assert_eq!(id.display_name, Some("Museun".to_string()));
    assert_eq!(id.color, Some("#FF4500".to_string()));
}

#[test]
fn moderator_class_comes_from_the_mod_tag() {
    assert_eq!(
        class_from_tags(&Tags::parse("@mod=1;subscriber=0")),
        RateClass::Moderator
    );
    assert_eq!(
        class_from_tags(&Tags::parse("@mod=0")),
        RateClass::Normal
    );
    assert_eq!(class_from_tags(&Tags::default()), RateClass::Normal);
}

#[test]
fn quit_terminates_as_canceled() {
    let mut runner = Runner::new();
    runner.queue_frame("PRIVMSG #ch :pending\r\n".to_string());
    runner.quit();
    assert_eq!(
        *runner.state(),
        RunnerState::Terminated(Status::Canceled)
    );
    // the farewell frame takes the high-priority lane
    assert_eq!(runner.next_outbound().unwrap(), "QUIT :bye\r\n");
}

#[test]
fn eof_and_timeout_terminate() {
    let mut runner = Runner::new();
    runner.on_eof();
    assert_eq!(*runner.state(), RunnerState::Terminated(Status::Eof));
    let mut runner = Runner::new();
    runner.on_timeout();
    assert_eq!(*runner.state(), RunnerState::Terminated(Status::Timeout));
}

#[test]
fn capabilities_acknowledge() {
    let mut caps = Capabilities::default();
    caps.acknowledge("trovo.tv/membership");
    caps.acknowledge("trovo.tv/commands");
    assert!(caps.membership && caps.commands && !caps.tags);
    assert!(caps.unknown.is_empty());
}

#[test]
fn register_frames_follow_the_sequence() {
    let config = UserConfig::builder()
        .name("museun")
        .token("oauth:token")
        .enable_all_capabilities()
        .build()
        .unwrap();
    let frames = register_frames(&config);
    assert_eq!(
        frames,
        vec![
            "CAP REQ :trovo.tv/membership\r\n".to_string(),
            "CAP REQ :trovo.tv/tags\r\n".to_string(),
            "CAP REQ :trovo.tv/commands\r\n".to_string(),
            "PASS oauth:token\r\n".to_string(),
            "NICK museun\r\n".to_string(),
        ]
    );
}

#[test]
fn anonymous_login_registers() {
    let config = UserConfig::builder().anonymous().build().unwrap();
    assert_eq!(config.nick, "justinfan1234");
    assert_eq!(config.token, "justinfan1234");
    let frames = register_frames(&config);
    assert_eq!(
        frames,
        vec![
            "PASS justinfan1234\r\n".to_string(),
            "NICK justinfan1234\r\n".to_string(),
        ]
    );
}

#[test]
fn config_errors() {
    assert_eq!(
        UserConfig::builder().token("oauth:x").build().unwrap_err(),
        ConfigError::MissingNick
    );
    assert_eq!(
        UserConfig::builder().name("").token("oauth:x").build().unwrap_err(),
        ConfigError::MissingNick
    );
    assert_eq!(
        UserConfig::builder().name("museun").build().unwrap_err(),
        ConfigError::MissingToken
    );
    assert_eq!(
        UserConfig::builder()
            .name("museun")
            .token("not a token")
            .build()
            .unwrap_err(),
        ConfigError::MissingToken
    );
}

#[test]
fn capabilities_deduplicate() {
    let config = UserConfig::builder()
        .anonymous()
        .capability(Capability::Tags)
        .capability(Capability::Tags)
        .build()
        .unwrap();
    assert_eq!(config.caps, vec![Capability::Tags]);
}

#[test]
fn capability_wire_names() {
    assert_eq!(
        Capability::Membership.encode_as_str(),
        "CAP REQ :trovo.tv/membership"
    );
    assert_eq!(Capability::Tags.encode_as_str(), "CAP REQ :trovo.tv/tags");
    assert_eq!(
        Capability::Commands.encode_as_str(),
        "CAP REQ :trovo.tv/commands"
    );
    assert_eq!(
        Capability::maybe_from_str("trovo.tv/tags"),
        Some(Capability::Tags)
    );
    assert_eq!(Capability::maybe_from_str("nope"), None);
}

#[test]
fn service_addresses() {
    assert_eq!(trovochat::TROVO_IRC_ADDRESS, "irc.chat.trovo.tv:6667");
    assert_eq!(trovochat::TROVO_IRC_ADDRESS_TLS, "irc.chat.trovo.tv:6697");
    assert_eq!(trovochat::TROVO_WS_ADDRESS, "ws://irc-ws.chat.trovo.tv:80");
    assert_eq!(
        trovochat::TROVO_WS_ADDRESS_TLS,
        "wss://irc-ws.chat.trovo.tv:443"
    );
    assert_eq!(trovochat::TROVO_TLS_DOMAIN, "irc.chat.trovo.tv");
    assert_eq!(trovochat::JUSTINFAN1234, "justinfan1234");
}

#[test]
fn retry_immediately() {
    assert_eq!(immediately(1), Decision::Retry(0));
    assert_eq!(immediately(100), Decision::Retry(0));
}

#[test]
fn idle_watchdog() {
    assert_eq!(idle_decision(1000, 1000, None), IdleAction::Wait);
    assert_eq!(
        idle_decision(1000 + IDLE_WINDOW_MS, 1000, None),
        IdleAction::Probe
    );
    assert_eq!(
        idle_decision(2000, 1000, Some(1500)),
        IdleAction::Wait
    );
    assert_eq!(
        idle_decision(1500 + GRACE_MS, 1000, Some(1500)),
        IdleAction::TimedOut
    );
}
