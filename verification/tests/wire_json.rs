use trovochat::commands::{join, r9k_beta};
use trovochat::irc::{parse_one, IrcMessage};
use trovochat::messages::{Cap, Reconnect};

// A raw-backed message serializes as a map holding its line under `raw`,
// and deserializes by re-parsing that line.
fn to_raw_json(raw: &str) -> String {
    let mut map = serde_json::Map::new();
    map.insert(
        "raw".to_string(),
        serde_json::Value::String(raw.to_string()),
    );
    serde_json::to_string(&serde_json::Value::Object(map)).unwrap()
}

fn raw_of_json(json: &str) -> String {
    let v: serde_json::Value = serde_json::from_str(json).unwrap();
    v.get("raw").unwrap().as_str().unwrap().to_string()
}

#[test]
fn cap_serde() {
    let input = ":tmi.trovo.tv CAP * ACK :trovo.tv/membership\r\n";
    let left = Cap::from_irc(parse_one(input).unwrap()).unwrap();
    let json = to_raw_json(left.raw());
    let right = Cap::from_irc(IrcMessage::parse(&raw_of_json(&json))).unwrap();
    assert_eq!(left, right);
}

#[test]
fn reconnect_serde() {
    let input = ":tmi.trovo.tv RECONNECT\r\n";
    let left = Reconnect::from_irc(parse_one(input).unwrap()).unwrap();
    let json = to_raw_json(left.raw());
    let right = Reconnect::from_irc(IrcMessage::parse(&raw_of_json(&json))).unwrap();
    assert_eq!(left, right);
}

// An outbound command deserializes from a map of its fields; the rebuilt
// command encodes to the same frame.
fn channel_of_json(json: &str) -> String {
    let v: serde_json::Value = serde_json::from_str(json).unwrap();
    v.get("channel").unwrap().as_str().unwrap().to_string()
}

fn to_channel_json(channel: &str) -> String {
    let mut map = serde_json::Map::new();
    map.insert(
        "channel".to_string(),
        serde_json::Value::String(channel.to_string()),
    );
    serde_json::to_string(&serde_json::Value::Object(map)).unwrap()
}

#[test]
fn join_serde() {
    for channel in ["#museun", "museun"] {
        let json = to_channel_json(channel);
        let cmd = join(&channel_of_json(&json));
        assert_eq!(cmd.encode(), "JOIN #museun\r\n");
    }
}

#[test]
fn r9k_beta_serde() {
    for channel in ["#museun", "museun"] {
        let json = to_channel_json(channel);
        let cmd = r9k_beta(&channel_of_json(&json));
        assert_eq!(cmd.encode(), "PRIVMSG #museun :/r9kbeta\r\n");
    }
}
