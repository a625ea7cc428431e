use trovochat::decoder::{decode_all, DecodeError, Decoder, MAX_FRAME};
use trovochat::irc::parse;

// Framing round-trip: joining frames with CRLF and decoding yields exactly
// those frames, in order.
#[test]
fn framing_round_trip() {
    let frames = ["PING :a", "PRIVMSG #ch :hello world", "third one"];
    let mut wire = String::new();
    for f in &frames {
        wire.push_str(f);
        wire.push_str("\r\n");
    }
    let decoded = decode_all(&wire);
    assert_eq!(decoded, frames.to_vec());
}

#[test]
fn empty_frames_are_skipped() {
    assert_eq!(decode_all("a\r\n\r\nb\r\n"), vec!["a", "b"]);
}

#[test]
fn bare_lf_does_not_terminate() {
    assert_eq!(decode_all("a\nb\r\n"), vec!["a\nb"]);
}

#[test]
fn trailing_partial_frame_is_not_yielded() {
    assert_eq!(decode_all("a\r\nb"), vec!["a"]);
}

#[test]
fn next_frame_reports_eof_and_incomplete() {
    let mut dec = Decoder::new("one\r\n".to_string());
    assert_eq!(dec.next_frame().unwrap(), "one");
    assert_eq!(dec.next_frame().unwrap_err(), DecodeError::Eof);

    let mut dec = Decoder::new("one\r\npart".to_string());
    assert_eq!(dec.next_frame().unwrap(), "one");
    assert_eq!(dec.next_frame().unwrap_err(), DecodeError::Incomplete);
}

#[test]
fn too_long_frames_do_not_disturb_the_stream() {
    let long = "x".repeat(MAX_FRAME + 1);
    let wire = format!("{}\r\nok\r\n", long);
    let mut dec = Decoder::new(wire);
    assert_eq!(dec.next_frame().unwrap_err(), DecodeError::TooLong);
    assert_eq!(dec.next_frame().unwrap(), "ok");
    assert_eq!(dec.next_frame().unwrap_err(), DecodeError::Eof);
}

#[test]
fn parse_splits_and_keeps_raw_lines() {
    let input = ":tmi.trovo.tv CAP * ACK :trovo.tv/tags\r\nPING :x\r\n";
    let msgs = parse(input);
    assert_eq!(msgs.len(), 2);
    assert_eq!(msgs[0].raw(), ":tmi.trovo.tv CAP * ACK :trovo.tv/tags");
    assert_eq!(msgs[1].raw(), "PING :x");
    assert_eq!(msgs[0].command(), "CAP");
    assert_eq!(msgs[1].command(), "PING");
}
