use record_syncd::console::{node_name, parse_leader_command, LeaderCommand};
use record_syncd::text::{parse_i64, split_words};

#[test]
fn delays_have_defaults() {
    assert!(matches!(parse_leader_command("start\n"), Some(LeaderCommand::Start { delay_ms: 2000 })));
    assert!(matches!(parse_leader_command("stop\n"), Some(LeaderCommand::Stop { delay_ms: 1000 })));
}

#[test]
fn delays_can_be_given() {
    assert!(matches!(
        parse_leader_command("start 3000\n"),
        Some(LeaderCommand::Start { delay_ms: 3000 })
    ));
    assert!(matches!(
        parse_leader_command("  stop\t-5 extra\r\n"),
        Some(LeaderCommand::Stop { delay_ms: -5 })
    ));
}

#[test]
fn bad_delays_fall_back_to_the_default() {
    assert!(matches!(
        parse_leader_command("start soon"),
        Some(LeaderCommand::Start { delay_ms: 2000 })
    ));
    assert!(matches!(
        parse_leader_command("stop 9223372036854775808"),
        Some(LeaderCommand::Stop { delay_ms: 1000 })
    ));
}

#[test]
fn other_commands_are_single_words() {
    assert!(matches!(parse_leader_command("peers"), Some(LeaderCommand::Peers)));
    assert!(matches!(parse_leader_command("quit now"), Some(LeaderCommand::Quit)));
    assert!(matches!(
        parse_leader_command("Start"),
        Some(LeaderCommand::Unknown { word }) if word == "Start"
    ));
    assert!(parse_leader_command(" \t\r\n").is_none());
    assert!(parse_leader_command("").is_none());
}

#[test]
fn surrounding_spaces_do_not_matter() {
    let padded = "\u{3000}\n start 7\u{a0}\u{2003} ";
    assert!(matches!(
        parse_leader_command(padded),
        Some(LeaderCommand::Start { delay_ms: 7 })
    ));
    assert_eq!(split_words(padded), split_words(padded.trim()));
}

#[test]
fn words_are_split_as_by_the_standard_library() {
    let text = "\u{85}a\u{a0}b\u{1680}c\u{2009}d\u{200b}e\u{2028}f\u{2029}g\u{202f}h\u{205f}i\u{b}j\u{c}k \u{e9}\u{1f980}";
    let ours: Vec<String> = split_words(text);
    let theirs: Vec<String> = text.split_whitespace().map(|w| w.to_string()).collect();
    assert_eq!(ours, theirs);
}

#[test]
fn every_space_is_a_space() {
    for n in 0..0x11_0000u32 {
        if let Some(c) = char::from_u32(n) {
            if c.is_whitespace() || n < 0x100 || (0x1600..0x3100).contains(&n) {
                let text = format!("x{}y", c);
                assert_eq!(split_words(&text).len() == 2, c.is_whitespace(), "{:x}", n);
            }
        }
    }
}

#[test]
fn numbers_are_read_as_by_the_standard_library() {
    for text in [
        "0", "7", "+7", "-7", "007", "-0", "", "+", "-", "+-1", "--1", "1 ", "1a", "a", "1_0",
        "9223372036854775807", "9223372036854775808", "-9223372036854775808",
        "-9223372036854775809", "99999999999999999999999999999999999999999999", "\u{0663}",
        "0000000000000000000000000000000000000000000000000000000012",
    ] {
        assert_eq!(parse_i64(text), text.parse::<i64>().ok(), "{:?}", text);
    }
}

#[test]
fn names_are_kept_or_made_up() {
    assert_eq!(node_name(Some("cam".to_string()), 5), "cam");
    assert_eq!(node_name(None, 5), "node-5");
    assert_eq!(node_name(None, 0), "node-0");
    assert_eq!(node_name(None, 1234567890), "node-1234567890");
    assert_eq!(node_name(None, u32::MAX), "node-4294967295");
}
