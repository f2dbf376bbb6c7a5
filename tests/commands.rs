use chat_bot::bot::{Bot, ChatMessage, Command, Response};
use chat_bot::uptime::Uptime;

fn message(data: &str, broadcaster: bool) -> ChatMessage {
    ChatMessage {
        channel: String::from("#chan"),
        name: String::from("alice"),
        data: String::from(data),
        is_broadcaster: broadcaster,
    }
}

fn registry() -> Bot {
    Bot::default()
        .with_command(String::from("!hello"), Command::Hello)
        .with_command(String::from("!bottime"), Command::BotTime)
        .with_command(String::from("!quit"), Command::Quit)
}

fn bottime(secs: u64, nanos: u32) -> String {
    match Command::BotTime.run(&message("!bottime", false), Uptime { secs, nanos }) {
        Response::Say(s) => s,
        other => panic!("unexpected response {:?}", other),
    }
}

#[test]
fn token_of_command_with_arguments() {
    assert_eq!(Bot::parse_command("!hello there"), Some("!hello"));
}

#[test]
fn token_requires_bang_at_start() {
    assert_eq!(Bot::parse_command("  !hello"), None);
    assert_eq!(Bot::parse_command("hello !there"), None);
    assert_eq!(Bot::parse_command(""), None);
}

#[test]
fn token_of_bare_command() {
    assert_eq!(Bot::parse_command("!hello"), Some("!hello"));
    assert_eq!(Bot::parse_command("!"), Some("!"));
    assert_eq!(Bot::parse_command("!a  b c"), Some("!a"));
}

#[test]
fn lookup_returns_latest_registration() {
    let bot = Bot::new()
        .with_command(String::from("!quit"), Command::Hello)
        .with_command(String::from("!quit"), Command::Quit);
    assert_eq!(bot.lookup("!quit"), Some(Command::Quit));
}

#[test]
fn lookup_is_exact_and_case_sensitive() {
    let bot = registry();
    assert_eq!(bot.lookup("!hello"), Some(Command::Hello));
    assert_eq!(bot.lookup("!Hello"), None);
    assert_eq!(bot.lookup("!hell"), None);
    assert_eq!(Bot::new().lookup("!hello"), None);
}

#[test]
fn hello_replies_with_name() {
    match Command::Hello.run(&message("!hello", false), Uptime { secs: 0, nanos: 0 }) {
        Response::Reply(s) => assert_eq!(s, "hello alice!"),
        other => panic!("unexpected response {:?}", other),
    }
}

#[test]
fn bottime_in_seconds() {
    assert_eq!(bottime(1, 500_000_000), "its been running for 1.50s");
    assert_eq!(bottime(12, 345_000_000), "its been running for 12.35s");
}

#[test]
fn bottime_in_smaller_units() {
    assert_eq!(bottime(0, 1_234_567), "its been running for 1.23ms");
    assert_eq!(bottime(0, 12_345), "its been running for 12.35\u{b5}s");
    assert_eq!(bottime(0, 5), "its been running for 5.00ns");
    assert_eq!(bottime(0, 0), "its been running for 0.00ns");
}

#[test]
fn bottime_rounding_carries() {
    assert_eq!(bottime(1, 999_999_999), "its been running for 2.00s");
    assert_eq!(bottime(u64::MAX, 999_999_999), "its been running for 18446744073709551616.00s");
}

#[test]
fn bottime_always_two_decimals() {
    for (secs, nanos) in [(0u64, 7u32), (0, 999), (0, 1_000), (0, 999_999_999), (3, 0), (86_400, 1)] {
        let text = bottime(secs, nanos);
        let number = text.trim_start_matches("its been running for ");
        let number = number.trim_end_matches(|c: char| c.is_alphabetic());
        let (whole, frac) = number.split_once('.').unwrap();
        assert!(!whole.is_empty() && whole.chars().all(|c| c.is_ascii_digit()));
        assert_eq!(frac.len(), 2);
        assert!(frac.chars().all(|c| c.is_ascii_digit()));
    }
}

#[test]
fn quit_denied_for_viewer() {
    match Command::Quit.run(&message("!quit", false), Uptime { secs: 0, nanos: 0 }) {
        Response::Reply(s) => assert_eq!(s, "You are not permitted to do that"),
        other => panic!("unexpected response {:?}", other),
    }
}

#[test]
fn quit_by_broadcaster_shuts_down() {
    let r = Command::Quit.run(&message("!quit", true), Uptime { secs: 0, nanos: 0 });
    assert!(matches!(r, Response::Shutdown));
}

#[test]
fn dispatch_runs_bound_command_only() {
    let bot = registry();
    let up = Uptime { secs: 0, nanos: 0 };
    assert!(matches!(bot.dispatch(&message("!hello world", false), up), Some(Response::Reply(_))));
    assert!(bot.dispatch(&message("!unknown", false), up).is_none());
    assert!(bot.dispatch(&message("hello", false), up).is_none());
}
