use chat_bot::bot::{Bot, ChatMessage, Command, Response};
use chat_bot::report::{handle_message, watch_step, WatchStep};
use chat_bot::session::{Action, Event, Phase, Session};
use chat_bot::uptime::Uptime;

const UP: Uptime = Uptime { secs: 0, nanos: 0 };

fn chat(data: &str, broadcaster: bool) -> Event {
    Event::Chat(ChatMessage {
        channel: String::from("#a"),
        name: String::from("bob"),
        data: String::from(data),
        is_broadcaster: broadcaster,
    })
}

fn registry() -> Bot {
    Bot::new()
        .with_command(String::from("!hello"), Command::Hello)
        .with_command(String::from("!bottime"), Command::BotTime)
        .with_command(String::from("!quit"), Command::Quit)
}

fn running(channels: &[&str]) -> Session {
    let channels: Vec<String> = channels.iter().map(|c| c.to_string()).collect();
    let mut s = Session::new(registry(), channels);
    s.step(Event::Connected(String::from("bot")), UP);
    s
}

#[test]
fn join_failure_does_not_stop_joining() {
    let mut s = Session::new(registry(), vec![String::from("a"), String::from("b"), String::from("c")]);
    assert!(matches!(s.step(Event::Connected(String::from("bot")), UP), Action::Join(c) if c == "a"));
    assert_eq!(s.identity.as_deref(), Some("bot"));
    assert_eq!(s.phase, Phase::Joining);
    assert!(matches!(s.step(Event::Joined, UP), Action::Join(c) if c == "b"));
    assert!(matches!(s.step(Event::JoinFailed, UP), Action::Join(c) if c == "c"));
    assert!(matches!(s.step(Event::Joined, UP), Action::Poll));
    assert_eq!(s.phase, Phase::Running);
}

#[test]
fn no_channels_goes_straight_to_running() {
    let s = running(&[]);
    assert_eq!(s.phase, Phase::Running);
}

#[test]
fn unknown_command_then_end_of_stream() {
    let mut s = running(&[]);
    let mut invocations = 0;
    for event in [chat("!unknown", false), Event::EndOfStream] {
        match s.step(event, UP) {
            Action::Respond(_) => invocations += 1,
            Action::Finish => break,
            _ => {}
        }
    }
    assert_eq!(invocations, 0);
    assert_eq!(s.phase, Phase::Stopped);
}

#[test]
fn quit_from_viewer_keeps_running() {
    let mut s = running(&["a"]);
    s.step(Event::Joined, UP);
    match s.step(chat("!quit", false), UP) {
        Action::Respond(Response::Reply(text)) => assert_eq!(text, "You are not permitted to do that"),
        other => panic!("unexpected action {:?}", other),
    }
    assert_eq!(s.phase, Phase::Running);
    assert!(!s.quit_requested);
    assert!(matches!(s.step(Event::Other, UP), Action::Poll));
}

#[test]
fn quit_from_broadcaster_stops_next_iteration() {
    let mut s = running(&[]);
    assert!(matches!(s.step(chat("!quit now", true), UP), Action::Respond(Response::Shutdown)));
    assert!(s.quit_requested);
    assert!(matches!(s.step(Event::Other, UP), Action::Finish));
    assert_eq!(s.phase, Phase::Stopped);
    assert!(matches!(s.step(chat("!hello", false), UP), Action::Finish));
}

#[test]
fn quit_signal_and_other_events() {
    let mut s = running(&[]);
    assert!(matches!(s.step(Event::Other, UP), Action::Poll));
    assert!(matches!(s.step(chat("just talking", false), UP), Action::Poll));
    assert!(matches!(s.step(chat("!hello", false), UP), Action::Respond(Response::Reply(t)) if t == "hello bob!"));
    assert!(matches!(s.step(Event::Quit, UP), Action::Finish));
    assert_eq!(s.phase, Phase::Stopped);
}

#[test]
fn chat_lines_are_logged() {
    assert_eq!(handle_message(&chat("hi there", false)), Some(String::from("[#a] bob: hi there")));
    assert_eq!(handle_message(&Event::Other), None);
}

#[test]
fn watch_stops_on_quit_and_eof() {
    assert!(matches!(watch_step(&Event::Quit), WatchStep::Stop(s) if s == "we signaled we wanted to quit"));
    assert!(matches!(watch_step(&Event::EndOfStream), WatchStep::Stop(s) if s == "we got a 'normal' eof"));
    assert!(matches!(watch_step(&Event::Joined), WatchStep::Continue(None)));
    assert!(matches!(watch_step(&chat("x", false)), WatchStep::Continue(Some(s)) if s == "[#a] bob: x"));
}
