use vstd::prelude::*;
use crate::session::Event;

verus! {

/// The log line for a chat message: `[channel] name: text`.
pub open spec fn chat_line(channel: Seq<char>, name: Seq<char>, data: Seq<char>) -> Seq<char> {
    "["@ + channel + "] "@ + name + ": "@ + data
}

/// The line to log for an event: chat messages are logged, nothing else is.
pub fn handle_message(event: &Event) -> (r: Option<String>)
    ensures
        match event {
            Event::Chat(m) => r is Some && r->Some_0@ == chat_line(m.channel@, m.name@, m.data@),
            _ => r is None,
        },
{
    match event {
        Event::Chat(m) => {
            let mut out = String::from_str("[");
            out.append(m.channel.as_str());
            out.append("] ");
            out.append(m.name.as_str());
            out.append(": ");
            out.append(m.data.as_str());
            Some(out)
        },
        _ => None,
    }
}

/// What a logging loop does with one event.
#[derive(Debug)]
pub enum WatchStep {
    /// Log the line, if any, and wait for the next event.
    Continue(Option<String>),
    /// Log the line and stop.
    Stop(String),
}

pub open spec fn quit_line() -> Seq<char> {
    "we signaled we wanted to quit"@
}

pub open spec fn eof_line() -> Seq<char> {
    "we got a 'normal' eof"@
}

/// A loop that only logs: it logs chat messages, stops on a quit or at the
/// end of the stream, and passes over everything else.
pub fn watch_step(event: &Event) -> (r: WatchStep)
    ensures
        match event {
            Event::Quit => r matches WatchStep::Stop(s) && s@ == quit_line(),
            Event::EndOfStream => r matches WatchStep::Stop(s) && s@ == eof_line(),
            Event::Chat(m) => r matches WatchStep::Continue(Some(s))
                && s@ == chat_line(m.channel@, m.name@, m.data@),
            _ => r matches WatchStep::Continue(None),
        },
{
    match event {
        Event::Quit => WatchStep::Stop(String::from_str("we signaled we wanted to quit")),
        Event::EndOfStream => WatchStep::Stop(String::from_str("we got a 'normal' eof")),
        _ => WatchStep::Continue(handle_message(event)),
    }
}

} // verus!
