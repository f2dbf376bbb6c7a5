use vstd::prelude::*;
use crate::bot::{command_token, dispatched, Bot, ChatMessage, Command, Response};
use crate::uptime::Uptime;

verus! {

/// Where a session stands.
#[derive(Clone, Copy, Debug, PartialEq, Eq, Structural)]
pub enum Phase {
    /// Waiting for the chat service to confirm the session.
    Connecting,
    /// Joining the configured channels one after another.
    Joining,
    /// Handling chat messages.
    Running,
    /// Done; nothing more happens.
    Stopped,
}

/// What the connection reports to the session.
#[derive(Debug)]
pub enum Event {
    /// The session started; the user name the service gave us.
    Connected(String),
    /// The last requested join succeeded.
    Joined,
    /// The last requested join failed.
    JoinFailed,
    /// A chat message arrived.
    Chat(ChatMessage),
    /// Any other message arrived (pings, capability acks, room state, ...).
    Other,
    /// The connection was asked to quit.
    Quit,
    /// The connection ended.
    EndOfStream,
}

/// What the session asks the connection to do next.
#[derive(Debug)]
pub enum Action {
    /// Join this channel, then report the outcome.
    Join(String),
    /// Carry out this response to the chat message just reported, then wait
    /// for the next event.
    Respond(Response),
    /// Wait for the next event.
    Poll,
    /// Stop: the session is over.
    Finish,
}

/// A bot session: the registry, the channels to join, and where it stands.
#[derive(Debug)]
pub struct Session {
    pub bot: Bot,
    pub channels: Vec<String>,
    pub phase: Phase,
    /// How many joins have been attempted.
    pub attempted: usize,
    /// Our user name, once connected.
    pub identity: Option<String>,
    /// Set when a command asked the session to stop.
    pub quit_requested: bool,
}

impl Session {
    pub open spec fn wf(self) -> bool {
        &&& self.attempted <= self.channels@.len()
        &&& self.phase == Phase::Joining ==> self.attempted < self.channels@.len()
    }

    /// A session about to connect.
    pub fn new(bot: Bot, channels: Vec<String>) -> (r: Session)
        ensures
            r.wf(),
            r.bot == bot,
            r.channels == channels,
            r.phase == Phase::Connecting,
            r.attempted == 0,
            r.identity is None,
            !r.quit_requested,
    {
        Session { bot, channels, phase: Phase::Connecting, attempted: 0, identity: None, quit_requested: false }
    }
}

/// The same session in another phase.
pub open spec fn with_phase(s: Session, p: Phase) -> Session {
    Session { phase: p, ..s }
}

/// Whether `post` and `a` are what the session `pre` becomes and asks for
/// when `e` arrives at uptime `u`.
pub open spec fn stepped(pre: Session, e: Event, u: Uptime, post: Session, a: Action) -> bool {
    if pre.phase == Phase::Stopped {
        post == pre && a is Finish
    } else if pre.quit_requested || e is Quit || e is EndOfStream {
        post == with_phase(pre, Phase::Stopped) && a is Finish
    } else {
        match pre.phase {
            Phase::Connecting => match e {
                Event::Connected(user) => if pre.channels@.len() == 0 {
                    post == Session { phase: Phase::Running, identity: Some(user), ..pre } && a is Poll
                } else {
                    &&& post == Session { phase: Phase::Joining, attempted: 0, identity: Some(user), ..pre }
                    &&& a is Join && a->Join_0@ == pre.channels@[0]@
                },
                _ => post == pre && a is Poll,
            },
            Phase::Joining => if e is Joined || e is JoinFailed {
                let n = pre.attempted + 1;
                if n < pre.channels@.len() {
                    &&& post == Session { attempted: n as usize, ..pre }
                    &&& a is Join && a->Join_0@ == pre.channels@[n]@
                } else {
                    post == Session { phase: Phase::Running, attempted: n as usize, ..pre } && a is Poll
                }
            } else {
                post == pre && a is Poll
            },
            _ => match e {
                Event::Chat(msg) => {
                    let found = match command_token(msg.data@) {
                        Some(t) => pre.bot.commands().contains_key(t),
                        None => false,
                    };
                    if found {
                        &&& a is Respond
                        &&& dispatched(pre.bot, msg, u, Some(a->Respond_0))
                        &&& post == Session { quit_requested: a->Respond_0 is Shutdown, ..pre }
                    } else {
                        post == pre && a is Poll
                    }
                },
                _ => post == pre && a is Poll,
            },
        }
    }
}

impl Session {
    /// Advances the session on `event`, at uptime `uptime`, and says what to do next.
    pub fn step(&mut self, event: Event, uptime: Uptime) -> (a: Action)
        requires
            old(self).wf(),
            uptime.wf(),
        ensures
            final(self).wf(),
            stepped(*old(self), event, uptime, *final(self), a),
    {
        if self.phase == Phase::Stopped {
            return Action::Finish;
        }
        let ends = match &event {
            Event::Quit | Event::EndOfStream => true,
            _ => false,
        };
        if self.quit_requested || ends {
            self.phase = Phase::Stopped;
            return Action::Finish;
        }
        match self.phase {
            Phase::Connecting => match event {
                Event::Connected(user) => {
                    self.identity = Some(user);
                    if self.channels.len() == 0 {
                        self.phase = Phase::Running;
                        Action::Poll
                    } else {
                        self.phase = Phase::Joining;
                        self.attempted = 0;
                        Action::Join(self.channels[0].clone())
                    }
                },
                _ => Action::Poll,
            },
            Phase::Joining => match event {
                Event::Joined | Event::JoinFailed => {
                    let total = self.channels.len();
                    assert(self.attempted < total);
                    self.attempted = self.attempted + 1;
                    if self.attempted < self.channels.len() {
                        Action::Join(self.channels[self.attempted].clone())
                    } else {
                        self.phase = Phase::Running;
                        Action::Poll
                    }
                },
                _ => Action::Poll,
            },
            _ => match event {
                Event::Chat(msg) => match self.bot.dispatch(&msg, uptime) {
                    Some(resp) => {
                        self.quit_requested = match resp {
                            Response::Shutdown => true,
                            _ => false,
                        };
                        Action::Respond(resp)
                    },
                    None => Action::Poll,
                },
                _ => Action::Poll,
            },
        }
    }
}

/// Whether the token of `msg` is `!quit` and `bot` binds it to the quit command.
pub open spec fn asks_quit(bot: Bot, msg: ChatMessage) -> bool {
    &&& command_token(msg.data@) == Some("!quit"@)
    &&& bot.commands().contains_key("!quit"@)
    &&& bot.commands()["!quit"@] == Command::Quit
}

/// `!quit` from anyone but the broadcaster leaves the running session as it
/// was and answers with exactly one reply.
pub proof fn lemma_quit_denied(pre: Session, msg: ChatMessage, u: Uptime, post: Session, a: Action)
    requires
        pre.phase == Phase::Running,
        !pre.quit_requested,
        asks_quit(pre.bot, msg),
        !msg.is_broadcaster,
        stepped(pre, Event::Chat(msg), u, post, a),
    ensures
        post == pre,
        a is Respond,
        a->Respond_0 is Reply,
{
}

/// `!quit` from the broadcaster sends no reply, only the shutdown signal,
/// and whatever comes next stops the session.
pub proof fn lemma_quit_by_broadcaster(pre: Session, msg: ChatMessage, u: Uptime, post: Session, a: Action)
    requires
        pre.phase == Phase::Running,
        !pre.quit_requested,
        asks_quit(pre.bot, msg),
        msg.is_broadcaster,
        stepped(pre, Event::Chat(msg), u, post, a),
    ensures
        a is Respond,
        a->Respond_0 is Shutdown,
        forall|e: Event, u2: Uptime, post2: Session, a2: Action|
            #[trigger] stepped(post, e, u2, post2, a2) ==> post2.phase == Phase::Stopped && a2 is Finish,
{
}

/// A failed join moves the session on exactly as a successful one does: the
/// next channel is joined, and after the last one the session runs.
pub proof fn lemma_join_failure_continues(pre: Session, u: Uptime, post: Session, a: Action)
    requires
        pre.wf(),
        pre.phase == Phase::Joining,
    ensures
        stepped(pre, Event::JoinFailed, u, post, a) == stepped(pre, Event::Joined, u, post, a),
{
}

/// A chat message whose token no command is bound to runs nothing: the
/// session stays as it was and waits for the next event.
pub proof fn lemma_unbound_message_ignored(pre: Session, msg: ChatMessage, u: Uptime, post: Session, a: Action)
    requires
        pre.phase == Phase::Running,
        !pre.quit_requested,
        command_token(msg.data@) is None
            || !pre.bot.commands().contains_key(command_token(msg.data@)->Some_0),
        stepped(pre, Event::Chat(msg), u, post, a),
    ensures
        post == pre,
        a is Poll,
{
}

} // verus!
