use vstd::prelude::*;
use crate::uptime::{push_uptime, uptime_text, Uptime};

verus! {

/// The built-in commands a name can be bound to.
#[derive(Clone, Copy, Debug, PartialEq, Eq, Structural)]
pub enum Command {
    /// Greets the sender in a threaded reply.
    Hello,
    /// Reports how long the bot has been running.
    BotTime,
    /// Stops the bot when the channel's broadcaster asks.
    Quit,
}

/// A chat message, with what the commands read of it.
#[derive(Debug)]
pub struct ChatMessage {
    pub channel: String,
    pub name: String,
    pub data: String,
    pub is_broadcaster: bool,
}

/// What a command asks to be done in answer to a message.
#[derive(Debug)]
pub enum Response {
    /// A threaded reply to the message.
    Reply(String),
    /// A plain message in the message's channel.
    Say(String),
    /// Signal the session to stop.
    Shutdown,
}

pub open spec fn hello_text(name: Seq<char>) -> Seq<char> {
    "hello "@ + name + "!"@
}

pub open spec fn bottime_text(u: Uptime) -> Seq<char> {
    "its been running for "@ + uptime_text(u)
}

pub open spec fn denied_text() -> Seq<char> {
    "You are not permitted to do that"@
}

/// Whether `r` is what `cmd` answers to `msg` at uptime `u`.
pub open spec fn answers(cmd: Command, msg: ChatMessage, u: Uptime, r: Response) -> bool {
    match cmd {
        Command::Hello => r is Reply && r->Reply_0@ == hello_text(msg.name@),
        Command::BotTime => r is Say && r->Say_0@ == bottime_text(u),
        Command::Quit => if msg.is_broadcaster {
            r is Shutdown
        } else {
            r is Reply && r->Reply_0@ == denied_text()
        },
    }
}

impl Command {
    /// Runs the command on `msg`.
    pub fn run(self, msg: &ChatMessage, uptime: Uptime) -> (r: Response)
        requires
            uptime.wf(),
        ensures
            answers(self, *msg, uptime, r),
    {
        match self {
            Command::Hello => {
                let mut out = String::from_str("hello ");
                out.append(msg.name.as_str());
                out.append("!");
                Response::Reply(out)
            },
            Command::BotTime => {
                let mut out = String::from_str("its been running for ");
                push_uptime(&mut out, uptime);
                Response::Say(out)
            },
            Command::Quit => {
                if msg.is_broadcaster {
                    Response::Shutdown
                } else {
                    Response::Reply(String::from_str("You are not permitted to do that"))
                }
            },
        }
    }
}

/// The index of the first space in `s` at or after `i`, or the length of `s`.
pub open spec fn first_space_from(s: Seq<char>, i: int) -> int
    decreases s.len() - i,
{
    if i >= s.len() {
        s.len() as int
    } else if s[i] == ' ' {
        i
    } else {
        first_space_from(s, i + 1)
    }
}

/// The command token of a line: when it starts with `!`, its text up to the
/// first space (or all of it); otherwise nothing.
pub open spec fn command_token(s: Seq<char>) -> Option<Seq<char>> {
    if s.len() > 0 && s[0] == '!' {
        Some(s.take(first_space_from(s, 0)))
    } else {
        None
    }
}

/// The command bound to `name` in a registration list: the last one registered.
pub open spec fn lookup_in(entries: Seq<(String, Command)>, name: Seq<char>) -> Option<Command>
    decreases entries.len(),
{
    if entries.len() == 0 {
        None
    } else if entries.last().0@ == name {
        Some(entries.last().1)
    } else {
        lookup_in(entries.drop_last(), name)
    }
}

/// Whether `r` is what `bot` answers to `msg` at uptime `u`: the command
/// bound to the message's token runs, and a message without a bound token
/// gets no answer.
pub open spec fn dispatched(bot: Bot, msg: ChatMessage, u: Uptime, r: Option<Response>) -> bool {
    match command_token(msg.data@) {
        Some(t) => if bot.commands().contains_key(t) {
            r is Some && answers(bot.commands()[t], msg, u, r->Some_0)
        } else {
            r is None
        },
        None => r is None,
    }
}

/// The command registry: each name is bound to the command registered last under it.
#[derive(Debug)]
pub struct Bot {
    commands: Vec<(String, Command)>,
}

impl Bot {
    /// The registry as a map from command name to command.
    pub closed spec fn commands(self) -> Map<Seq<char>, Command> {
        Map::new(
            |k: Seq<char>| lookup_in(self.commands@, k) is Some,
            |k: Seq<char>| lookup_in(self.commands@, k)->Some_0,
        )
    }

    /// A registry with no commands.
    pub fn new() -> (r: Bot)
        ensures
            r.commands() == Map::<Seq<char>, Command>::empty(),
    {
        let r = Bot { commands: Vec::new() };
        assert(r.commands() =~= Map::<Seq<char>, Command>::empty());
        r
    }

    /// Binds `name` to `cmd`, replacing any earlier binding of that name.
    pub fn with_command(self, name: String, cmd: Command) -> (r: Bot)
        ensures
            r.commands() == self.commands().insert(name@, cmd),
    {
        let mut commands = self.commands;
        let ghost before = commands@;
        let ghost key = name@;
        commands.push((name, cmd));
        let r = Bot { commands };
        proof {
            assert(r.commands@.drop_last() == before);
            assert forall|k: Seq<char>|
                #![trigger lookup_in(r.commands@, k)]
                k != key ==> lookup_in(r.commands@, k) == lookup_in(before, k) by {}
            assert(r.commands() =~= self.commands().insert(key, cmd));
        }
        r
    }

    /// The command bound to `name`, if any; names match exactly.
    pub fn lookup(&self, name: &str) -> (r: Option<Command>)
        ensures
            r == (if self.commands().contains_key(name@) {
                Some(self.commands()[name@])
            } else {
                None
            }),
    {
        let key = String::from_str(name);
        let mut i: usize = self.commands.len();
        assert(self.commands@.take(i as int) == self.commands@);
        while i > 0
            invariant
                i <= self.commands@.len(),
                key@ == name@,
                lookup_in(self.commands@, name@) == lookup_in(self.commands@.take(i as int), name@),
            decreases i,
        {
            assert(self.commands@.take(i as int).drop_last() == self.commands@.take(i - 1));
            if self.commands[i - 1].0 == key {
                return Some(self.commands[i - 1].1);
            }
            i = i - 1;
        }
        None
    }

    /// Runs the command bound to the token of `msg`, if there is one.
    pub fn dispatch(&self, msg: &ChatMessage, uptime: Uptime) -> (r: Option<Response>)
        requires
            uptime.wf(),
        ensures
            dispatched(*self, *msg, uptime, r),
    {
        match Bot::parse_command(msg.data.as_str()) {
            Some(token) => match self.lookup(token) {
                Some(cmd) => Some(cmd.run(msg, uptime)),
                None => None,
            },
            None => None,
        }
    }

    /// The command token of `input`: its text up to the first space, when it
    /// starts with `!`.
    pub fn parse_command(input: &str) -> (r: Option<&str>)
        ensures
            r is Some <==> command_token(input@) is Some,
            r is Some ==> r->Some_0@ == command_token(input@)->Some_0,
    {
        let n = input.unicode_len();
        if n == 0 || input.get_char(0) != '!' {
            return None;
        }
        let mut i: usize = 1;
        while i < n && input.get_char(i) != ' '
            invariant
                1 <= i <= n,
                n == input@.len(),
                first_space_from(input@, 0) == first_space_from(input@, i as int),
            decreases n - i,
        {
            i = i + 1;
        }
        Some(input.substring_char(0, i))
    }
}

impl Default for Bot {
    fn default() -> (r: Bot)
        ensures
            r.commands() == Map::<Seq<char>, Command>::empty(),
    {
        Bot::new()
    }
}

/// After a registration, looking the name up gives the command registered
/// last under it, and every other name keeps its binding.
pub proof fn lemma_lookup_after_register(before: Bot, name: Seq<char>, cmd: Command, after: Bot)
    requires
        after.commands() == before.commands().insert(name, cmd),
    ensures
        after.commands().contains_key(name),
        after.commands()[name] == cmd,
        forall|k: Seq<char>| k != name ==> (#[trigger] after.commands().contains_key(k)
            <==> before.commands().contains_key(k)),
        forall|k: Seq<char>| k != name && before.commands().contains_key(k)
            ==> #[trigger] after.commands()[k] == before.commands()[k],
{
}

/// A line that does not start with `!` has no command token.
pub proof fn lemma_no_token_without_bang(s: Seq<char>)
    requires
        !(s.len() > 0 && s[0] == '!'),
    ensures
        command_token(s) is None,
{
}

} // verus!
