//! The commands the server understands.

pub mod echo;
pub mod info;
pub mod ping;
pub mod psync;
pub mod replconf;
pub mod unknown;

use vstd::prelude::*;

use crate::config::{Config, ConfigState, ReplicationState};
use crate::error::{Error, SpecError, command_error, result_view};
use crate::frame::{Frame, SpecFrame, bulk_text, frames_view, lemma_frames_view_ext};
use crate::parse::{Parse, bytes_field, int_field, read_string, string_field};
use crate::text::{lowercase, str_eq, str_to_lowercase};
use echo::{Echo, echo_frame, echo_reply, lemma_echo_roundtrip, read_echo};
use info::{Info, info_frame, info_reply, lemma_info_roundtrip, read_info};
use ping::{Ping, lemma_ping_roundtrip, ping_frame, ping_reply, read_ping};
use psync::{PSync, empty_rdb, fullresync_text, is_first_sync, lemma_psync_roundtrip, psync_frame, read_psync};
use replconf::{ReplConf, lemma_replconf_roundtrip, read_replconf, replconf_frame};
use unknown::{Unknown, unknown_reply};

verus! {

/// A command the server understands.
#[derive(Debug, PartialEq, Eq)]
pub enum Command {
    Ping(Ping),
    Echo(Echo),
    Info(Info),
    ReplConf(ReplConf),
    PSync(PSync),
    Unknown(Unknown),
}

/// The value of a command.
pub enum SpecCommand {
    Ping(Option<Seq<u8>>),
    Echo(Seq<u8>),
    Info(Option<Seq<Seq<u8>>>),
    ReplConf(Option<Seq<(Seq<char>, Seq<u8>)>>),
    PSync((Seq<char>, i64)),
    Unknown(Seq<char>),
}

impl View for Command {
    type V = SpecCommand;

    open spec fn view(&self) -> SpecCommand {
        match self {
            Command::Ping(c) => SpecCommand::Ping(c@),
            Command::Echo(c) => SpecCommand::Echo(c@),
            Command::Info(c) => SpecCommand::Info(c@),
            Command::ReplConf(c) => SpecCommand::ReplConf(c@),
            Command::PSync(c) => SpecCommand::PSync(c@),
            Command::Unknown(c) => SpecCommand::Unknown(c@),
        }
    }
}

/// The result of reading a command's fields, where no field may be left over.
pub open spec fn complete<T>(r: (Result<T, SpecError>, Seq<SpecFrame>)) -> Result<T, SpecError> {
    match r.0 {
        Err(e) => Err(e),
        Ok(v) => if r.1.len() == 0 {
            Ok(v)
        } else {
            Err(SpecError::TrailingFields)
        },
    }
}

/// Whether a (lowercase) name is that of a command of the protocol that this
/// library does not implement: `GET`, `SET`, `PUBLISH`, `SUBSCRIBE` and
/// `UNSUBSCRIBE`. Such a name is refused with `UnsupportedCommand`; it is not
/// read as an unknown command.
pub open spec fn is_unsupported_name(name: Seq<char>) -> bool {
    ||| name == "get"@
    ||| name == "set"@
    ||| name == "publish"@
    ||| name == "subscribe"@
    ||| name == "unsubscribe"@
}

/// The command that the fields after a (lowercase) command name make.
/// A command this library does not implement is refused; any other name the
/// server does not know makes an unknown command, whatever follows it.
pub open spec fn named_command(name: Seq<char>, fields: Seq<SpecFrame>) -> Result<SpecCommand, SpecError> {
    if name == "ping"@ {
        match complete(read_ping(fields)) {
            Ok(v) => Ok(SpecCommand::Ping(v)),
            Err(e) => Err(e),
        }
    } else if name == "echo"@ {
        match complete(read_echo(fields)) {
            Ok(v) => Ok(SpecCommand::Echo(v)),
            Err(e) => Err(e),
        }
    } else if name == "info"@ {
        match complete(read_info(fields)) {
            Ok(v) => Ok(SpecCommand::Info(v)),
            Err(e) => Err(e),
        }
    } else if name == "replconf"@ {
        match complete(read_replconf(fields)) {
            Ok(v) => Ok(SpecCommand::ReplConf(v)),
            Err(e) => Err(e),
        }
    } else if name == "psync"@ {
        match complete(read_psync(fields)) {
            Ok(v) => Ok(SpecCommand::PSync(v)),
            Err(e) => Err(e),
        }
    } else if is_unsupported_name(name) {
        Err(SpecError::UnsupportedCommand(name))
    } else {
        Ok(SpecCommand::Unknown(name))
    }
}

/// The command a frame makes: an array whose first field is the command's
/// name, in any case.
pub open spec fn command_of(frame: SpecFrame) -> Result<SpecCommand, SpecError> {
    match frame {
        SpecFrame::Array(parts) => match read_string(parts) {
            Err(e) => Err(command_error(e)),
            Ok(name) => named_command(lowercase(name), parts.drop_first()),
        },
        _ => Err(SpecError::NotAnArray(frame)),
    }
}

/// The frames a server writes in reply to a command, in order; `None` where
/// it has no reply to give. For each command these are the replies its own
/// `apply` gives.
pub open spec fn command_replies(c: SpecCommand, config: ConfigState) -> Option<Seq<SpecFrame>> {
    match c {
        SpecCommand::Ping(m) => Some(seq![ping_reply(m)]),
        SpecCommand::Echo(m) => Some(seq![echo_reply(m)]),
        SpecCommand::Info(s) => match info_reply(s, config) {
            Some(f) => Some(seq![f]),
            None => None,
        },
        SpecCommand::ReplConf(_) => Some(seq![SpecFrame::Simple("OK"@)]),
        SpecCommand::PSync(_) => Some(
            seq![
                SpecFrame::Simple(
                    fullresync_text(config.replication.master_replid, config.replication.master_repl_offset),
                ),
                SpecFrame::File(empty_rdb()),
            ],
        ),
        SpecCommand::Unknown(name) => Some(seq![unknown_reply(name)]),
    }
}

/// The configuration after a command: a first `PSYNC` resets the second
/// replication offset; nothing else changes it.
pub open spec fn command_config(c: SpecCommand, config: ConfigState) -> ConfigState {
    match c {
        SpecCommand::PSync(p) => if is_first_sync(p) {
            ConfigState {
                replication: ReplicationState { second_repl_offset: 0, ..config.replication },
                ..config
            }
        } else {
            config
        },
        _ => config,
    }
}

/// The name of a command.
pub open spec fn command_name(c: SpecCommand) -> Seq<char> {
    match c {
        SpecCommand::Ping(_) => "ping"@,
        SpecCommand::Echo(_) => "echo"@,
        SpecCommand::Info(_) => "info"@,
        SpecCommand::ReplConf(_) => "replconf"@,
        SpecCommand::PSync(_) => "psync"@,
        SpecCommand::Unknown(name) => name,
    }
}

fn finish_command(parse: &mut Parse, command: Command) -> (r: Result<Command, Error>)
    ensures
        old(parse)@.len() == 0 ==> r == Ok::<Command, Error>(command),
        old(parse)@.len() != 0 ==> r matches Err(Error::TrailingFields),
{
    match parse.finish() {
        Ok(()) => Ok(command),
        Err(e) => Err(e.into_error()),
    }
}

impl Command {
    /// Reads a command from a frame: an array of a command name, in any
    /// case, and the command's fields. A name the server does not know gives
    /// an unknown command.
    pub fn from_frame(frame: Frame) -> (r: Result<Command, Error>)
        ensures
            result_view(r) == command_of(frame@),
    {
        let mut parse = match Parse::new(frame) {
            Ok(p) => p,
            Err(e) => return Err(e.into_error()),
        };
        let name = match parse.next_string() {
            Ok(s) => s,
            Err(e) => return Err(e.into_error()),
        };
        let command_name = str_to_lowercase(name.as_str());
        Command::from_name(command_name, parse)
    }

    /// Reads the command of the given (lowercase) name from the fields of
    /// `parse`; the fields must all be read.
    pub fn from_name(command_name: String, parse: Parse) -> (r: Result<Command, Error>)
        ensures
            result_view(r) == named_command(command_name@, parse@),
    {
        let mut parse = parse;
        let name = command_name.as_str();
        if str_eq(name, "ping") {
            match Ping::parse_frames(&mut parse) {
                Ok(c) => finish_command(&mut parse, Command::Ping(c)),
                Err(e) => Err(e),
            }
        } else if str_eq(name, "echo") {
            match Echo::parse_frames(&mut parse) {
                Ok(c) => finish_command(&mut parse, Command::Echo(c)),
                Err(e) => Err(e),
            }
        } else if str_eq(name, "info") {
            match Info::parse_frames(&mut parse) {
                Ok(c) => finish_command(&mut parse, Command::Info(c)),
                Err(e) => Err(e),
            }
        } else if str_eq(name, "replconf") {
            match ReplConf::parse_frames(&mut parse) {
                Ok(c) => finish_command(&mut parse, Command::ReplConf(c)),
                Err(e) => Err(e),
            }
        } else if str_eq(name, "psync") {
            match PSync::parse_frames(&mut parse) {
                Ok(c) => finish_command(&mut parse, Command::PSync(c)),
                Err(e) => Err(e),
            }
        } else if str_eq(name, "get") || str_eq(name, "set") || str_eq(name, "publish")
            || str_eq(name, "subscribe") || str_eq(name, "unsubscribe") {
            Err(Error::UnsupportedCommand(command_name))
        } else {
            Ok(Command::Unknown(Unknown::new(command_name)))
        }
    }

    /// Whether the server has a reply to give to this command (every
    /// command but an `INFO` that [`Info::answers`] refuses).
    pub fn answers(&self, config: &Config) -> (b: bool)
        ensures
            b == command_replies(self@, config@) is Some,
    {
        match self {
            Command::Info(cmd) => cmd.answers(config),
            _ => true,
        }
    }

    /// Applies a command the server answers (see [`Command::answers`]): the
    /// frames to write in reply, in order, and the change to the
    /// configuration. Each command acts as its own `apply`.
    pub fn apply(self, config: &mut Config) -> (replies: Vec<Frame>)
        requires
            command_replies(self@, old(config)@) is Some,
        ensures
            final(config)@ == command_config(self@, old(config)@),
            command_replies(self@, old(config)@) == Some(frames_view(replies@)),
    {
        let mut replies: Vec<Frame> = Vec::new();
        match self {
            Command::Ping(cmd) => {
                replies.push(cmd.apply());
            },
            Command::Echo(cmd) => {
                replies.push(cmd.apply());
            },
            Command::Info(cmd) => {
                replies.push(cmd.apply(config));
            },
            Command::ReplConf(cmd) => {
                replies.push(cmd.apply());
            },
            Command::PSync(cmd) => {
                replies = cmd.apply(config);
            },
            Command::Unknown(cmd) => {
                replies.push(cmd.apply());
            },
        }
        proof {
            if replies@.len() == 1 {
                lemma_frames_view_ext(replies@, seq![replies@[0]@]);
            }
        }
        replies
    }

    /// Applies the command where the server answers it, as
    /// [`Command::apply`]; `None`, with the configuration unchanged, where
    /// it has no reply to give.
    pub fn try_apply(self, config: &mut Config) -> (replies: Option<Vec<Frame>>)
        ensures
            match replies {
                Some(v) => final(config)@ == command_config(self@, old(config)@)
                    && command_replies(self@, old(config)@) == Some(frames_view(v@)),
                None => command_replies(self@, old(config)@) is None && final(config)@ == old(config)@,
            },
    {
        if self.answers(config) {
            Some(self.apply(config))
        } else {
            None
        }
    }

    /// The command's name.
    pub fn get_name(&self) -> (name: &str)
        ensures
            name@ == command_name(self@),
    {
        match self {
            Command::Ping(_) => "ping",
            Command::Echo(_) => "echo",
            Command::Info(_) => "info",
            Command::ReplConf(_) => "replconf",
            Command::PSync(_) => "psync",
            Command::Unknown(cmd) => cmd.get_name(),
        }
    }
}

/// The frame a client sends for a command (an unknown command is never sent).
pub open spec fn command_frame(c: SpecCommand) -> SpecFrame {
    match c {
        SpecCommand::Ping(m) => ping_frame(m),
        SpecCommand::Echo(m) => echo_frame(m),
        SpecCommand::Info(s) => info_frame(s),
        SpecCommand::ReplConf(p) => replconf_frame(p),
        SpecCommand::PSync(p) => psync_frame(p),
        SpecCommand::Unknown(_) => SpecFrame::Null,
    }
}

/// Whether a client sends a command in a form that reads back as itself: a
/// known command, and for `INFO` and `REPLCONF` one that keeps a list
/// (without one, the frame reads back with an empty list).
pub open spec fn sent_as_is(c: SpecCommand) -> bool {
    match c {
        SpecCommand::Unknown(_) => false,
        SpecCommand::Info(s) => s is Some,
        SpecCommand::ReplConf(p) => p is Some,
        _ => true,
    }
}

/// What a client sends for a command the server reads back as the same
/// command: the frame is an array whose first field is the command's name,
/// and the fields after it make, under that name, the command that was sent.
pub proof fn lemma_command_roundtrip(c: SpecCommand)
    requires
        sent_as_is(c),
    ensures
        command_frame(c) is Array,
        command_frame(c)->Array_0.len() >= 1,
        command_frame(c)->Array_0[0] == bulk_text(command_name(c)),
        named_command(command_name(c), command_frame(c)->Array_0.drop_first()) == Ok::<_, SpecError>(c),
{
    reveal_strlit("ping");
    reveal_strlit("echo");
    reveal_strlit("info");
    reveal_strlit("replconf");
    reveal_strlit("psync");
    match c {
        SpecCommand::Ping(m) => {
            lemma_ping_roundtrip(m);
        },
        SpecCommand::Echo(m) => {
            lemma_echo_roundtrip(m);
        },
        SpecCommand::Info(s) => {
            lemma_info_roundtrip(s->Some_0);
        },
        SpecCommand::ReplConf(p) => {
            lemma_replconf_roundtrip(p->Some_0);
        },
        SpecCommand::PSync(p) => {
            lemma_psync_roundtrip(p);
        },
        SpecCommand::Unknown(_) => {},
    }
}

/// A name the server does not know, and that is not one of the commands
/// this library does not implement, makes an unknown command of that name,
/// whatever fields follow it; they are not read.
pub proof fn lemma_unknown_command(name: Seq<char>, fields: Seq<SpecFrame>)
    requires
        !is_unsupported_name(name),
        name != "ping"@,
        name != "echo"@,
        name != "info"@,
        name != "replconf"@,
        name != "psync"@,
    ensures
        named_command(name, fields) == Ok::<_, SpecError>(SpecCommand::Unknown(name)),
{
}

/// An `ECHO` is answered with exactly its message, in a bulk frame, whatever
/// the configuration, which it leaves unchanged.
pub proof fn lemma_echo_answers_message(msg: Seq<u8>, config: ConfigState)
    ensures
        command_replies(SpecCommand::Echo(msg), config) == Some(seq![SpecFrame::Bulk(msg)]),
        command_config(SpecCommand::Echo(msg), config) == config,
{
}

/// A known command is read only when its fields are all used: `PING` and
/// `ECHO` take at most one field, `PSYNC` exactly two, and `INFO` and
/// `REPLCONF` read to the end. A `PING` or an `ECHO` with a message and more
/// after it, or a `PSYNC` with more than two good fields, is refused with
/// `TrailingFields`.
pub proof fn lemma_fields_consumed(name: Seq<char>, fields: Seq<SpecFrame>)
    ensures
        name == "ping"@ && named_command(name, fields) is Ok ==> fields.len() <= 1,
        name == "echo"@ && named_command(name, fields) is Ok ==> fields.len() <= 1,
        name == "psync"@ && named_command(name, fields) is Ok ==> fields.len() == 2,
        name == "info"@ && named_command(name, fields) is Ok ==> read_info(fields).1.len() == 0,
        name == "replconf"@ && named_command(name, fields) is Ok ==> read_replconf(fields).1.len() == 0,
        (name == "ping"@ || name == "echo"@) && fields.len() >= 2 && bytes_field(fields[0]) is Ok
            ==> named_command(name, fields) == Err::<SpecCommand, _>(SpecError::TrailingFields),
        name == "psync"@ && fields.len() >= 3 && string_field(fields[0]) is Ok && int_field(fields[1]) is Ok
            ==> named_command(name, fields) == Err::<SpecCommand, _>(SpecError::TrailingFields),
{
    reveal_strlit("ping");
    reveal_strlit("echo");
    reveal_strlit("info");
    reveal_strlit("replconf");
    reveal_strlit("psync");
    assert("replconf"@.len() == 8 && "psync"@.len() == 5 && "ping"@.len() == 4);
    assert("info"@[0] != "ping"@[0] && "info"@[0] != "echo"@[0] && "echo"@[0] != "ping"@[0]);
    assert("info"@ != "ping"@ && "info"@ != "echo"@ && "echo"@ != "ping"@);
    assert("replconf"@ != "ping"@ && "replconf"@ != "echo"@ && "replconf"@ != "info"@);
    assert("psync"@ != "ping"@ && "psync"@ != "echo"@ && "psync"@ != "info"@ && "psync"@ != "replconf"@);
    if fields.len() >= 1 {
        assert(fields.drop_first().len() == fields.len() - 1);
    }
    if name == "psync"@ && named_command(name, fields) is Ok {
        assert(complete(read_psync(fields)) is Ok);
        assert(read_psync(fields).0 is Ok);
        assert(fields.len() >= 2);
    }
    if fields.len() >= 2 {
        assert(fields.drop_first().drop_first().len() == fields.len() - 2);
        assert(fields.drop_first()[0] == fields[1]);
    }
}

} // verus!
