use redis::cmd::echo::Echo;
use redis::cmd::info::Info;
use redis::cmd::ping::Ping;
use redis::cmd::psync::{empty_rdb_file, PSync};
use redis::cmd::replconf::ReplConf;
use redis::cmd::unknown::Unknown;
use redis::cmd::Command;
use redis::config::Config;
use redis::error::Error;
use redis::frame::Frame;

fn bulk(s: &str) -> Frame {
    Frame::Bulk(s.as_bytes().to_vec())
}

fn array(fields: &[&str]) -> Frame {
    Frame::Array(fields.iter().map(|f| bulk(f)).collect())
}

#[test]
fn psync_into_frame() {
    assert_eq!(PSync::new("?".to_string(), -1).into_frame(), array(&["psync", "?", "-1"]));
}

#[test]
fn psync_reads_back() {
    let frame = PSync::new("8371b4fb1155b71f4a04d3e1bc3e18c4a990aeeb".to_string(), 1234).into_frame();
    assert_eq!(
        Command::from_frame(frame),
        Ok(Command::PSync(PSync::new("8371b4fb1155b71f4a04d3e1bc3e18c4a990aeeb".to_string(), 1234)))
    );
}

#[test]
fn psync_needs_both_fields() {
    assert_eq!(Command::from_frame(array(&["psync", "?"])), Err(Error::UnexpectedEndOfStream));
    assert_eq!(Command::from_frame(array(&["psync", "?", "x"])), Err(Error::InvalidNumber));
    assert_eq!(Command::from_frame(array(&["psync", "?", "-1", "more"])), Err(Error::TrailingFields));
}

#[test]
fn command_names_are_read_in_any_case() {
    assert_eq!(
        Command::from_frame(array(&["PSync", "?", "-1"])),
        Ok(Command::PSync(PSync::new("?".to_string(), -1)))
    );
    assert_eq!(Command::from_frame(array(&["PING"])), Ok(Command::Ping(Ping::new(None))));
}

#[test]
fn ping_reads_back() {
    assert_eq!(Ping::new(None).into_frame(), array(&["ping"]));
    assert_eq!(Command::from_frame(Ping::new(None).into_frame()), Ok(Command::Ping(Ping::new(None))));
    let p = Ping::new(Some(b"hi".to_vec()));
    assert_eq!(p.into_frame(), array(&["ping", "hi"]));
    assert_eq!(
        Command::from_frame(Ping::new(Some(b"hi".to_vec())).into_frame()),
        Ok(Command::Ping(Ping::new(Some(b"hi".to_vec()))))
    );
}

#[test]
fn echo_reads_back() {
    assert_eq!(Echo::new(b"hey".to_vec()).into_frame(), array(&["echo", "hey"]));
    assert_eq!(
        Command::from_frame(Echo::new(b"hey".to_vec()).into_frame()),
        Ok(Command::Echo(Echo::new(b"hey".to_vec())))
    );
    assert_eq!(Command::from_frame(array(&["echo"])), Ok(Command::Echo(Echo::new(vec![]))));
    assert_eq!(Command::from_frame(array(&["echo", "a", "b"])), Err(Error::TrailingFields));
}

#[test]
fn info_reads_back() {
    let sections = vec![b"replication".to_vec(), b"server".to_vec()];
    assert_eq!(Info::new(Some(sections.clone())).into_frame(), array(&["info", "replication", "server"]));
    assert_eq!(
        Command::from_frame(Info::new(Some(sections.clone())).into_frame()),
        Ok(Command::Info(Info::new(Some(sections))))
    );
    assert_eq!(Info::new(None).into_frame(), array(&["info"]));
    assert_eq!(Command::from_frame(array(&["info"])), Ok(Command::Info(Info::new(Some(vec![])))));
    assert_eq!(
        Command::from_frame(Frame::Array(vec![bulk("info"), Frame::Integer(1)])),
        Err(Error::NotAString(Frame::Integer(1)))
    );
}

#[test]
fn replconf_reads_back() {
    let pairs = vec![
        ("listening-port".to_string(), b"6380".to_vec()),
        ("capa".to_string(), b"psync2".to_vec()),
    ];
    assert_eq!(
        ReplConf::new(pairs.clone()).into_frame(),
        array(&["replconf", "listening-port", "6380", "capa", "psync2"])
    );
    assert_eq!(
        Command::from_frame(ReplConf::new(pairs.clone()).into_frame()),
        Ok(Command::ReplConf(ReplConf::new(pairs)))
    );
}

#[test]
fn replconf_drops_a_key_without_value() {
    assert_eq!(
        Command::from_frame(array(&["replconf", "capa", "eof", "dangling"])),
        Ok(Command::ReplConf(ReplConf::new(vec![("capa".to_string(), b"eof".to_vec())])))
    );
    assert_eq!(
        Command::from_frame(Frame::Array(vec![bulk("replconf"), Frame::Null])),
        Err(Error::NotAString(Frame::Null))
    );
    assert_eq!(
        Command::from_frame(Frame::Array(vec![bulk("replconf"), bulk("k"), Frame::Integer(1)])),
        Err(Error::NotAString(Frame::Integer(1)))
    );
}

#[test]
fn unknown_command_keeps_its_lowercase_name_and_ignores_fields() {
    let cmd = Command::from_frame(array(&["FOO", "bar"])).unwrap();
    assert_eq!(cmd, Command::Unknown(Unknown::new("foo".to_string())));
    assert_eq!(cmd.get_name(), "foo");
}

#[test]
fn from_frame_refuses_malformed_frames() {
    assert_eq!(Command::from_frame(bulk("ping")), Err(Error::NotAnArray(bulk("ping"))));
    assert_eq!(Command::from_frame(Frame::Array(vec![])), Err(Error::UnexpectedEndOfStream));
    assert_eq!(
        Command::from_frame(Frame::Array(vec![Frame::Integer(1)])),
        Err(Error::NotAString(Frame::Integer(1)))
    );
    assert_eq!(
        Command::from_frame(Frame::Array(vec![Frame::Bulk(vec![0xc3])])),
        Err(Error::InvalidString)
    );
}

#[test]
fn command_names() {
    assert_eq!(Command::Ping(Ping::new(None)).get_name(), "ping");
    assert_eq!(Command::Echo(Echo::new(vec![])).get_name(), "echo");
    assert_eq!(Command::Info(Info::new(None)).get_name(), "info");
    assert_eq!(Command::ReplConf(ReplConf::new(vec![])).get_name(), "replconf");
    assert_eq!(Command::PSync(PSync::new("?".to_string(), -1)).get_name(), "psync");
    assert_eq!(Unknown::new("xyz".to_string()).get_name(), "xyz");
}

#[test]
fn ping_replies() {
    assert_eq!(Ping::new(None).apply(), Frame::Simple("PONG".to_string()));
    assert_eq!(Ping::new(Some(b"yo".to_vec())).apply(), bulk("yo"));
}

#[test]
fn echo_replies_with_the_message() {
    assert_eq!(Echo::new(b"hey".to_vec()).apply(), bulk("hey"));
    assert_eq!(Echo::default().apply(), bulk(""));
}

#[test]
fn info_replies_for_one_known_section() {
    let c = Config::new(Some(6390), true);
    assert!(Info::new(Some(vec![b"server".to_vec()])).answers(&c));
    assert_eq!(
        Info::new(Some(vec![b"server".to_vec()])).apply(&c),
        Frame::Bulk(b"# Server\ntcp_port:6390\n".to_vec())
    );
    assert_eq!(
        Info::new(Some(vec![b"SERVER".to_vec()])).try_apply(&c),
        Some(Frame::Bulk(b"# Server\ntcp_port:6390\n".to_vec()))
    );
    assert_eq!(
        Info::new(Some(vec![b"Replication".to_vec()])).apply(&c),
        Frame::Bulk(c.replication().into_bytes())
    );
    assert_eq!(Info::reply_for_section("server", &c), Frame::Bulk(c.server().into_bytes()));
}

#[test]
fn info_has_no_reply_otherwise() {
    let c = Config::new(None, false);
    assert_eq!(Info::new(None).try_apply(&c), None);
    assert_eq!(Info::default().try_apply(&c), None);
    assert_eq!(Info::new(Some(vec![])).try_apply(&c), None);
    assert_eq!(Info::new(Some(vec![b"server".to_vec(), b"server".to_vec()])).try_apply(&c), None);
    assert_eq!(Info::new(Some(vec![b"clients".to_vec()])).try_apply(&c), None);
    assert_eq!(Info::new(Some(vec![vec![0xff]])).try_apply(&c), None);
    assert!(!Info::new(Some(vec![b"clients".to_vec()])).answers(&c));
}

#[test]
fn replconf_replies_ok() {
    assert_eq!(ReplConf::new(vec![]).apply(), Frame::Simple("OK".to_string()));
}

#[test]
fn unknown_replies_with_an_error() {
    assert_eq!(
        Unknown::new("foo".to_string()).apply(),
        Frame::Error("ERR unknown command 'foo'".to_string())
    );
}

#[test]
fn psync_replies_fullresync_and_an_empty_rdb() {
    let mut c = Config::new(None, false);
    let (replid, _) = c.master_replid_and_offset();
    let replies = PSync::new("?".to_string(), -1).apply(&mut c);
    assert_eq!(replies.len(), 2);
    assert_eq!(replies[0], Frame::Simple(format!("FULLRESYNC {} 0", replid)));
    assert_eq!(replies[1], Frame::File(empty_rdb_file()));
    let rdb = empty_rdb_file();
    assert_eq!(rdb.len(), 88);
    assert_eq!(&rdb[..9], b"REDIS0011");
}

#[test]
fn first_psync_resets_the_second_offset() {
    let mut c = Config::new(None, false);
    c.set_second_repl_offset(5);
    PSync::new("abc".to_string(), -1).apply(&mut c);
    assert!(c.replication().contains("\nsecond_repl_offset:5\n"));
    PSync::new("?".to_string(), 3).apply(&mut c);
    assert!(c.replication().contains("\nsecond_repl_offset:5\n"));
    PSync::new("?".to_string(), -1).apply(&mut c);
    assert!(c.replication().contains("\nsecond_repl_offset:0\n"));
}

#[test]
fn command_apply() {
    let mut c = Config::new(None, false);
    assert_eq!(Command::Ping(Ping::new(None)).apply(&mut c), vec![Frame::Simple("PONG".to_string())]);
    assert_eq!(Command::Echo(Echo::new(b"x".to_vec())).apply(&mut c), vec![bulk("x")]);
    let mut replica = Config::new(None, true);
    assert_eq!(Command::Echo(Echo::new(b"x".to_vec())).apply(&mut replica), vec![bulk("x")]);
    assert!(!Command::Info(Info::new(Some(vec![b"nope".to_vec()]))).answers(&c));
    assert_eq!(Command::Info(Info::new(Some(vec![b"nope".to_vec()]))).try_apply(&mut c), None);
    assert_eq!(
        Command::Info(Info::new(Some(vec![b"server".to_vec()]))).try_apply(&mut c),
        Some(vec![Frame::Bulk(c.server().into_bytes())])
    );
    assert_eq!(Command::ReplConf(ReplConf::new(vec![])).apply(&mut c), vec![Frame::Simple("OK".to_string())]);
    let replies = Command::PSync(PSync::new("?".to_string(), -1)).apply(&mut c);
    assert_eq!(replies.len(), 2);
    assert_eq!(
        Command::Unknown(Unknown::new("zz".to_string())).apply(&mut c),
        vec![Frame::Error("ERR unknown command 'zz'".to_string())]
    );
}

#[test]
fn commands_this_library_does_not_implement_are_refused() {
    for name in ["GET", "set", "Publish", "subscribe", "UNSUBSCRIBE"] {
        assert_eq!(
            Command::from_frame(array(&[name, "x"])),
            Err(Error::UnsupportedCommand(name.to_lowercase()))
        );
    }
}

#[test]
fn defaults() {
    assert_eq!(Ping::default(), Ping::new(None));
    assert_eq!(Echo::default(), Echo::new(vec![]));
    assert_eq!(Info::default(), Info::new(None));
    assert_eq!(PSync::default(), PSync::new(String::new(), 0));
    assert_eq!(ReplConf::default().into_frame(), array(&["replconf"]));
    assert_eq!(Info::default().into_frame(), array(&["info"]));
    assert_eq!(PSync::default().into_frame(), array(&["psync", "", "0"]));
}
